use agentforge::llm::Message;
use agentforge::utils::{build_extended_message, extend_ai_function};

fn convert_user_input_to_goal(_user_request: &str) -> &'static str {
    "Takes in a user request and outputs an improved project description for a website build."
}

#[test]
fn tests_extending_ai_function() {
    let extended_message: Message = extend_ai_function(convert_user_input_to_goal, "dummy variable");
    assert_eq!(extended_message.role, "system".to_string());
}

#[test]
fn extended_message_wraps_template_and_input() {
    let msg = build_extended_message("print_it", "some input");
    assert_eq!(msg.role, "system");
    let expected = "FUNCTION print_it\n    INSTRUCTION: You are a function printer. \
        You ONLY print the results of functions.\n    Nothing else. No commentary. \
        Here is the input for the function: some input.\n    Print out what the function will return.";
    assert_eq!(msg.content, expected);
}

#[test]
fn extended_message_carries_applied_template() {
    let msg = extend_ai_function(convert_user_input_to_goal, "build me a website");
    assert!(msg.content.starts_with("FUNCTION Takes in a user request"));
    assert!(msg.content.contains("build me a website"));
}
