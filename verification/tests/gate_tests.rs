use agentforge::command_line::{interpret_confirmation, PrintCommand};

#[test]
fn gate_accepts_each_confirming_answer() {
    assert_eq!(interpret_confirmation("1"), Some(true));
    assert_eq!(interpret_confirmation("ok"), Some(true));
    assert_eq!(interpret_confirmation("y"), Some(true));
    assert_eq!(interpret_confirmation("yes"), Some(true));
}

#[test]
fn gate_is_case_insensitive() {
    assert_eq!(interpret_confirmation("YES"), Some(true));
    assert_eq!(interpret_confirmation("Ok"), Some(true));
    assert_eq!(interpret_confirmation("Y"), Some(true));
    assert_eq!(interpret_confirmation("ABORT"), Some(false));
    assert_eq!(interpret_confirmation("No"), Some(false));
}

#[test]
fn gate_rejects_each_declining_answer() {
    assert_eq!(interpret_confirmation("2"), Some(false));
    assert_eq!(interpret_confirmation("no"), Some(false));
    assert_eq!(interpret_confirmation("n"), Some(false));
    assert_eq!(interpret_confirmation("abort"), Some(false));
}

#[test]
fn gate_reprompts_on_anything_else() {
    assert_eq!(interpret_confirmation("maybe"), None);
    assert_eq!(interpret_confirmation(""), None);
    assert_eq!(interpret_confirmation("yess"), None);
    assert_eq!(interpret_confirmation("0"), None);
}

#[test]
fn narration_categories_are_distinct() {
    assert_ne!(PrintCommand::AICall, PrintCommand::UnitTest);
    assert_ne!(PrintCommand::UnitTest, PrintCommand::Issue);
}
