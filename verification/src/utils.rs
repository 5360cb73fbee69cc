//! The generative-call wrapper's message construction: a prompt template's
//! text is extended into an instruction that demands only the named
//! function's output, nothing else.

use vstd::prelude::*;
use vstd::string::StringExecFns;
use vstd::string::StrSliceExecFns;
use crate::llm::Message;

verus! {

/// The instruction text wrapped around a template's text and its input.
pub open spec fn extended_prompt(func_text: Seq<char>, arguments: Seq<char>) -> Seq<char> {
    "FUNCTION "@ + func_text
        + "\n    INSTRUCTION: You are a function printer. You ONLY print the results of functions.\n    Nothing else. No commentary. Here is the input for the function: "@
        + arguments + ".\n    Print out what the function will return."@
}

/// Build the system message that carries the extended instruction for a
/// template whose text is already applied.
pub fn build_extended_message(func_text: &str, arguments: &str) -> (msg: Message)
    ensures
        msg.role@ == "system"@,
        msg.content@ == extended_prompt(func_text@, arguments@),
{
    let mut content = String::from_str("FUNCTION ");
    content.append(func_text);
    content.append(
        "\n    INSTRUCTION: You are a function printer. You ONLY print the results of functions.\n    Nothing else. No commentary. Here is the input for the function: ",
    );
    content.append(arguments);
    content.append(".\n    Print out what the function will return.");
    let role = String::from_str("system");
    proof {
        assert(content@ =~= extended_prompt(func_text@, arguments@));
    }
    Message { role, content }
}

/// Apply a prompt template to its input and wrap the result into the
/// instruction message handed to the text-generation service.
pub fn extend_ai_function<F: Fn(&str) -> &'static str>(ai_func: F, arguments: &str) -> (msg:
    Message)
    requires
        call_requires(ai_func, (arguments,)),
    ensures
        msg.role@ == "system"@,
        exists|t: &'static str|
            call_ensures(ai_func, (arguments,), t) && msg.content@ == extended_prompt(
                t@,
                arguments@,
            ),
{
    let func_text = ai_func(arguments);
    build_extended_message(func_text, arguments)
}

} // verus!
