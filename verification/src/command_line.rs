//! Progress-narration categories and the human confirmation gate's
//! decision rule.
//!
//! Printing itself is I/O and lives with the driver; what an operator's
//! answer means is decided here.

use vstd::prelude::*;
use vstd::string::StrSliceExecFns;

verus! {

/// The category of a narrated progress line; each category is shown in its
/// own colour by the driver.
#[derive(PartialEq, Eq, Structural, Debug, Clone, Copy)]
pub enum PrintCommand {
    AICall,
    UnitTest,
    Issue,
}

/// One character mapped to ASCII lower case; the accepted keywords are
/// ASCII, so an answer matches one case-insensitively exactly when its
/// lowered form is the keyword.
pub open spec fn lower_char(c: char) -> char {
    if 65 <= c as u32 && c as u32 <= 90 {
        ((c as u8) + 32) as char
    } else {
        c
    }
}

/// A text with every character ASCII-lowered.
pub open spec fn lowered(s: Seq<char>) -> Seq<char> {
    s.map_values(|c: char| lower_char(c))
}

/// The answers that let the run proceed.
pub open spec fn gate_accepts(s: Seq<char>) -> bool {
    lowered(s) == "1"@ || lowered(s) == "ok"@ || lowered(s) == "y"@ || lowered(s) == "yes"@
}

/// The answers that abort the run.
pub open spec fn gate_rejects(s: Seq<char>) -> bool {
    lowered(s) == "2"@ || lowered(s) == "no"@ || lowered(s) == "n"@ || lowered(s) == "abort"@
}

fn lower_char_exec(c: char) -> (r: char)
    ensures
        r == lower_char(c),
{
    let u = c as u32;
    if 65 <= u && u <= 90 {
        ((c as u8) + 32) as char
    } else {
        c
    }
}

/// Whether the answer, case-insensitively, is exactly this (lower-case)
/// keyword.
fn ci_matches(answer: &str, keyword: &str) -> (r: bool)
    ensures
        r == (lowered(answer@) == keyword@),
{
    let n = answer.unicode_len();
    if n != keyword.unicode_len() {
        proof {
            assert(lowered(answer@).len() == answer@.len());
        }
        return false;
    }
    let mut i: usize = 0;
    while i < n
        invariant
            i <= n,
            n == answer@.len(),
            n == keyword@.len(),
            lowered(answer@).len() == n,
            forall|j: int| 0 <= j < i ==> lowered(answer@)[j] == keyword@[j],
        decreases n - i,
    {
        let c = lower_char_exec(answer.get_char(i));
        if c != keyword.get_char(i) {
            proof {
                assert(lowered(answer@)[i as int] != keyword@[i as int]);
            }
            return false;
        }
        i += 1;
    }
    proof {
        assert(lowered(answer@) =~= keyword@);
    }
    true
}

/// The confirmation gate's decision: `Some(true)` to proceed, `Some(false)`
/// to abort, `None` when the answer is not recognised and the operator must
/// be asked again.
pub fn interpret_confirmation(response: &str) -> (r: Option<bool>)
    ensures
        r == Some(true) <==> gate_accepts(response@),
        r == Some(false) <==> gate_rejects(response@),
        r is None <==> !gate_accepts(response@) && !gate_rejects(response@),
{
    proof {
        reveal_strlit("1");
        reveal_strlit("ok");
        reveal_strlit("y");
        reveal_strlit("yes");
        reveal_strlit("2");
        reveal_strlit("no");
        reveal_strlit("n");
        reveal_strlit("abort");
        assert("1"@ != "2"@ && "1"@ != "no"@ && "1"@ != "n"@ && "1"@ != "abort"@) by {
            assert("1"@[0] == '1' && "2"@[0] == '2' && "n"@[0] == 'n');
            assert("no"@.len() == 2 && "abort"@.len() == 5 && "1"@.len() == 1);
        }
        assert("ok"@ != "2"@ && "ok"@ != "no"@ && "ok"@ != "n"@ && "ok"@ != "abort"@) by {
            assert("ok"@[0] == 'o' && "no"@[0] == 'n');
            assert("ok"@.len() == 2 && "2"@.len() == 1 && "n"@.len() == 1 && "abort"@.len() == 5);
        }
        assert("y"@ != "2"@ && "y"@ != "no"@ && "y"@ != "n"@ && "y"@ != "abort"@) by {
            assert("y"@[0] == 'y' && "2"@[0] == '2' && "n"@[0] == 'n');
            assert("no"@.len() == 2 && "abort"@.len() == 5 && "y"@.len() == 1);
        }
        assert("yes"@ != "2"@ && "yes"@ != "no"@ && "yes"@ != "n"@ && "yes"@ != "abort"@) by {
            assert("yes"@.len() == 3 && "2"@.len() == 1 && "no"@.len() == 2 && "n"@.len() == 1
                && "abort"@.len() == 5);
        }
    }
    if ci_matches(response, "1") || ci_matches(response, "ok") || ci_matches(response, "y")
        || ci_matches(response, "yes") {
        Some(true)
    } else if ci_matches(response, "2") || ci_matches(response, "no") || ci_matches(response, "n")
        || ci_matches(response, "abort") {
        Some(false)
    } else {
        None
    }
}

} // verus!
