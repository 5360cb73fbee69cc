//! The message shape exchanged with the external text-generation service:
//! an ordered list of role/content pairs.

use vstd::prelude::*;

verus! {

/// One chat message handed to the text-generation service.
#[derive(Debug)]
pub struct Message {
    pub role: String,
    pub content: String,
}

impl Clone for Message {
    fn clone(&self) -> (r: Self)
        ensures
            r.role@ == self.role@,
            r.content@ == self.content@,
    {
        Message { role: self.role.clone(), content: self.content.clone() }
    }
}

} // verus!
