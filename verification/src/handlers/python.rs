//! The easter-egg handler: any mention of python may, some of the time,
//! summon Kyle's opinion of the language.

use vstd::prelude::*;

use crate::response::{new_message, Response, ResponseView};
use crate::text;

verus! {

pub open spec fn python_matches(m: Seq<char>) -> bool {
    text::contains_ci(m, "python"@)
}

/// The three fixed replies.
pub open spec fn python_reply(pick: u64) -> Seq<char> {
    if pick == 0 {
        "\"Python sucks\" —Kyle"@
    } else if pick == 1 {
        "_you hear a sound from across the reaches of the internet: it's Kyle, telling Python to screw itself_"@
    } else {
        "\"I hate Python\" —Kyle"@
    }
}

/// What the handler answers: nothing unless the message mentions python;
/// even then it stays silent when the drop gate fires (60 of 100), so the
/// bot is not noisy. `gate` and `pick` are the injected random draws.
pub open spec fn python_response(m: Seq<char>, gate: u64, pick: u64) -> Option<Seq<char>> {
    if !python_matches(m) {
        None
    } else if gate < 60 {
        None
    } else {
        Some(python_reply(pick))
    }
}

pub struct KyleHatesPython {}

impl KyleHatesPython {
    pub fn new() -> (r: Self) {
        KyleHatesPython {  }
    }

    /// No explicit invocation: the handler reacts to free text.
    pub fn cmd(&self) -> (r: &str)
        ensures
            r@ == ""@,
    {
        ""
    }

    /// Empty: the handler is not listed in the help output.
    pub fn description(&self) -> (r: &str)
        ensures
            r@ == ""@,
    {
        ""
    }

    pub fn respond(&self, message: &str, gate: u64, pick: u64) -> (r: Option<Response>)
        requires
            gate < 100,
            pick < 3,
        ensures
            match python_response(message@, gate, pick) {
                Some(body) => r matches Some(resp) && resp@ == ResponseView::Text(body),
                None => r is None,
            },
    {
        if !text::contains_ci_str(message, "python") {
            return None;
        }
        if gate < 60 {
            return None;
        }
        let body = if pick == 0 {
            "\"Python sucks\" —Kyle"
        } else if pick == 1 {
            "_you hear a sound from across the reaches of the internet: it's Kyle, telling Python to screw itself_"
        } else {
            "\"I hate Python\" —Kyle"
        };
        new_message(String::from_str(body))
    }
}

} // verus!
