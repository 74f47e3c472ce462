//! The greeting handler: replies to hello/howdy/hi/oh hai, always when the
//! bot itself is addressed, and only some of the time otherwise.

use vstd::prelude::*;

use crate::response::{new_message, Response, ResponseView};
use crate::text;

verus! {

/// A greeting word occurs somewhere in the message, delimited by word
/// boundaries.
pub open spec fn howdy_matches(m: Seq<char>) -> bool {
    ||| text::contains_word_ci(m, "hello"@)
    ||| text::contains_word_ci(m, "howdy"@)
    ||| text::contains_word_ci(m, "hi"@)
    ||| text::contains_word_ci(m, "oh hai"@)
}

/// The seven reply templates; the last three greet the sender by name.
pub open spec fn howdy_template(sender: Seq<char>, pick: u64) -> Seq<char> {
    if pick == 0 {
        "Hi!"@
    } else if pick == 1 {
        "Howdy!"@
    } else if pick == 2 {
        "Hello!"@
    } else if pick == 3 {
        "HULLO?"@
    } else if pick == 4 {
        "Hi, "@ + sender + "!"@
    } else if pick == 5 {
        "Howdy, "@ + sender + "!"@
    } else {
        "Hello, "@ + sender + "!"@
    }
}

/// What the handler answers: nothing without a greeting; a greeting not
/// directed at the bot is dropped 60 times of 100, so the bot does not pounce
/// on every hello. `gate` and `pick` are the injected random draws.
pub open spec fn howdy_response(
    sender: Seq<char>,
    m: Seq<char>,
    display_name: Seq<char>,
    gate: u64,
    pick: u64,
) -> Option<Seq<char>> {
    if !howdy_matches(m) {
        None
    } else if !text::contains_word_ci(m, display_name) && gate < 60 {
        None
    } else {
        Some(howdy_template(sender, pick))
    }
}

pub struct Howdy {}

impl Howdy {
    pub fn new() -> (r: Self) {
        Howdy {  }
    }

    pub fn cmd(&self) -> (r: &str)
        ensures
            r@ == "hello"@,
    {
        "hello"
    }

    pub fn description(&self) -> (r: &str)
        ensures
            r@ == "Say hello! (Responds to other greetings, too)"@,
    {
        "Say hello! (Responds to other greetings, too)"
    }

    pub fn respond(
        &self,
        sender: &str,
        message: &str,
        display_name: &str,
        gate: u64,
        pick: u64,
    ) -> (r: Option<Response>)
        requires
            gate < 100,
            pick < 7,
            display_name@.len() >= 1,
        ensures
            match howdy_response(sender@, message@, display_name@, gate, pick) {
                Some(body) => r matches Some(resp) && resp@ == ResponseView::Text(body),
                None => r is None,
            },
    {
        proof {
            reveal_strlit("hello");
            reveal_strlit("howdy");
            reveal_strlit("hi");
            reveal_strlit("oh hai");
        }
        let matched = text::contains_word_ci_str(message, "hello") || text::contains_word_ci_str(
            message,
            "howdy",
        ) || text::contains_word_ci_str(message, "hi") || text::contains_word_ci_str(
            message,
            "oh hai",
        );
        if !matched {
            return None;
        }
        let mentioned = text::contains_word_ci_str(message, display_name);
        if !mentioned && gate < 60 {
            return None;
        }
        let body: String = if pick == 0 {
            String::from_str("Hi!")
        } else if pick == 1 {
            String::from_str("Howdy!")
        } else if pick == 2 {
            String::from_str("Hello!")
        } else if pick == 3 {
            String::from_str("HULLO?")
        } else if pick == 4 {
            let mut s = String::from_str("Hi, ");
            s.append(sender);
            s.append("!");
            s
        } else if pick == 5 {
            let mut s = String::from_str("Howdy, ");
            s.append(sender);
            s.append("!");
            s
        } else {
            let mut s = String::from_str("Hello, ");
            s.append(sender);
            s.append("!");
            s
        };
        new_message(body)
    }
}

} // verus!
