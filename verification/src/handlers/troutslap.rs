//! The trout-slap handler: `!slap <name>` slaps the named party with a large
//! trout -- unless the slap is aimed at the bot itself, which objects.

use vstd::prelude::*;

use crate::response::{new_message, Response, ResponseView};
use crate::text;

verus! {

/// The slapped party of a well-formed command: optional edit group, `!slap`
/// (any case), whitespace, then the free-text capture to the end.
pub open spec fn slap_name(m: Seq<char>) -> Option<Seq<char>> {
    let i: int = if text::has_edit_group(m) {
        3
    } else {
        0
    };
    if text::at_ci(m, i, "!slap"@) {
        text::rest_capture(m, i + 5)
    } else {
        None
    }
}

/// What the handler answers: nothing without a well-formed command; a
/// refusal when the bot's own name appears in the message; otherwise the
/// slap narration.
pub open spec fn slap_response(
    sender: Seq<char>,
    m: Seq<char>,
    display_name: Seq<char>,
) -> Option<Seq<char>> {
    match slap_name(m) {
        None => None,
        Some(name) => {
            if text::contains_word_ci(m, display_name) {
                Some("EXCUSE ME I DON'T THINK SO"@)
            } else {
                Some("_"@ + sender + " slaps "@ + name + " around with a large trout_"@)
            }
        },
    }
}

pub struct TroutSlap {}

impl TroutSlap {
    pub fn new() -> (r: Self) {
        TroutSlap {  }
    }

    pub fn cmd(&self) -> (r: &str)
        ensures
            r@ == "!slap"@,
    {
        "!slap"
    }

    pub fn description(&self) -> (r: &str)
        ensures
            r@ == "a good ol' trout slapping"@,
    {
        "a good ol' trout slapping"
    }

    pub fn respond(&self, sender: &str, message: &str, display_name: &str) -> (r: Option<
        Response,
    >)
        requires
            display_name@.len() >= 1,
        ensures
            match slap_response(sender@, message@, display_name@) {
                Some(body) => r matches Some(resp) && resp@ == ResponseView::Text(body),
                None => r is None,
            },
    {
        let n = message.unicode_len();
        let i: usize = if text::has_edit_group_str(message) {
            3
        } else {
            0
        };
        if !text::match_at_ci(message, i, "!slap") {
            return None;
        }
        proof {
            reveal_strlit("!slap");
        }
        match text::rest_capture_start(message, i + 5) {
            None => None,
            Some(j) => {
                if text::contains_word_ci_str(message, display_name) {
                    new_message(String::from_str("EXCUSE ME I DON'T THINK SO"))
                } else {
                    let name = message.substring_char(j, n);
                    let mut s = String::from_str("_");
                    s.append(sender);
                    s.append(" slaps ");
                    s.append(name);
                    s.append(" around with a large trout_");
                    new_message(s)
                }
            },
        }
    }
}

} // verus!
