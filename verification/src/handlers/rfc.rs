//! The RFC handler: `!rfc <number>` answers with a link to that RFC; a
//! `!rfc` without a trailing number earns one of three fixed put-downs.

use vstd::prelude::*;

use crate::response::{new_message, Response, ResponseView};
use crate::text;

verus! {

/// Cheap gate the handler applies before the full pattern: the message must
/// begin with `!rfc` or ` * !rfc`, case-sensitively.
pub open spec fn rfc_gate(m: Seq<char>) -> bool {
    text::starts_with(m, "!rfc"@) || text::starts_with(m, " * !rfc"@)
}

/// The digits of a fully formed command: optional edit group, `!rfc`
/// (any case), optional `:`, whitespace, then one or more digits ending the
/// message.
pub open spec fn rfc_digits(m: Seq<char>) -> Option<Seq<char>> {
    let i: int = if text::has_edit_group(m) {
        3
    } else {
        0
    };
    if text::at_ci(m, i, "!rfc"@) {
        let k: int = i + 4;
        let k2: int = if k < m.len() && m[k] == ':' {
            k + 1
        } else {
            k
        };
        let e: int = text::ws_end_from(m, k2);
        if k2 < e && e < m.len() && (forall|t: int|
            e <= t < m.len() ==> text::is_digit(#[trigger] m[t])) {
            Some(m.subrange(e, m.len() as int))
        } else {
            None
        }
    } else {
        None
    }
}

/// The three fixed replies to a gated message that is not a real command.
pub open spec fn rfc_negative(pick: u64) -> Seq<char> {
    if pick == 0 {
        "that's not an rfc, my dude"@
    } else if pick == 1 {
        "what even is that because it's not an rfc"@
    } else {
        "no. just no"@
    }
}

/// The handler's decision: silence for messages outside its prefix, the RFC link on
/// a complete command, one of three fixed retorts on anything else.
pub open spec fn rfc_response(m: Seq<char>, pick: u64) -> Option<Seq<char>> {
    if !rfc_gate(m) {
        None
    } else {
        match rfc_digits(m) {
            Some(d) => Some("https://tools.ietf.org/html/rfc"@ + d),
            None => Some(rfc_negative(pick)),
        }
    }
}

pub struct Rfc {}

impl Rfc {
    pub fn new() -> (r: Self) {
        Rfc {  }
    }

    pub fn cmd(&self) -> (r: &str)
        ensures
            r@ == "!rfc <number>"@,
    {
        "!rfc <number>"
    }

    pub fn description(&self) -> (r: &str)
        ensures
            r@ == "Generates a link to an RFC"@,
    {
        "Generates a link to an RFC"
    }

    /// Decide the reply. `pick` selects among the negative replies; it is the
    /// injected random draw.
    pub fn respond(&self, message: &str, pick: u64) -> (r: Option<Response>)
        requires
            pick < 3,
        ensures
            match rfc_response(message@, pick) {
                Some(body) => r matches Some(resp) && resp@ == ResponseView::Text(body),
                None => r is None,
            },
    {
        if !(text::starts_with_str(message, "!rfc") || text::starts_with_str(message, " * !rfc")) {
            return None;
        }
        proof {
            reveal_strlit("!rfc");
        }
        let n = message.unicode_len();
        let i: usize = if text::has_edit_group_str(message) {
            3
        } else {
            0
        };
        let mut link: Option<String> = None;
        if text::match_at_ci(message, i, "!rfc") {
            let k = i + 4;
            let k2 = if k < n && message.get_char(k) == ':' {
                k + 1
            } else {
                k
            };
            let e = text::ws_run_end(message, k2);
            if k2 < e && e < n && text::all_digits_to_end(message, e) {
                let digits = message.substring_char(e, n);
                let mut s = String::from_str("https://tools.ietf.org/html/rfc");
                s.append(digits);
                link = Some(s);
            }
        }
        match link {
            Some(s) => new_message(s),
            None => {
                let body = if pick == 0 {
                    "that's not an rfc, my dude"
                } else if pick == 1 {
                    "what even is that because it's not an rfc"
                } else {
                    "no. just no"
                };
                new_message(String::from_str(body))
            },
        }
    }
}

} // verus!
