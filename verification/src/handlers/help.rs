//! The help handler: `!help` answers with the registry's command list.

use vstd::prelude::*;

use crate::response::{new_message, Response, ResponseView};
use crate::text;

use super::{help_infos, infos_view, registry_infos, HelpInfo};

verus! {

/// `!help` at the start of the message (any case), optionally behind the
/// edit group.
pub open spec fn help_matches(m: Seq<char>) -> bool {
    (text::has_edit_group(m) && text::at_ci(m, 3, "!help"@)) || text::at_ci(m, 0, "!help"@)
}

/// One listed entry.
pub open spec fn help_entry(cmd: Seq<char>, desc: Seq<char>) -> Seq<char> {
    "* **"@ + cmd + "** - "@ + desc
}

/// The listed entries, one line each, in registry order; entries with an
/// empty description are suppressed.
pub open spec fn help_lines(infos: Seq<(Seq<char>, Seq<char>)>) -> Seq<char>
    decreases infos.len(),
{
    if infos.len() == 0 {
        Seq::empty()
    } else {
        help_lines(infos.drop_last()) + (if infos.last().1.len() > 0 {
            "\n"@ + help_entry(infos.last().0, infos.last().1)
        } else {
            Seq::<char>::empty()
        })
    }
}

/// The full help text: a fixed header line, then the entries.
pub open spec fn help_message(infos: Seq<(Seq<char>, Seq<char>)>) -> Seq<char> {
    "Here's a list of the things I respond to:"@ + help_lines(infos)
}

/// What the handler answers: the registry's help text, on a match.
pub open spec fn help_response(m: Seq<char>) -> Option<Seq<char>> {
    if help_matches(m) {
        Some(help_message(registry_infos()))
    } else {
        None
    }
}

pub struct Help {}

impl Help {
    pub fn new() -> (r: Self) {
        Help {  }
    }

    pub fn cmd(&self) -> (r: &str)
        ensures
            r@ == "!help"@,
    {
        "!help"
    }

    pub fn description(&self) -> (r: &str)
        ensures
            r@ == "Returns help information"@,
    {
        "Returns help information"
    }

    pub fn respond(&self, message: &str) -> (r: Option<Response>)
        ensures
            match help_response(message@) {
                Some(body) => r matches Some(resp) && resp@ == ResponseView::Text(body),
                None => r is None,
            },
    {
        let g = text::has_edit_group_str(message);
        let matched = (g && text::match_at_ci(message, 3, "!help")) || text::match_at_ci(
            message,
            0,
            "!help",
        );
        if !matched {
            return None;
        }
        let infos = help_infos();
        let mut s = String::from_str("Here's a list of the things I respond to:");
        let mut i: usize = 0;
        while i < infos.len()
            invariant
                i <= infos@.len(),
                infos_view(infos@) == registry_infos(),
                s@ == "Here's a list of the things I respond to:"@ + help_lines(
                    infos_view(infos@).subrange(0, i as int),
                ),
            decreases infos@.len() - i,
        {
            proof {
                assert(infos_view(infos@).subrange(0, i as int + 1).drop_last() =~= infos_view(
                    infos@,
                ).subrange(0, i as int));
                assert(infos_view(infos@).subrange(0, i as int + 1).last() == infos_view(infos@)[
                    i as int
                ]);
                assert(infos_view(infos@)[i as int] == (
                    infos@[i as int].command_name@,
                    infos@[i as int].description@,
                ));
            }
            let ghost prev = s@;
            if infos[i].description.as_str().unicode_len() > 0 {
                s.append("\n");
                s.append("* **");
                s.append(infos[i].command_name.as_str());
                s.append("** - ");
                s.append(infos[i].description.as_str());
                proof {
                    assert(s@ =~= prev + ("\n"@ + help_entry(
                        infos@[i as int].command_name@,
                        infos@[i as int].description@,
                    )));
                }
            }
            i += 1;
        }
        proof {
            assert(infos_view(infos@).subrange(0, infos@.len() as int) =~= infos_view(infos@));
        }
        new_message(s)
    }
}

} // verus!
