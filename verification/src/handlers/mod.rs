//! The command handlers and their registry.
//!
//! The registry builds the handlers in a fixed priority order -- help first,
//! content handlers next, personality handlers last -- because dispatch is
//! first-match-wins and the order is policy, not accident.

use vstd::prelude::*;

use crate::random::rand_u64_inclusive;
use crate::response::{Response, ResponseView};
use crate::text;

pub mod giphy;
pub mod help;
pub mod howdy;
pub mod python;
pub mod rfc;
pub mod troutslap;

use giphy::Giphy;
use help::Help;
use howdy::Howdy;
use python::KyleHatesPython;
use rfc::Rfc;
use troutslap::TroutSlap;

verus! {

/// Free-form configuration handed to the registry: string keys to string
/// values, looked up first-match. Handlers that need a key must degrade
/// gracefully when it is absent.
pub struct Config {
    pub entries: Vec<(String, String)>,
}

/// First value stored under `key`, if any.
pub open spec fn lookup(entries: Seq<(String, String)>, key: Seq<char>) -> Option<Seq<char>>
    decreases entries.len(),
{
    if entries.len() == 0 {
        None
    } else if entries[0].0@ == key {
        Some(entries[0].1@)
    } else {
        lookup(entries.drop_first(), key)
    }
}

impl Config {
    pub fn new() -> (r: Self)
        ensures
            r.entries@.len() == 0,
    {
        Config { entries: Vec::new() }
    }

    pub fn set(&mut self, key: String, value: String)
        ensures
            final(self).entries@ == old(self).entries@.push((key, value)),
    {
        self.entries.push((key, value));
    }

    pub fn get(&self, key: &str) -> (r: Option<String>)
        ensures
            match r {
                Some(v) => lookup(self.entries@, key@) == Some(v@),
                None => lookup(self.entries@, key@) is None,
            },
    {
        let mut i: usize = 0;
        proof {
            assert(self.entries@.skip(0) =~= self.entries@);
        }
        while i < self.entries.len()
            invariant
                i <= self.entries@.len(),
                lookup(self.entries@, key@) == lookup(self.entries@.skip(i as int), key@),
            decreases self.entries@.len() - i,
        {
            proof {
                assert(self.entries@.skip(i as int)[0] == self.entries@[i as int]);
                assert(self.entries@.skip(i as int).drop_first() =~= self.entries@.skip(
                    i as int + 1,
                ));
            }
            if text::str_eq(self.entries[i].0.as_str(), key) {
                return Some(self.entries[i].1.clone());
            }
            i += 1;
        }
        None
    }
}

/// One line of the help surface: how a handler is invoked and what it does.
pub struct HelpInfo {
    pub command_name: String,
    pub description: String,
}

/// The (command, description) pairs of a list of help entries.
pub open spec fn infos_view(infos: Seq<HelpInfo>) -> Seq<(Seq<char>, Seq<char>)> {
    infos.map_values(|h: HelpInfo| (h.command_name@, h.description@))
}

/// The registry's fixed help surface, in registry order.
pub open spec fn registry_infos() -> Seq<(Seq<char>, Seq<char>)> {
    seq![
        ("!help"@, "Returns help information"@),
        ("!giphy <keywords>"@, "Finds a GIF relevant to your interests"@),
        ("hello"@, "Say hello! (Responds to other greetings, too)"@),
        (""@, ""@),
        ("!rfc <number>"@, "Generates a link to an RFC"@),
        ("!slap"@, "a good ol' trout slapping"@),
    ]
}

/// The random values one dispatch consumes, drawn up front so that
/// everything after the draw is deterministic.
pub struct Draws {
    pub rfc_pick: u64,
    pub howdy_gate: u64,
    pub howdy_pick: u64,
    pub python_gate: u64,
    pub python_pick: u64,
}

impl Draws {
    pub open spec fn wf(self) -> bool {
        &&& self.rfc_pick < 3
        &&& self.howdy_gate < 100
        &&& self.howdy_pick < 7
        &&& self.python_gate < 100
        &&& self.python_pick < 3
    }

    pub fn fresh() -> (r: Draws)
        ensures
            r.wf(),
    {
        Draws {
            rfc_pick: rand_u64_inclusive(0, 2),
            howdy_gate: rand_u64_inclusive(0, 99),
            howdy_pick: rand_u64_inclusive(0, 6),
            python_gate: rand_u64_inclusive(0, 99),
            python_pick: rand_u64_inclusive(0, 2),
        }
    }
}

/// Whether the bot's display name occurs in the message as a whole word.
pub fn bot_mentioned(message: &str, display_name: &str) -> (r: bool)
    requires
        display_name@.len() >= 1,
    ensures
        r == text::contains_word_ci(message@, display_name@),
{
    text::contains_word_ci_str(message, display_name)
}

/// The fetch outcome handed to dispatch, seen abstractly.
pub open spec fn fetch_view(f: Option<giphy::MediaFetch>) -> Option<giphy::MediaFetchView> {
    match f {
        Some(x) => Some(x@),
        None => None,
    }
}

/// The closed set of handlers.
pub enum Handler {
    Help(Help),
    Giphy(Giphy),
    Howdy(Howdy),
    KyleHatesPython(KyleHatesPython),
    Rfc(Rfc),
    TroutSlap(TroutSlap),
}

impl Handler {
    /// Human-readable invocation form; empty for handlers that react to free
    /// text.
    pub open spec fn cmd_spec(self) -> Seq<char> {
        match self {
            Handler::Help(_) => "!help"@,
            Handler::Giphy(_) => "!giphy <keywords>"@,
            Handler::Howdy(_) => "hello"@,
            Handler::KyleHatesPython(_) => ""@,
            Handler::Rfc(_) => "!rfc <number>"@,
            Handler::TroutSlap(_) => "!slap"@,
        }
    }

    pub open spec fn description_spec(self) -> Seq<char> {
        match self {
            Handler::Help(_) => "Returns help information"@,
            Handler::Giphy(_) => "Finds a GIF relevant to your interests"@,
            Handler::Howdy(_) => "Say hello! (Responds to other greetings, too)"@,
            Handler::KyleHatesPython(_) => ""@,
            Handler::Rfc(_) => "Generates a link to an RFC"@,
            Handler::TroutSlap(_) => "a good ol' trout slapping"@,
        }
    }

    pub fn cmd(&self) -> (r: &str)
        ensures
            r@ == self.cmd_spec(),
    {
        match self {
            Handler::Help(h) => h.cmd(),
            Handler::Giphy(h) => h.cmd(),
            Handler::Howdy(h) => h.cmd(),
            Handler::KyleHatesPython(h) => h.cmd(),
            Handler::Rfc(h) => h.cmd(),
            Handler::TroutSlap(h) => h.cmd(),
        }
    }

    pub fn description(&self) -> (r: &str)
        ensures
            r@ == self.description_spec(),
    {
        match self {
            Handler::Help(h) => h.description(),
            Handler::Giphy(h) => h.description(),
            Handler::Howdy(h) => h.description(),
            Handler::KyleHatesPython(h) => h.description(),
            Handler::Rfc(h) => h.description(),
            Handler::TroutSlap(h) => h.description(),
        }
    }

    /// What this handler answers for one message, given the random draws and
    /// -- for the GIF handler -- the outcome of its fetch. `None` is "no
    /// match": dispatch moves on to the next handler.
    pub open spec fn response_spec(
        self,
        sender: Seq<char>,
        message: Seq<char>,
        display_name: Seq<char>,
        draws: Draws,
        fetch: Option<giphy::MediaFetchView>,
    ) -> Option<ResponseView> {
        match self {
            Handler::Help(_) => match help::help_response(message) {
                Some(b) => Some(ResponseView::Text(b)),
                None => None,
            },
            Handler::Giphy(g) => {
                if g.api_key is Some && giphy::giphy_keywords(message) is Some {
                    match fetch {
                        Some(f) => Some(giphy::media_view_of(f)),
                        None => None,
                    }
                } else {
                    None
                }
            },
            Handler::Howdy(_) => match howdy::howdy_response(
                sender,
                message,
                display_name,
                draws.howdy_gate,
                draws.howdy_pick,
            ) {
                Some(b) => Some(ResponseView::Text(b)),
                None => None,
            },
            Handler::KyleHatesPython(_) => match python::python_response(
                message,
                draws.python_gate,
                draws.python_pick,
            ) {
                Some(b) => Some(ResponseView::Text(b)),
                None => None,
            },
            Handler::Rfc(_) => match rfc::rfc_response(message, draws.rfc_pick) {
                Some(b) => Some(ResponseView::Text(b)),
                None => None,
            },
            Handler::TroutSlap(_) => match troutslap::slap_response(
                sender,
                message,
                display_name,
            ) {
                Some(b) => Some(ResponseView::Text(b)),
                None => None,
            },
        }
    }

    /// Run this handler on one message.
    pub fn handle(
        &self,
        sender: &str,
        message: &str,
        display_name: &str,
        draws: &Draws,
        giphy_fetch: &Option<giphy::MediaFetch>,
    ) -> (r: Option<Response>)
        requires
            draws.wf(),
            display_name@.len() >= 1,
        ensures
            match self.response_spec(
                sender@,
                message@,
                display_name@,
                *draws,
                fetch_view(*giphy_fetch),
            ) {
                Some(rv) => r matches Some(resp) && resp@ == rv,
                None => r is None,
            },
    {
        match self {
            Handler::Help(h) => h.respond(message),
            Handler::Giphy(g) => {
                if g.api_key.is_some() {
                    match giphy::giphy_keywords_start(message) {
                        Some(_) => match giphy_fetch {
                            Some(f) => Some(giphy::media_response(f)),
                            None => None,
                        },
                        None => None,
                    }
                } else {
                    None
                }
            },
            Handler::Howdy(h) => h.respond(
                sender,
                message,
                display_name,
                draws.howdy_gate,
                draws.howdy_pick,
            ),
            Handler::KyleHatesPython(h) => h.respond(message, draws.python_gate, draws.python_pick),
            Handler::Rfc(h) => h.respond(message, draws.rfc_pick),
            Handler::TroutSlap(h) => h.respond(sender, message, display_name),
        }
    }
}

/// Whether a handler's credential field agrees with the configuration it was
/// built from.
pub open spec fn giphy_key_ok(key: Option<String>, config: Option<&Config>) -> bool {
    match config {
        None => key is None,
        Some(c) => match lookup(c.entries@, "giphy_api_key"@) {
            Some(v) => key matches Some(k) && k@ == v,
            None => key is None,
        },
    }
}

/// Build the session's handlers, in registry order.
pub fn get_handlers(config: Option<&Config>) -> (r: Vec<Handler>)
    ensures
        r@.len() == 6,
        r@[0] is Help,
        r@[1] matches Handler::Giphy(g) && giphy_key_ok(g.api_key, config),
        r@[2] is Howdy,
        r@[3] is KyleHatesPython,
        r@[4] is Rfc,
        r@[5] is TroutSlap,
{
    let mut r: Vec<Handler> = Vec::new();
    r.push(Handler::Help(Help::new()));
    r.push(Handler::Giphy(Giphy::new(config)));
    r.push(Handler::Howdy(Howdy::new()));
    r.push(Handler::KyleHatesPython(KyleHatesPython::new()));
    r.push(Handler::Rfc(Rfc::new()));
    r.push(Handler::TroutSlap(TroutSlap::new()));
    r
}

/// The help surface of the registry: one entry per handler, in order.
pub fn help_infos() -> (infos: Vec<HelpInfo>)
    ensures
        infos_view(infos@) == registry_infos(),
{
    let handlers = get_handlers(None);
    let mut infos: Vec<HelpInfo> = Vec::new();
    let mut i: usize = 0;
    while i < handlers.len()
        invariant
            i <= handlers@.len(),
            handlers@.len() == 6,
            handlers@[0] is Help,
            handlers@[1] is Giphy,
            handlers@[2] is Howdy,
            handlers@[3] is KyleHatesPython,
            handlers@[4] is Rfc,
            handlers@[5] is TroutSlap,
            infos@.len() == i,
            forall|t: int|
                0 <= t < i ==> (#[trigger] infos@[t]).command_name@ == handlers@[t].cmd_spec()
                    && infos@[t].description@ == handlers@[t].description_spec(),
        decreases handlers@.len() - i,
    {
        let h = &handlers[i];
        infos.push(
            HelpInfo {
                command_name: String::from_str(h.cmd()),
                description: String::from_str(h.description()),
            },
        );
        i += 1;
    }
    proof {
        assert(infos_view(infos@) =~= registry_infos());
    }
    infos
}

} // verus!
