//! First-match-wins dispatch: handlers are consulted in registry order and
//! the first one that answers wins; nothing after it is consulted, and a
//! message no handler answers produces no send at all.

use vstd::prelude::*;

use crate::handlers::giphy::{MediaFetch, MediaFetchView};
use crate::handlers::{fetch_view, Draws, Handler};
use crate::random::rand_u64_inclusive;
use crate::response::{Response, ResponseView};

verus! {

/// The first responder at or after index `i`, with its response.
pub open spec fn first_match_from(
    handlers: Seq<Handler>,
    i: int,
    sender: Seq<char>,
    message: Seq<char>,
    display_name: Seq<char>,
    draws: Draws,
    fetch: Option<MediaFetchView>,
) -> Option<(int, ResponseView)>
    decreases handlers.len() - i
        when 0 <= i <= handlers.len()
{
    if i >= handlers.len() {
        None
    } else {
        match handlers[i].response_spec(sender, message, display_name, draws, fetch) {
            Some(rv) => Some((i, rv)),
            None => first_match_from(handlers, i + 1, sender, message, display_name, draws, fetch),
        }
    }
}

/// The handler dispatch picks, and what it answers.
pub open spec fn first_match(
    handlers: Seq<Handler>,
    sender: Seq<char>,
    message: Seq<char>,
    display_name: Seq<char>,
    draws: Draws,
    fetch: Option<MediaFetchView>,
) -> Option<(int, ResponseView)> {
    first_match_from(handlers, 0, sender, message, display_name, draws, fetch)
}

/// Evaluate the handlers in order and stop at the first that answers.
pub fn dispatch(
    handlers: &Vec<Handler>,
    sender: &str,
    message: &str,
    display_name: &str,
    draws: &Draws,
    giphy_fetch: &Option<MediaFetch>,
) -> (r: Option<(usize, Response)>)
    requires
        draws.wf(),
        display_name@.len() >= 1,
    ensures
        match first_match(
            handlers@,
            sender@,
            message@,
            display_name@,
            *draws,
            fetch_view(*giphy_fetch),
        ) {
            Some((i, rv)) => r matches Some(p) && p.0 as int == i && p.1@ == rv,
            None => r is None,
        },
{
    let mut i: usize = 0;
    while i < handlers.len()
        invariant
            draws.wf(),
            display_name@.len() >= 1,
            i <= handlers@.len(),
            first_match(
                handlers@,
                sender@,
                message@,
                display_name@,
                *draws,
                fetch_view(*giphy_fetch),
            ) == first_match_from(
                handlers@,
                i as int,
                sender@,
                message@,
                display_name@,
                *draws,
                fetch_view(*giphy_fetch),
            ),
        decreases handlers@.len() - i,
    {
        let picked = handlers[i].handle(sender, message, display_name, draws, giphy_fetch);
        match picked {
            Some(resp) => {
                return Some((i, resp));
            },
            None => {},
        }
        i += 1;
    }
    None
}

proof fn lemma_first_match_from_props(
    handlers: Seq<Handler>,
    i: int,
    sender: Seq<char>,
    message: Seq<char>,
    display_name: Seq<char>,
    draws: Draws,
    fetch: Option<MediaFetchView>,
    k: int,
    rv: ResponseView,
)
    requires
        0 <= i <= handlers.len(),
        first_match_from(handlers, i, sender, message, display_name, draws, fetch) == Some(
            (k, rv),
        ),
    ensures
        i <= k < handlers.len(),
        handlers[k].response_spec(sender, message, display_name, draws, fetch) == Some(rv),
        forall|j: int|
            i <= j < k ==> #[trigger] handlers[j].response_spec(
                sender,
                message,
                display_name,
                draws,
                fetch,
            ) is None,
    decreases handlers.len() - i,
{
    if handlers[i].response_spec(sender, message, display_name, draws, fetch) is None {
        lemma_first_match_from_props(
            handlers,
            i + 1,
            sender,
            message,
            display_name,
            draws,
            fetch,
            k,
            rv,
        );
    }
}

/// Dispatch is strictly first-match-wins: whatever handler it picks did
/// answer, and every handler ahead of it in registry order did not -- so a
/// handler is never consulted past an earlier match.
pub proof fn lemma_first_match_is_first(
    handlers: Seq<Handler>,
    sender: Seq<char>,
    message: Seq<char>,
    display_name: Seq<char>,
    draws: Draws,
    fetch: Option<MediaFetchView>,
    k: int,
    rv: ResponseView,
)
    requires
        first_match(handlers, sender, message, display_name, draws, fetch) == Some((k, rv)),
    ensures
        0 <= k < handlers.len(),
        handlers[k].response_spec(sender, message, display_name, draws, fetch) == Some(rv),
        forall|j: int|
            0 <= j < k ==> #[trigger] handlers[j].response_spec(
                sender,
                message,
                display_name,
                draws,
                fetch,
            ) is None,
{
    lemma_first_match_from_props(handlers, 0, sender, message, display_name, draws, fetch, k, rv);
}

proof fn lemma_first_match_from_none(
    handlers: Seq<Handler>,
    i: int,
    sender: Seq<char>,
    message: Seq<char>,
    display_name: Seq<char>,
    draws: Draws,
    fetch: Option<MediaFetchView>,
)
    requires
        0 <= i <= handlers.len(),
        forall|j: int|
            i <= j < handlers.len() ==> #[trigger] handlers[j].response_spec(
                sender,
                message,
                display_name,
                draws,
                fetch,
            ) is None,
    ensures
        first_match_from(handlers, i, sender, message, display_name, draws, fetch) is None,
    decreases handlers.len() - i,
{
    if i < handlers.len() {
        lemma_first_match_from_none(handlers, i + 1, sender, message, display_name, draws, fetch);
    }
}

/// A message that no handler answers is dispatched to nothing: no response,
/// hence no send call.
pub proof fn lemma_no_match_no_send(
    handlers: Seq<Handler>,
    sender: Seq<char>,
    message: Seq<char>,
    display_name: Seq<char>,
    draws: Draws,
    fetch: Option<MediaFetchView>,
)
    requires
        forall|j: int|
            0 <= j < handlers.len() ==> #[trigger] handlers[j].response_spec(
                sender,
                message,
                display_name,
                draws,
                fetch,
            ) is None,
    ensures
        first_match(handlers, sender, message, display_name, draws, fetch) is None,
{
    lemma_first_match_from_none(handlers, 0, sender, message, display_name, draws, fetch);
}

/// A response about to be sent, humanized: the caller sets the room's typing
/// indicator, waits the delay, sends, and clears the indicator.
pub struct SendPlan {
    pub delay_millis: u64,
    pub response: Response,
}

/// The randomized pause before a send, uniform over 500..=1500 milliseconds,
/// so the agent does not answer instantaneously.
pub fn humanized(response: Response) -> (p: SendPlan)
    ensures
        500 <= p.delay_millis <= 1500,
        p.response == response,
{
    SendPlan { delay_millis: rand_u64_inclusive(500, 1500), response }
}

} // verus!
