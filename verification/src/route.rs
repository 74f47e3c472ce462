//! The event router: stateless glue between the platform's event stream and
//! the dispatcher or the invite acceptor.
//!
//! Only plain text bodies are dispatchable, so the caller builds a
//! `MessageEvent` for text messages alone; the router then drops the bot's
//! own messages and resolves the sender's display name.

use vstd::prelude::*;

use crate::text;

verus! {

/// An incoming room message, reduced to plain values.
pub struct MessageEvent {
    pub sender_id: String,
    pub sender_display_name: Option<String>,
    pub room_id: String,
    pub body: String,
}

/// What the dispatcher receives for a message the router lets through.
pub struct RoutedMessage {
    pub sender_name: String,
    pub body: String,
}

/// The display name when set, the raw id otherwise.
pub open spec fn display_or_id(display: Option<String>, id: Seq<char>) -> Seq<char> {
    match display {
        Some(d) => d@,
        None => id,
    }
}

/// Route one message event. A self-authored message -- the sender is the
/// bot's own user id -- is filtered here and never reaches the dispatcher.
pub fn route_message(event: MessageEvent, bot_user_id: &str) -> (r: Option<RoutedMessage>)
    ensures
        event.sender_id@ == bot_user_id@ ==> r is None,
        event.sender_id@ != bot_user_id@ ==> (r matches Some(rm) && rm.sender_name@
            == display_or_id(event.sender_display_name, event.sender_id@) && rm.body@
            == event.body@),
{
    if text::str_eq(event.sender_id.as_str(), bot_user_id) {
        return None;
    }
    let sender_name = match event.sender_display_name {
        Some(d) => d,
        None => event.sender_id,
    };
    Some(RoutedMessage { sender_name, body: event.body })
}

/// Route one stripped membership event: it concerns this agent only when its
/// `state_key` is the bot's own user id and the room is one the bot is
/// actually invited to; every other membership event is ignored entirely.
pub fn should_accept_invite(state_key: &str, bot_user_id: &str, room_is_invited: bool) -> (r:
    bool)
    ensures
        r == (state_key@ == bot_user_id@ && room_is_invited),
{
    text::str_eq(state_key, bot_user_id) && room_is_invited
}

} // verus!
