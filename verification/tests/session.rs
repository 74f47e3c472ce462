//! Dispatch order, routing, reconciliation, and the invite retry schedule.

use bingo_bot::dispatch::{dispatch, humanized};
use bingo_bot::handlers::giphy::MediaFetch;
use bingo_bot::handlers::{get_handlers, Draws};
use bingo_bot::invite::{InviteEvent, InviteRetry, InviteState, RetryStep};
use bingo_bot::reconcile::{room_name_or_id, rooms_to_leave, RoomSnapshot, SessionPhase};
use bingo_bot::response::Response;
use bingo_bot::route::{route_message, should_accept_invite, MessageEvent};

fn draws(python_gate: u64) -> Draws {
    Draws { rfc_pick: 0, howdy_gate: 0, howdy_pick: 0, python_gate, python_pick: 0 }
}

fn no_fetch() -> Option<MediaFetch> {
    None
}

#[test]
fn dispatch_stops_at_first_match() {
    // "!slap python" matches both the python handler (index 3) and the slap
    // handler (index 5); with the python drop gate open, the earlier handler
    // answers and the later one is never reached.
    let handlers = get_handlers(None);
    let r = dispatch(&handlers, "Ann", "!slap python", "Bingo", &draws(99), &no_fetch());
    let (idx, resp) = r.unwrap();
    assert_eq!(idx, 3);
    match resp {
        Response::Text(s) => assert_eq!(s, "\"Python sucks\" —Kyle"),
        _ => panic!("expected text"),
    }
}

#[test]
fn dispatch_moves_on_when_a_handler_declines() {
    // Same message, python gate dropping: the slap handler is next to match.
    let handlers = get_handlers(None);
    let r = dispatch(&handlers, "Ann", "!slap python", "Bingo", &draws(0), &no_fetch());
    let (idx, resp) = r.unwrap();
    assert_eq!(idx, 5);
    match resp {
        Response::Text(s) => assert_eq!(s, "_Ann slaps python around with a large trout_"),
        _ => panic!("expected text"),
    }
}

#[test]
fn dispatch_of_unmatched_message_sends_nothing() {
    let handlers = get_handlers(None);
    let r = dispatch(&handlers, "Ann", "xyzzy", "Bingo", &draws(99), &no_fetch());
    assert!(r.is_none());
}

#[test]
fn humanized_delay_is_bounded() {
    for _ in 0..100 {
        let plan = humanized(Response::Text("x".to_string()));
        assert!(500 <= plan.delay_millis && plan.delay_millis <= 1500);
        match plan.response {
            Response::Text(s) => assert_eq!(s, "x"),
            _ => panic!("expected text"),
        }
    }
}

#[test]
fn fresh_draws_are_in_range() {
    for _ in 0..100 {
        let d = Draws::fresh();
        assert!(d.rfc_pick < 3);
        assert!(d.howdy_gate < 100);
        assert!(d.howdy_pick < 7);
        assert!(d.python_gate < 100);
        assert!(d.python_pick < 3);
    }
}

fn event(sender: &str, display: Option<&str>, body: &str) -> MessageEvent {
    MessageEvent {
        sender_id: sender.to_string(),
        sender_display_name: display.map(|d| d.to_string()),
        room_id: "!room:example.org".to_string(),
        body: body.to_string(),
    }
}

#[test]
fn self_authored_messages_never_reach_dispatch() {
    let r = route_message(event("@bot:example.org", Some("Bingo"), "hello"), "@bot:example.org");
    assert!(r.is_none());
}

#[test]
fn routed_messages_resolve_the_sender_name() {
    let r = route_message(event("@ann:example.org", Some("Ann"), "hi"), "@bot:example.org");
    let rm = r.unwrap();
    assert_eq!(rm.sender_name, "Ann");
    assert_eq!(rm.body, "hi");

    let r = route_message(event("@ann:example.org", None, "hi"), "@bot:example.org");
    let rm = r.unwrap();
    assert_eq!(rm.sender_name, "@ann:example.org");
}

#[test]
fn membership_events_for_others_are_ignored() {
    assert!(!should_accept_invite("@carol:example.org", "@bot:example.org", true));
    assert!(!should_accept_invite("@bot:example.org", "@bot:example.org", false));
    assert!(should_accept_invite("@bot:example.org", "@bot:example.org", true));
}

fn room(id: &str, count: Option<u64>, joined: bool) -> RoomSnapshot {
    RoomSnapshot { room_id: id.to_string(), member_count: count, is_joined: joined }
}

#[test]
fn lonely_joined_rooms_are_scheduled_for_departure() {
    let rooms = vec![
        room("!a:x", Some(1), true),
        room("!b:x", Some(2), true),
        room("!c:x", Some(0), true),
        room("!d:x", Some(1), false),
        room("!e:x", None, true),
        room("!f:x", Some(3), true),
    ];
    let ids = rooms_to_leave(&rooms);
    assert_eq!(ids, vec!["!a:x".to_string(), "!c:x".to_string()]);
}

#[test]
fn crowded_rooms_are_kept() {
    let rooms = vec![room("!a:x", Some(2), true), room("!b:x", Some(10), true)];
    assert!(rooms_to_leave(&rooms).is_empty());
}

#[test]
fn room_names_fall_back_to_ids() {
    assert_eq!(
        room_name_or_id(Some("The Room".to_string()), "!a:x".to_string()),
        "The Room"
    );
    assert_eq!(room_name_or_id(None, "!a:x".to_string()), "!a:x");
}

#[test]
fn session_phases_run_in_order() {
    let p = SessionPhase::LoggingIn;
    let p = p.next(true);
    assert!(matches!(p, SessionPhase::InitialSync));
    let p = p.next(true);
    assert!(matches!(p, SessionPhase::SweepingRooms));
    let p = p.next(true);
    assert!(matches!(p, SessionPhase::Resyncing));
    let p = p.next(true);
    assert!(matches!(p, SessionPhase::AcceptingInvites));
    let p = p.next(true);
    assert!(matches!(p, SessionPhase::Routing));
}

#[test]
fn resync_is_skipped_without_joined_rooms() {
    let p = SessionPhase::SweepingRooms.next(false);
    assert!(matches!(p, SessionPhase::AcceptingInvites));
}

#[test]
fn invite_lifecycle_runs_pending_to_terminal() {
    let s = InviteState::Pending.advance(InviteEvent::Observed);
    assert!(matches!(s, InviteState::Accepting));
    assert!(matches!(
        s.advance(InviteEvent::AcceptSucceeded),
        InviteState::Accepted
    ));
    let s = s.advance(InviteEvent::AcceptFailed { give_up: false });
    assert!(matches!(s, InviteState::Accepting));
    let s = s.advance(InviteEvent::AcceptFailed { give_up: true });
    assert!(matches!(s, InviteState::Abandoned));
    // Terminal states stay put.
    assert!(matches!(s.advance(InviteEvent::Observed), InviteState::Abandoned));
}

#[test]
fn invite_retry_doubles_and_gives_up_past_the_ceiling() {
    let mut retry = InviteRetry::new();
    assert_eq!(retry.delay_seconds, 2);
    // The k-th failure sleeps 2 * 2^(k-1) seconds: 2, 4, ..., 2048; the 11th
    // doubling exceeds 3600, so the invite is abandoned then.
    let mut expected_sleep: u64 = 2;
    for _ in 0..10 {
        match retry.on_failure() {
            RetryStep::Retry { sleep_seconds } => assert_eq!(sleep_seconds, expected_sleep),
            RetryStep::Abandon { .. } => panic!("abandoned too early"),
        }
        expected_sleep *= 2;
    }
    match retry.on_failure() {
        RetryStep::Abandon { sleep_seconds } => assert_eq!(sleep_seconds, 2048),
        RetryStep::Retry { .. } => panic!("should have abandoned on the 11th failure"),
    }
}
