//! Session reconciliation, run once at startup before the router begins:
//! an initial sync discards backlog, joined rooms where the bot is the only
//! active member are left, state is re-synced, and pending invites are
//! accepted.

use vstd::prelude::*;

verus! {

/// What reconciliation needs to know of one room, recomputed on demand and
/// never cached past the pass that produced it. `member_count` is `None`
/// when the membership query failed.
pub struct RoomSnapshot {
    pub room_id: String,
    pub member_count: Option<u64>,
    pub is_joined: bool,
}

/// The departure rule: a joined room whose active-member count is known and
/// at most 1 -- the bot alone -- is scheduled for departure; any other room
/// is kept.
pub open spec fn should_leave(r: RoomSnapshot) -> bool {
    r.is_joined && (r.member_count matches Some(c) && c <= 1)
}

/// The ids of the rooms the sweep leaves, in input order.
pub open spec fn leave_ids(rooms: Seq<RoomSnapshot>) -> Seq<Seq<char>> {
    rooms.filter(|r: RoomSnapshot| should_leave(r)).map_values(|r: RoomSnapshot| r.room_id@)
}

pub open spec fn ids_view(ids: Seq<String>) -> Seq<Seq<char>> {
    ids.map_values(|s: String| s@)
}

/// Compute the departure schedule for the joined-room sweep.
pub fn rooms_to_leave(rooms: &Vec<RoomSnapshot>) -> (ids: Vec<String>)
    ensures
        ids_view(ids@) == leave_ids(rooms@),
{
    let mut ids: Vec<String> = Vec::new();
    let mut i: usize = 0;
    proof {
        reveal_with_fuel(Seq::<RoomSnapshot>::filter, 2);
        assert(rooms@.subrange(0, 0) =~= Seq::<RoomSnapshot>::empty());
        assert(leave_ids(rooms@.subrange(0, 0)) =~= ids_view(ids@));
    }
    while i < rooms.len()
        invariant
            i <= rooms@.len(),
            ids_view(ids@) == leave_ids(rooms@.subrange(0, i as int)),
        decreases rooms@.len() - i,
    {
        proof {
            reveal_with_fuel(Seq::<RoomSnapshot>::filter, 2);
            assert(rooms@.subrange(0, i as int + 1).drop_last() =~= rooms@.subrange(0, i as int));
            assert(rooms@.subrange(0, i as int + 1).last() == rooms@[i as int]);
        }
        let ghost prev = ids@;
        let room = &rooms[i];
        let scheduled = room.is_joined && match &room.member_count {
            Some(c) => *c <= 1,
            None => false,
        };
        if scheduled {
            ids.push(room.room_id.clone());
            proof {
                assert(ids_view(ids@) =~= ids_view(prev).push(rooms@[i as int].room_id@));
                assert(leave_ids(rooms@.subrange(0, i as int + 1)) =~= leave_ids(
                    rooms@.subrange(0, i as int),
                ).push(rooms@[i as int].room_id@));
            }
        } else {
            proof {
                assert(leave_ids(rooms@.subrange(0, i as int + 1)) =~= leave_ids(
                    rooms@.subrange(0, i as int),
                ));
            }
        }
        i += 1;
    }
    proof {
        assert(rooms@.subrange(0, rooms@.len() as int) =~= rooms@);
    }
    ids
}

/// A room's display name when the platform has one, its id otherwise.
pub fn room_name_or_id(name: Option<String>, room_id: String) -> (r: String)
    ensures
        r@ == (match name {
            Some(n) => n@,
            None => room_id@,
        }),
{
    match name {
        Some(n) => n,
        None => room_id,
    }
}

/// The phases of a session start, in the order they must run; the router's
/// subscriptions are registered only once everything before them completed.
pub enum SessionPhase {
    /// Authenticate and set the display name.
    LoggingIn,
    /// One blocking sync to discard backlog: the agent never answers
    /// messages sent while it was offline.
    InitialSync,
    /// Enumerate joined rooms and leave the scheduled ones.
    SweepingRooms,
    /// A second sync to settle state after departures; skipped when there
    /// were no joined rooms at all.
    Resyncing,
    /// Accept currently pending invites under the retry policy.
    AcceptingInvites,
    /// Live: the router consumes the event stream.
    Routing,
}

impl SessionPhase {
    pub open spec fn next_spec(self, had_joined_rooms: bool) -> SessionPhase {
        match self {
            SessionPhase::LoggingIn => SessionPhase::InitialSync,
            SessionPhase::InitialSync => SessionPhase::SweepingRooms,
            SessionPhase::SweepingRooms => if had_joined_rooms {
                SessionPhase::Resyncing
            } else {
                SessionPhase::AcceptingInvites
            },
            SessionPhase::Resyncing => SessionPhase::AcceptingInvites,
            SessionPhase::AcceptingInvites => SessionPhase::Routing,
            SessionPhase::Routing => SessionPhase::Routing,
        }
    }

    /// Advance the session start by one phase.
    pub fn next(self, had_joined_rooms: bool) -> (r: Self)
        ensures
            r == self.next_spec(had_joined_rooms),
    {
        match self {
            SessionPhase::LoggingIn => SessionPhase::InitialSync,
            SessionPhase::InitialSync => SessionPhase::SweepingRooms,
            SessionPhase::SweepingRooms => if had_joined_rooms {
                SessionPhase::Resyncing
            } else {
                SessionPhase::AcceptingInvites
            },
            SessionPhase::Resyncing => SessionPhase::AcceptingInvites,
            SessionPhase::AcceptingInvites => SessionPhase::Routing,
            SessionPhase::Routing => SessionPhase::Routing,
        }
    }
}

} // verus!
