//! Retry policy for accepting room invites.
//!
//! Each pending invite is driven by a small state machine: every failed
//! acceptance attempt sleeps for the current delay, then doubles it; once the
//! doubled delay exceeds the ceiling of 3600 seconds the invite is abandoned.
//! The caller performs the actual platform call and the sleep; this module
//! only decides how long to wait and when to give up.

use vstd::prelude::*;

verus! {

/// `pow2(k)` is `2^k`.
pub open spec fn pow2(k: nat) -> nat
    decreases k,
{
    if k == 0 {
        1
    } else {
        2 * pow2((k - 1) as nat)
    }
}

pub proof fn lemma_pow2_monotone(a: nat, b: nat)
    requires
        a <= b,
    ensures
        pow2(a) <= pow2(b),
    decreases b,
{
    if a < b {
        lemma_pow2_monotone(a, (b - 1) as nat);
    }
}

/// Per-invite retry state: the delay the next failure will sleep for, and how
/// many failures have happened so far.
pub struct InviteRetry {
    pub delay_seconds: u64,
    pub failures: u64,
}

/// What the caller must do after a failed acceptance attempt: sleep for the
/// given number of seconds, then either retry the attempt or give the invite
/// up for good.
pub enum RetryStep {
    Retry { sleep_seconds: u64 },
    Abandon { sleep_seconds: u64 },
}

impl InviteRetry {
    /// After `k` failures the delay is always `2 * 2^k`; it never exceeds the
    /// ceiling while the invite is still live.
    pub open spec fn wf(self) -> bool {
        &&& self.delay_seconds == 2 * pow2(self.failures as nat)
        &&& self.delay_seconds <= 3600
    }

    /// Retry state for a freshly observed invite: the first failure waits
    /// 2 seconds.
    pub fn new() -> (r: Self)
        ensures
            r.wf(),
            r.delay_seconds == 2,
            r.failures == 0,
    {
        InviteRetry { delay_seconds: 2, failures: 0 }
    }

    /// Record one failed acceptance attempt: sleep for the current delay,
    /// double it, and abandon the invite once the doubled delay exceeds
    /// 3600 seconds.
    pub fn on_failure(&mut self) -> (step: RetryStep)
        requires
            old(self).wf(),
        ensures
            final(self).failures == old(self).failures + 1,
            final(self).delay_seconds == 2 * old(self).delay_seconds,
            (step matches RetryStep::Retry { sleep_seconds } ==> sleep_seconds
                == old(self).delay_seconds),
            (step matches RetryStep::Abandon { sleep_seconds } ==> sleep_seconds
                == old(self).delay_seconds),
            (step is Abandon <==> 2 * old(self).delay_seconds > 3600),
            step is Retry ==> final(self).wf(),
    {
        proof {
            lemma_failures_bounded(*self);
            assert(pow2((self.failures + 1) as nat) == 2 * pow2(self.failures as nat));
        }
        let sleep_seconds = self.delay_seconds;
        self.delay_seconds = 2 * self.delay_seconds;
        self.failures = self.failures + 1;
        if self.delay_seconds > 3600 {
            RetryStep::Abandon { sleep_seconds }
        } else {
            RetryStep::Retry { sleep_seconds }
        }
    }
}

/// A live retry state has seen at most 10 failures: after the 11th doubling
/// the delay would stand above the ceiling.
pub proof fn lemma_failures_bounded(s: InviteRetry)
    requires
        s.wf(),
    ensures
        s.failures <= 10,
{
    if s.failures > 10 {
        lemma_pow2_monotone(11, s.failures as nat);
        reveal_with_fuel(pow2, 12);
        assert(pow2(11) == 2048);
    }
}

/// The lifecycle of one invite.
#[derive(Clone, Copy)]
pub enum InviteState {
    /// Observed, not yet acted on.
    Pending,
    /// Acceptance attempts are under way.
    Accepting,
    /// The platform accepted the invite.
    Accepted,
    /// Retrying stopped for good: the backoff ceiling was exceeded.
    Abandoned,
}

/// What happened to an invite since its state was last advanced.
#[derive(Clone, Copy)]
pub enum InviteEvent {
    /// The invite was picked up, from the startup enumeration or a live
    /// membership event.
    Observed,
    /// An acceptance attempt succeeded.
    AcceptSucceeded,
    /// An acceptance attempt failed; the retry policy reports whether the
    /// doubled delay now stands above the ceiling.
    AcceptFailed { give_up: bool },
}

impl InviteState {
    pub open spec fn advance_spec(self, ev: InviteEvent) -> InviteState {
        match (self, ev) {
            (InviteState::Pending, InviteEvent::Observed) => InviteState::Accepting,
            (InviteState::Accepting, InviteEvent::AcceptSucceeded) => InviteState::Accepted,
            (InviteState::Accepting, InviteEvent::AcceptFailed { give_up }) => if give_up {
                InviteState::Abandoned
            } else {
                InviteState::Accepting
            },
            _ => self,
        }
    }

    /// Advance the lifecycle by one event. Terminal states stay put, and
    /// events that make no sense for the current state change nothing.
    pub fn advance(self, ev: InviteEvent) -> (r: Self)
        ensures
            r == self.advance_spec(ev),
    {
        match (self, ev) {
            (InviteState::Pending, InviteEvent::Observed) => InviteState::Accepting,
            (InviteState::Accepting, InviteEvent::AcceptSucceeded) => InviteState::Accepted,
            (InviteState::Accepting, InviteEvent::AcceptFailed { give_up }) => if give_up {
                InviteState::Abandoned
            } else {
                InviteState::Accepting
            },
            (s, _) => s,
        }
    }
}

/// The backoff schedule: the sleep taken on the `k`-th consecutive failure
/// (counting from 1) is `2 * 2^(k-1)` seconds, and the invite is abandoned by
/// that failure exactly when the doubled delay `2 * 2^k` exceeds 3600 --
/// which first happens on the 11th failure.
pub proof fn lemma_backoff_schedule(k: nat)
    requires
        k >= 1,
    ensures
        2 * pow2((k - 1) as nat) == pow2(k),
        (2 * pow2(k) > 3600 <==> k >= 11),
{
    reveal_with_fuel(pow2, 12);
    assert(pow2(11) == 2048);
    assert(pow2(10) == 1024);
    if k >= 11 {
        lemma_pow2_monotone(11, k);
    } else {
        lemma_pow2_monotone(k, 10);
    }
}

} // verus!
