//! The one source of randomness. Handlers and the dispatcher take the drawn
//! values as plain arguments, so everything downstream of the draw is
//! deterministic and verified; only this draw itself is trusted.

use vstd::prelude::*;

verus! {

/// Relies on `fastrand::u64`: returns a pseudo-random value from the given
/// range. The range is inclusive and nonempty, so the call cannot panic;
/// nothing more is assumed of the draw than its bounds.
#[verifier::external_body]
pub fn rand_u64_inclusive(lo: u64, hi: u64) -> (r: u64)
    requires
        lo <= hi,
    ensures
        lo <= r <= hi,
{
    fastrand::u64(lo..=hi)
}

} // verus!
