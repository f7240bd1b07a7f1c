//! Points in time and lengths of time, as plain numbers.

use vstd::prelude::*;

verus! {

/// A reading of the monotonic clock, in nanoseconds since an arbitrary start.
pub type Instant = u128;

/// A length of time in nanoseconds.
pub type Duration = u128;

/// The number of nanoseconds in a second.
pub const NANOS_PER_SEC: u128 = 1_000_000_000;

/// Turns whole seconds into a `Duration`.
pub fn from_secs(secs: u64) -> (d: Duration)
    ensures
        d == secs * NANOS_PER_SEC,
{
    assert(secs * NANOS_PER_SEC <= u64::MAX * NANOS_PER_SEC) by (nonlinear_arith)
        requires
            secs <= u64::MAX,
    ;
    (secs as u128) * NANOS_PER_SEC
}

/// The time left until `deadline`, or nothing if it has passed.
pub fn saturating_duration_since(deadline: Instant, now: Instant) -> (d: Duration)
    ensures
        d == if deadline > now { deadline - now } else { 0 },
{
    if deadline > now {
        deadline - now
    } else {
        0
    }
}

} // verus!
