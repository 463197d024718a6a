//! The monotonic clock that a reporter measures its running time with.

use vstd::prelude::*;
use std::time::Instant;

verus! {

/// A point in time of std's monotonic clock. Nothing is known of its value.
#[verifier::external_type_specification]
#[verifier::external_body]
pub struct ExInstant(std::time::Instant);

/// Reads the clock: `Instant::now`. Nothing is claimed of the result.
#[verifier::external_body]
pub(crate) fn now() -> Instant {
    Instant::now()
}

/// The time since `start`: `Instant::elapsed`, taken in whole nanoseconds
/// by `Duration::as_nanos`. The result depends on the clock, so nothing is
/// claimed of it.
#[verifier::external_body]
pub(crate) fn nanos_since(start: &Instant) -> u128 {
    start.elapsed().as_nanos()
}

/// A time in nanoseconds as the reporter counts it: in 64 bits, and held at
/// the largest value where it is longer than that (some 584 years).
pub open spec fn held_nanos(nanos: nat) -> nat {
    if nanos > u64::MAX {
        u64::MAX as nat
    } else {
        nanos
    }
}

/// Brings a time in nanoseconds into 64 bits.
pub fn hold_nanos(nanos: u128) -> (kept: u64)
    ensures
        kept == held_nanos(nanos as nat),
{
    if nanos > u64::MAX as u128 {
        u64::MAX
    } else {
        nanos as u64
    }
}

/// The time since `start` in nanoseconds, as the reporter counts it: the
/// clock's reading, brought into 64 bits by `hold_nanos`. The reading depends
/// on the clock and may be any value, so nothing is claimed of the result.
pub(crate) fn elapsed_nanos(start: &Instant) -> u64 {
    hold_nanos(nanos_since(start))
}

} // verus!
