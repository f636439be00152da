//! The monotonic wall clock that time-driven devices sample.

use vstd::prelude::*;
use std::time::{Duration, Instant};

verus! {

/// A point on the monotonic clock. Nothing inside it is visible to proofs.
#[verifier::external_type_specification]
#[verifier::external_body]
pub struct ExInstant(std::time::Instant);

/// The duration that `std::time::Instant::saturating_duration_since` gives
/// for two instants: the time from `earlier` to `later`, or zero where
/// `earlier` is the later one.
pub uninterp spec fn duration_between(later: Instant, earlier: Instant) -> Duration;

/// The number that `std::time::Duration::as_nanos` gives for a duration: the
/// whole of it in nanoseconds.
pub uninterp spec fn duration_nanos(duration: Duration) -> u128;

/// `std::time::Instant::now`: returns the current point on the monotonic
/// clock. Nothing is claimed of the instant that comes back.
pub assume_specification[ std::time::Instant::now ]() -> (now: Instant);

/// `std::time::Instant::saturating_duration_since`: the time from `earlier`
/// to `later`, or zero where `earlier` is the later one. The claim is only
/// that the duration depends on the two instants and on nothing else.
pub assume_specification[ std::time::Instant::saturating_duration_since ](
    later: &Instant,
    earlier: Instant,
) -> (elapsed: Duration)
    ensures
        elapsed == duration_between(*later, earlier),
;

/// `std::time::Duration::as_nanos`: the whole duration in nanoseconds. The
/// claim is only that the number depends on the duration and on nothing
/// else.
pub assume_specification[ std::time::Duration::as_nanos ](duration: &Duration) -> (nanos: u128)
    ensures
        nanos == duration_nanos(*duration),
;

/// The nanoseconds from `earlier` to `later`, zero where `earlier` is the
/// later one, kept to their low 64 bits.
pub open spec fn nanos_apart(earlier: Instant, later: Instant) -> u64 {
    (duration_nanos(duration_between(later, earlier)) % 0x1_0000_0000_0000_0000) as u64
}

/// Nanoseconds from `earlier` to `later`, kept to their low 64 bits.
pub(crate) fn nanos_between(earlier: &Instant, later: &Instant) -> (nanos: u64)
    ensures
        nanos == nanos_apart(*earlier, *later),
{
    let nanos: u128 = later.saturating_duration_since(*earlier).as_nanos();
    (nanos % 0x1_0000_0000_0000_0000) as u64
}

} // verus!
