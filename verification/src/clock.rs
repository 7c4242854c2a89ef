//! What the library takes from `std::time`.
use std::time::{Duration, Instant};
use vstd::prelude::*;

verus! {

/// Nanoseconds in a second.
pub const NANOS_PER_SEC: u32 = 1_000_000_000;

/// `std::time::Instant`, a reading of the monotonic clock.
#[verifier::external_type_specification]
#[verifier::external_body]
pub struct ExInstant(std::time::Instant);

/// The length of a `Duration` in nanoseconds: what `Duration::as_nanos` returns.
pub uninterp spec fn duration_nanos(duration: Duration) -> nat;

/// Where an `Instant` lies on the monotonic clock, in nanoseconds from a fixed origin.
///
/// The origin is arbitrary: the only use of a position is its distance to another one, which is
/// what `Instant::saturating_duration_since` measures.
pub uninterp spec fn instant_nanos(instant: Instant) -> int;

/// The time from `earlier` to `later`, or nothing where `later` lies before `earlier`.
pub open spec fn nanos_since(later: int, earlier: int) -> nat {
    if later >= earlier {
        (later - earlier) as nat
    } else {
        0
    }
}

/// `Duration::as_nanos`: the total number of nanoseconds of the duration.
pub assume_specification[ Duration::as_nanos ](duration: &Duration) -> (nanos: u128)
    ensures
        nanos == duration_nanos(*duration),
;

/// `Duration::from_secs`: a duration of `secs` whole seconds.
pub assume_specification[ Duration::from_secs ](secs: u64) -> (duration: Duration)
    ensures
        duration_nanos(duration) == secs * NANOS_PER_SEC,
;

/// `Duration::new`: a duration of `secs` seconds and `nanos` nanoseconds.
///
/// With a whole second or more in `nanos` the function carries into the seconds and may panic;
/// those arguments are left out.
pub assume_specification[ Duration::new ](secs: u64, nanos: u32) -> (duration: Duration)
    requires
        nanos < NANOS_PER_SEC,
    ensures
        duration_nanos(duration) == secs * NANOS_PER_SEC + nanos,
;

/// `Instant::now`: the present reading of the clock, of which nothing is known beforehand.
pub assume_specification[ Instant::now ]() -> (instant: Instant);

/// `Instant::saturating_duration_since`: the time from `earlier` to `instant`, or a zero duration
/// where `earlier` is the later one.
pub assume_specification[ Instant::saturating_duration_since ](
    instant: &Instant,
    earlier: Instant,
) -> (duration: Duration)
    ensures
        duration_nanos(duration) == nanos_since(instant_nanos(*instant), instant_nanos(earlier)),
;

} // verus!
