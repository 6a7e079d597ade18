//! Durations and instants of the standard library, as the rest of the
//! crate sees them: a duration by its total number of nanoseconds, an
//! instant as an opaque point in time.

use vstd::prelude::*;
use std::time::{Duration, Instant};

verus! {

/// `std::time::Instant`, carried through as an opaque value.
#[verifier::external_type_specification]
#[verifier::external_body]
pub struct ExInstant(Instant);

/// The total number of nanoseconds in a duration, as `Duration::as_nanos`
/// returns it.
pub uninterp spec fn duration_nanos(d: Duration) -> u128;

/// `Duration::as_nanos`: the whole duration in nanoseconds.
pub assume_specification[ Duration::as_nanos ](d: &Duration) -> (r: u128)
    ensures
        r == duration_nanos(*d),
;

/// `Duration::from_secs`: a duration of `secs` whole seconds.
pub assume_specification[ Duration::from_secs ](secs: u64) -> (r: Duration)
    ensures
        duration_nanos(r) == secs * 1_000_000_000,
;

/// `Duration::from_millis`: a duration of `millis` milliseconds.
pub assume_specification[ Duration::from_millis ](millis: u64) -> (r: Duration)
    ensures
        duration_nanos(r) == millis * 1_000_000,
;

/// `Duration::from_micros`: a duration of `micros` microseconds.
pub assume_specification[ Duration::from_micros ](micros: u64) -> (r: Duration)
    ensures
        duration_nanos(r) == micros * 1_000,
;

/// `Instant::now`: the current point in time. Nothing is stated of it: it
/// depends on the clock.
pub assume_specification[ Instant::now ]() -> Instant;

/// `Instant::elapsed`: the time that has passed since `since`. Nothing is
/// stated of it: it depends on the clock.
pub assume_specification[ Instant::elapsed ](since: &Instant) -> Duration;

/// `Duration::clone`: durations are copied, so the clone is the same
/// duration.
pub assume_specification[ <Duration as Clone>::clone ](d: &Duration) -> (r: Duration)
    ensures
        r == *d,
;

/// `Instant::clone`: instants are copied, so the clone is the same
/// instant.
pub assume_specification[ <Instant as Clone>::clone ](i: &Instant) -> (r: Instant)
    ensures
        r == *i,
;

/// Whether a duration is at least as long as another.
pub fn duration_at_least(d: &Duration, bound: &Duration) -> (r: bool)
    ensures
        r == (duration_nanos(*d) >= duration_nanos(*bound)),
{
    d.as_nanos() >= bound.as_nanos()
}

} // verus!
