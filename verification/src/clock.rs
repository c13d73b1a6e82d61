//! The monotonic clock. What it returns depends on when it is asked, so the
//! contracts of this module promise nothing about the values.

use vstd::prelude::*;

verus! {

#[verifier::external_type_specification]
#[verifier::external_body]
pub struct ExInstant(std::time::Instant);

/// Nanoseconds in one second.
pub const NANOS_PER_SECOND: u128 = 1_000_000_000;

/// Nanoseconds in one millisecond.
pub const NANOS_PER_MILLI: u128 = 1_000_000;

/// Trusted: `Instant::now`, the current reading of the monotonic clock.
#[verifier::external_body]
pub(crate) fn now() -> (instant: std::time::Instant) {
    std::time::Instant::now()
}

/// Trusted: `Instant::elapsed`, the time that has passed since `start`.
#[verifier::external_body]
pub(crate) fn elapsed_since(start: &std::time::Instant) -> (elapsed: std::time::Duration) {
    start.elapsed()
}

/// The number of nanoseconds that `Duration::as_nanos` returns for a duration.
pub uninterp spec fn duration_nanos(duration: std::time::Duration) -> nat;

/// Trusted: `Duration::as_nanos`, the whole duration in nanoseconds.
#[verifier::external_body]
pub(crate) fn as_nanos(duration: &std::time::Duration) -> (nanos: u128)
    ensures
        nanos == duration_nanos(*duration),
{
    duration.as_nanos()
}

/// Nanoseconds that have passed since `start`.
pub(crate) fn nanos_since(start: &std::time::Instant) -> (nanos: u128) {
    let elapsed = elapsed_since(start);
    as_nanos(&elapsed)
}

/// Whole milliseconds in a number of nanoseconds.
pub fn nanos_to_millis(nanos: u128) -> (millis: u128)
    ensures
        millis == nanos / 1_000_000,
{
    nanos / NANOS_PER_MILLI
}

/// Whole seconds as nanoseconds.
pub fn seconds_to_nanos(seconds: u64) -> (nanos: u128)
    ensures
        nanos == seconds * 1_000_000_000,
{
    (seconds as u128) * NANOS_PER_SECOND
}

} // verus!
