//! The monotonic clock, read through std's `Instant` and `Duration`.

use vstd::prelude::*;

verus! {

/// `std::time::Instant`, carried through the library unopened.
#[verifier::external_type_specification]
#[verifier::external_body]
pub struct ExInstant(std::time::Instant);

/// `Instant::now()`: the current instant. It depends on the time, so nothing
/// is stated of it.
#[verifier::external_body]
pub(crate) fn instant_now() -> (r: std::time::Instant) {
    std::time::Instant::now()
}

/// `Duration::from_millis`: a span of `ms` milliseconds, carried unopened.
#[verifier::external_body]
pub(crate) fn duration_from_millis(ms: u64) -> (r: std::time::Duration) {
    std::time::Duration::from_millis(ms)
}

/// `Instant::checked_add`: `at` advanced by `span`, or `None` where the
/// platform clock cannot represent that instant. Which of the two comes back
/// depends on the platform's clock, so nothing is stated of it.
#[verifier::external_body]
pub(crate) fn instant_checked_add(at: &std::time::Instant, span: std::time::Duration) -> (r: Option<std::time::Instant>) {
    at.checked_add(span)
}

/// `Instant::checked_duration_since`: the span from `earlier` to `later`, or
/// `None` where `earlier` is after `later`. Instants are opaque here, so
/// nothing is stated of it.
#[verifier::external_body]
pub(crate) fn instant_checked_duration_since(later: &std::time::Instant, earlier: std::time::Instant) -> (r: Option<std::time::Duration>) {
    later.checked_duration_since(earlier)
}

/// `Duration::as_nanos`: the whole nanoseconds of `span`. Durations are
/// opaque here, so nothing is stated of it.
#[verifier::external_body]
pub(crate) fn duration_as_nanos(span: &std::time::Duration) -> (r: u128) {
    span.as_nanos()
}

/// The instant `ms` milliseconds from now, or `None` where the clock cannot
/// represent it.
pub(crate) fn instant_after_ms(ms: u64) -> (r: Option<std::time::Instant>) {
    let now = instant_now();
    instant_checked_add(&now, duration_from_millis(ms))
}

/// The whole nanoseconds from now until `until`: `Some(0)` at `until`
/// itself, `None` once `until` lies in the past.
pub(crate) fn nanos_until(until: &std::time::Instant) -> (r: Option<u128>) {
    match instant_checked_duration_since(until, instant_now()) {
        Some(span) => Some(duration_as_nanos(&span)),
        None => None,
    }
}

} // verus!
