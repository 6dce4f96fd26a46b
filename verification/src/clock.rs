use vstd::prelude::*;

verus! {

/// The monotonic clock instant of the standard library.
#[verifier::external_type_specification]
#[verifier::external_body]
pub struct ExInstant(std::time::Instant);

/// Reads the monotonic clock (`std::time::Instant::now`). Nothing is claimed
/// of the instant returned.
#[verifier::external_body]
pub(crate) fn instant_now() -> std::time::Instant {
    std::time::Instant::now()
}

/// The time elapsed since `epoch` (`std::time::Instant::elapsed`). The span
/// depends on when the clock is read, so nothing is claimed of it.
#[verifier::external_body]
pub(crate) fn instant_elapsed(epoch: &std::time::Instant) -> std::time::Duration {
    epoch.elapsed()
}

/// The whole microseconds of a standard-library span
/// (`std::time::Duration::as_micros`). The standard span is opaque here, so
/// the count is not tied to it by any clause.
#[verifier::external_body]
pub(crate) fn std_duration_micros(span: std::time::Duration) -> u128 {
    span.as_micros()
}

} // verus!
