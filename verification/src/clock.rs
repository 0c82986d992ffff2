//! Trusted access to the platform clocks.
//!
//! Nothing can be promised about a clock reading, so the wrappers state
//! nothing; the scheduler makes its monotonicity guarantees hold for every
//! value these can return.

use vstd::prelude::*;

verus! {

#[verifier::external_type_specification]
#[verifier::external_body]
pub struct ExInstant(std::time::Instant);

#[verifier::external_type_specification]
#[verifier::external_body]
pub struct ExSystemTime(std::time::SystemTime);

/// Relies on std::time::Instant::now: an opaque reading of the monotonic clock.
#[verifier::external_body]
pub(crate) fn instant_now() -> std::time::Instant {
    std::time::Instant::now()
}

/// Relies on std::time::Instant::elapsed: the time since the reading was
/// taken, converted to nanoseconds (truncated into 64 bits).
#[verifier::external_body]
pub(crate) fn instant_elapsed_ns(t: &std::time::Instant) -> u64 {
    t.elapsed().as_nanos() as u64
}

/// Relies on std::time::SystemTime::now: an opaque reading of the wall clock.
#[verifier::external_body]
pub(crate) fn system_time_now() -> std::time::SystemTime {
    std::time::SystemTime::now()
}

/// Relies on std::time::SystemTime::duration_since: nanoseconds between the
/// Unix epoch and the reading, converted into 64 bits; 0 when the reading
/// lies before the epoch.
#[verifier::external_body]
pub(crate) fn since_unix_epoch_ns(t: &std::time::SystemTime) -> u64 {
    t.duration_since(std::time::UNIX_EPOCH).unwrap_or_default().as_nanos() as u64
}

} // verus!
