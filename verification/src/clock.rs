//! Declarations for the standard library's clock types, together with the
//! contracts this crate assumes of them. A clock reading depends on the
//! machine, not on the arguments, so nothing is promised about the values;
//! the generation logic is verified for every value they may take.

use vstd::prelude::*;
use std::time::{Duration, Instant, SystemTime, SystemTimeError};

verus! {

#[verifier::external_type_specification]
#[verifier::external_body]
pub struct ExSystemTime(SystemTime);

#[verifier::external_type_specification]
#[verifier::external_body]
pub struct ExSystemTimeError(SystemTimeError);

#[verifier::external_type_specification]
#[verifier::external_body]
pub struct ExInstant(Instant);

/// Relies on std::time::SystemTime::now: the wall clock's reading, about
/// which nothing can be promised.
pub assume_specification [ SystemTime::now ]() -> SystemTime;

/// Relies on std::time::SystemTime::duration_since: the span from `earlier`
/// to `t`, or an error when `earlier` is the later of the two; which of the
/// two comes back depends on the clock, so nothing is promised.
pub assume_specification [ SystemTime::duration_since ](
    t: &SystemTime,
    earlier: SystemTime,
) -> Result<Duration, SystemTimeError>;

/// Relies on std::time::UNIX_EPOCH: the conventional zero point of wall-clock
/// time, an opaque constant.
#[verifier::external_body]
pub fn unix_epoch() -> SystemTime {
    std::time::UNIX_EPOCH
}

/// Relies on core::time::Duration::as_millis: the whole number of
/// milliseconds the duration spans.
pub assume_specification [ Duration::as_millis ](d: &Duration) -> u128;

/// Relies on std::time::Instant::now: a reading of the monotonic clock.
pub assume_specification [ Instant::now ]() -> Instant;

/// Relies on std::time::Instant::elapsed: the time since the instant was
/// taken, saturating to zero, never panicking.
pub assume_specification [ Instant::elapsed ](i: &Instant) -> Duration;

/// Relies on std::hint::spin_loop: a scheduling hint for a busy wait, with no
/// observable effect.
#[verifier::external_body]
pub fn cpu_relax() {
    std::hint::spin_loop()
}

} // verus!
