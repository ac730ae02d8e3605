//! The monotonic clock the harness measures with. A clock reading depends on
//! when it is taken, so nothing is promised of these values: every
//! measurement is reported as observed, never reasoned about.

use vstd::prelude::*;

verus! {

#[verifier::external_type_specification]
#[verifier::external_body]
pub struct ExInstant(std::time::Instant);

/// Relies on std's `Instant::now`: an opaque reading of the monotonic clock.
pub assume_specification[ std::time::Instant::now ]() -> std::time::Instant;

/// Relies on std's `Instant::elapsed`: the time since the reading was taken,
/// which depends on the clock, so nothing is promised of it.
pub assume_specification[ std::time::Instant::elapsed ](
    start: &std::time::Instant,
) -> std::time::Duration;

/// Relies on std's `Duration::as_nanos`: the duration in whole nanoseconds.
pub assume_specification[ std::time::Duration::as_nanos ](d: &std::time::Duration) -> u128;

} // verus!
