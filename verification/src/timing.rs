//! Wall-clock timing of the pipeline's named phases.
//!
//! A [`StageTimer`] is started when a phase begins and read when it ends.
//! Time is not a function of the program being run, so nothing is promised
//! of the recorded values; what the pipeline's contracts pin down is which
//! phases were reached and therefore which durations are reported at all.

use vstd::prelude::*;

verus! {

#[verifier::external_type_specification]
#[verifier::external_body]
pub struct ExInstant(std::time::Instant);

/// Relies on `std::time::Instant::now`: an opaque point in time.  Nothing is
/// promised of it.
pub assume_specification[ std::time::Instant::now ]() -> std::time::Instant;

/// Relies on `std::time::Instant::elapsed`: the duration since the instant.
/// Nothing is promised of it.
pub assume_specification[ std::time::Instant::elapsed ](
    i: &std::time::Instant,
) -> core::time::Duration;

/// Relies on `core::time::Duration::as_millis`: the duration in whole
/// milliseconds.  Nothing is promised of it.
pub assume_specification[ core::time::Duration::as_millis ](
    d: &core::time::Duration,
) -> u128;

/// Records when a phase of the pipeline began.
pub struct StageTimer {
    start: std::time::Instant,
}

impl StageTimer {
    /// Start timing a phase.
    pub fn start() -> StageTimer {
        StageTimer { start: std::time::Instant::now() }
    }

    /// Whole milliseconds elapsed since the phase began.
    pub fn elapsed_ms(&self) -> u64 {
        let d = self.start.elapsed();
        let ms: u128 = d.as_millis();
        #[verifier::truncate] (ms as u64)
    }
}

} // verus!
