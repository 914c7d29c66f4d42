//! Elapsed-time measurement.
//!
//! The current time comes from `std::time::Instant`; nothing is known of the values
//! it hands out, so the functions here promise nothing about the durations they
//! return.

use vstd::prelude::*;
use std::time::{Duration, Instant};

verus! {

#[verifier::external_type_specification]
#[verifier::external_body]
pub struct ExInstant(std::time::Instant);

/// Relies on `Instant::now` for the current time; nothing is known of the result.
pub assume_specification[ std::time::Instant::now ]() -> std::time::Instant;

/// Relies on `Instant::elapsed` for the time passed since an instant; nothing is
/// known of the result.
pub assume_specification[ std::time::Instant::elapsed ](i: &std::time::Instant) -> core::time::Duration;

/// Relies on `Duration::as_millis` for the whole milliseconds of a duration.
pub assume_specification[ core::time::Duration::as_millis ](d: &core::time::Duration) -> u128;

/// Measures the time since it was created or last reset.
pub struct Timer {
    time: Instant,
}

impl Timer {
    /// Creates a timer that starts now.
    pub fn new() -> (r: Timer) {
        Timer { time: Instant::now() }
    }

    /// Restarts the timer from now.
    pub fn reset(&mut self) {
        self.time = Instant::now();
    }

    /// The time since the timer was created or last reset.
    pub fn get_time(&self) -> (r: Duration) {
        self.time.elapsed()
    }
}

} // verus!
