//! A millisecond stopwatch with a movable checkpoint, used by the
//! surrounding loop to report how long startup stages and redraws take.
//!
//! What the clock returns depends on the machine, so nothing is promised of
//! the measured values beyond freedom from panics: the reading saturates at
//! zero rather than underflow if the clock ever misbehaves.

use vstd::prelude::*;

verus! {

#[verifier::external_type_specification]
#[verifier::external_body]
pub struct ExInstant(std::time::Instant);

/// Relies on `std::time::Instant::now`; which instant comes back depends on
/// the clock, so nothing is promised of it.
#[verifier::external_body]
fn instant_now() -> std::time::Instant {
    std::time::Instant::now()
}

/// Relies on `Instant::elapsed`; the result depends on the clock, so nothing
/// is promised of it.
#[verifier::external_body]
fn instant_elapsed(i: &std::time::Instant) -> std::time::Duration {
    i.elapsed()
}

/// Relies on `Duration::as_millis`.
#[verifier::external_body]
fn duration_as_millis(d: &std::time::Duration) -> u128 {
    d.as_millis()
}

pub struct Timer {
    time: std::time::Instant,
    prev: u128,
}

impl Timer {
    /// Start a stopwatch; the checkpoint is the moment of creation.
    pub fn new() -> Self {
        let time = instant_now();
        let d = instant_elapsed(&time);
        let prev = duration_as_millis(&d);
        Timer { time, prev }
    }

    /// Milliseconds since the last checkpoint.
    pub fn elapsed(&self) -> u128 {
        let d = instant_elapsed(&self.time);
        let now = duration_as_millis(&d);
        if now >= self.prev {
            now - self.prev
        } else {
            0
        }
    }

    /// Move the checkpoint to now.
    pub fn checkpoint(&mut self) {
        let d = instant_elapsed(&self.time);
        self.prev = duration_as_millis(&d);
    }
}

} // verus!
