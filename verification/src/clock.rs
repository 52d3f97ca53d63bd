//! The monotonic clock by which an engine measures how long a word has been
//! on screen.

use vstd::prelude::*;
use std::time::{Duration, Instant};

verus! {

/// `std::time::Instant`, a reading of the monotonic clock. Its contents are
/// hidden from the proofs.
#[verifier::external_type_specification]
#[verifier::external_body]
pub struct ExInstant(Instant);

/// `Instant::now` of the standard library reads the monotonic clock. Nothing
/// is claimed of the reading.
pub assume_specification[ Instant::now ]() -> (now: Instant);

/// `Instant::elapsed` of the standard library gives the time that has passed
/// since the reading was taken. Nothing is claimed of the amount.
pub assume_specification[ Instant::elapsed ](start: &Instant) -> (passed: Duration);

/// `Duration::as_nanos` of the standard library gives a duration as a whole
/// number of nanoseconds. Nothing is claimed of the number.
pub assume_specification[ Duration::as_nanos ](duration: &Duration) -> (nanos: u128);

/// A stopwatch: it counts the nanoseconds since it was started.
pub struct Clock {
    origin: Instant,
}

impl Clock {
    /// Starts a stopwatch at the present moment.
    pub fn start() -> (clock: Clock) {
        Clock { origin: Instant::now() }
    }

    /// Reads the stopwatch: the nanoseconds since it was started. The
    /// reading depends on the moment of the call, so nothing is known of
    /// it beforehand.
    pub fn nanos(&self) -> (now: u128) {
        let passed = self.origin.elapsed();
        passed.as_nanos()
    }
}

} // verus!
