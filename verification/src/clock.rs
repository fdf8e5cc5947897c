//! Wall-clock time, as far as the timers need it.

use std::time::{Duration, Instant};
use vstd::prelude::*;

verus! {

/// `std::time::Instant`, a point on the monotonic clock. Nothing is known of
/// what a value holds.
#[verifier::external_type_specification]
#[verifier::external_body]
pub struct ExInstant(std::time::Instant);

/// `Instant::now` returns the present instant. Nothing is claimed of it.
pub assume_specification[ std::time::Instant::now ]() -> (now: Instant);

/// `Instant::elapsed` returns the time that has passed since the instant.
/// Nothing is claimed of it.
pub assume_specification[ std::time::Instant::elapsed ](start: &Instant) -> (elapsed: Duration);

/// `Duration::as_secs` returns the whole seconds of a duration. Nothing is
/// claimed of their number.
pub assume_specification[ core::time::Duration::as_secs ](duration: &Duration) -> (secs: u64);

/// `Duration::subsec_nanos` returns the part of a duration beyond its whole
/// seconds, in nanoseconds: less than one second, as its documentation says.
pub assume_specification[ core::time::Duration::subsec_nanos ](duration: &Duration) -> (nanos: u32)
    ensures
        nanos < 1_000_000_000,
;

/// The instant of the last timer update.
pub struct TickClock {
    last_instant: Instant,
}

impl TickClock {
    /// A clock whose last update is now.
    pub fn start() -> (clock: Self) {
        TickClock { last_instant: Instant::now() }
    }

    /// The time since the last update, as whole seconds and the nanoseconds
    /// beyond them.
    pub fn elapsed(&self) -> (since: (u64, u32))
        ensures
            since.1 < 1_000_000_000,
    {
        let elapsed = self.last_instant.elapsed();
        (elapsed.as_secs(), elapsed.subsec_nanos())
    }

    /// Records now as the instant of the last update.
    pub fn restart(&mut self) {
        self.last_instant = Instant::now();
    }
}

} // verus!
