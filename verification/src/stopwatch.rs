//! A monotonic clock that counts from the moment it was started.

use vstd::prelude::*;

verus! {

/// `std::time::Instant`, a point on the machine's monotonic clock.
#[verifier::external_type_specification]
#[verifier::external_body]
pub struct ExInstant(std::time::Instant);

/// Calls `std::time::Instant::now`. Which instant comes back depends on the
/// machine's clock, so nothing is claimed of it.
#[verifier::external_body]
fn instant_now() -> std::time::Instant {
    std::time::Instant::now()
}

/// Calls `std::time::Instant::elapsed` and turns the duration into whole
/// nanoseconds. How much time has passed depends on the machine's clock, so
/// nothing is claimed of it.
#[verifier::external_body]
fn nanos_since(start: &std::time::Instant) -> u128 {
    start.elapsed().as_nanos()
}

/// Counts nanoseconds from the moment it was started.
#[derive(Debug, Clone, Copy)]
pub struct Stopwatch {
    started: std::time::Instant,
}

impl Stopwatch {
    /// Whether the watch counts from an instant that `Instant::now` gave.
    pub closed spec fn started_by_clock(self) -> bool {
        call_ensures(instant_now, (), self.started)
    }

    /// Whether `ns` is a reading of this watch: nanoseconds that `Instant::elapsed`
    /// gave for the instant from which the watch counts. Readings of one watch may
    /// differ.
    pub closed spec fn shows(self, ns: u128) -> bool {
        call_ensures(nanos_since, (&self.started,), ns)
    }

    /// Starts counting from the present instant.
    pub fn start() -> (watch: Self)
        ensures
            watch.started_by_clock(),
    {
        Stopwatch { started: instant_now() }
    }

    /// Nanoseconds since the start.
    pub fn elapsed_ns(&self) -> (ns: u128)
        ensures
            self.shows(ns),
    {
        nanos_since(&self.started)
    }
}

} // verus!
