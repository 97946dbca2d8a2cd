//! CPU time of a thread on macOS, read with `thread_info`.

use crate::timing::samples::median_of;
use crate::timing::timer::{compensate, Calibratable, CpuTimer, TimerSource, TimingError};
use vstd::prelude::*;

verus! {

/// Time of a thread as `thread_info` gives it: in user mode and in the kernel.
#[derive(Debug, Clone, Copy)]
pub struct ThreadUsage {
    /// Whole seconds in user mode.
    pub user_secs: u64,
    /// Microseconds beyond them.
    pub user_micros: u64,
    /// Whole seconds in the kernel.
    pub system_secs: u64,
    /// Microseconds beyond them.
    pub system_micros: u64,
}

impl ThreadUsage {
    /// The time in nanoseconds, at most `u64::MAX`.
    pub open spec fn ns_spec(self) -> u64 {
        let total = self.user_secs * 1_000_000_000 + self.user_micros * 1_000 + self.system_secs
            * 1_000_000_000 + self.system_micros * 1_000;
        if total > u64::MAX {
            u64::MAX
        } else {
            total as u64
        }
    }

    /// The time in nanoseconds, at most `u64::MAX`.
    pub fn to_ns(&self) -> (ns: u64)
        ensures
            ns == self.ns_spec(),
    {
        let total: u128 = self.user_secs as u128 * 1_000_000_000 + self.user_micros as u128 * 1_000
            + self.system_secs as u128 * 1_000_000_000 + self.system_micros as u128 * 1_000;
        if total > 0xffff_ffff_ffff_ffff {
            u64::MAX
        } else {
            total as u64
        }
    }
}

/// macOS CPU timer.
#[derive(Debug)]
pub struct MacOsTimer {
    overhead_ns: u64,
}

impl MacOsTimer {
    /// Creates a timer without overhead, if a first reading succeeded.
    ///
    /// # Errors
    ///
    /// The error of the first reading.
    pub fn new(first_reading: Result<ThreadUsage, TimingError>) -> (result: Result<
        Self,
        TimingError,
    >)
        ensures
            match first_reading {
                Ok(_) => result matches Ok(timer) && timer.overhead() == 0,
                Err(error) => result == Err::<Self, TimingError>(error),
            },
    {
        match first_reading {
            Ok(_) => Ok(MacOsTimer { overhead_ns: 0 }),
            Err(error) => Err(error),
        }
    }
}

impl CpuTimer for MacOsTimer {
    closed spec fn overhead(&self) -> u64 {
        self.overhead_ns
    }

    open spec fn source(&self) -> TimerSource {
        TimerSource::MacOs
    }

    open spec fn name(&self) -> Seq<char> {
        "macOS (thread_info)"@
    }

    fn thread_cpu_time_ns(&self, raw: Result<u64, TimingError>) -> (result: Result<
        u64,
        TimingError,
    >) {
        compensate(raw, self.overhead_ns)
    }

    fn calibrated_overhead_ns(&self) -> (overhead_ns: u64) {
        self.overhead_ns
    }

    fn platform_name(&self) -> (name: &'static str) {
        "macOS (thread_info)"
    }
}

impl Calibratable for MacOsTimer {
    fn calibrate(&mut self, overheads: Result<Vec<u64>, TimingError>) -> (result: Result<
        (),
        TimingError,
    >) {
        match overheads {
            Ok(samples) => {
                self.overhead_ns = median_of(samples);
                Ok(())
            },
            Err(error) => Err(error),
        }
    }

    fn measure_overhead(&self, overheads: Vec<u64>) -> (overhead_ns: u64) {
        median_of(overheads)
    }
}

/// A reading is a whole number of microseconds, unless it is cut at the top.
pub proof fn readings_have_microsecond_resolution(usage: ThreadUsage)
    requires
        usage.ns_spec() < u64::MAX,
    ensures
        usage.ns_spec() % 1_000 == 0,
{
}

/// The time is that in user mode and that in the kernel together, as far as 64 bits go.
pub proof fn thread_usage_adds_up(usage: ThreadUsage)
    ensures
        ({
            let seconds = usage.user_secs + usage.system_secs;
            let micros = usage.user_micros + usage.system_micros;
            let ns = seconds * 1_000_000_000 + micros * 1_000;
            &&& ns <= u64::MAX ==> usage.ns_spec() == ns
            &&& ns > u64::MAX ==> usage.ns_spec() == u64::MAX
        }),
{
}

} // verus!
