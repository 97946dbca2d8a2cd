//! CPU time of a thread on Linux, read with `clock_gettime`.

use crate::timing::samples::median_of;
use crate::timing::timer::{compensate, Calibratable, CpuTimer, TimerSource, TimingError};
use vstd::prelude::*;

verus! {

/// Time of a thread as `clock_gettime` gives it.
#[derive(Debug, Clone, Copy)]
pub struct ThreadTime {
    /// Whole seconds.
    pub secs: u64,
    /// Nanoseconds beyond them.
    pub nanos: u64,
}

impl ThreadTime {
    /// The time in nanoseconds, at most `u64::MAX`.
    pub open spec fn ns_spec(self) -> u64 {
        let total = self.secs * 1_000_000_000 + self.nanos;
        if total > u64::MAX {
            u64::MAX
        } else {
            total as u64
        }
    }

    /// The time in nanoseconds, at most `u64::MAX`.
    pub fn to_ns(&self) -> (ns: u64)
        ensures
            ns == self.ns_spec(),
    {
        let total: u128 = self.secs as u128 * 1_000_000_000 + self.nanos as u128;
        if total > 0xffff_ffff_ffff_ffff {
            u64::MAX
        } else {
            total as u64
        }
    }
}

/// Linux CPU timer.
#[derive(Debug)]
pub struct LinuxTimer {
    overhead_ns: u64,
}

impl LinuxTimer {
    /// Creates a timer without overhead, if a first reading succeeded.
    ///
    /// # Errors
    ///
    /// The error of the first reading.
    pub fn new(first_reading: Result<ThreadTime, TimingError>) -> (result: Result<
        Self,
        TimingError,
    >)
        ensures
            match first_reading {
                Ok(_) => result matches Ok(timer) && timer.overhead() == 0,
                Err(error) => result == Err::<Self, TimingError>(error),
            },
    {
        match first_reading {
            Ok(_) => Ok(LinuxTimer { overhead_ns: 0 }),
            Err(error) => Err(error),
        }
    }
}

impl CpuTimer for LinuxTimer {
    closed spec fn overhead(&self) -> u64 {
        self.overhead_ns
    }

    open spec fn source(&self) -> TimerSource {
        TimerSource::Linux
    }

    open spec fn name(&self) -> Seq<char> {
        "Linux (clock_gettime)"@
    }

    fn thread_cpu_time_ns(&self, raw: Result<u64, TimingError>) -> (result: Result<
        u64,
        TimingError,
    >) {
        compensate(raw, self.overhead_ns)
    }

    fn calibrated_overhead_ns(&self) -> (overhead_ns: u64) {
        self.overhead_ns
    }

    fn platform_name(&self) -> (name: &'static str) {
        "Linux (clock_gettime)"
    }
}

impl Calibratable for LinuxTimer {
    fn calibrate(&mut self, overheads: Result<Vec<u64>, TimingError>) -> (result: Result<
        (),
        TimingError,
    >) {
        match overheads {
            Ok(samples) => {
                self.overhead_ns = median_of(samples);
                Ok(())
            },
            Err(error) => Err(error),
        }
    }

    fn measure_overhead(&self, overheads: Vec<u64>) -> (overhead_ns: u64) {
        median_of(overheads)
    }
}

/// The time is a thousand million nanoseconds for each second and the nanoseconds beyond,
/// as far as 64 bits go.
pub proof fn thread_time_adds_up(time: ThreadTime)
    ensures
        time.secs * 1_000_000_000 + time.nanos <= u64::MAX ==> time.ns_spec() == time.secs
            * 1_000_000_000 + time.nanos,
        time.secs * 1_000_000_000 + time.nanos > u64::MAX ==> time.ns_spec() == u64::MAX,
{
}

} // verus!
