//! What the timers have in common.

use crate::stopwatch::Stopwatch;
use crate::text::{decimal, decimal_text};
use crate::timing::fallback::FallbackTimer;
use crate::timing::linux::LinuxTimer;
use crate::timing::macos::MacOsTimer;
use crate::timing::samples::median;
use crate::timing::windows::WindowsTimer;
use vstd::prelude::*;
use vstd::string::*;

verus! {

/// CPU timing errors.
#[derive(Debug, Clone)]
pub enum TimingError {
    /// Platform not supported.
    PlatformNotSupported(String),
    /// System call failure.
    SystemCallFailed(String),
    /// Calibration failure.
    CalibrationFailed(String),
    /// Time calculation overflow.
    Overflow,
}

impl TimingError {
    /// The message for users.
    pub open spec fn message_spec(self) -> Seq<char> {
        match self {
            TimingError::PlatformNotSupported(reason) => "Platform not supported: "@ + reason@,
            TimingError::SystemCallFailed(reason) => "System call failed: "@ + reason@,
            TimingError::CalibrationFailed(reason) => "Calibration failed: "@ + reason@,
            TimingError::Overflow => "Time calculation overflow"@,
        }
    }

    /// The message for users.
    pub fn message(&self) -> (text: String)
        ensures
            text@ == self.message_spec(),
    {
        match self {
            TimingError::PlatformNotSupported(reason) => {
                "Platform not supported: ".to_owned().concat(reason.as_str())
            },
            TimingError::SystemCallFailed(reason) => {
                "System call failed: ".to_owned().concat(reason.as_str())
            },
            TimingError::CalibrationFailed(reason) => {
                "Calibration failed: ".to_owned().concat(reason.as_str())
            },
            TimingError::Overflow => "Time calculation overflow".to_owned(),
        }
    }
}

/// A reading of `raw` nanoseconds with the overhead taken off, zero at least. A
/// failed reading stays what it is.
pub open spec fn compensated(raw: Result<u64, TimingError>, overhead_ns: u64) -> Result<
    u64,
    TimingError,
> {
    match raw {
        Ok(ns) => Ok(ns.saturating_sub(overhead_ns)),
        Err(error) => Err(error),
    }
}

/// Takes the overhead off a reading.
pub(crate) fn compensate(raw: Result<u64, TimingError>, overhead_ns: u64) -> (result: Result<
    u64,
    TimingError,
>)
    ensures
        result == compensated(raw, overhead_ns),
{
    match raw {
        Ok(ns) => Ok(ns.saturating_sub(overhead_ns)),
        Err(error) => Err(error),
    }
}

/// What a timer reads the time from.
pub enum TimerSource {
    /// The clock of a thread on Linux.
    Linux,
    /// The usage of a thread on macOS.
    MacOs,
    /// The cycles of a thread on Windows, so many per second.
    Windows(u64),
    /// A watch.
    Fallback(Stopwatch),
}

/// CPU timer.
pub trait CpuTimer {
    /// The calibrated overhead (ns).
    spec fn overhead(&self) -> u64;

    /// What the time is read from.
    spec fn source(&self) -> TimerSource;

    /// The platform name.
    spec fn name(&self) -> Seq<char>;

    /// CPU time of the thread from a raw reading, both in nanoseconds.
    fn thread_cpu_time_ns(&self, raw: Result<u64, TimingError>) -> (result: Result<
        u64,
        TimingError,
    >)
        ensures
            result == compensated(raw, self.overhead()),
    ;

    /// Measurement overhead (ns).
    fn calibrated_overhead_ns(&self) -> (overhead_ns: u64)
        ensures
            overhead_ns == self.overhead(),
    ;

    /// Platform name.
    fn platform_name(&self) -> (name: &'static str)
        ensures
            name@ == self.name(),
    ;
}

/// Timer whose overhead can be calibrated.
pub trait Calibratable: CpuTimer + Sized {
    /// Calibrates the overhead with the median of these samples. Samples that could
    /// not be taken change nothing.
    fn calibrate(&mut self, overheads: Result<Vec<u64>, TimingError>) -> (result: Result<
        (),
        TimingError,
    >)
        ensures
            final(self).name() == old(self).name(),
            final(self).source() == old(self).source(),
            match overheads {
                Ok(samples) => result is Ok && final(self).overhead() == median(samples@),
                Err(error) => result == Err::<(), TimingError>(error) && *final(self) == *old(
                    self,
                ),
            },
    ;

    /// The overhead that these samples amount to: their median, zero of none.
    fn measure_overhead(&self, overheads: Vec<u64>) -> (overhead_ns: u64)
        ensures
            overhead_ns == median(overheads@),
    ;
}

/// Timer of one platform.
#[derive(Debug)]
pub enum PlatformTimer {
    /// Linux.
    Linux(LinuxTimer),
    /// macOS.
    MacOs(MacOsTimer),
    /// Windows.
    Windows(WindowsTimer),
    /// Any other platform.
    Fallback(FallbackTimer),
}

impl PlatformTimer {
    /// A raw reading that the timer can take itself: only the fallback timer has a
    /// clock of its own.
    pub fn own_reading(&self) -> (reading: Option<u64>)
        ensures
            match *self {
                PlatformTimer::Fallback(timer) => reading matches Some(raw) && timer.raw_shown(raw),
                _ => reading is None,
            },
    {
        match self {
            PlatformTimer::Fallback(timer) => Some(timer.get_time_raw()),
            _ => None,
        }
    }

    /// Calibrates the overhead with the median of these samples.
    pub fn calibrate(&mut self, overheads: Result<Vec<u64>, TimingError>) -> (result: Result<
        (),
        TimingError,
    >)
        ensures
            final(self).name() == old(self).name(),
            final(self).source() == old(self).source(),
            match overheads {
                Ok(samples) => result is Ok && final(self).overhead() == median(samples@),
                Err(error) => result == Err::<(), TimingError>(error) && *final(self) == *old(
                    self,
                ),
            },
    {
        match self {
            PlatformTimer::Linux(timer) => timer.calibrate(overheads),
            PlatformTimer::MacOs(timer) => timer.calibrate(overheads),
            PlatformTimer::Windows(timer) => timer.calibrate(overheads),
            PlatformTimer::Fallback(timer) => timer.calibrate(overheads),
        }
    }
}

impl CpuTimer for PlatformTimer {
    open spec fn overhead(&self) -> u64 {
        match *self {
            PlatformTimer::Linux(timer) => timer.overhead(),
            PlatformTimer::MacOs(timer) => timer.overhead(),
            PlatformTimer::Windows(timer) => timer.overhead(),
            PlatformTimer::Fallback(timer) => timer.overhead(),
        }
    }

    open spec fn source(&self) -> TimerSource {
        match *self {
            PlatformTimer::Linux(timer) => timer.source(),
            PlatformTimer::MacOs(timer) => timer.source(),
            PlatformTimer::Windows(timer) => timer.source(),
            PlatformTimer::Fallback(timer) => timer.source(),
        }
    }

    open spec fn name(&self) -> Seq<char> {
        match *self {
            PlatformTimer::Linux(timer) => timer.name(),
            PlatformTimer::MacOs(timer) => timer.name(),
            PlatformTimer::Windows(timer) => timer.name(),
            PlatformTimer::Fallback(timer) => timer.name(),
        }
    }

    fn thread_cpu_time_ns(&self, raw: Result<u64, TimingError>) -> (result: Result<
        u64,
        TimingError,
    >) {
        match self {
            PlatformTimer::Linux(timer) => timer.thread_cpu_time_ns(raw),
            PlatformTimer::MacOs(timer) => timer.thread_cpu_time_ns(raw),
            PlatformTimer::Windows(timer) => timer.thread_cpu_time_ns(raw),
            PlatformTimer::Fallback(timer) => timer.thread_cpu_time_ns(raw),
        }
    }

    fn calibrated_overhead_ns(&self) -> (overhead_ns: u64) {
        match self {
            PlatformTimer::Linux(timer) => timer.calibrated_overhead_ns(),
            PlatformTimer::MacOs(timer) => timer.calibrated_overhead_ns(),
            PlatformTimer::Windows(timer) => timer.calibrated_overhead_ns(),
            PlatformTimer::Fallback(timer) => timer.calibrated_overhead_ns(),
        }
    }

    fn platform_name(&self) -> (name: &'static str) {
        match self {
            PlatformTimer::Linux(timer) => timer.platform_name(),
            PlatformTimer::MacOs(timer) => timer.platform_name(),
            PlatformTimer::Windows(timer) => timer.platform_name(),
            PlatformTimer::Fallback(timer) => timer.platform_name(),
        }
    }
}

/// Makes the timer to use: the native one, calibrated with these samples if they
/// could be taken, or the fallback timer where there is no native one.
#[must_use]
pub fn create_cpu_timer(
    native: Result<PlatformTimer, TimingError>,
    overheads: Result<Vec<u64>, TimingError>,
) -> (timer: PlatformTimer)
    ensures
        match native {
            Ok(found) => {
                &&& timer.name() == found.name()
                &&& timer.source() == found.source()
                &&& timer.overhead() == (match overheads {
                    Ok(samples) => median(samples@),
                    Err(_) => found.overhead() as int,
                })
            },
            Err(_) => timer matches PlatformTimer::Fallback(fallback)
                && fallback.freshly_calibrated(),
        },
{
    match native {
        Ok(timer) => {
            let mut timer = timer;
            let _ = timer.calibrate(overheads);
            timer
        },
        Err(_) => PlatformTimer::Fallback(FallbackTimer::new()),
    }
}

/// The timer to use always works: it has a name, and every reading that succeeded
/// gives a time, no later than the reading; of two readings the later one never gives
/// the earlier time. A reading that failed stays what it is.
pub proof fn timer_is_usable(timer: PlatformTimer, earlier: u64, later: u64, error: TimingError)
    requires
        earlier <= later,
    ensures
        timer.name().len() > 0,
        compensated(Ok(earlier), timer.overhead()) matches Ok(ns) && ns <= earlier,
        compensated(Ok(earlier), timer.overhead())->Ok_0 <= compensated(
            Ok(later),
            timer.overhead(),
        )->Ok_0,
        compensated(Err(error), timer.overhead()) == Err::<u64, TimingError>(error),
{
    reveal_strlit("Linux (clock_gettime)");
    reveal_strlit("macOS (thread_info)");
    reveal_strlit("Windows (QueryThreadCycleTime)");
    reveal_strlit("Fallback (Instant::now - WARNING: measures wall time, not CPU time)");
}

/// Facts about a timer.
#[derive(Debug, Clone)]
pub struct TimerInfo {
    /// Platform name.
    pub platform: String,
    /// Expected overhead (ns).
    pub overhead_ns: u64,
    /// Timer resolution (ns).
    pub resolution_ns: u64,
    /// CPU time rather than wall time.
    pub measures_cpu_time: bool,
}

impl TimerInfo {
    /// The facts in one line.
    pub open spec fn text_spec(self) -> Seq<char> {
        "Timer["@ + self.platform@ + ": overhead="@ + decimal(self.overhead_ns as nat)
            + "ns, resolution="@ + decimal(self.resolution_ns as nat) + "ns, cpu_time="@ + (
        if self.measures_cpu_time {
            "true"@
        } else {
            "false"@
        }) + "]"@
    }

    /// The facts in one line.
    pub fn to_text(&self) -> (text: String)
        ensures
            text@ == self.text_spec(),
    {
        let mut text = "Timer[".to_owned();
        text.append(self.platform.as_str());
        text.append(": overhead=");
        text.append(decimal_text(self.overhead_ns).as_str());
        text.append("ns, resolution=");
        text.append(decimal_text(self.resolution_ns).as_str());
        text.append("ns, cpu_time=");
        if self.measures_cpu_time {
            text.append("true");
        } else {
            text.append("false");
        }
        text.append("]");
        text
    }
}

/// Later readings never give earlier times, whatever the overhead.
pub proof fn compensation_keeps_order(earlier: u64, later: u64, overhead_ns: u64)
    requires
        earlier <= later,
    ensures
        compensated(Ok(earlier), overhead_ns)->Ok_0 <= compensated(Ok(later), overhead_ns)->Ok_0,
        compensated(Ok(later), overhead_ns)->Ok_0 <= later,
{
}

/// The overhead is taken off a reading, which never falls below zero; a failure is
/// passed on.
pub proof fn overhead_is_taken_off(raw: u64, overhead_ns: u64, error: TimingError)
    ensures
        compensated(Ok(raw), overhead_ns) == Ok::<u64, TimingError>(
            (if raw > overhead_ns { raw - overhead_ns } else { 0 }) as u64,
        ),
        compensated(Err(error), overhead_ns) == Err::<u64, TimingError>(error),
{
}

} // verus!
