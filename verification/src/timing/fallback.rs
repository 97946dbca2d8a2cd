//! Timer for platforms without CPU time: it measures wall time.

use crate::stopwatch::Stopwatch;
use crate::timing::samples::{
    median, median_of, overhead_between, overhead_spec, CALIBRATION_SAMPLES, OVERHEAD_SAMPLES,
    WARM_UP_READINGS,
};
use crate::timing::timer::{
    compensate, compensated, Calibratable, CpuTimer, TimerSource, TimingError,
};
use vstd::prelude::*;

verus! {

/// Fallback timer. It measures wall time, not CPU time.
#[derive(Debug)]
pub struct FallbackTimer {
    start_time: Stopwatch,
    overhead_ns: u64,
}

impl FallbackTimer {
    /// The watch that was started with the timer.
    pub closed spec fn watch(self) -> Stopwatch {
        self.start_time
    }

    /// Whether `ns` is a reading of the watch that was started with the timer.
    pub open spec fn clock_shows(self, ns: u128) -> bool {
        self.watch().shows(ns)
    }

    /// Whether `raw` is a raw reading: the low 64 bits of what the watch showed.
    pub open spec fn raw_shown(self, raw: u64) -> bool {
        watch_showed(self.watch(), raw)
    }

    /// Whether this timer was just made: its watch was started, and its overhead is
    /// the median of a calibration's samples, taken with that watch.
    pub open spec fn freshly_calibrated(self) -> bool {
        &&& self.watch().started_by_clock()
        &&& exists|samples: Seq<u64>|
            {
                &&& samples.len() == CALIBRATION_SAMPLES
                &&& samples_taken(self.watch(), samples)
                &&& self.overhead() == #[trigger] median(samples)
            }
    }

    /// Creates a timer and calibrates it. The overhead depends on the machine: it
    /// is the median of a calibration's samples.
    pub fn new() -> (timer: Self)
        ensures
            timer.freshly_calibrated(),
    {
        let mut timer = FallbackTimer { start_time: Stopwatch::start(), overhead_ns: 0 };
        let mut readings: usize = 0;
        while readings < WARM_UP_READINGS
            invariant
                timer.watch().started_by_clock(),
            decreases WARM_UP_READINGS - readings,
        {
            let _ = timer.get_time_raw();
            readings += 1;
        }
        let samples = timer.sample_overheads(CALIBRATION_SAMPLES);
        let ghost taken = samples@;
        let ghost watch = timer.watch();
        let _ = timer.calibrate(Ok(samples));
        assert(timer.source() == TimerSource::Fallback(watch));
        assert(timer.overhead() == median(taken));
        timer
    }

    /// Time since the timer was created (ns), the low 64 bits of it. It depends on
    /// the machine's clock.
    pub fn get_time_raw(&self) -> (raw: u64)
        ensures
            self.raw_shown(raw),
    {
        let ns: u128 = self.start_time.elapsed_ns();
        assert(self.clock_shows(ns));
        (ns % 0x1_0000_0000_0000_0000) as u64
    }

    /// Takes `count` samples of the overhead between two readings.
    pub fn sample_overheads(&self, count: usize) -> (samples: Vec<u64>)
        ensures
            samples.len() == count,
            samples_taken(self.watch(), samples@),
    {
        let mut samples: Vec<u64> = Vec::new();
        while samples.len() < count
            invariant
                samples.len() <= count,
                samples_taken(self.watch(), samples@),
            decreases count - samples.len(),
        {
            let start: u64 = self.get_time_raw();
            let end: u64 = self.get_time_raw();
            let ghost before = samples@;
            samples.push(overhead_between(start, end));
            proof {
                assert(sample_taken(self.watch(), overhead_spec(start, end)));
                assert forall|i: int| 0 <= i < samples@.len() implies sample_taken(
                    self.watch(),
                    #[trigger] samples@[i],
                ) by {
                    if i < before.len() {
                        assert(samples@[i] == before[i]);
                    }
                }
            }
        }
        samples
    }

    /// Measures the overhead anew, without calibrating.
    pub fn measure_own_overhead(&self) -> (overhead_ns: u64)
        ensures
            exists|samples: Seq<u64>|
                {
                    &&& samples.len() == OVERHEAD_SAMPLES
                    &&& samples_taken(self.watch(), samples)
                    &&& overhead_ns == #[trigger] median(samples)
                },
    {
        let samples = self.sample_overheads(OVERHEAD_SAMPLES);
        let ghost taken = samples@;
        let overhead_ns: u64 = self.measure_overhead(samples);
        assert(overhead_ns == median(taken));
        overhead_ns
    }
}

/// Whether `raw` is the low 64 bits of a reading of this watch.
pub open spec fn watch_showed(watch: Stopwatch, raw: u64) -> bool {
    exists|ns: u128| #[trigger] watch.shows(ns) && raw == ns % 0x1_0000_0000_0000_0000
}

/// Whether `sample` is the overhead between two raw readings of this watch.
pub open spec fn sample_taken(watch: Stopwatch, sample: u64) -> bool {
    exists|start: u64, end: u64|
        {
            &&& watch_showed(watch, start)
            &&& watch_showed(watch, end)
            &&& sample == #[trigger] overhead_spec(start, end)
        }
}

/// Whether each of these is the overhead between two raw readings of this watch.
pub open spec fn samples_taken(watch: Stopwatch, samples: Seq<u64>) -> bool {
    forall|i: int| 0 <= i < samples.len() ==> sample_taken(watch, #[trigger] samples[i])
}

/// The fallback timer never fails and warns of what it measures: of a reading of its
/// watch it gives the time less the overhead, zero at least, later readings never
/// give earlier times, and its name says that it is a fallback, with a warning.
pub proof fn fallback_timer_always_reads(timer: FallbackTimer, earlier: u64, later: u64)
    requires
        earlier <= later,
    ensures
        compensated(Ok(earlier), timer.overhead()) == Ok::<u64, TimingError>(
            earlier.saturating_sub(timer.overhead()),
        ),
        earlier.saturating_sub(timer.overhead()) <= later.saturating_sub(timer.overhead()),
        timer.name().take(8) == "Fallback"@,
        timer.name().subrange(25, 32) == "WARNING"@,
{
    reveal_strlit("Fallback (Instant::now - WARNING: measures wall time, not CPU time)");
    reveal_strlit("Fallback");
    reveal_strlit("WARNING");
    assert(timer.name().take(8) =~= "Fallback"@);
    assert(timer.name().subrange(25, 32) =~= "WARNING"@);
}

impl CpuTimer for FallbackTimer {
    closed spec fn overhead(&self) -> u64 {
        self.overhead_ns
    }

    open spec fn source(&self) -> TimerSource {
        TimerSource::Fallback(self.watch())
    }

    open spec fn name(&self) -> Seq<char> {
        "Fallback (Instant::now - WARNING: measures wall time, not CPU time)"@
    }

    fn thread_cpu_time_ns(&self, raw: Result<u64, TimingError>) -> (result: Result<
        u64,
        TimingError,
    >) {
        compensate(raw, self.overhead_ns)
    }

    fn calibrated_overhead_ns(&self) -> (overhead_ns: u64) {
        self.overhead_ns
    }

    fn platform_name(&self) -> (name: &'static str) {
        "Fallback (Instant::now - WARNING: measures wall time, not CPU time)"
    }
}

impl Calibratable for FallbackTimer {
    fn calibrate(&mut self, overheads: Result<Vec<u64>, TimingError>) -> (result: Result<
        (),
        TimingError,
    >) {
        match overheads {
            Ok(samples) => {
                self.overhead_ns = median_of(samples);
                Ok(())
            },
            Err(error) => Err(error),
        }
    }

    fn measure_overhead(&self, overheads: Vec<u64>) -> (overhead_ns: u64) {
        median_of(overheads)
    }
}

impl Default for FallbackTimer {
    fn default() -> (timer: Self)
        ensures
            timer.freshly_calibrated(),
    {
        FallbackTimer::new()
    }
}

/// A timer that was just made is calibrated with a thousand samples, each the time
/// between two readings of its own watch, zero if the second was earlier.
pub proof fn new_timers_are_calibrated(timer: FallbackTimer)
    requires
        timer.freshly_calibrated(),
    ensures
        timer.watch().started_by_clock(),
        exists|samples: Seq<u64>|
            {
                &&& samples.len() == 1000
                &&& timer.overhead() == #[trigger] median(samples)
                &&& forall|i: int|
                    0 <= i < samples.len() ==> lies_between_readings(
                        timer.watch(),
                        #[trigger] samples[i],
                    )
            },
{
    let samples = choose|samples: Seq<u64>|
        {
            &&& samples.len() == CALIBRATION_SAMPLES
            &&& samples_taken(timer.watch(), samples)
            &&& timer.overhead() == #[trigger] median(samples)
        };
    assert forall|i: int| 0 <= i < samples.len() implies lies_between_readings(
        timer.watch(),
        #[trigger] samples[i],
    ) by {
        samples_lie_between_readings(timer.watch(), samples, i);
    }
    assert(timer.overhead() == median(samples));
}

/// Whether a sample is the time between two readings of a watch, of which the low 64 bits
/// count.
pub open spec fn lies_between_readings(watch: Stopwatch, sample: u64) -> bool {
    exists|first: u128, second: u128|
        {
            let start = first as int % 0x1_0000_0000_0000_0000;
            let end = second as int % 0x1_0000_0000_0000_0000;
            &&& #[trigger] watch.shows(first)
            &&& #[trigger] watch.shows(second)
            &&& sample == (if end >= start {
                end - start
            } else {
                0
            })
        }
}

/// Every sample of the overhead is the time between two readings of the timer's watch.
pub proof fn samples_lie_between_readings(watch: Stopwatch, samples: Seq<u64>, i: int)
    requires
        samples_taken(watch, samples),
        0 <= i < samples.len(),
    ensures
        lies_between_readings(watch, samples[i]),
{
    let sample = samples[i];
    assert(sample_taken(watch, sample));
    let (start, end) = choose|start: u64, end: u64|
        {
            &&& watch_showed(watch, start)
            &&& watch_showed(watch, end)
            &&& sample == #[trigger] overhead_spec(start, end)
        };
    let first = choose|ns: u128| #[trigger]
        watch.shows(ns) && start == ns % 0x1_0000_0000_0000_0000;
    let second = choose|ns: u128| #[trigger]
        watch.shows(ns) && end == ns % 0x1_0000_0000_0000_0000;
    assert(watch.shows(first) && watch.shows(second));
}

} // verus!
