//! CPU time of a thread on Windows, read with `QueryThreadCycleTime`.

use crate::timing::samples::median_of;
use crate::timing::timer::{compensate, Calibratable, CpuTimer, TimerSource, TimingError};
use vstd::prelude::*;

verus! {

/// Windows CPU timer.
#[derive(Debug)]
pub struct WindowsTimer {
    frequency: u64,
    overhead_ns: u64,
}

/// `cycles` at `frequency` per second in nanoseconds. The product is cut at
/// `u64::MAX` before it is divided.
pub open spec fn cycles_ns(cycles: u64, frequency: u64) -> u64 {
    let product = cycles * 1_000_000_000;
    ((if product > u64::MAX {
        u64::MAX as int
    } else {
        product
    }) / (frequency as int)) as u64
}

impl WindowsTimer {
    /// Cycles per second.
    pub closed spec fn frequency_spec(self) -> u64 {
        self.frequency
    }

    /// Creates a timer without overhead, if the frequency is known and a first
    /// reading succeeded.
    ///
    /// # Errors
    ///
    /// The error of the frequency, or else that of the first reading.
    pub fn new(
        frequency: Result<u64, TimingError>,
        first_reading: Result<u64, TimingError>,
    ) -> (result: Result<Self, TimingError>)
        ensures
            match (frequency, first_reading) {
                (Err(error), _) => result == Err::<Self, TimingError>(error),
                (Ok(_), Err(error)) => result == Err::<Self, TimingError>(error),
                (Ok(frequency), Ok(_)) => {
                    result matches Ok(timer) && timer.overhead() == 0 && timer.frequency_spec()
                        == frequency
                },
            },
    {
        match frequency {
            Err(error) => Err(error),
            Ok(frequency) => match first_reading {
                Err(error) => Err(error),
                Ok(_) => Ok(WindowsTimer { frequency, overhead_ns: 0 }),
            },
        }
    }

    /// Cycles per second.
    pub fn frequency(&self) -> (frequency: u64)
        ensures
            frequency == self.frequency_spec(),
    {
        self.frequency
    }

    /// Converts CPU cycles to nanoseconds.
    pub fn cycles_to_nanoseconds(&self, cycles: u64) -> (ns: u64)
        requires
            self.frequency_spec() > 0,
        ensures
            ns == cycles_ns(cycles, self.frequency_spec()),
    {
        let product: u128 = cycles as u128 * 1_000_000_000;
        let limited: u64 = if product > 0xffff_ffff_ffff_ffff {
            u64::MAX
        } else {
            product as u64
        };
        limited / self.frequency
    }
}

impl CpuTimer for WindowsTimer {
    closed spec fn overhead(&self) -> u64 {
        self.overhead_ns
    }

    open spec fn source(&self) -> TimerSource {
        TimerSource::Windows(self.frequency_spec())
    }

    open spec fn name(&self) -> Seq<char> {
        "Windows (QueryThreadCycleTime)"@
    }

    fn thread_cpu_time_ns(&self, raw: Result<u64, TimingError>) -> (result: Result<
        u64,
        TimingError,
    >) {
        compensate(raw, self.overhead_ns)
    }

    fn calibrated_overhead_ns(&self) -> (overhead_ns: u64) {
        self.overhead_ns
    }

    fn platform_name(&self) -> (name: &'static str) {
        "Windows (QueryThreadCycleTime)"
    }
}

impl Calibratable for WindowsTimer {
    fn calibrate(&mut self, overheads: Result<Vec<u64>, TimingError>) -> (result: Result<
        (),
        TimingError,
    >) {
        match overheads {
            Ok(samples) => {
                self.overhead_ns = median_of(samples);
                Ok(())
            },
            Err(error) => Err(error),
        }
    }

    fn measure_overhead(&self, overheads: Vec<u64>) -> (overhead_ns: u64) {
        median_of(overheads)
    }
}

/// More cycles never give an earlier time.
pub proof fn cycles_keep_order(fewer: u64, more: u64, frequency: u64)
    requires
        fewer <= more,
        frequency > 0,
    ensures
        cycles_ns(fewer, frequency) <= cycles_ns(more, frequency),
{
    let a = if fewer * 1_000_000_000 > u64::MAX {
        u64::MAX as int
    } else {
        fewer * 1_000_000_000
    };
    let b = if more * 1_000_000_000 > u64::MAX {
        u64::MAX as int
    } else {
        more * 1_000_000_000
    };
    vstd::arithmetic::div_mod::lemma_div_is_ordered(a, b, frequency as int);
    vstd::arithmetic::div_mod::lemma_div_is_ordered_by_denominator(b, 1, frequency as int);
    vstd::arithmetic::div_mod::lemma_div_is_ordered_by_denominator(a, 1, frequency as int);
    vstd::arithmetic::div_mod::lemma_div_pos_is_pos(a, frequency as int);
}

/// A time in nanoseconds, taken back to cycles, is the number of cycles but for what a
/// nanosecond cuts off, as long as the product fits into 64 bits.
pub proof fn nanoseconds_are_cycles_by_frequency(cycles: u64, frequency: u64)
    requires
        frequency > 0,
        cycles * 1_000_000_000 <= u64::MAX,
    ensures
        cycles_ns(cycles, frequency) * frequency <= cycles * 1_000_000_000,
        cycles * 1_000_000_000 < (cycles_ns(cycles, frequency) + 1) * frequency,
{
    let product = cycles * 1_000_000_000;
    let f = frequency as int;
    vstd::arithmetic::div_mod::lemma_fundamental_div_mod(product, f);
    vstd::arithmetic::div_mod::lemma_mod_bound(product, f);
    vstd::arithmetic::div_mod::lemma_div_is_ordered_by_denominator(product, 1, f);
    vstd::arithmetic::div_mod::lemma_div_pos_is_pos(product, f);
    assert(f * (product / f) == (product / f) * f) by (nonlinear_arith);
    assert((product / f + 1) * f == (product / f) * f + f) by (nonlinear_arith);
}

/// A product that does not fit into 64 bits is cut there before it is divided.
pub proof fn long_times_are_cut(cycles: u64, frequency: u64)
    requires
        frequency > 0,
        cycles * 1_000_000_000 > u64::MAX,
    ensures
        cycles_ns(cycles, frequency) as int == u64::MAX as int / frequency as int,
{
    vstd::arithmetic::div_mod::lemma_div_is_ordered_by_denominator(
        u64::MAX as int,
        1,
        frequency as int,
    );
    vstd::arithmetic::div_mod::lemma_div_pos_is_pos(u64::MAX as int, frequency as int);
}

} // verus!
