//! Adapting the queue and its batches to the load.
//!
//! Rates and fractions are IEEE 754 bit patterns here. Averages over them are
//! floating-point arithmetic and come from outside as a [`LoadReading`].

use crate::single::{
    clamp_to_unit, exceeds, nearest_single, round_to_single, single_exceeds, unit_range,
};
use crate::slow_queue::types::SlowQueueConfig;
use vstd::prelude::*;

verus! {

/// Least time between two changes of the queue size (ns).
pub const RESIZE_INTERVAL_NS: u128 = 5_000_000_000;

/// Least time between two throughput samples (ns).
pub const THROUGHPUT_INTERVAL_NS: u128 = 100_000_000;

/// Memory pressure of 0.7 as a single-precision bit pattern.
pub const MEDIUM_MEMORY_PRESSURE_BITS: u32 = 0x3f33_3333;

/// Window over the latest samples, each a double-precision bit pattern.
#[derive(Debug)]
pub struct SlidingWindow {
    samples: Vec<u64>,
    position: usize,
    count: usize,
    last_timestamp: u128,
}

/// What a [`SlidingWindow`] holds.
#[verifier::ext_equal]
pub struct WindowModel {
    /// Ring buffer of samples.
    pub samples: Seq<u64>,
    /// Where the next sample goes.
    pub position: nat,
    /// How many samples are in the buffer.
    pub count: nat,
    /// When the last sample came.
    pub last_timestamp: u128,
}

impl WindowModel {
    /// The buffer has room, and the position lies in it.
    pub open spec fn wf(self) -> bool {
        &&& self.position < self.samples.len()
        &&& self.count <= self.samples.len()
        &&& self.samples.len() <= usize::MAX
    }

    /// A window without samples.
    pub open spec fn fresh(window_size: nat, now: u128) -> WindowModel {
        WindowModel {
            samples: Seq::new(window_size, |i: int| 0u64),
            position: 0,
            count: 0,
            last_timestamp: now,
        }
    }

    /// The window with one more sample, in place of the oldest if it was full.
    pub open spec fn added(self, sample: u64, now: u128) -> WindowModel {
        WindowModel {
            samples: self.samples.update(self.position as int, sample),
            position: (self.position + 1) % self.samples.len(),
            count: if self.count < self.samples.len() {
                self.count + 1
            } else {
                self.count
            },
            last_timestamp: now,
        }
    }

    /// The window after all samples of `history`, oldest first.
    pub open spec fn added_all(self, history: Seq<u64>, now: u128) -> WindowModel
        decreases history.len(),
    {
        if history.len() == 0 {
            self
        } else {
            self.added_all(history.drop_last(), now).added(history.last(), now)
        }
    }

    /// The sample that came `back` samples before the latest.
    pub open spec fn recent(self, back: int) -> u64 {
        self.samples[(self.position + self.samples.len() - 1 - back) % (self.samples.len() as int)]
    }

    /// The two latest samples, the latest first, once there are two.
    pub open spec fn latest_two(self) -> Option<(u64, u64)> {
        if self.count < 2 {
            None
        } else {
            Some((self.recent(0), self.recent(1)))
        }
    }
}

impl View for SlidingWindow {
    type V = WindowModel;

    closed spec fn view(&self) -> WindowModel {
        WindowModel {
            samples: self.samples@,
            position: self.position as nat,
            count: self.count as nat,
            last_timestamp: self.last_timestamp,
        }
    }
}

impl SlidingWindow {
    /// Creates a window for `window_size` samples.
    pub fn new(window_size: usize, now: u128) -> (window: Self)
        requires
            window_size > 0,
        ensures
            window@ == WindowModel::fresh(window_size as nat, now),
            window@.wf(),
    {
        let mut samples: Vec<u64> = Vec::new();
        while samples.len() < window_size
            invariant
                samples.len() <= window_size,
                samples@ =~= Seq::new(samples.len() as nat, |i: int| 0u64),
            decreases window_size - samples.len(),
        {
            samples.push(0);
        }
        SlidingWindow { samples, position: 0, count: 0, last_timestamp: now }
    }

    /// Adds a sample.
    pub fn add_sample(&mut self, sample: u64, now: u128)
        requires
            old(self)@.wf(),
        ensures
            final(self)@ == old(self)@.added(sample, now),
            final(self)@.wf(),
    {
        self.samples[self.position] = sample;
        if self.position + 1 == self.samples.len() {
            self.position = 0;
            proof {
                vstd::arithmetic::div_mod::lemma_mod_self_0(self.samples@.len() as int);
            }
        } else {
            self.position = self.position + 1;
            proof {
                vstd::arithmetic::div_mod::lemma_small_mod(
                    self.position as nat,
                    self.samples@.len(),
                );
            }
        }
        if self.count < self.samples.len() {
            self.count = self.count + 1;
        }
        self.last_timestamp = now;
    }

    /// How many samples are in the window.
    pub fn count(&self) -> (count: usize)
        ensures
            count == self@.count,
    {
        self.count
    }

    /// The samples in the window, in the order of the buffer.
    pub fn filled(&self) -> (samples: Vec<u64>)
        requires
            self@.wf(),
        ensures
            samples@ == self@.samples.take(self@.count as int),
    {
        let mut samples: Vec<u64> = Vec::new();
        while samples.len() < self.count
            invariant
                samples.len() <= self.count <= self.samples.len(),
                samples@ =~= self.samples@.take(samples.len() as int),
            decreases self.count - samples.len(),
        {
            let i: usize = samples.len();
            samples.push(self.samples[i]);
        }
        samples
    }

    /// The two latest samples, the latest first, once there are two.
    pub fn latest_two(&self) -> (samples: Option<(u64, u64)>)
        requires
            self@.wf(),
        ensures
            samples == self@.latest_two(),
    {
        if self.count < 2 {
            return None;
        }
        let size: usize = self.samples.len();
        let last: usize = if self.position >= 1 {
            self.position - 1
        } else {
            size - 1
        };
        let before: usize = if self.position >= 2 {
            self.position - 2
        } else {
            size - 2 + self.position
        };
        proof {
            lemma_wrap_back(self.position as int, size as int, 0);
            lemma_wrap_back(self.position as int, size as int, 1);
        }
        Some((self.samples[last], self.samples[before]))
    }

    /// Nanoseconds since the last sample.
    pub fn idle_ns(&self, now: u128) -> (ns: u128)
        ensures
            ns == now.saturating_sub(self@.last_timestamp),
    {
        now.saturating_sub(self.last_timestamp)
    }
}

proof fn lemma_wrap_back(position: int, size: int, back: int)
    requires
        0 <= position < size,
        0 <= back < size,
    ensures
        (position + size - 1 - back) % size == (if position >= back + 1 {
            position - 1 - back
        } else {
            size + position - 1 - back
        }),
{
    if position >= back + 1 {
        vstd::arithmetic::div_mod::lemma_mod_add_multiples_vanish(position - 1 - back, size);
        vstd::arithmetic::div_mod::lemma_small_mod((position - 1 - back) as nat, size as nat);
    } else {
        vstd::arithmetic::div_mod::lemma_small_mod(
            (size + position - 1 - back) as nat,
            size as nat,
        );
    }
}

/// A window of size `n` holds exactly the latest `n` samples, or all of them while
/// there are fewer.
pub proof fn window_keeps_latest_samples(window_size: nat, history: Seq<u64>, now: u128, back: int)
    requires
        0 < window_size <= usize::MAX,
        0 <= back < history.len(),
        back < window_size,
    ensures
        ({
            let window = WindowModel::fresh(window_size, now).added_all(history, now);
            &&& window.wf()
            &&& window.count == (if history.len() < window_size {
                history.len()
            } else {
                window_size
            })
            &&& window.recent(back) == history[history.len() - 1 - back]
        }),
    decreases history.len(),
{
    lemma_window_shape(window_size, history, now);
    let prefix = history.drop_last();
    let window = WindowModel::fresh(window_size, now).added_all(prefix, now);
    lemma_window_shape(window_size, prefix, now);
    let after = window.added(history.last(), now);
    lemma_wrap_back(after.position as int, window_size as int, back);
    lemma_next_position(window.position as int, window_size as int);
    if back > 0 {
        window_keeps_latest_samples(window_size, prefix, now, back - 1);
        lemma_wrap_back(window.position as int, window_size as int, back - 1);
    }
}

proof fn lemma_next_position(position: int, size: int)
    requires
        0 <= position < size,
    ensures
        (position + 1) % size == (if position + 1 == size {
            0
        } else {
            position + 1
        }),
{
    if position + 1 == size {
        vstd::arithmetic::div_mod::lemma_mod_self_0(size);
    } else {
        vstd::arithmetic::div_mod::lemma_small_mod((position + 1) as nat, size as nat);
    }
}

proof fn lemma_window_shape(window_size: nat, history: Seq<u64>, now: u128)
    requires
        0 < window_size <= usize::MAX,
    ensures
        ({
            let window = WindowModel::fresh(window_size, now).added_all(history, now);
            &&& window.samples.len() == window_size
            &&& window.wf()
            &&& window.count == (if history.len() < window_size {
                history.len()
            } else {
                window_size
            })
        }),
    decreases history.len(),
{
    if history.len() > 0 {
        lemma_window_shape(window_size, history.drop_last(), now);
        let window = WindowModel::fresh(window_size, now).added_all(history.drop_last(), now);
        lemma_next_position(window.position as int, window_size as int);
    }
}

/// What the recent load amounts to. The comparisons and products are
/// floating-point arithmetic.
#[derive(Debug, Clone, Copy)]
pub struct LoadReading {
    /// The average throughput is above the threshold for growing.
    pub throughput_high: bool,
    /// The average throughput is below the threshold for shrinking.
    pub throughput_low: bool,
    /// The queue got longer.
    pub queue_growing: bool,
    /// The queue got shorter by more than the hysteresis.
    pub queue_shrinking: bool,
    /// The current size times the growth factor.
    pub grown_size: usize,
    /// The current size times the shrink factor.
    pub shrunk_size: usize,
}

/// Controller of the queue size.
#[derive(Debug)]
pub struct AdaptiveQueueController {
    current_max_size: usize,
    throughput_window: SlidingWindow,
    queue_depth_window: SlidingWindow,
    last_resize: u128,
    resize_count: u64,
    memory_pressure_bits: u32,
}

/// What an [`AdaptiveQueueController`] holds.
#[verifier::ext_equal]
pub struct AdaptiveModel {
    /// Current limit of the queue size.
    pub current_max_size: usize,
    /// Throughput samples.
    pub throughput_window: WindowModel,
    /// Queue depth samples.
    pub queue_depth_window: WindowModel,
    /// When the limit last changed (ns).
    pub last_resize: u128,
    /// How often the limit changed.
    pub resize_count: u64,
    /// Memory pressure, a single-precision bit pattern.
    pub memory_pressure_bits: u32,
}

impl AdaptiveModel {
    /// The windows are well-formed.
    pub open spec fn wf(self) -> bool {
        self.throughput_window.wf() && self.queue_depth_window.wf()
    }

    /// A controller that has seen nothing yet.
    pub open spec fn fresh(initial_size: usize, now: u128) -> AdaptiveModel {
        AdaptiveModel {
            current_max_size: initial_size,
            throughput_window: WindowModel::fresh(10, now),
            queue_depth_window: WindowModel::fresh(20, now),
            last_resize: 0,
            resize_count: 0,
            memory_pressure_bits: 0,
        }
    }

    /// The controller after the throughput and the queue depth were sampled. The
    /// throughput is only sampled if the last sample is some time past.
    pub open spec fn sampled(self, rate_bits: u64, depth_bits: u64, now: u128) -> AdaptiveModel {
        AdaptiveModel {
            throughput_window: if now.saturating_sub(self.throughput_window.last_timestamp)
                > THROUGHPUT_INTERVAL_NS {
                self.throughput_window.added(rate_bits, now)
            } else {
                self.throughput_window
            },
            queue_depth_window: self.queue_depth_window.added(depth_bits, now),
            ..self
        }
    }

    /// The limit that the load calls for, if another one. It changes at most every
    /// few seconds, grows at most fourfold and does not fall below the minimum.
    pub open spec fn resize_target(
        self,
        config: SlowQueueConfig,
        load: LoadReading,
        now: u128,
    ) -> Option<usize> {
        if !config.adaptive_enabled || now.saturating_sub(self.last_resize) < RESIZE_INTERVAL_NS {
            None
        } else if load.throughput_high && load.queue_growing && single_exceeds(
            config.memory_pressure_threshold_bits,
            self.memory_pressure_bits,
        ) {
            Some(
                if load.grown_size <= self.current_max_size * 4 {
                    load.grown_size
                } else {
                    (self.current_max_size * 4) as usize
                },
            )
        } else if load.throughput_low && load.queue_shrinking {
            Some(
                if load.shrunk_size >= config.min_queue_size {
                    load.shrunk_size
                } else {
                    config.min_queue_size
                },
            )
        } else {
            None
        }
    }

    /// The controller with another limit.
    pub open spec fn resized(self, new_size: usize, now: u128) -> AdaptiveModel {
        AdaptiveModel {
            current_max_size: new_size,
            last_resize: now,
            resize_count: self.resize_count.wrapping_add(1),
            ..self
        }
    }
}

impl View for AdaptiveQueueController {
    type V = AdaptiveModel;

    closed spec fn view(&self) -> AdaptiveModel {
        AdaptiveModel {
            current_max_size: self.current_max_size,
            throughput_window: self.throughput_window@,
            queue_depth_window: self.queue_depth_window@,
            last_resize: self.last_resize,
            resize_count: self.resize_count,
            memory_pressure_bits: self.memory_pressure_bits,
        }
    }
}

impl AdaptiveQueueController {
    /// Creates a controller with a limit of `initial_size`.
    pub fn new(initial_size: usize, now: u128) -> (controller: Self)
        ensures
            controller@ == AdaptiveModel::fresh(initial_size, now),
            controller@.wf(),
    {
        AdaptiveQueueController {
            current_max_size: initial_size,
            throughput_window: SlidingWindow::new(10, now),
            queue_depth_window: SlidingWindow::new(20, now),
            last_resize: 0,
            resize_count: 0,
            memory_pressure_bits: 0,
        }
    }

    /// Samples the throughput and the queue depth.
    pub fn update_metrics(&mut self, rate_bits: u64, depth_bits: u64, now: u128)
        requires
            old(self)@.wf(),
        ensures
            final(self)@ == old(self)@.sampled(rate_bits, depth_bits, now),
            final(self)@.wf(),
    {
        if self.throughput_window.idle_ns(now) > THROUGHPUT_INTERVAL_NS {
            self.throughput_window.add_sample(rate_bits, now);
        }
        self.queue_depth_window.add_sample(depth_bits, now);
    }

    /// Nanoseconds since the throughput was last sampled.
    pub fn throughput_idle_ns(&self, now: u128) -> (ns: u128)
        ensures
            ns == now.saturating_sub(self@.throughput_window.last_timestamp),
    {
        self.throughput_window.idle_ns(now)
    }

    /// The throughput samples in the window.
    pub fn throughput_samples(&self) -> (samples: Vec<u64>)
        requires
            self@.wf(),
        ensures
            samples@ == self@.throughput_window.samples.take(self@.throughput_window.count as int),
    {
        self.throughput_window.filled()
    }

    /// The two latest queue depths, the latest first, once there are two.
    pub fn latest_depths(&self) -> (samples: Option<(u64, u64)>)
        requires
            self@.wf(),
        ensures
            samples == self@.queue_depth_window.latest_two(),
    {
        self.queue_depth_window.latest_two()
    }

    /// Decides on another limit of the queue size.
    pub fn should_resize(&self, config: &SlowQueueConfig, load: &LoadReading, now: u128) -> (target:
        Option<usize>)
        ensures
            target == self@.resize_target(*config, *load, now),
    {
        if !config.adaptive_enabled {
            return None;
        }
        if now.saturating_sub(self.last_resize) < RESIZE_INTERVAL_NS {
            return None;
        }
        if load.throughput_high && load.queue_growing && exceeds(
            config.memory_pressure_threshold_bits,
            self.memory_pressure_bits,
        ) {
            let limit: u128 = self.current_max_size as u128 * 4;
            if load.grown_size as u128 <= limit {
                Some(load.grown_size)
            } else {
                Some(limit as usize)
            }
        } else if load.throughput_low && load.queue_shrinking {
            if load.shrunk_size >= config.min_queue_size {
                Some(load.shrunk_size)
            } else {
                Some(config.min_queue_size)
            }
        } else {
            None
        }
    }

    /// Changes the limit of the queue size.
    pub fn resize_queue(&mut self, new_size: usize, now: u128)
        requires
            old(self)@.wf(),
        ensures
            final(self)@ == old(self)@.resized(new_size, now),
            final(self)@.wf(),
    {
        self.current_max_size = new_size;
        self.last_resize = now;
        self.resize_count = self.resize_count.wrapping_add(1);
    }

    /// Current limit of the queue size.
    pub fn current_max_size(&self) -> (size: usize)
        ensures
            size == self@.current_max_size,
    {
        self.current_max_size
    }

    /// How often the limit changed.
    pub fn resize_count(&self) -> (count: u64)
        ensures
            count == self@.resize_count,
    {
        self.resize_count
    }

    /// Memory pressure, a single-precision bit pattern.
    pub fn memory_pressure_bits(&self) -> (bits: u32)
        ensures
            bits == self@.memory_pressure_bits,
    {
        self.memory_pressure_bits
    }

    /// Notes the memory pressure, limited to the range from zero to one.
    pub fn update_memory_pressure(&mut self, pressure_bits: u32)
        requires
            old(self)@.wf(),
        ensures
            final(self)@ == (AdaptiveModel {
                memory_pressure_bits: unit_range(pressure_bits),
                ..old(self)@
            }),
            final(self)@.wf(),
    {
        self.memory_pressure_bits = clamp_to_unit(pressure_bits);
    }
}

/// By how many quarters batches are scaled for a queue of this size under this
/// limit. The quotient of the two is taken in single precision and compared with
/// the single-precision values of 0.8, 0.5 and 0.2; the bounds below are the
/// points where the rounded quotient passes these values.
pub open spec fn utilization_quarters(queue_size: usize, max_queue_size: usize) -> nat {
    let size = nearest_single(queue_size as nat);
    let limit = nearest_single(max_queue_size as nat);
    if size == 0 && limit == 0 {
        4
    } else if size * 33_554_432 >= limit * 26_843_547 {
        8
    } else if size * 33_554_432 > limit * 16_777_217 {
        6
    } else if size * 134_217_728 <= limit * 26_843_545 {
        3
    } else {
        4
    }
}

/// By how many quarters batches are scaled under this memory pressure.
pub open spec fn memory_quarters(pressure_bits: u32, threshold_bits: u32) -> nat {
    if single_exceeds(pressure_bits, threshold_bits) {
        2
    } else if single_exceeds(pressure_bits, MEDIUM_MEMORY_PRESSURE_BITS) {
        3
    } else {
        4
    }
}

/// `base` scaled by quarters twice, in single precision, cut to a whole number.
pub open spec fn scaled_twice(base: usize, first: nat, second: nat) -> nat {
    nearest_single(nearest_single(nearest_single(base as nat) * first) * second) / 16
}

/// The batch size for the load, at least 1 and at most `max_batch_size`.
pub open spec fn adaptive_batch(
    base: usize,
    queue_size: usize,
    max_queue_size: usize,
    pressure_bits: u32,
    threshold_bits: u32,
    max_batch_size: usize,
) -> usize {
    let scaled = scaled_twice(
        base,
        utilization_quarters(queue_size, max_queue_size),
        memory_quarters(pressure_bits, threshold_bits),
    );
    if scaled < 1 {
        1
    } else if scaled > max_batch_size {
        max_batch_size
    } else {
        scaled as usize
    }
}

fn find_utilization_quarters(queue_size: usize, max_queue_size: usize) -> (quarters: u128)
    ensures
        quarters == utilization_quarters(queue_size, max_queue_size),
        quarters <= 8,
{
    let size: u128 = round_to_single(queue_size as u128);
    let limit: u128 = round_to_single(max_queue_size as u128);
    if size == 0 && limit == 0 {
        4
    } else if size * 33_554_432 >= limit * 26_843_547 {
        8
    } else if size * 33_554_432 > limit * 16_777_217 {
        6
    } else if size * 134_217_728 <= limit * 26_843_545 {
        3
    } else {
        4
    }
}

fn find_memory_quarters(pressure_bits: u32, threshold_bits: u32) -> (quarters: u128)
    ensures
        quarters == memory_quarters(pressure_bits, threshold_bits),
        quarters <= 4,
{
    if exceeds(pressure_bits, threshold_bits) {
        2
    } else if exceeds(pressure_bits, MEDIUM_MEMORY_PRESSURE_BITS) {
        3
    } else {
        4
    }
}

/// Finds the batch size for the load.
pub fn adaptive_batch_size(
    base: usize,
    queue_size: usize,
    max_queue_size: usize,
    pressure_bits: u32,
    threshold_bits: u32,
    max_batch_size: usize,
) -> (batch: usize)
    requires
        max_batch_size >= 1,
    ensures
        batch == adaptive_batch(
            base,
            queue_size,
            max_queue_size,
            pressure_bits,
            threshold_bits,
            max_batch_size,
        ),
        1 <= batch <= max_batch_size,
{
    let first: u128 = find_utilization_quarters(queue_size, max_queue_size);
    let second: u128 = find_memory_quarters(pressure_bits, threshold_bits);
    let rounded: u128 = round_to_single(base as u128);
    assert(rounded * first <= 0x2_0000_0000_0000_0000 * 8) by (nonlinear_arith)
        requires
            rounded <= 0x2_0000_0000_0000_0000,
            first <= 8,
    ;
    let once: u128 = round_to_single(rounded * first);
    assert(once * second <= 0x20_0000_0000_0000_0000 * 4) by (nonlinear_arith)
        requires
            once <= 0x20_0000_0000_0000_0000,
            second <= 4,
    ;
    let twice: u128 = round_to_single(once * second);
    let scaled: u128 = twice / 16;
    if scaled < 1 {
        1
    } else if scaled > max_batch_size as u128 {
        max_batch_size
    } else {
        scaled as usize
    }
}

/// The higher the memory pressure, the smaller the factor for batches.
pub proof fn memory_pressure_shrinks_batches(low: u32, high: u32, threshold: u32)
    requires
        single_exceeds(high, low),
    ensures
        memory_quarters(high, threshold) <= memory_quarters(low, threshold),
        single_exceeds(high, threshold) ==> memory_quarters(high, threshold) == 2,
        2 <= memory_quarters(high, threshold) <= 4,
{
}

/// A limit that grows at most quadruples, and needs a growing queue; one that
/// shrinks does not fall below the minimum. After a change there is none for a
/// while.
pub proof fn resize_is_limited(
    controller: AdaptiveModel,
    config: SlowQueueConfig,
    load: LoadReading,
    next_load: LoadReading,
    now: u128,
    later: u128,
)
    requires
        controller.resize_target(config, load, now) is Some,
        now <= later < now + RESIZE_INTERVAL_NS,
    ensures
        ({
            let target = controller.resize_target(config, load, now)->0;
            let resized = controller.resized(target, now);
            &&& load.queue_growing && !load.queue_shrinking ==> target
                <= controller.current_max_size * 4
            &&& !load.queue_growing ==> load.queue_shrinking && target >= config.min_queue_size
            &&& resized.current_max_size == target
            &&& resized.resize_target(config, next_load, later) is None
        }),
{
}

} // verus!
