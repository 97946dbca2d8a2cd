//! How large the queue and its batches may be, in terms of the load.

use crate::single::{nearest_single_is_exact_below_25_bits, single_exceeds};
use crate::slow_queue::adaptive::{
    adaptive_batch, memory_quarters, scaled_twice, utilization_quarters, AdaptiveModel,
    LoadReading, WindowModel,
};
use crate::slow_queue::model::SlowQueueModel;
use crate::slow_queue::types::SlowQueueConfig;
use vstd::prelude::*;

verus! {

/// The limit changes only where adaptive sizing is on and five seconds have passed since
/// it last did. It grows when the throughput is high, the queue grows and the memory
/// pressure is below the threshold: to the size that the load suggests, but at most
/// fourfold. Else it shrinks when the throughput is low and the queue shrinks: to the
/// size that the load suggests, but not below the minimum.
pub proof fn limit_follows_the_load(
    controller: AdaptiveModel,
    config: SlowQueueConfig,
    load: LoadReading,
    now: u128,
)
    ensures
        ({
            let target = controller.resize_target(config, load, now);
            let waited = now - controller.last_resize >= 5_000_000_000;
            let grows = load.throughput_high && load.queue_growing && single_exceeds(
                config.memory_pressure_threshold_bits,
                controller.memory_pressure_bits,
            );
            let shrinks = !grows && load.throughput_low && load.queue_shrinking;
            &&& target is Some <==> config.adaptive_enabled && waited && (grows || shrinks)
            &&& target is Some && grows ==> {
                &&& target->0 <= load.grown_size
                &&& target->0 <= controller.current_max_size * 4
                &&& target->0 == load.grown_size || target->0 == controller.current_max_size * 4
            }
            &&& target is Some && shrinks ==> {
                &&& target->0 >= load.shrunk_size
                &&& target->0 >= config.min_queue_size
                &&& target->0 == load.shrunk_size || target->0 == config.min_queue_size
            }
        }),
{
}

/// A change of the limit sets it, notes the time and is counted; the samples and the
/// memory pressure stay.
pub proof fn resizing_sets_the_limit(controller: AdaptiveModel, new_size: usize, now: u128)
    ensures
        ({
            let after = controller.resized(new_size, now);
            &&& after.current_max_size == new_size
            &&& after.last_resize == now
            &&& controller.resize_count < u64::MAX ==> after.resize_count
                == controller.resize_count + 1
            &&& after.throughput_window == controller.throughput_window
            &&& after.queue_depth_window == controller.queue_depth_window
            &&& after.memory_pressure_bits == controller.memory_pressure_bits
        }),
{
}

/// The queue depth is sampled each time, the throughput only if more than a tenth of a
/// second has passed since its last sample. A sample is the latest one in its window
/// then.
pub proof fn samples_are_taken_at_intervals(
    controller: AdaptiveModel,
    rate_bits: u64,
    depth_bits: u64,
    now: u128,
)
    requires
        controller.wf(),
    ensures
        ({
            let after = controller.sampled(rate_bits, depth_bits, now);
            &&& after.queue_depth_window.recent(0) == depth_bits
            &&& after.queue_depth_window.last_timestamp == now
            &&& now - controller.throughput_window.last_timestamp > 100_000_000 ==> {
                &&& after.throughput_window.recent(0) == rate_bits
                &&& after.throughput_window.last_timestamp == now
            }
            &&& now - controller.throughput_window.last_timestamp <= 100_000_000
                ==> after.throughput_window == controller.throughput_window
            &&& after.current_max_size == controller.current_max_size
            &&& after.last_resize == controller.last_resize
            &&& after.resize_count == controller.resize_count
            &&& after.memory_pressure_bits == controller.memory_pressure_bits
        }),
{
    lemma_latest(controller.queue_depth_window, depth_bits, now);
    lemma_latest(controller.throughput_window, rate_bits, now);
}

proof fn lemma_latest(window: WindowModel, sample: u64, now: u128)
    requires
        window.wf(),
    ensures
        window.added(sample, now).recent(0) == sample,
{
    let size = window.samples.len() as int;
    let position = window.position as int;
    let after = window.added(sample, now);
    if position + 1 == size {
        vstd::arithmetic::div_mod::lemma_mod_self_0(size);
        vstd::arithmetic::div_mod::lemma_small_mod((size - 1) as nat, size as nat);
    } else {
        vstd::arithmetic::div_mod::lemma_small_mod((position + 1) as nat, size as nat);
        vstd::arithmetic::div_mod::lemma_mod_add_multiples_vanish(position, size);
        vstd::arithmetic::div_mod::lemma_small_mod(position as nat, size as nat);
    }
}

/// The latest two samples are reported, the latest first, from the second sample on.
pub proof fn latest_two_are_the_last_two(window: WindowModel, earlier: u64, later: u64, now: u128)
    requires
        window.wf(),
        window.samples.len() >= 2,
    ensures
        window.added(earlier, now).added(later, now).latest_two() == Some((later, earlier)),
        window.count < 2 ==> window.latest_two() is None,
{
    let size = window.samples.len() as int;
    let position = window.position as int;
    let once = window.added(earlier, now);
    lemma_next(position, size);
    lemma_latest(window, earlier, now);
    lemma_latest(once, later, now);
    let twice = once.added(later, now);
    let p = once.position as int;
    lemma_next(p, size);
    let q = twice.position as int;
    lemma_back(q, size, 1);
    lemma_back(p, size, 0);
}

proof fn lemma_next(position: int, size: int)
    requires
        0 <= position < size,
    ensures
        (position + 1) % size == (if position + 1 == size {
            0
        } else {
            position + 1
        }),
{
    if position + 1 == size {
        vstd::arithmetic::div_mod::lemma_mod_self_0(size);
    } else {
        vstd::arithmetic::div_mod::lemma_small_mod((position + 1) as nat, size as nat);
    }
}

proof fn lemma_back(position: int, size: int, back: int)
    requires
        0 <= position < size,
        0 <= back < size,
    ensures
        (position + size - 1 - back) % size == (if position >= back + 1 {
            position - 1 - back
        } else {
            size + position - 1 - back
        }),
{
    if position >= back + 1 {
        vstd::arithmetic::div_mod::lemma_mod_add_multiples_vanish(position - 1 - back, size);
        vstd::arithmetic::div_mod::lemma_small_mod((position - 1 - back) as nat, size as nat);
    } else {
        vstd::arithmetic::div_mod::lemma_small_mod(
            (size + position - 1 - back) as nat,
            size as nat,
        );
    }
}

/// Batches double above four fifths of the limit, are half as large again above one
/// half, and three quarters as large below one fifth. This holds to the task, for
/// queues of up to four million.
pub proof fn fuller_queues_get_larger_batches(queue_size: usize, max_queue_size: usize)
    requires
        queue_size < 0x40_0000,
        max_queue_size < 0x40_0000,
    ensures
        utilization_quarters(queue_size, max_queue_size) == (if queue_size * 5 > max_queue_size
            * 4 {
            8nat
        } else if queue_size * 2 > max_queue_size {
            6
        } else if queue_size * 5 < max_queue_size {
            3
        } else {
            4
        }),
{
    nearest_single_is_exact_below_25_bits(queue_size as nat);
    nearest_single_is_exact_below_25_bits(max_queue_size as nat);
}

/// Batches are halved while the memory pressure is above the threshold, and cut to
/// three quarters while it is above 0.7.
pub proof fn memory_pressure_cuts_batches(pressure_bits: u32, threshold_bits: u32)
    ensures
        memory_quarters(pressure_bits, threshold_bits) == (if single_exceeds(
            pressure_bits,
            threshold_bits,
        ) {
            2nat
        } else if single_exceeds(pressure_bits, 0x3f33_3333) {
            3
        } else {
            4
        }),
{
}

/// The adaptive batch size is the base size times both factors, cut to a whole number,
/// at least one task and at most the maximum.
pub proof fn adaptive_batches_are_scaled(
    base: usize,
    queue_size: usize,
    max_queue_size: usize,
    pressure_bits: u32,
    threshold_bits: u32,
    max_batch_size: usize,
)
    requires
        base < 0x8_0000,
        queue_size < 0x40_0000,
        max_queue_size < 0x40_0000,
        max_batch_size >= 1,
    ensures
        ({
            let fill = if queue_size * 5 > max_queue_size * 4 {
                8int
            } else if queue_size * 2 > max_queue_size {
                6
            } else if queue_size * 5 < max_queue_size {
                3
            } else {
                4
            };
            let memory = if single_exceeds(pressure_bits, threshold_bits) {
                2int
            } else if single_exceeds(pressure_bits, 0x3f33_3333) {
                3
            } else {
                4
            };
            let scaled = base * fill * memory / 16;
            let batch = adaptive_batch(
                base,
                queue_size,
                max_queue_size,
                pressure_bits,
                threshold_bits,
                max_batch_size,
            );
            batch == (if scaled < 1 {
                1
            } else if scaled > max_batch_size {
                max_batch_size as int
            } else {
                scaled
            })
        }),
{
    fuller_queues_get_larger_batches(queue_size, max_queue_size);
    memory_pressure_cuts_batches(pressure_bits, threshold_bits);
    let fill = utilization_quarters(queue_size, max_queue_size);
    let memory = memory_quarters(pressure_bits, threshold_bits);
    assert(base * fill < 0x8_0000 * 8 && base * fill * memory < 0x8_0000 * 32) by (nonlinear_arith)
        requires
            base < 0x8_0000,
            0 < fill <= 8,
            0 < memory <= 4,
    ;
    nearest_single_is_exact_below_25_bits(base as nat);
    nearest_single_is_exact_below_25_bits((base * fill) as nat);
    nearest_single_is_exact_below_25_bits((base * fill * memory) as nat);
    assert(scaled_twice(base, fill, memory) == (base * fill * memory) as nat / 16);
}

/// Without adaptive sizing, batches double above a thousand tasks and are half as large
/// again above five hundred, up to the maximum; below that they have the default size.
pub proof fn plain_batches_follow_the_queue(queue: SlowQueueModel)
    requires
        !queue.config.adaptive_enabled,
        queue.config.default_batch_size * 3 <= usize::MAX,
    ensures
        ({
            let base = queue.config.default_batch_size;
            let most = queue.config.max_batch_size;
            let queued = queue.metrics.total_queued;
            let batch = queue.batch_size();
            &&& queued <= 500 ==> batch == base
            &&& queued > 500 ==> batch <= most
            &&& 500 < queued <= 1000 && batch < most ==> 2 * batch <= 3 * base < 2 * batch + 2
            &&& 500 < queued <= 1000 && batch == most ==> 3 * base >= 2 * most
            &&& queued > 1000 && batch < most ==> batch == 2 * base
            &&& queued > 1000 && batch == most ==> 2 * base >= most
        }),
{
}

/// With adaptive sizing, the batch size is that for the queue's own size, limit and
/// memory pressure.
pub proof fn adaptive_batches_follow_the_queue(queue: SlowQueueModel)
    requires
        queue.config.adaptive_enabled,
    ensures
        queue.batch_size() == adaptive_batch(
            queue.config.default_batch_size,
            queue.metrics.total_queued,
            queue.controller.current_max_size,
            queue.controller.memory_pressure_bits,
            queue.config.memory_pressure_threshold_bits,
            queue.config.max_batch_size,
        ),
{
}

/// A new queue has the configured limit, an empty past and windows of ten throughput and
/// twenty depth samples; the first change of the limit may come five seconds after the
/// clock began.
pub proof fn new_controllers_start_at_the_limit(initial_size: usize, now: u128)
    ensures
        ({
            let controller = AdaptiveModel::fresh(initial_size, now);
            &&& controller.current_max_size == initial_size
            &&& controller.resize_count == 0
            &&& controller.last_resize == 0
            &&& controller.memory_pressure_bits == 0
            &&& controller.throughput_window.samples.len() == 10
            &&& controller.throughput_window.count == 0
            &&& controller.throughput_window.last_timestamp == now
            &&& controller.queue_depth_window.samples.len() == 20
            &&& controller.queue_depth_window.count == 0
        }),
{
}

} // verus!
