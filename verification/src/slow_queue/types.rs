//! Tasks, settings and counters of the slow queue.

use crate::slow_queue::priority::TaskPriority;
use crate::tier_manager::context::TaskId;
use vstd::prelude::*;
use vstd::string::*;

verus! {

/// Fair scheduling algorithms.
#[derive(Debug, Clone, Copy, PartialEq, Eq, Structural)]
pub enum SchedulingAlgorithm {
    /// Credits by priority, anew for each batch.
    CreditBased,
    /// Lottery with tickets by priority.
    Lottery,
    /// Deficit round robin.
    DeficitRoundRobin,
}

/// Task marked as slow and queued for controlled execution.
#[derive(Debug, Clone, Copy, PartialEq, Eq, Structural)]
pub struct SlowTask {
    /// Task identifier.
    pub task_id: TaskId,
    /// When the task was enqueued, in nanoseconds on the queue's clock.
    pub enqueue_time: u128,
    /// Current tier level.
    pub tier: u8,
    /// Number of violations.
    pub violations: u32,
    /// CPU time consumed in nanoseconds.
    pub cpu_time_ns: u64,
    /// Number of polls executed.
    pub poll_count: u64,
    /// Task priority.
    pub priority: TaskPriority,
}

/// A task in the queue, with its place in the order of arrival.
#[derive(Debug, Clone, Copy, PartialEq, Eq, Structural)]
pub struct QueuedTask {
    /// How many tasks the queue had taken in before this one.
    pub arrival: u64,
    /// The task.
    pub task: SlowTask,
}

/// Error types for slow queue operations.
#[derive(Debug, Clone)]
pub enum QueueError {
    /// Queue has reached maximum capacity.
    QueueFull,
    /// Source has exceeded rate limit.
    SourceThrottled,
    /// Task is in backoff period.
    BackoffActive,
    /// Internal error.
    Internal(String),
}

/// Counters of the slow queue.
#[derive(Debug, Clone, Copy)]
pub struct SlowQueueMetrics {
    /// Total tasks currently queued.
    pub total_queued: usize,
    /// Total tasks processed.
    pub total_processed: u64,
    /// Tasks enqueued at critical priority.
    pub critical_enqueued: u64,
    /// Tasks processed at critical priority.
    pub critical_processed: u64,
    /// Number of starvation preventions.
    pub starvation_prevented: u64,
    /// Number of priority promotions.
    pub priority_promotions: u64,
    /// High water mark for queue depth.
    pub queue_depth_high_water: usize,
    /// Consecutive timeouts.
    pub consecutive_timeouts: u32,
    /// Successful reintegrations.
    pub reintegration_success: u64,
    /// Failed reintegrations.
    pub reintegration_failure: u64,
    /// Number of adaptive queue resizes.
    pub resize_count: u64,
}

impl SlowQueueMetrics {
    /// Nothing has happened yet.
    pub open spec fn zero() -> SlowQueueMetrics {
        SlowQueueMetrics {
            total_queued: 0,
            total_processed: 0,
            critical_enqueued: 0,
            critical_processed: 0,
            starvation_prevented: 0,
            priority_promotions: 0,
            queue_depth_high_water: 0,
            consecutive_timeouts: 0,
            reintegration_success: 0,
            reintegration_failure: 0,
            resize_count: 0,
        }
    }

    /// The counters with a new queue depth, which may be the highest so far.
    pub open spec fn at_depth(self, depth: usize) -> SlowQueueMetrics {
        SlowQueueMetrics {
            total_queued: depth,
            queue_depth_high_water: if depth > self.queue_depth_high_water {
                depth
            } else {
                self.queue_depth_high_water
            },
            ..self
        }
    }

    /// The counters after a batch of `size` tasks was handed out.
    pub open spec fn after_batch(self, size: usize) -> SlowQueueMetrics {
        SlowQueueMetrics {
            total_processed: self.total_processed.wrapping_add(size as u64),
            ..self
        }
    }

    /// The counters as a snapshot.
    pub open spec fn snapshot_spec(self) -> SlowQueueMetricsSnapshot {
        SlowQueueMetricsSnapshot {
            total_queued: self.total_queued,
            total_processed: self.total_processed,
            critical_enqueued: self.critical_enqueued,
            critical_processed: self.critical_processed,
            starvation_prevented: self.starvation_prevented,
            priority_promotions: self.priority_promotions,
            queue_depth_high_water: self.queue_depth_high_water,
            consecutive_timeouts: self.consecutive_timeouts,
            reintegration_success: self.reintegration_success,
            reintegration_failure: self.reintegration_failure,
            resize_count: self.resize_count,
        }
    }

    /// Records the queue depth and its high water mark.
    pub fn record_queue_depth(&mut self, depth: usize)
        ensures
            *final(self) == old(self).at_depth(depth),
    {
        self.total_queued = depth;
        if depth > self.queue_depth_high_water {
            self.queue_depth_high_water = depth;
        }
    }

    /// Takes a snapshot of the counters.
    pub fn snapshot(&self) -> (snapshot: SlowQueueMetricsSnapshot)
        ensures
            snapshot == self.snapshot_spec(),
    {
        SlowQueueMetricsSnapshot {
            total_queued: self.total_queued,
            total_processed: self.total_processed,
            critical_enqueued: self.critical_enqueued,
            critical_processed: self.critical_processed,
            starvation_prevented: self.starvation_prevented,
            priority_promotions: self.priority_promotions,
            queue_depth_high_water: self.queue_depth_high_water,
            consecutive_timeouts: self.consecutive_timeouts,
            reintegration_success: self.reintegration_success,
            reintegration_failure: self.reintegration_failure,
            resize_count: self.resize_count,
        }
    }
}

impl Default for SlowQueueMetrics {
    fn default() -> (metrics: Self)
        ensures
            metrics == SlowQueueMetrics::zero(),
    {
        SlowQueueMetrics {
            total_queued: 0,
            total_processed: 0,
            critical_enqueued: 0,
            critical_processed: 0,
            starvation_prevented: 0,
            priority_promotions: 0,
            queue_depth_high_water: 0,
            consecutive_timeouts: 0,
            reintegration_success: 0,
            reintegration_failure: 0,
            resize_count: 0,
        }
    }
}

/// Counters of the slow queue at one moment.
#[derive(Debug, Clone, Copy, PartialEq, Eq, Structural)]
pub struct SlowQueueMetricsSnapshot {
    /// Total tasks currently queued.
    pub total_queued: usize,
    /// Total tasks processed.
    pub total_processed: u64,
    /// Tasks enqueued at critical priority.
    pub critical_enqueued: u64,
    /// Tasks processed at critical priority.
    pub critical_processed: u64,
    /// Number of starvation preventions.
    pub starvation_prevented: u64,
    /// Number of priority promotions.
    pub priority_promotions: u64,
    /// High water mark for queue depth.
    pub queue_depth_high_water: usize,
    /// Consecutive timeouts.
    pub consecutive_timeouts: u32,
    /// Successful reintegrations.
    pub reintegration_success: u64,
    /// Failed reintegrations.
    pub reintegration_failure: u64,
    /// Number of adaptive queue resizes.
    pub resize_count: u64,
}

/// Settings of the slow queue.
#[derive(Debug, Clone, Copy)]
pub struct SlowQueueConfig {
    /// Maximum tasks in queue.
    pub max_queue_size: usize,
    /// Minimum tasks in queue for adaptive sizing.
    pub min_queue_size: usize,
    /// Batch size for processing.
    pub default_batch_size: usize,
    /// Maximum batch size under load.
    pub max_batch_size: usize,
    /// Processing interval in milliseconds.
    pub process_interval_ms: u64,
    /// Starvation threshold in milliseconds.
    pub starvation_threshold_ms: u64,
    /// Tier-specific execution budgets in milliseconds.
    pub tier_budgets: [u64; 4],
    /// Number of good polls required for reintegration.
    pub reintegration_good_polls: u32,
    /// Maximum tasks per source.
    pub max_tasks_per_source: usize,
    /// Enable adaptive queue sizing.
    pub adaptive_enabled: bool,
    /// Memory pressure threshold, a single-precision bit pattern.
    pub memory_pressure_threshold_bits: u32,
    /// Fair scheduling algorithm to use.
    pub scheduling_algorithm: SchedulingAlgorithm,
    /// Tasks per round for each priority.
    pub drr_quantum: [u32; 4],
    /// Lottery tickets for each priority.
    pub lottery_tickets: [u32; 4],
}

/// Memory pressure of 0.85 as a single-precision bit pattern.
pub const DEFAULT_PRESSURE_THRESHOLD_BITS: u32 = 0x3f59_999a;

/// The default settings.
pub open spec fn default_slow_queue_config() -> SlowQueueConfig {
    SlowQueueConfig {
        max_queue_size: 10_000,
        min_queue_size: 1_000,
        default_batch_size: 32,
        max_batch_size: 256,
        process_interval_ms: 10,
        starvation_threshold_ms: 1000,
        tier_budgets: [100, 50, 10, 1],
        reintegration_good_polls: 10,
        max_tasks_per_source: 100,
        adaptive_enabled: true,
        memory_pressure_threshold_bits: DEFAULT_PRESSURE_THRESHOLD_BITS,
        scheduling_algorithm: SchedulingAlgorithm::CreditBased,
        drr_quantum: [4, 3, 2, 1],
        lottery_tickets: [40, 30, 20, 10],
    }
}

impl Default for SlowQueueConfig {
    fn default() -> (config: Self)
        ensures
            config == default_slow_queue_config(),
    {
        let config = SlowQueueConfig {
            max_queue_size: 10_000,
            min_queue_size: 1_000,
            default_batch_size: 32,
            max_batch_size: 256,
            process_interval_ms: 10,
            starvation_threshold_ms: 1000,
            tier_budgets: [100, 50, 10, 1],
            reintegration_good_polls: 10,
            max_tasks_per_source: 100,
            adaptive_enabled: true,
            memory_pressure_threshold_bits: DEFAULT_PRESSURE_THRESHOLD_BITS,
            scheduling_algorithm: SchedulingAlgorithm::CreditBased,
            drr_quantum: [4, 3, 2, 1],
            lottery_tickets: [40, 30, 20, 10],
        };
        assert(config.tier_budgets =~= default_slow_queue_config().tier_budgets);
        assert(config.drr_quantum =~= default_slow_queue_config().drr_quantum);
        assert(config.lottery_tickets =~= default_slow_queue_config().lottery_tickets);
        config
    }
}

/// The counters are reported as they are.
pub proof fn queue_reports_agree(metrics: SlowQueueMetrics)
    ensures
        ({
            let report = metrics.snapshot_spec();
            &&& report.total_queued == metrics.total_queued
            &&& report.total_processed == metrics.total_processed
            &&& report.critical_enqueued == metrics.critical_enqueued
            &&& report.critical_processed == metrics.critical_processed
            &&& report.starvation_prevented == metrics.starvation_prevented
            &&& report.priority_promotions == metrics.priority_promotions
            &&& report.queue_depth_high_water == metrics.queue_depth_high_water
            &&& report.consecutive_timeouts == metrics.consecutive_timeouts
            &&& report.reintegration_success == metrics.reintegration_success
            &&& report.reintegration_failure == metrics.reintegration_failure
            &&& report.resize_count == metrics.resize_count
        }),
{
}

/// The highest depth is the larger of the present one and the highest before.
pub proof fn high_water_mark_is_the_maximum(metrics: SlowQueueMetrics, depth: usize)
    ensures
        ({
            let after = metrics.at_depth(depth);
            &&& after.total_queued == depth
            &&& after.queue_depth_high_water >= depth
            &&& after.queue_depth_high_water >= metrics.queue_depth_high_water
            &&& after.queue_depth_high_water == depth || after.queue_depth_high_water
                == metrics.queue_depth_high_water
            &&& after.total_processed == metrics.total_processed
        }),
{
}

/// By default the queue holds ten thousand tasks, a hundred of each source, hands out 32
/// at a time and 256 at most, and boosts tasks after a second; the more urgent a
/// priority, the larger its quantum and its share of the tickets.
pub proof fn default_settings_favour_urgent_tasks()
    ensures
        ({
            let config = default_slow_queue_config();
            &&& config.max_queue_size == 10_000 && config.min_queue_size == 1_000
            &&& config.default_batch_size == 32 && config.max_batch_size == 256
            &&& config.process_interval_ms == 10 && config.starvation_threshold_ms == 1000
            &&& config.reintegration_good_polls == 10 && config.max_tasks_per_source == 100
            &&& config.adaptive_enabled
            &&& config.memory_pressure_threshold_bits == 0x3f59_999a
            &&& config.scheduling_algorithm == SchedulingAlgorithm::CreditBased
            &&& forall|rank: int|
                0 <= rank < 4 ==> #[trigger] config.drr_quantum[rank] == 4 - rank
            &&& forall|rank: int|
                0 <= rank < 4 ==> #[trigger] config.lottery_tickets[rank] == 40 - 10 * rank
            &&& config.tier_budgets[0] == 100 && config.tier_budgets[1] == 50
            &&& config.tier_budgets[2] == 10 && config.tier_budgets[3] == 1
        }),
{
    let config = default_slow_queue_config();
    assert forall|rank: int| 0 <= rank < 4 implies #[trigger] config.drr_quantum[rank] == 4
        - rank by {
        if rank == 0 {
        } else if rank == 1 {
        } else if rank == 2 {
        } else {
        }
    }
    assert forall|rank: int| 0 <= rank < 4 implies #[trigger] config.lottery_tickets[rank] == 40
        - 10 * rank by {
        if rank == 0 {
        } else if rank == 1 {
        } else if rank == 2 {
        } else {
        }
    }
}

} // verus!
