//! Statistics per worker thread, and of the manager as a whole.

use vstd::prelude::*;

verus! {

/// Statistics of one worker thread.
#[derive(Debug, Clone, Copy)]
pub struct WorkerStats {
    /// Total poll operations processed by this worker.
    pub polls_processed: u64,
    /// Forced yields initiated by tier interventions.
    pub yields_forced: u64,
    /// Tier promotions triggered by this worker.
    pub tier_promotions: u64,
    /// Tier demotions triggered by this worker.
    pub tier_demotions: u64,
    /// Budget violations detected by this worker.
    pub budget_violations: u64,
    /// Unique tasks processed by this worker.
    pub tasks_processed: u64,
    /// Total CPU time consumed (nanoseconds).
    pub cpu_time_ns: u64,
    /// Slow poll operations (over 1 ms).
    pub slow_polls: u64,
    /// Voluntary task yields.
    pub voluntary_yields: u64,
}

impl WorkerStats {
    /// A worker that has done nothing yet.
    pub open spec fn zero() -> WorkerStats {
        WorkerStats {
            polls_processed: 0,
            yields_forced: 0,
            tier_promotions: 0,
            tier_demotions: 0,
            budget_violations: 0,
            tasks_processed: 0,
            cpu_time_ns: 0,
            slow_polls: 0,
            voluntary_yields: 0,
        }
    }

    /// The statistics as they are reported for worker `worker_id`.
    pub open spec fn metrics_spec(self, worker_id: usize) -> WorkerMetrics {
        WorkerMetrics {
            worker_id,
            polls: self.polls_processed,
            violations: self.budget_violations,
            yields: self.voluntary_yields,
            cpu_time_ns: self.cpu_time_ns,
            tasks: self.tasks_processed,
            slow_polls: self.slow_polls,
        }
    }

    /// Reports the statistics for worker `worker_id`.
    pub fn metrics(&self, worker_id: usize) -> (metrics: WorkerMetrics)
        ensures
            metrics == self.metrics_spec(worker_id),
    {
        WorkerMetrics {
            worker_id,
            polls: self.polls_processed,
            violations: self.budget_violations,
            yields: self.voluntary_yields,
            cpu_time_ns: self.cpu_time_ns,
            tasks: self.tasks_processed,
            slow_polls: self.slow_polls,
        }
    }
}

impl Default for WorkerStats {
    fn default() -> (stats: Self)
        ensures
            stats == WorkerStats::zero(),
    {
        WorkerStats {
            polls_processed: 0,
            yields_forced: 0,
            tier_promotions: 0,
            tier_demotions: 0,
            budget_violations: 0,
            tasks_processed: 0,
            cpu_time_ns: 0,
            slow_polls: 0,
            voluntary_yields: 0,
        }
    }
}

/// What is reported of one worker thread.
#[derive(Debug, Clone, Copy, PartialEq, Eq, Structural)]
pub struct WorkerMetrics {
    /// Worker thread identifier.
    pub worker_id: usize,
    /// Total poll operations processed by this worker.
    pub polls: u64,
    /// Budget violations detected for tasks on this worker.
    pub violations: u64,
    /// Voluntary task yields on this worker.
    pub yields: u64,
    /// Total CPU time consumed by this worker (nanoseconds).
    pub cpu_time_ns: u64,
    /// Unique tasks processed by this worker.
    pub tasks: u64,
    /// Slow poll operations detected (over 1 ms).
    pub slow_polls: u64,
}

/// What is reported of the tier manager.
#[derive(Debug, Clone, Copy, PartialEq, Eq, Structural)]
pub struct TierMetrics {
    /// Poll count.
    pub total_polls: u64,
    /// Violation count.
    pub total_violations: u64,
    /// Budget violation count.
    pub budget_violations: u64,
    /// Yield count, forced and voluntary.
    pub total_yields: u64,
    /// Voluntary yield count.
    pub voluntary_yields: u64,
    /// Tier promotion count.
    pub tier_promotions: u64,
    /// Tier demotion count.
    pub tier_demotions: u64,
    /// Active task count.
    pub active_tasks: usize,
    /// Slow queue size.
    pub slow_queue_size: usize,
}

} // verus!
