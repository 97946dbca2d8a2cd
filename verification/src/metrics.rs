//! Counters of the preemption system.

use crate::stopwatch::Stopwatch;
use vstd::prelude::*;

verus! {

/// Counters of the preemption system.
#[derive(Debug, Clone, Copy)]
pub struct PulseMetrics {
    /// Total number of task polls observed.
    pub total_polls: u64,
    /// Number of budget violations detected.
    pub budget_violations: u64,
    /// Number of voluntary yields performed.
    pub voluntary_yields: u64,
    /// Number of tasks promoted to higher tiers.
    pub tier_promotions: u64,
    /// Number of tasks demoted to lower tiers.
    pub tier_demotions: u64,
    /// Number of tasks moved to slow queue.
    pub slow_queue_enqueues: u64,
    /// Number of tasks processed from slow queue.
    pub slow_queue_processed: u64,
    /// Total CPU time consumed (microseconds).
    pub total_cpu_time_us: u64,
    /// Number of intervention actions taken.
    pub interventions_total: u64,
    /// Number of configuration updates.
    pub config_updates: u64,
    /// Gauge: tasks in the slow queue.
    pub slow_queue_size: usize,
    /// Gauge: active tasks.
    pub active_tasks: usize,
    /// Runs since the metrics were created.
    pub uptime: Stopwatch,
}

impl PulseMetrics {
    /// Creates metrics with all counters at zero.
    #[must_use]
    pub fn new() -> (metrics: Self)
        ensures
            metrics == PulseMetrics::zero(metrics.uptime),
            metrics.uptime.started_by_clock(),
    {
        PulseMetrics {
            total_polls: 0,
            budget_violations: 0,
            voluntary_yields: 0,
            tier_promotions: 0,
            tier_demotions: 0,
            slow_queue_enqueues: 0,
            slow_queue_processed: 0,
            total_cpu_time_us: 0,
            interventions_total: 0,
            config_updates: 0,
            slow_queue_size: 0,
            active_tasks: 0,
            uptime: Stopwatch::start(),
        }
    }

    /// All counters at zero.
    pub open spec fn zero(uptime: Stopwatch) -> PulseMetrics {
        PulseMetrics {
            total_polls: 0,
            budget_violations: 0,
            voluntary_yields: 0,
            tier_promotions: 0,
            tier_demotions: 0,
            slow_queue_enqueues: 0,
            slow_queue_processed: 0,
            total_cpu_time_us: 0,
            interventions_total: 0,
            config_updates: 0,
            slow_queue_size: 0,
            active_tasks: 0,
            uptime,
        }
    }

    /// Records a task poll.
    pub fn record_poll(&mut self)
        ensures
            *final(self) == (PulseMetrics {
                total_polls: old(self).total_polls.wrapping_add(1),
                ..*old(self)
            }),
    {
        self.total_polls = self.total_polls.wrapping_add(1);
    }

    /// Records a budget violation.
    pub fn record_budget_violation(&mut self)
        ensures
            *final(self) == (PulseMetrics {
                budget_violations: old(self).budget_violations.wrapping_add(1),
                ..*old(self)
            }),
    {
        self.budget_violations = self.budget_violations.wrapping_add(1);
    }

    /// Records a voluntary yield.
    pub fn record_voluntary_yield(&mut self)
        ensures
            *final(self) == (PulseMetrics {
                voluntary_yields: old(self).voluntary_yields.wrapping_add(1),
                ..*old(self)
            }),
    {
        self.voluntary_yields = self.voluntary_yields.wrapping_add(1);
    }

    /// Records a promotion, whichever the tiers.
    pub fn record_tier_promotion(&mut self, _from_tier: u8, _to_tier: u8)
        ensures
            *final(self) == (PulseMetrics {
                tier_promotions: old(self).tier_promotions.wrapping_add(1),
                ..*old(self)
            }),
    {
        self.tier_promotions = self.tier_promotions.wrapping_add(1);
    }

    /// Records a demotion, whichever the tiers.
    pub fn record_tier_demotion(&mut self, _from_tier: u8, _to_tier: u8)
        ensures
            *final(self) == (PulseMetrics {
                tier_demotions: old(self).tier_demotions.wrapping_add(1),
                ..*old(self)
            }),
    {
        self.tier_demotions = self.tier_demotions.wrapping_add(1);
    }

    /// Records that a task was put into the slow queue.
    pub fn record_slow_queue_enqueue(&mut self)
        ensures
            *final(self) == (PulseMetrics {
                slow_queue_enqueues: old(self).slow_queue_enqueues.wrapping_add(1),
                ..*old(self)
            }),
    {
        self.slow_queue_enqueues = self.slow_queue_enqueues.wrapping_add(1);
    }

    /// Records that `count` tasks of the slow queue were processed.
    pub fn record_slow_queue_processed(&mut self, count: usize)
        ensures
            *final(self) == (PulseMetrics {
                slow_queue_processed: old(self).slow_queue_processed.wrapping_add(count as u64),
                ..*old(self)
            }),
    {
        self.slow_queue_processed = self.slow_queue_processed.wrapping_add(count as u64);
    }

    /// Records CPU time.
    pub fn record_cpu_time(&mut self, duration_us: u64)
        ensures
            *final(self) == (PulseMetrics {
                total_cpu_time_us: old(self).total_cpu_time_us.wrapping_add(duration_us),
                ..*old(self)
            }),
    {
        self.total_cpu_time_us = self.total_cpu_time_us.wrapping_add(duration_us);
    }

    /// Records an intervention, whichever the action.
    pub fn record_intervention(&mut self, _action: &str)
        ensures
            *final(self) == (PulseMetrics {
                interventions_total: old(self).interventions_total.wrapping_add(1),
                ..*old(self)
            }),
    {
        self.interventions_total = self.interventions_total.wrapping_add(1);
    }

    /// Records a configuration update.
    pub fn record_config_update(&mut self)
        ensures
            *final(self) == (PulseMetrics {
                config_updates: old(self).config_updates.wrapping_add(1),
                ..*old(self)
            }),
    {
        self.config_updates = self.config_updates.wrapping_add(1);
    }

    /// Sets the gauge of the slow queue size.
    pub fn update_slow_queue_size(&mut self, size: usize)
        ensures
            *final(self) == (PulseMetrics { slow_queue_size: size, ..*old(self) }),
    {
        self.slow_queue_size = size;
    }

    /// Sets the gauge of active tasks.
    pub fn update_active_tasks(&mut self, count: usize)
        ensures
            *final(self) == (PulseMetrics { active_tasks: count, ..*old(self) }),
    {
        self.active_tasks = count;
    }

    /// Nanoseconds since the metrics were created.
    #[must_use]
    pub fn uptime_ns(&self) -> (ns: u128)
        ensures
            self.uptime.shows(ns),
    {
        self.uptime.elapsed_ns()
    }

    /// The counters after an uptime of `uptime_ns`, as a snapshot.
    pub open spec fn snapshot_spec(self, uptime_ns: u128) -> MetricsSnapshot {
        MetricsSnapshot {
            total_polls: self.total_polls,
            budget_violations: self.budget_violations,
            voluntary_yields: self.voluntary_yields,
            tier_promotions: self.tier_promotions,
            tier_demotions: self.tier_demotions,
            slow_queue_enqueues: self.slow_queue_enqueues,
            slow_queue_processed: self.slow_queue_processed,
            total_cpu_time_us: self.total_cpu_time_us,
            interventions_total: self.interventions_total,
            config_updates: self.config_updates,
            uptime_ns,
        }
    }

    /// Takes a snapshot of the counters. The uptime depends on the clock.
    #[must_use]
    pub fn snapshot(&self) -> (snapshot: MetricsSnapshot)
        ensures
            snapshot == self.snapshot_spec(snapshot.uptime_ns),
            self.uptime.shows(snapshot.uptime_ns),
    {
        self.snapshot_at(self.uptime_ns())
    }

    /// [`snapshot`](Self::snapshot) after a given uptime.
    #[must_use]
    pub fn snapshot_at(&self, uptime_ns: u128) -> (snapshot: MetricsSnapshot)
        ensures
            snapshot == self.snapshot_spec(uptime_ns),
    {
        MetricsSnapshot {
            total_polls: self.total_polls,
            budget_violations: self.budget_violations,
            voluntary_yields: self.voluntary_yields,
            tier_promotions: self.tier_promotions,
            tier_demotions: self.tier_demotions,
            slow_queue_enqueues: self.slow_queue_enqueues,
            slow_queue_processed: self.slow_queue_processed,
            total_cpu_time_us: self.total_cpu_time_us,
            interventions_total: self.interventions_total,
            config_updates: self.config_updates,
            uptime_ns,
        }
    }
}

impl Default for PulseMetrics {
    fn default() -> (metrics: Self)
        ensures
            metrics == PulseMetrics::zero(metrics.uptime),
            metrics.uptime.started_by_clock(),
    {
        PulseMetrics::new()
    }
}

/// Counters at one moment.
#[derive(Debug, Clone, Copy, PartialEq, Eq, Structural)]
pub struct MetricsSnapshot {
    /// Total number of task polls executed.
    pub total_polls: u64,
    /// Total budget violations recorded.
    pub budget_violations: u64,
    /// Total voluntary task yields.
    pub voluntary_yields: u64,
    /// Total tier promotions.
    pub tier_promotions: u64,
    /// Total tier demotions.
    pub tier_demotions: u64,
    /// Total tasks enqueued to slow queue.
    pub slow_queue_enqueues: u64,
    /// Total tasks processed from slow queue.
    pub slow_queue_processed: u64,
    /// Total CPU time consumed (microseconds).
    pub total_cpu_time_us: u64,
    /// Total interventions applied across all tiers.
    pub interventions_total: u64,
    /// Total configuration update events.
    pub config_updates: u64,
    /// Uptime in nanoseconds.
    pub uptime_ns: u128,
}

/// Two snapshots of the same counters differ at most in the uptime.
pub proof fn snapshots_agree(metrics: PulseMetrics, first_ns: u128, second_ns: u128)
    ensures
        metrics.snapshot_spec(second_ns) == (MetricsSnapshot {
            uptime_ns: second_ns,
            ..metrics.snapshot_spec(first_ns)
        }),
{
}

/// A snapshot holds the counters as they are.
pub proof fn snapshots_hold_the_counters(metrics: PulseMetrics, uptime_ns: u128)
    ensures
        ({
            let snapshot = metrics.snapshot_spec(uptime_ns);
            &&& snapshot.total_polls == metrics.total_polls
            &&& snapshot.budget_violations == metrics.budget_violations
            &&& snapshot.voluntary_yields == metrics.voluntary_yields
            &&& snapshot.tier_promotions == metrics.tier_promotions
            &&& snapshot.tier_demotions == metrics.tier_demotions
            &&& snapshot.slow_queue_enqueues == metrics.slow_queue_enqueues
            &&& snapshot.slow_queue_processed == metrics.slow_queue_processed
            &&& snapshot.total_cpu_time_us == metrics.total_cpu_time_us
            &&& snapshot.interventions_total == metrics.interventions_total
            &&& snapshot.config_updates == metrics.config_updates
            &&& snapshot.uptime_ns == uptime_ns
        }),
{
}

/// New metrics have counted nothing.
pub proof fn new_metrics_are_zero(uptime: Stopwatch)
    ensures
        ({
            let metrics = PulseMetrics::zero(uptime);
            &&& metrics.total_polls == 0 && metrics.budget_violations == 0
            &&& metrics.voluntary_yields == 0 && metrics.tier_promotions == 0
            &&& metrics.tier_demotions == 0 && metrics.slow_queue_enqueues == 0
            &&& metrics.slow_queue_processed == 0 && metrics.total_cpu_time_us == 0
            &&& metrics.interventions_total == 0 && metrics.config_updates == 0
            &&& metrics.slow_queue_size == 0 && metrics.active_tasks == 0
            &&& metrics.uptime == uptime
        }),
{
}

} // verus!
