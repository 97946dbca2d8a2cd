//! The manager as a mathematical value, and what each of its operations does to
//! that value.

use crate::budget::PoolsModel;
use crate::reschedule::{RescheduleTask, SchedulerModel, SendOutcome};
use crate::stopwatch::Stopwatch;
use crate::tier_manager::config::{InterventionAction, TierConfig};
use crate::tier_manager::context::{scaled, PollResult, TaskContext, TaskId};
use crate::tier_manager::task::{PollReport, TaskModel};
use crate::tier_manager::worker::{TierMetrics, WorkerMetrics, WorkerStats};
use vstd::prelude::*;

verus! {

/// Counters of the manager as a whole.
#[derive(Debug, Clone, Copy)]
pub struct TierCounters {
    /// Polls.
    pub polls: u64,
    /// Violations.
    pub violations: u64,
    /// Yields, forced and voluntary.
    pub yields: u64,
    /// Budget violations.
    pub budget_violations: u64,
    /// Voluntary yields.
    pub voluntary_yields: u64,
    /// Promotions.
    pub tier_promotions: u64,
    /// Demotions.
    pub tier_demotions: u64,
}

/// `counter` after `event` happened or not.
pub open spec fn count_if(counter: u64, event: bool) -> u64 {
    if event {
        counter.wrapping_add(1)
    } else {
        counter
    }
}

impl TierCounters {
    /// Nothing has happened yet.
    pub open spec fn zero() -> TierCounters {
        TierCounters {
            polls: 0,
            violations: 0,
            yields: 0,
            budget_violations: 0,
            voluntary_yields: 0,
            tier_promotions: 0,
            tier_demotions: 0,
        }
    }

    /// The counters after a poll.
    pub open spec fn after_report(self, report: PollReport) -> TierCounters {
        TierCounters {
            polls: self.polls,
            violations: count_if(self.violations, report.violated),
            yields: count_if(self.yields, report.yielded),
            budget_violations: count_if(self.budget_violations, report.violated),
            voluntary_yields: self.voluntary_yields,
            tier_promotions: count_if(self.tier_promotions, report.promoted),
            tier_demotions: count_if(self.tier_demotions, report.demoted),
        }
    }

    /// Counts what happened at a poll.
    pub(crate) fn record_poll(&mut self, report: &PollReport)
        ensures
            *final(self) == old(self).after_report(*report),
    {
        if report.violated {
            self.violations = self.violations.wrapping_add(1);
            self.budget_violations = self.budget_violations.wrapping_add(1);
        }
        if report.promoted {
            self.tier_promotions = self.tier_promotions.wrapping_add(1);
        }
        if report.demoted {
            self.tier_demotions = self.tier_demotions.wrapping_add(1);
        }
        if report.yielded {
            self.yields = self.yields.wrapping_add(1);
        }
    }
}

impl WorkerStats {
    /// The statistics after a poll has begun, of a task seen for the first time
    /// or not.
    pub open spec fn after_poll_began(self, new_task: bool) -> WorkerStats {
        WorkerStats {
            polls_processed: self.polls_processed.wrapping_add(1),
            tasks_processed: count_if(self.tasks_processed, new_task),
            ..self
        }
    }

    /// The statistics after a poll.
    pub open spec fn after_report(self, report: PollReport) -> WorkerStats {
        WorkerStats {
            cpu_time_ns: self.cpu_time_ns.wrapping_add(report.cpu_ns),
            slow_polls: count_if(self.slow_polls, report.slow),
            budget_violations: count_if(self.budget_violations, report.violated),
            yields_forced: count_if(self.yields_forced, report.yielded),
            tier_promotions: count_if(self.tier_promotions, report.promoted),
            tier_demotions: count_if(self.tier_demotions, report.demoted),
            ..self
        }
    }

    /// Counts what happened at a poll.
    pub fn record_poll(&mut self, report: &PollReport)
        ensures
            *final(self) == old(self).after_report(*report),
    {
        self.cpu_time_ns = self.cpu_time_ns.wrapping_add(report.cpu_ns);
        if report.slow {
            self.slow_polls = self.slow_polls.wrapping_add(1);
        }
        if report.violated {
            self.budget_violations = self.budget_violations.wrapping_add(1);
        }
        if report.yielded {
            self.yields_forced = self.yields_forced.wrapping_add(1);
        }
        if report.promoted {
            self.tier_promotions = self.tier_promotions.wrapping_add(1);
        }
        if report.demoted {
            self.tier_demotions = self.tier_demotions.wrapping_add(1);
        }
    }

    /// The statistics after a voluntary yield, which led to a demotion or not.
    pub open spec fn after_voluntary_yield(self, demoted: bool) -> WorkerStats {
        WorkerStats {
            voluntary_yields: self.voluntary_yields.wrapping_add(1),
            tier_demotions: count_if(self.tier_demotions, demoted),
            ..self
        }
    }
}

/// What is done about a task after a poll.
#[derive(Debug, Clone, Copy, PartialEq, Eq, Structural)]
pub enum Intervention {
    /// No intervention.
    Nothing,
    /// A warning is due.
    Warn,
    /// The task was marked for a forced yield.
    MarkedForYield,
    /// The task was put into the slow queue.
    Queued,
    /// The task belongs into the slow queue, but there is no room.
    SlowQueueFull,
    /// The task is to be isolated by the operating system.
    Isolate,
}

/// What a tier manager holds.
#[verifier::ext_equal]
pub struct ManagerModel {
    /// Configuration.
    pub config: TierConfig,
    /// The tasks, by the number in their identifier.
    pub tasks: Map<u64, TaskModel>,
    /// The workers that have done something, by their number.
    pub workers: Map<usize, WorkerStats>,
    /// Tasks that wait for rescheduling, the next one first.
    pub slow_queue: Seq<TaskId>,
    /// Counters.
    pub counters: TierCounters,
    /// Pools that budgets come from.
    pub pools: PoolsModel,
    /// The clock.
    pub clock: Stopwatch,
    /// Scheduler that slow tasks go to.
    pub scheduler: Option<SchedulerModel>,
}

impl ManagerModel {
    /// A manager that knows no task yet.
    pub open spec fn fresh(
        config: TierConfig,
        clock: Stopwatch,
        scheduler: SchedulerModel,
    ) -> ManagerModel {
        ManagerModel {
            config,
            tasks: Map::empty(),
            workers: Map::empty(),
            slow_queue: Seq::empty(),
            counters: TierCounters::zero(),
            pools: PoolsModel::warm(),
            clock,
            scheduler: Some(scheduler),
        }
    }

    /// Whether this is a manager that knows no task yet, with a clock of its own
    /// that was started and a scheduler of the default configuration.
    pub open spec fn fresh_with_defaults(self, config: TierConfig) -> bool {
        &&& self.clock.started_by_clock()
        &&& self.scheduler matches Some(scheduler) && scheduler.is_default_fresh() && self
            == ManagerModel::fresh(config, self.clock, scheduler)
    }

    /// Statistics of a worker, all zero if it has done nothing.
    pub open spec fn worker(self, worker_id: usize) -> WorkerStats {
        if self.workers.contains_key(worker_id) {
            self.workers[worker_id]
        } else {
            WorkerStats::zero()
        }
    }

    /// What is reported of a worker.
    pub open spec fn worker_metrics(self, worker_id: usize) -> WorkerMetrics {
        self.worker(worker_id).metrics_spec(worker_id)
    }

    /// What is reported of the manager.
    pub open spec fn metrics(self) -> TierMetrics {
        TierMetrics {
            total_polls: self.counters.polls,
            total_violations: self.counters.violations,
            budget_violations: self.counters.budget_violations,
            total_yields: self.counters.yields,
            voluntary_yields: self.counters.voluntary_yields,
            tier_promotions: self.counters.tier_promotions,
            tier_demotions: self.counters.tier_demotions,
            active_tasks: self.tasks.dom().len() as usize,
            slow_queue_size: self.slow_queue.len() as usize,
        }
    }

    /// Tier of a task.
    pub open spec fn tier(self, task_id: TaskId) -> Option<u32> {
        if self.tasks.contains_key(task_id.0) {
            Some(self.tasks[task_id.0].current_tier)
        } else {
            None
        }
    }

    /// The budget of a task that is seen for the first time, scaled by its
    /// priority.
    pub open spec fn initial_budget(self, ctx: TaskContext) -> u32 {
        scaled(self.config.poll_budget, ctx.budget_quarters())
    }

    /// Whether a poll of the task can begin: it is known, or there is a budget for
    /// it.
    pub open spec fn can_begin(self, task_id: TaskId, ctx: TaskContext) -> bool {
        self.tasks.contains_key(task_id.0) || self.pools.can_acquire(self.initial_budget(ctx))
    }

    /// Whether a poll of the task can end: it is not known, or it can be judged at
    /// every tier that it may be at then.
    pub open spec fn can_end(self, task_id: TaskId) -> bool {
        self.tasks.contains_key(task_id.0) ==> self.tasks[task_id.0].can_be_judged(self.config)
    }

    /// The task before its poll, made up if it is seen for the first time.
    pub open spec fn task_to_poll(self, task_id: TaskId, ctx: TaskContext, now: u128) -> TaskModel {
        if self.tasks.contains_key(task_id.0) {
            self.tasks[task_id.0]
        } else {
            TaskModel::fresh(
                self.pools.acquired(self.initial_budget(ctx)),
                ctx.worker_id,
                ctx,
                now,
            )
        }
    }

    /// The manager after a poll has begun.
    pub open spec fn before_poll(self, task_id: TaskId, ctx: TaskContext, now: u128) -> ManagerModel {
        let new_task = !self.tasks.contains_key(task_id.0);
        ManagerModel {
            tasks: self.tasks.insert(
                task_id.0,
                TaskModel {
                    last_poll_time: now,
                    context: ctx,
                    ..self.task_to_poll(task_id, ctx, now)
                },
            ),
            workers: self.workers.insert(
                ctx.worker_id,
                self.worker(ctx.worker_id).after_poll_began(new_task),
            ),
            counters: TierCounters { polls: self.counters.polls.wrapping_add(1), ..self.counters },
            pools: if new_task {
                self.pools.after_acquire()
            } else {
                self.pools
            },
            ..self
        }
    }

    /// Whether no more tasks wait in the slow queue than it may hold.
    pub open spec fn slow_queue_bounded(self) -> bool {
        self.slow_queue.len() <= self.config.max_slow_queue_size
    }

    /// Whether `task` is a request to reschedule the task with this identifier: at
    /// its current tier, or at tier 0 if it is no longer known, submitted when the
    /// request was made.
    pub open spec fn is_request(self, task_id: TaskId, task: RescheduleTask) -> bool {
        &&& task.task_id == task_id
        &&& task.tier == (match self.tier(task_id) {
            Some(tier) => tier as int,
            None => 0,
        })
        &&& task.reschedule_count == 0
        &&& task.submitted_at.started_by_clock()
    }

    /// Whether a request for the task was put to the scheduler, with this outcome.
    pub open spec fn slow_task_offered(self, task_id: TaskId, outcome: SendOutcome) -> bool {
        self.scheduler matches Some(scheduler) && exists|task: RescheduleTask|
            self.is_request(task_id, task) && #[trigger] scheduler.offered(task, outcome)
    }

    /// Whether the slow queue has room.
    pub open spec fn has_room(self) -> bool {
        self.slow_queue.len() < self.config.max_slow_queue_size
    }

    /// What is done about a task whose tier asks for `action`.
    pub open spec fn intervention_for(self, action: InterventionAction) -> Intervention {
        match action {
            InterventionAction::Monitor => Intervention::Nothing,
            InterventionAction::Warn => Intervention::Warn,
            InterventionAction::Yield => Intervention::MarkedForYield,
            InterventionAction::SlowQueue => if self.has_room() {
                Intervention::Queued
            } else {
                Intervention::SlowQueueFull
            },
            InterventionAction::Isolate => if self.config.enable_isolation {
                Intervention::Isolate
            } else if self.has_room() {
                Intervention::Queued
            } else {
                Intervention::SlowQueueFull
            },
        }
    }

    /// The intervention that follows a poll of a task.
    pub open spec fn intervention(
        self,
        task_id: TaskId,
        result: PollResult,
        poll_ns: u128,
        now: u128,
    ) -> Intervention {
        if self.tasks.contains_key(task_id.0) {
            let polled = self.tasks[task_id.0].polled(self.config, result, poll_ns, now);
            self.intervention_for(self.config.tier_policies[polled.current_tier as int].action)
        } else {
            Intervention::Nothing
        }
    }

    /// The manager after a poll. A task that is not known is passed over.
    pub open spec fn after_poll(
        self,
        task_id: TaskId,
        result: PollResult,
        poll_ns: u128,
        now: u128,
    ) -> ManagerModel {
        if self.tasks.contains_key(task_id.0) {
            let task = self.tasks[task_id.0];
            let polled = task.polled(self.config, result, poll_ns, now);
            let report = task.poll_report(self.config, result, poll_ns, now);
            let intervention = self.intervention(task_id, result, poll_ns, now);
            ManagerModel {
                tasks: self.tasks.insert(
                    task_id.0,
                    TaskModel {
                        force_yield: polled.force_yield || intervention
                            == Intervention::MarkedForYield,
                        ..polled
                    },
                ),
                workers: self.workers.insert(
                    task.worker_id,
                    self.worker(task.worker_id).after_report(report),
                ),
                slow_queue: if intervention == Intervention::Queued {
                    self.slow_queue.push(task_id)
                } else {
                    self.slow_queue
                },
                counters: self.counters.after_report(report),
                ..self
            }
        } else {
            self
        }
    }

    /// The manager after a voluntary yield. The yield of a task that is not known
    /// is only counted.
    pub open spec fn on_yield(self, task_id: TaskId, now: u128) -> ManagerModel {
        let counted = TierCounters {
            yields: self.counters.yields.wrapping_add(1),
            voluntary_yields: self.counters.voluntary_yields.wrapping_add(1),
            ..self.counters
        };
        if self.tasks.contains_key(task_id.0) {
            let task = self.tasks[task_id.0];
            let yielded = task.yielded(self.config, now);
            ManagerModel {
                tasks: self.tasks.insert(task_id.0, yielded),
                workers: self.workers.insert(
                    task.worker_id,
                    self.worker(task.worker_id).after_voluntary_yield(
                        yielded.current_tier < task.current_tier,
                    ),
                ),
                counters: TierCounters {
                    tier_demotions: count_if(
                        counted.tier_demotions,
                        yielded.current_tier < task.current_tier,
                    ),
                    ..counted
                },
                ..self
            }
        } else {
            ManagerModel { counters: counted, ..self }
        }
    }

    /// The manager after a task has finished: the task is gone, and its budget is
    /// back in the pool.
    pub open spec fn on_completion(self, task_id: TaskId) -> ManagerModel {
        if self.tasks.contains_key(task_id.0) {
            ManagerModel {
                tasks: self.tasks.remove(task_id.0),
                pools: self.pools.after_release(self.tasks[task_id.0].budget),
                ..self
            }
        } else {
            self
        }
    }

    /// The manager with the statistics of one worker back at zero. A worker that
    /// has done nothing is passed over.
    pub open spec fn with_worker_reset(self, worker_id: usize) -> ManagerModel {
        if self.workers.contains_key(worker_id) {
            ManagerModel {
                workers: self.workers.insert(worker_id, WorkerStats::zero()),
                ..self
            }
        } else {
            self
        }
    }

    /// The manager with another configuration.
    pub open spec fn with_config(self, config: TierConfig) -> ManagerModel {
        ManagerModel { config, ..self }
    }

    /// Every task is at an existing tier, and the collections are finite.
    pub open spec fn wf(self) -> bool {
        &&& forall|id: u64| #[trigger] self.tasks.contains_key(id) ==> self.tasks[id].wf()
        &&& self.tasks.dom().finite()
        &&& self.workers.dom().finite()
        &&& self.pools.wf()
        &&& self.slow_queue.len() <= usize::MAX
    }
}

} // verus!
