//! The tier manager.

use crate::budget::{acquire_budget, release_budget, BudgetPools};
use crate::collections::{
    budget_in_map, count_tasks, insert_task, insert_worker, list_workers, new_task_id_queue,
    new_task_map, new_worker_map, pop_task_id, push_task_id, queued_task_ids, remove_task,
    task_entries, tiers_in_map, worker_entries, worker_in_map,
};
use crate::reschedule::{
    submission_result, DedicatedThreadScheduler, RescheduleTask, SchedulerModel, SendOutcome,
    ThreadSchedulerConfig, ThreadSchedulerMetrics,
};
use crate::stopwatch::Stopwatch;
use crate::text::{decimal, decimal_text};
use crate::tier_manager::config::{
    detect_profile, find_policy_objection, policy_objection, profile_of, ConfigProfile,
    InterventionAction, TierConfig, TierPolicy, TIER_COUNT,
};
use crate::tier_manager::context::{scale, PollResult, TaskContext, TaskId};
use crate::tier_manager::model::{Intervention, ManagerModel, TierCounters};
use crate::tier_manager::task::{TaskModel, TaskState, NO_PENDING_TIER};
use crate::tier_manager::worker::{TierMetrics, WorkerMetrics, WorkerStats};
use crossbeam::queue::SegQueue;
use dashmap::DashMap;
use std::collections::HashMap;
use vstd::prelude::*;
use vstd::string::*;

verus! {

/// Main tier management coordinator.
pub struct TierManager {
    config: TierConfig,
    task_states: DashMap<u64, TaskState>,
    slow_queue: SegQueue<TaskId>,
    slow_queue_size: usize,
    counters: TierCounters,
    worker_stats: DashMap<usize, WorkerStats>,
    pools: BudgetPools,
    clock: Stopwatch,
    /// Scheduler that slow tasks go to.
    pub scheduler: Option<DedicatedThreadScheduler>,
}

impl View for TierManager {
    type V = ManagerModel;

    closed spec fn view(&self) -> ManagerModel {
        ManagerModel {
            config: self.config,
            tasks: task_entries(self.task_states).map_values(|state: TaskState| state@),
            workers: worker_entries(self.worker_stats),
            slow_queue: queued_task_ids(self.slow_queue),
            counters: self.counters,
            pools: self.pools@,
            clock: self.clock,
            scheduler: match self.scheduler {
                Some(scheduler) => Some(scheduler@),
                None => None,
            },
        }
    }
}

impl TierManager {
    /// The counter of the slow queue agrees with its contents, and the parts are
    /// well-formed.
    pub closed spec fn wf(&self) -> bool {
        &&& self@.wf()
        &&& self.slow_queue_size == self@.slow_queue.len()
        &&& self.scheduler matches Some(scheduler) ==> scheduler.wf()
    }

    /// Creates a manager that knows no task yet.
    pub fn new(config: TierConfig) -> (manager: Self)
        ensures
            manager.wf(),
            manager@.fresh_with_defaults(config),
    {
        Self::with_scheduler(config, ThreadSchedulerConfig::default())
    }

    /// Creates a manager that knows no task yet and hands slow tasks to a
    /// scheduler of this configuration.
    pub fn with_scheduler(config: TierConfig, scheduler_config: ThreadSchedulerConfig) -> (manager:
        Self)
        requires
            scheduler_config.max_queue_size <= isize::MAX / 64,
        ensures
            manager.wf(),
            manager@.clock.started_by_clock(),
            manager@.scheduler matches Some(scheduler) && {
                &&& scheduler == SchedulerModel::fresh(
                    scheduler_config,
                    scheduler.task_sender,
                    scheduler.task_receiver,
                )
                &&& scheduler.channel_made(scheduler_config.max_queue_size)
                &&& manager@ == ManagerModel::fresh(config, manager@.clock, scheduler)
            },
    {
        let manager = TierManager {
            config,
            task_states: new_task_map(),
            slow_queue: new_task_id_queue(),
            slow_queue_size: 0,
            counters: TierCounters {
                polls: 0,
                violations: 0,
                yields: 0,
                budget_violations: 0,
                voluntary_yields: 0,
                tier_promotions: 0,
                tier_demotions: 0,
            },
            worker_stats: new_worker_map(),
            pools: BudgetPools::default(),
            clock: Stopwatch::start(),
            scheduler: Some(DedicatedThreadScheduler::new(scheduler_config)),
        };
        assert(manager@.tasks =~= Map::<u64, TaskModel>::empty());
        manager
    }

    /// Whether `ns` is a reading of the manager's clock.
    pub open spec fn clock_shows(&self, ns: u128) -> bool {
        self@.clock.shows(ns)
    }

    /// Nanoseconds on the manager's clock.
    pub fn now_ns(&self) -> (ns: u128)
        ensures
            self.clock_shows(ns),
    {
        self.clock.elapsed_ns()
    }

    /// Whether a poll of the task can begin.
    pub fn can_begin(&self, task_id: TaskId, ctx: &TaskContext) -> (possible: bool)
        requires
            self.wf(),
        ensures
            possible == self@.can_begin(task_id, *ctx),
    {
        tiers_in_map(&self.task_states, task_id.0).is_some() || self.pools.can_acquire(
            scale(self.config.poll_budget, ctx.priority_budget_multiplier()),
        )
    }

    /// Whether a poll of the task can end.
    pub fn can_end(&self, task_id: TaskId) -> (possible: bool)
        requires
            self.wf(),
        ensures
            possible == self@.can_end(task_id),
    {
        assert(task_entries(self.task_states).contains_key(task_id.0)
            == self@.tasks.contains_key(task_id.0));
        match tiers_in_map(&self.task_states, task_id.0) {
            Some((current, pending)) => {
                assert(self@.tasks[task_id.0].wf());
                self.config.can_evaluate(current) && (pending == NO_PENDING_TIER
                    || self.config.can_evaluate(pending))
            },
            None => true,
        }
    }

    /// Where every interval is positive, a poll of any task can end.
    pub proof fn positive_intervals_let_polls_end(&self, task_id: TaskId)
        requires
            self.wf(),
            self@.config.intervals_positive(),
        ensures
            self@.can_end(task_id),
    {
        if self@.tasks.contains_key(task_id.0) {
            let task = self@.tasks[task_id.0];
            assert(task.wf());
            assert(self@.config.evaluates(task.current_tier as int));
            if task.pending_tier_change != NO_PENDING_TIER {
                assert(self@.config.evaluates(task.pending_tier_change as int));
            }
        }
    }

    /// Exchanges the pools that budgets come from, so that managers on one thread can
    /// draw on the same.
    pub fn exchange_pools(&mut self, pools: &mut BudgetPools)
        requires
            old(self).wf(),
            old(pools)@.wf(),
        ensures
            final(self).wf(),
            final(pools)@.wf(),
            final(self)@ == (ManagerModel { pools: old(pools)@, ..old(self)@ }),
            final(pools)@ == old(self)@.pools,
    {
        core::mem::swap(&mut self.pools, pools);
    }

    /// Called before a task is polled: sets up its budget if it is new, and counts
    /// the poll.
    pub fn before_poll(&mut self, task_id: TaskId, ctx: &TaskContext)
        requires
            old(self).wf(),
            old(self)@.can_begin(task_id, *ctx),
        ensures
            final(self).wf(),
            exists|now: u128|
                old(self).clock_shows(now) && final(self)@ == #[trigger] old(self)@.before_poll(
                    task_id,
                    *ctx,
                    now,
                ),
    {
        let now: u128 = self.now_ns();
        self.before_poll_at(task_id, ctx, now);
    }

    /// [`before_poll`](Self::before_poll) at a given time.
    pub fn before_poll_at(&mut self, task_id: TaskId, ctx: &TaskContext, now: u128)
        requires
            old(self).wf(),
            old(self)@.can_begin(task_id, *ctx),
        ensures
            final(self).wf(),
            final(self)@ == old(self)@.before_poll(task_id, *ctx, now),
    {
        self.counters.polls = self.counters.polls.wrapping_add(1);
        let mut stats = self.get_or_create_worker_stats(ctx.worker_id);
        stats.polls_processed = stats.polls_processed.wrapping_add(1);
        let mut state = match remove_task(&mut self.task_states, task_id.0) {
            Some(state) => state,
            None => {
                stats.tasks_processed = stats.tasks_processed.wrapping_add(1);
                let adjusted_budget: u32 = scale(
                    self.config.poll_budget,
                    ctx.priority_budget_multiplier(),
                );
                TaskState::new(
                    acquire_budget(&mut self.pools, adjusted_budget),
                    ctx.worker_id,
                    *ctx,
                    now,
                )
            },
        };
        insert_worker(&mut self.worker_stats, ctx.worker_id, stats);
        state.last_poll_time = now;
        state.update_context(ctx);
        insert_task(&mut self.task_states, task_id.0, state);
        proof {
            assert(self@.tasks =~= old(self)@.before_poll(task_id, *ctx, now).tasks);
            assert(self@ =~= old(self)@.before_poll(task_id, *ctx, now));
        }
    }

    /// Called after a task was polled for `poll_ns` nanoseconds: looks for budget
    /// violations, decides on the tier of the task, and says what is to be done
    /// about it.
    pub fn after_poll(&mut self, task_id: TaskId, result: PollResult, poll_ns: u128) -> (outcome:
        Intervention)
        requires
            old(self).wf(),
            old(self)@.can_end(task_id),
        ensures
            final(self).wf(),
            exists|now: u128|
                {
                    &&& old(self).clock_shows(now)
                    &&& final(self)@ == #[trigger] old(self)@.after_poll(
                        task_id,
                        result,
                        poll_ns,
                        now,
                    )
                    &&& outcome == old(self)@.intervention(task_id, result, poll_ns, now)
                },
    {
        let now: u128 = self.now_ns();
        self.after_poll_at(task_id, result, poll_ns, now)
    }

    /// [`after_poll`](Self::after_poll) at a given time.
    #[verifier::spinoff_prover]
    #[verifier::rlimit(30)]
    pub fn after_poll_at(
        &mut self,
        task_id: TaskId,
        result: PollResult,
        poll_ns: u128,
        now: u128,
    ) -> (outcome: Intervention)
        requires
            old(self).wf(),
            old(self)@.can_end(task_id),
        ensures
            final(self).wf(),
            final(self)@ == old(self)@.after_poll(task_id, result, poll_ns, now),
            outcome == old(self)@.intervention(task_id, result, poll_ns, now),
    {
        assert(task_entries(self.task_states).contains_key(task_id.0)
            == self@.tasks.contains_key(task_id.0));
        match remove_task(&mut self.task_states, task_id.0) {
            None => {
                assert(task_entries(self.task_states) =~= task_entries(old(self).task_states));
                Intervention::Nothing
            },
            Some(state) => {
                let mut state = state;
                assert(state@ == old(self)@.tasks[task_id.0]);
                let report = state.record_poll(&self.config, result, poll_ns, now);
                let mut stats = self.get_or_create_worker_stats(state.worker_id);
                stats.record_poll(&report);
                self.counters.record_poll(&report);
                insert_worker(&mut self.worker_stats, state.worker_id, stats);
                let ghost counted = self@;
                proof {
                    assert(counted.tasks =~= old(self)@.tasks.remove(task_id.0));
                    assert forall|id: u64| #[trigger] counted.tasks.contains_key(id) implies
                        counted.tasks[id].wf() by {
                        assert(old(self)@.tasks.contains_key(id));
                    }
                }
                let outcome = self.apply_intervention(task_id, &mut state);
                let ghost others = task_entries(self.task_states);
                assert(self@.tasks == counted.tasks);
                insert_task(&mut self.task_states, task_id.0, state);
                proof {
                    assert(self@.tasks =~= counted.tasks.insert(task_id.0, state@)) by {
                        assert(others.dom() =~= counted.tasks.dom());
                        assert forall|id: u64| others.contains_key(id) implies #[trigger] others[id]@
                            == counted.tasks[id] by {}
                    }
                    let expected = old(self)@.after_poll(task_id, result, poll_ns, now);
                    assert(self@.tasks =~= expected.tasks);
                    assert(self@ =~= expected);
                }
                outcome
            },
        }
    }

    /// Puts the task into the slow queue if there is room.
    fn enqueue_slow(&mut self, task_id: TaskId) -> (outcome: Intervention)
        requires
            old(self).wf(),
        ensures
            final(self).wf(),
            outcome == (if old(self)@.has_room() {
                Intervention::Queued
            } else {
                Intervention::SlowQueueFull
            }),
            final(self)@.slow_queue == (if old(self)@.has_room() {
                old(self)@.slow_queue.push(task_id)
            } else {
                old(self)@.slow_queue
            }),
            final(self)@ == (ManagerModel { slow_queue: final(self)@.slow_queue, ..old(self)@ }),
            old(self)@.slow_queue_bounded() ==> final(self)@.slow_queue_bounded(),
            final(self).scheduler == old(self).scheduler,
            final(self).task_states == old(self).task_states,
    {
        if self.slow_queue_size < self.config.max_slow_queue_size {
            push_task_id(&mut self.slow_queue, task_id);
            self.slow_queue_size = self.slow_queue_size + 1;
            Intervention::Queued
        } else {
            Intervention::SlowQueueFull
        }
    }

    /// Does what the tier of the task asks for. The slow queue never grows above its
    /// maximum size by it.
    pub fn apply_intervention(&mut self, task_id: TaskId, state: &mut TaskState) -> (outcome:
        Intervention)
        requires
            old(self).wf(),
            old(state)@.wf(),
        ensures
            final(self).wf(),
            final(state)@.wf(),
            outcome == old(self)@.intervention_for(
                old(self)@.config.tier_policies[old(state)@.current_tier as int].action,
            ),
            final(state)@ == (TaskModel {
                force_yield: old(state)@.force_yield || outcome == Intervention::MarkedForYield,
                ..old(state)@
            }),
            final(self)@.slow_queue == (if outcome == Intervention::Queued {
                old(self)@.slow_queue.push(task_id)
            } else {
                old(self)@.slow_queue
            }),
            final(self)@ == (ManagerModel { slow_queue: final(self)@.slow_queue, ..old(self)@ }),
            old(self)@.slow_queue_bounded() ==> final(self)@.slow_queue_bounded(),
    {
        let action = self.config.tier_policies[state.current_tier as usize].action;
        match action {
            InterventionAction::Monitor => Intervention::Nothing,
            InterventionAction::Warn => Intervention::Warn,
            InterventionAction::Yield => {
                state.mark_for_yield();
                Intervention::MarkedForYield
            },
            InterventionAction::SlowQueue => self.enqueue_slow(task_id),
            InterventionAction::Isolate => {
                if self.config.enable_isolation {
                    Intervention::Isolate
                } else {
                    self.enqueue_slow(task_id)
                }
            },
        }
    }

    /// Statistics of a worker, all zero if it has done nothing.
    fn get_or_create_worker_stats(&self, worker_id: usize) -> (stats: WorkerStats)
        ensures
            stats == self@.worker(worker_id),
    {
        match worker_in_map(&self.worker_stats, worker_id) {
            Some(stats) => stats,
            None => WorkerStats::default(),
        }
    }

    /// Called when a task yields of its own accord.
    pub fn on_yield(&mut self, task_id: TaskId)
        requires
            old(self).wf(),
        ensures
            final(self).wf(),
            exists|now: u128|
                old(self).clock_shows(now) && final(self)@ == #[trigger] old(self)@.on_yield(
                    task_id,
                    now,
                ),
    {
        let now: u128 = self.now_ns();
        self.on_yield_at(task_id, now);
    }

    /// [`on_yield`](Self::on_yield) at a given time.
    pub fn on_yield_at(&mut self, task_id: TaskId, now: u128)
        requires
            old(self).wf(),
        ensures
            final(self).wf(),
            final(self)@ == old(self)@.on_yield(task_id, now),
    {
        self.counters.yields = self.counters.yields.wrapping_add(1);
        self.counters.voluntary_yields = self.counters.voluntary_yields.wrapping_add(1);
        assert(task_entries(self.task_states).contains_key(task_id.0)
            == self@.tasks.contains_key(task_id.0));
        match remove_task(&mut self.task_states, task_id.0) {
            None => {
                assert(task_entries(self.task_states) =~= task_entries(old(self).task_states));
            },
            Some(state) => {
                let mut state = state;
                assert(state@ == old(self)@.tasks[task_id.0]);
                let mut stats = self.get_or_create_worker_stats(state.worker_id);
                stats.voluntary_yields = stats.voluntary_yields.wrapping_add(1);
                let worker_id: usize = state.worker_id;
                if state.record_yield(&self.config, now) {
                    stats.tier_demotions = stats.tier_demotions.wrapping_add(1);
                    self.counters.tier_demotions = self.counters.tier_demotions.wrapping_add(1);
                }
                insert_worker(&mut self.worker_stats, worker_id, stats);
                insert_task(&mut self.task_states, task_id.0, state);
                proof {
                    let expected = old(self)@.on_yield(task_id, now);
                    assert(self@.tasks =~= expected.tasks);
                    assert(self@ =~= expected);
                }
            },
        }
    }

    /// Called when a task has finished: forgets it and takes its budget back.
    pub fn on_completion(&mut self, task_id: TaskId)
        requires
            old(self).wf(),
        ensures
            final(self).wf(),
            final(self)@ == old(self)@.on_completion(task_id),
    {
        assert(task_entries(self.task_states).contains_key(task_id.0)
            == self@.tasks.contains_key(task_id.0));
        match remove_task(&mut self.task_states, task_id.0) {
            None => {
                assert(task_entries(self.task_states) =~= task_entries(old(self).task_states));
            },
            Some(state) => {
                assert(state@ == old(self)@.tasks[task_id.0]);
                release_budget(&mut self.pools, state.budget);
                proof {
                    let expected = old(self)@.on_completion(task_id);
                    assert(self@.tasks =~= expected.tasks);
                    assert(self@ =~= expected);
                }
            },
        }
    }

    /// Takes the next task out of the slow queue and makes a request to reschedule
    /// it at its current tier, or at tier 0 if it is no longer known.
    pub fn next_slow_task(&mut self) -> (request: Option<RescheduleTask>)
        requires
            old(self).wf(),
        ensures
            final(self).wf(),
            match request {
                Some(task) => {
                    &&& old(self)@.slow_queue.len() > 0
                    &&& old(self)@.is_request(old(self)@.slow_queue[0], task)
                    &&& final(self)@ == (ManagerModel {
                        slow_queue: old(self)@.slow_queue.skip(1),
                        ..old(self)@
                    })
                },
                None => old(self)@.slow_queue.len() == 0 && final(self)@ == old(self)@,
            },
    {
        match pop_task_id(&mut self.slow_queue) {
            Some(task_id) => {
                self.slow_queue_size = self.slow_queue_size - 1;
                assert(self@.tasks == old(self)@.tasks);
                let tier: u8 = match tiers_in_map(&self.task_states, task_id.0) {
                    Some((tier, _)) => {
                        assert(self@.tasks.contains_key(task_id.0));
                        assert(self@.tasks[task_id.0].wf());
                        tier as u8
                    },
                    None => 0,
                };
                Some(RescheduleTask::new(task_id, tier))
            },
            None => None,
        }
    }

    /// Puts a task that the scheduler refused back into the slow queue, behind
    /// the others.
    pub fn return_slow_task(&mut self, task_id: TaskId)
        requires
            old(self).wf(),
            old(self)@.slow_queue.len() < usize::MAX,
        ensures
            final(self).wf(),
            final(self)@ == (ManagerModel {
                slow_queue: old(self)@.slow_queue.push(task_id),
                ..old(self)@
            }),
    {
        push_task_id(&mut self.slow_queue, task_id);
        self.slow_queue_size = self.slow_queue_size + 1;
    }

    /// Moves up to `max_tasks` tasks from the slow queue to the scheduler. A task
    /// that the scheduler refuses goes back, behind the others, and ends the
    /// batch. Returns how many tasks were moved.
    ///
    /// Which task is refused depends on the threads that the scheduler serves.
    pub fn process_slow_queue(&mut self, max_tasks: usize) -> (processed: usize)
        requires
            old(self).wf(),
        ensures
            final(self).wf(),
            processed <= max_tasks,
            processed <= old(self)@.slow_queue.len(),
            slow_queue_served(old(self)@, final(self)@, max_tasks, processed),
    {
        let mut processed: usize = 0;
        while processed < max_tasks
            invariant
                self.wf(),
                processed <= max_tasks,
                processed <= old(self)@.slow_queue.len(),
                self@ == (ManagerModel {
                    slow_queue: old(self)@.slow_queue.skip(processed as int),
                    scheduler: self@.scheduler,
                    ..old(self)@
                }),
                scheduler_served(
                    old(self)@.scheduler,
                    self@.scheduler,
                    processed as nat,
                    None::<SendOutcome>,
                ),
                old(self)@.scheduler is Some ==> forall|i: int|
                    0 <= i < processed ==> old(self)@.slow_task_offered(
                        #[trigger] old(self)@.slow_queue[i],
                        SendOutcome::Sent,
                    ),
            decreases max_tasks - processed,
        {
            let ghost before = self@;
            match self.next_slow_task() {
                None => {
                    return processed;
                },
                Some(task) => {
                    let ghost remaining = self@.slow_queue;
                    assert(remaining =~= old(self)@.slow_queue.skip(processed + 1));
                    let ghost mut outcome = SendOutcome::Sent;
                    let refused: bool = match &mut self.scheduler {
                        Some(scheduler) => {
                            let ghost earlier = scheduler@;
                            let result = scheduler.reschedule_task(task);
                            proof {
                                let answer = choose|depth: usize, given: SendOutcome|
                                    #![trigger earlier.metrics.after_submission(depth, given)]
                                    {
                                        &&& depth <= earlier.max_queue_size
                                        &&& earlier.counted_waiting(depth)
                                        &&& earlier.offered(task, given)
                                        &&& result == submission_result(given)
                                        &&& scheduler@ == (SchedulerModel {
                                            metrics: earlier.metrics.after_submission(depth, given),
                                            ..earlier
                                        })
                                    };
                                outcome = answer.1;
                                assert(old(self)@.is_request(task.task_id, task));
                                assert(old(self)@.scheduler->0.offered(task, outcome));
                                assert(old(self)@.slow_task_offered(task.task_id, outcome));
                            }
                            result.is_err()
                        },
                        None => false,
                    };
                    if refused {
                        self.return_slow_task(task.task_id);
                        return processed;
                    }
                    processed += 1;
                },
            }
        }
        processed
    }

    /// Replaces the configuration.
    pub fn update_config(&mut self, config: TierConfig)
        requires
            old(self).wf(),
        ensures
            final(self).wf(),
            final(self)@ == old(self)@.with_config(config),
    {
        self.config = config;
    }

    /// Reports polls, violations, tier changes and queue sizes.
    pub fn get_metrics(&self) -> (metrics: TierMetrics)
        requires
            self.wf(),
        ensures
            metrics == self@.metrics(),
            metrics.active_tasks == self@.tasks.dom().len(),
            metrics.slow_queue_size == self@.slow_queue.len(),
    {
        assert(self@.tasks.dom() =~= task_entries(self.task_states).dom());
        TierMetrics {
            total_polls: self.counters.polls,
            total_violations: self.counters.violations,
            budget_violations: self.counters.budget_violations,
            total_yields: self.counters.yields,
            voluntary_yields: self.counters.voluntary_yields,
            tier_promotions: self.counters.tier_promotions,
            tier_demotions: self.counters.tier_demotions,
            active_tasks: count_tasks(&self.task_states),
            slow_queue_size: self.slow_queue_size,
        }
    }

    /// Another name for [`get_metrics`](Self::get_metrics).
    pub fn metrics(&self) -> (metrics: TierMetrics)
        requires
            self.wf(),
        ensures
            metrics == self@.metrics(),
    {
        self.get_metrics()
    }

    /// Reports on one worker. Of a worker that has done nothing, all counts are
    /// zero.
    pub fn get_worker_metrics(&self, worker_id: usize) -> (metrics: WorkerMetrics)
        ensures
            metrics == self@.worker_metrics(worker_id),
    {
        self.get_or_create_worker_stats(worker_id).metrics(worker_id)
    }

    /// Reports on all workers that have done something.
    pub fn get_all_worker_metrics(&self) -> (all: HashMap<usize, WorkerMetrics>)
        ensures
            all@.dom() == self@.workers.dom(),
            forall|worker_id: usize| #[trigger]
                all@.contains_key(worker_id) ==> all@[worker_id] == self@.worker_metrics(
                    worker_id,
                ),
    {
        broadcast use vstd::std_specs::hash::group_hash_axioms;

        let entries = list_workers(&self.worker_stats);
        let mut all: HashMap<usize, WorkerMetrics> = HashMap::new();
        let mut i: usize = 0;
        while i < entries.len()
            invariant
                i <= entries.len(),
                forall|j: int|
                    0 <= j < entries.len() ==> self@.workers.contains_key(
                        (#[trigger] entries[j]).0,
                    ) && self@.workers[entries[j].0] == entries[j].1,
                forall|j: int| 0 <= j < i ==> all@.contains_key((#[trigger] entries[j]).0),
                forall|worker_id: usize| #[trigger]
                    all@.contains_key(worker_id) ==> self@.workers.contains_key(worker_id)
                        && all@[worker_id] == self@.worker_metrics(worker_id),
            decreases entries.len() - i,
        {
            let (worker_id, stats): (usize, WorkerStats) = entries[i];
            all.insert(worker_id, stats.metrics(worker_id));
            i += 1;
        }
        assert(all@.dom() =~= self@.workers.dom());
        all
    }

    /// Tier of a task, or `None` if it is not known.
    pub fn get_task_tier(&self, task_id: TaskId) -> (tier: Option<u32>)
        requires
            self.wf(),
        ensures
            tier == self@.tier(task_id),
            tier matches Some(level) ==> level <= 3,
    {
        assert(task_entries(self.task_states).contains_key(task_id.0)
            == self@.tasks.contains_key(task_id.0));
        match tiers_in_map(&self.task_states, task_id.0) {
            Some((tier, _)) => {
                assert(self@.tasks[task_id.0].wf());
                Some(tier)
            },
            None => None,
        }
    }

    /// Operations left in the budget of a task, or `None` if it is not known.
    pub fn get_task_budget(&self, task_id: TaskId) -> (remaining: Option<u32>)
        ensures
            remaining == (if self@.tasks.contains_key(task_id.0) {
                Some(self@.tasks[task_id.0].budget.remaining)
            } else {
                None
            }),
    {
        assert(task_entries(self.task_states).contains_key(task_id.0)
            == self@.tasks.contains_key(task_id.0));
        budget_in_map(&self.task_states, task_id.0)
    }

    /// Sets all counts of one worker back to zero.
    pub fn reset_worker_stats(&mut self, worker_id: usize)
        requires
            old(self).wf(),
        ensures
            final(self).wf(),
            final(self)@ == old(self)@.with_worker_reset(worker_id),
    {
        if worker_in_map(&self.worker_stats, worker_id).is_some() {
            insert_worker(&mut self.worker_stats, worker_id, WorkerStats::default());
        }
    }

    /// Replaces the policy of one tier.
    pub fn update_tier_policy(&mut self, tier_index: usize, new_policy: TierPolicy) -> (result:
        Result<(), String>)
        requires
            old(self).wf(),
        ensures
            final(self).wf(),
            match update_objection(tier_index, new_policy) {
                None => {
                    &&& result is Ok
                    &&& final(self)@ == old(self)@.with_config(
                        with_policy(old(self)@.config, tier_index as int, new_policy),
                    )
                },
                Some(objection) => {
                    &&& result matches Err(message) && message@ == objection
                    &&& final(self)@ == old(self)@
                },
            },
    {
        if tier_index >= TIER_COUNT {
            return Err(index_message(tier_index));
        }
        match find_policy_objection(&new_policy) {
            Some(objection) => Err(objection.to_owned()),
            None => {
                self.config.tier_policies[tier_index] = new_policy;
                assert(self@.config.tier_policies =~= with_policy(
                    old(self)@.config,
                    tier_index as int,
                    new_policy,
                ).tier_policies);
                Ok(())
            },
        }
    }

    /// Changes the configuration by `update_fn`.
    pub fn update_global_config<F: FnOnce(&mut TierConfig)>(&mut self, update_fn: F)
        requires
            old(self).wf(),
            forall|config: &mut TierConfig|
                *config == old(self)@.config ==> call_requires(update_fn, (config,)),
        ensures
            final(self).wf(),
            exists|config: &mut TierConfig|
                {
                    &&& *config == old(self)@.config
                    &&& #[trigger] call_ensures(update_fn, (config,), ())
                    &&& *final(config) == final(self)@.config
                },
            final(self)@ == old(self)@.with_config(final(self)@.config),
    {
        update_fn(&mut self.config);
    }

    /// A copy of the configuration.
    pub fn get_current_config(&self) -> (config: TierConfig)
        ensures
            config == self@.config,
    {
        self.config
    }

    /// Replaces the policies of several tiers, the later ones last. If one of them
    /// is refused, none is replaced.
    pub fn update_multiple_tier_policies(&mut self, updates: Vec<(usize, TierPolicy)>) -> (result:
        Result<(), String>)
        requires
            old(self).wf(),
        ensures
            final(self).wf(),
            match first_objection(updates@) {
                None => {
                    &&& result is Ok
                    &&& final(self)@ == old(self)@.with_config(
                        with_policies(old(self)@.config, updates@),
                    )
                },
                Some(objection) => {
                    &&& result matches Err(message) && message@ == objection
                    &&& final(self)@ == old(self)@
                },
            },
    {
        let mut checked: usize = 0;
        assert(updates@.skip(0) =~= updates@);
        while checked < updates.len()
            invariant
                checked <= updates.len(),
                first_objection(updates@) == first_objection(updates@.skip(checked as int)),
                forall|i: int| 0 <= i < checked ==> (#[trigger] updates[i]).0 < TIER_COUNT,
                *self == *old(self),
                old(self).wf(),
            decreases updates.len() - checked,
        {
            let (tier_index, policy): (usize, TierPolicy) = updates[checked];
            assert(updates@.skip(checked as int).skip(1) =~= updates@.skip(checked + 1));
            if tier_index >= TIER_COUNT {
                return Err(index_message(tier_index));
            }
            match find_policy_objection(&policy) {
                Some(objection) => {
                    return Err(objection.to_owned());
                },
                None => {},
            }
            checked += 1;
        }
        let mut applied: usize = 0;
        while applied < updates.len()
            invariant
                applied <= updates.len(),
                first_objection(updates@) is None,
                forall|i: int|
                    0 <= i < updates.len() ==> (#[trigger] updates[i]).0 < TIER_COUNT,
                self.wf(),
                self@ == old(self)@.with_config(
                    with_policies(old(self)@.config, updates@.take(applied as int)),
                ),
            decreases updates.len() - applied,
        {
            let (tier_index, policy): (usize, TierPolicy) = updates[applied];
            let ghost before = self.config;
            self.config.tier_policies[tier_index] = policy;
            proof {
                assert(updates@.take(applied + 1).drop_last() =~= updates@.take(applied as int));
                assert(self.config.tier_policies =~= with_policy(
                    before,
                    tier_index as int,
                    policy,
                ).tier_policies);
            }
            applied += 1;
        }
        assert(updates@.take(applied as int) =~= updates@);
        Ok(())
    }

    /// Says whether a policy may be put in force at run time.
    pub fn validate_tier_policy(&self, policy: &TierPolicy) -> (result: Result<(), String>)
        ensures
            match policy_objection(*policy) {
                None => result is Ok,
                Some(objection) => result matches Err(message) && message@ == objection@,
            },
    {
        match find_policy_objection(policy) {
            Some(objection) => Err(objection.to_owned()),
            None => Ok(()),
        }
    }

    /// Creates a manager with the configuration of a profile.
    pub fn with_profile(profile: ConfigProfile) -> (manager: Self)
        ensures
            manager.wf(),
            manager@.fresh_with_defaults(profile.config()),
    {
        Self::new(profile.create_config())
    }

    /// Puts the configuration of another profile in force. The custom profile has
    /// none, so it is passed over.
    pub fn switch_to_profile(&mut self, profile: ConfigProfile)
        requires
            old(self).wf(),
        ensures
            final(self).wf(),
            final(self)@ == (if profile == ConfigProfile::Custom {
                old(self)@
            } else {
                old(self)@.with_config(profile.config())
            }),
    {
        if profile == ConfigProfile::Custom {
            return ;
        }
        self.config = profile.create_config();
    }

    /// The profile whose configuration is in force, `None` for one of one's own.
    pub fn current_profile(&self) -> (profile: Option<ConfigProfile>)
        ensures
            profile == profile_of(self@.config),
    {
        detect_profile(&self.config)
    }
}

/// How the scheduler changes while it takes `accepted` tasks and then, perhaps,
/// refuses one: what was sent is counted, and what was dropped for want of room.
pub open spec fn scheduler_served(
    before: Option<SchedulerModel>,
    after: Option<SchedulerModel>,
    accepted: nat,
    refusal: Option<SendOutcome>,
) -> bool {
    match before {
        None => after is None && refusal is None,
        Some(b) => {
            &&& after is Some
            &&& after == Some(
                SchedulerModel {
                    metrics: ThreadSchedulerMetrics {
                        queue_depth: after->0.metrics.queue_depth,
                        tasks_submitted: after->0.metrics.tasks_submitted,
                        tasks_dropped: if refusal == Some(SendOutcome::Full) {
                            b.metrics.tasks_dropped.wrapping_add(1)
                        } else {
                            b.metrics.tasks_dropped
                        },
                        ..b.metrics
                    },
                    ..b
                },
            )
            &&& after->0.metrics.tasks_submitted as int == (b.metrics.tasks_submitted + accepted)
                % 0x1_0000_0000_0000_0000
            &&& if accepted == 0 && refusal is None {
                after->0.metrics.queue_depth == b.metrics.queue_depth
            } else {
                b.counted_waiting(after->0.metrics.queue_depth)
            }
        },
    }
}

/// What a batch of `processed` moved tasks leaves behind: either the queue is
/// served up to the limit or to its end, or the next task was refused and went to
/// the back. Each task that was moved was put to the scheduler and sent; without a
/// scheduler it is dropped.
pub open spec fn slow_queue_served(
    before: ManagerModel,
    after: ManagerModel,
    max_tasks: usize,
    processed: usize,
) -> bool {
    let queue = before.slow_queue;
    &&& after == (ManagerModel {
        slow_queue: after.slow_queue,
        scheduler: after.scheduler,
        ..before
    })
    &&& before.scheduler is Some ==> forall|i: int|
        0 <= i < processed ==> before.slow_task_offered(#[trigger] queue[i], SendOutcome::Sent)
    &&& {
        ||| {
            &&& processed == max_tasks || processed == queue.len()
            &&& after.slow_queue == queue.skip(processed as int)
            &&& scheduler_served(
                before.scheduler,
                after.scheduler,
                processed as nat,
                None::<SendOutcome>,
            )
        }
        ||| slow_task_refused(before, after, max_tasks, processed, SendOutcome::Full)
        ||| slow_task_refused(before, after, max_tasks, processed, SendOutcome::Disconnected)
    }
}

/// What a batch leaves behind that ended with a task that was refused.
pub open spec fn slow_task_refused(
    before: ManagerModel,
    after: ManagerModel,
    max_tasks: usize,
    processed: usize,
    outcome: SendOutcome,
) -> bool {
    let queue = before.slow_queue;
    &&& processed < max_tasks && processed < queue.len()
    &&& before.slow_task_offered(queue[processed as int], outcome)
    &&& after.slow_queue == queue.skip(processed + 1).push(queue[processed as int])
    &&& scheduler_served(before.scheduler, after.scheduler, processed as nat, Some(outcome))
}

/// The configuration with one policy replaced.
pub open spec fn with_policy(config: TierConfig, tier: int, policy: TierPolicy) -> TierConfig {
    let old_policies = config.tier_policies;
    TierConfig {
        tier_policies: [
            if tier == 0 { policy } else { old_policies[0] },
            if tier == 1 { policy } else { old_policies[1] },
            if tier == 2 { policy } else { old_policies[2] },
            if tier == 3 { policy } else { old_policies[3] },
        ],
        ..config
    }
}

/// The configuration with several policies replaced, one after the other.
pub open spec fn with_policies(config: TierConfig, updates: Seq<(usize, TierPolicy)>) -> TierConfig
    decreases updates.len(),
{
    if updates.len() == 0 {
        config
    } else {
        with_policy(
            with_policies(config, updates.drop_last()),
            updates.last().0 as int,
            updates.last().1,
        )
    }
}

/// The message for a tier that does not exist.
pub open spec fn index_objection(tier_index: usize) -> Seq<char> {
    "Invalid tier index: "@ + decimal(tier_index as nat) + ". Valid range is 0-3"@
}

/// Why a policy cannot be put in force for a tier, or `None` if it can.
pub open spec fn update_objection(tier_index: usize, policy: TierPolicy) -> Option<Seq<char>> {
    if tier_index >= TIER_COUNT {
        Some(index_objection(tier_index))
    } else {
        match policy_objection(policy) {
            Some(objection) => Some(objection@),
            None => None,
        }
    }
}

/// The objection to the first update that meets one.
pub open spec fn first_objection(updates: Seq<(usize, TierPolicy)>) -> Option<Seq<char>>
    decreases updates.len(),
{
    if updates.len() == 0 {
        None
    } else if update_objection(updates[0].0, updates[0].1) is Some {
        update_objection(updates[0].0, updates[0].1)
    } else {
        first_objection(updates.skip(1))
    }
}

fn index_message(tier_index: usize) -> (message: String)
    ensures
        message@ == index_objection(tier_index),
{
    let mut message = "Invalid tier index: ".to_owned();
    message.append(decimal_text(tier_index as u64).as_str());
    message.append(". Valid range is 0-3");
    message
}

} // verus!
