//! What the manager does at each call, in terms of the tasks, workers and settings.

use crate::reschedule::{RescheduleTask, SendOutcome};
use crate::tier_manager::config::{policy_objection, InterventionAction, TierConfig, TierPolicy};
use crate::tier_manager::context::{PollResult, TaskContext, TaskId};
use crate::tier_manager::manager::{
    first_objection, index_objection, slow_queue_served, update_objection, with_policies,
    with_policy,
};
use crate::tier_manager::model::{Intervention, ManagerModel};
use crate::tier_manager::poll_laws::{priorities_scale_by_powers_of_two, stays_put};
use crate::tier_manager::task::TaskModel;
use vstd::prelude::*;

verus! {

/// A known task goes on as it was when a poll begins; only the time and the context of
/// the poll are noted.
pub proof fn known_tasks_go_on(
    manager: ManagerModel,
    task_id: TaskId,
    ctx: TaskContext,
    now: u128,
)
    requires
        manager.tasks.contains_key(task_id.0),
    ensures
        ({
            let after = manager.before_poll(task_id, ctx, now);
            &&& after.tasks.dom() =~= manager.tasks.dom()
            &&& after.tasks[task_id.0] == (TaskModel {
                last_poll_time: now,
                context: ctx,
                ..manager.tasks[task_id.0]
            })
            &&& after.pools == manager.pools
            &&& after.config == manager.config
            &&& after.scheduler == manager.scheduler
            &&& after.clock == manager.clock
            &&& manager.can_begin(task_id, ctx)
        }),
{
}

/// A new task starts at tier 0 with a clean record and a budget by its priority: four
/// times the configured one for critical tasks, twice for those of high priority, half
/// for those of low priority, one operation at least.
pub proof fn new_tasks_start_clean(
    manager: ManagerModel,
    task_id: TaskId,
    ctx: TaskContext,
    now: u128,
)
    requires
        !manager.tasks.contains_key(task_id.0),
        manager.config.poll_budget < 0x100_0000,
    ensures
        ({
            let after = manager.before_poll(task_id, ctx, now);
            let task = after.tasks[task_id.0];
            let base = manager.config.poll_budget as int;
            let budget = match ctx.priority {
                Some(0) => base * 4,
                Some(1) => base * 2,
                Some(2) => base,
                Some(_) => base / 2,
                None => base,
            };
            let allotted = if budget < 1 {
                1
            } else {
                budget
            };
            let in_stock = manager.pools.local.budgets.len() > 0
                || manager.pools.global.budgets.len() > 0;
            &&& after.tasks.dom() =~= manager.tasks.dom().insert(task_id.0)
            &&& task.budget.remaining == allotted
            &&& task.budget.tier == 0 && task.budget.deadline_ns == 0
            &&& task.current_tier == 0
            &&& task.violation_count == 0
            &&& task.total_cpu_ns == 0
            &&& task.slow_poll_count == 0
            &&& !task.force_yield
            &&& task.last_tier_change is None
            &&& task.pending_tier_change == u32::MAX
            &&& task.cooldown_until is None
            &&& task.recent_violations.len() == 0
            &&& task.consecutive_good_polls == 0
            &&& task.good_behavior_duration_ns == 0
            &&& task.polls_since_demotion_check == 0
            &&& task.last_violation_time == now
            &&& task.last_poll_time == now
            &&& task.worker_id == ctx.worker_id
            &&& task.context == ctx
            &&& manager.can_begin(task_id, ctx) <==> in_stock || 100 <= allotted <= 10_000
            &&& after.pools.local.budgets.len() + after.pools.global.budgets.len()
                == manager.pools.local.budgets.len() + manager.pools.global.budgets.len() - (
            if in_stock {
                1int
            } else {
                0
            })
        }),
{
    priorities_scale_by_powers_of_two(manager.config.poll_budget, ctx);
}

/// After a poll the action of the tier that the task is at then is taken: nothing, a
/// warning, a mark for a forced yield, the slow queue, or isolation where it is enabled
/// and else the slow queue. The slow queue takes the task, behind the others, as long
/// as it holds fewer than its maximum; nothing else of the manager's queues moves.
pub proof fn interventions_follow_the_tier(
    manager: ManagerModel,
    task_id: TaskId,
    result: PollResult,
    poll_ns: u128,
    now: u128,
)
    requires
        manager.wf(),
        manager.tasks.contains_key(task_id.0),
    ensures
        ({
            let after = manager.after_poll(task_id, result, poll_ns, now);
            let outcome = manager.intervention(task_id, result, poll_ns, now);
            let before = manager.tasks[task_id.0];
            let polled = before.polled(manager.config, result, poll_ns, now);
            let task = after.tasks[task_id.0];
            let action = manager.config.tier_policies[task.current_tier as int].action;
            let queues = action == InterventionAction::SlowQueue || (action
                == InterventionAction::Isolate && !manager.config.enable_isolation);
            let room = manager.slow_queue.len() < manager.config.max_slow_queue_size;
            &&& outcome == Intervention::Nothing <==> action == InterventionAction::Monitor
            &&& outcome == Intervention::Warn <==> action == InterventionAction::Warn
            &&& outcome == Intervention::MarkedForYield <==> action == InterventionAction::Yield
            &&& outcome == Intervention::Isolate <==> action == InterventionAction::Isolate
                && manager.config.enable_isolation
            &&& outcome == Intervention::Queued <==> queues && room
            &&& outcome == Intervention::SlowQueueFull <==> queues && !room
            &&& after.slow_queue == (if queues && room {
                manager.slow_queue.push(task_id)
            } else {
                manager.slow_queue
            })
            &&& task == (TaskModel {
                force_yield: polled.force_yield || action == InterventionAction::Yield,
                ..polled
            })
            &&& after.tasks.dom() =~= manager.tasks.dom()
            &&& after.pools == manager.pools
            &&& after.scheduler == manager.scheduler
            &&& after.config == manager.config
            &&& after.clock == manager.clock
        }),
{
}

/// A poll adds to the counters exactly what happened at it: a violation if it used up
/// the budget, a yield if the task was marked and stays pending, a promotion or
/// demotion if the task moved by it, CPU time, and a slow poll if it took more than a
/// millisecond. The worker that first polled the task is charged.
pub proof fn polls_are_charged_to_their_worker(
    manager: ManagerModel,
    task_id: TaskId,
    result: PollResult,
    poll_ns: u128,
    now: u128,
)
    requires
        manager.wf(),
        manager.tasks.contains_key(task_id.0),
        stays_put(manager.tasks[task_id.0], manager.config, now),
        manager.worker(manager.tasks[task_id.0].worker_id).cpu_time_ns + poll_ns <= u64::MAX,
    ensures
        ({
            let after = manager.after_poll(task_id, result, poll_ns, now);
            let task = manager.tasks[task_id.0];
            let (old_tier, new_tier) = (
                task.current_tier,
                after.tasks[task_id.0].current_tier,
            );
            let violated = task.budget.remaining <= 1;
            let yielded = result == PollResult::Pending && task.force_yield;
            let worker = manager.worker(task.worker_id);
            let charged = after.worker(task.worker_id);
            &&& after.counters.violations == plus(manager.counters.violations, violated)
            &&& after.counters.budget_violations == plus(
                manager.counters.budget_violations,
                violated,
            )
            &&& after.counters.yields == plus(manager.counters.yields, yielded)
            &&& after.counters.tier_promotions == plus(
                manager.counters.tier_promotions,
                new_tier > old_tier,
            )
            &&& after.counters.tier_demotions == plus(
                manager.counters.tier_demotions,
                new_tier < old_tier,
            )
            &&& after.counters.polls == manager.counters.polls
            &&& after.counters.voluntary_yields == manager.counters.voluntary_yields
            &&& charged.cpu_time_ns == worker.cpu_time_ns + poll_ns
            &&& charged.slow_polls == plus(worker.slow_polls, poll_ns > 1_000_000)
            &&& charged.budget_violations == plus(worker.budget_violations, violated)
            &&& charged.yields_forced == plus(worker.yields_forced, yielded)
            &&& charged.tier_promotions == plus(worker.tier_promotions, new_tier > old_tier)
            &&& charged.tier_demotions == plus(worker.tier_demotions, new_tier < old_tier)
            &&& charged.polls_processed == worker.polls_processed
            &&& charged.tasks_processed == worker.tasks_processed
            &&& charged.voluntary_yields == worker.voluntary_yields
        }),
{
    let task = manager.tasks[task_id.0];
    crate::tier_manager::poll_laws::lemma_stays(task, manager.config, now);
}

/// A count with one more if `happened`, beginning anew after the largest.
pub open spec fn plus(count: u64, happened: bool) -> int {
    if !happened {
        count as int
    } else if count == u64::MAX {
        0
    } else {
        count + 1
    }
}

/// The beginning of a poll is counted for the manager and for the worker that polls,
/// and a new task for that worker too.
pub proof fn beginnings_are_counted(
    manager: ManagerModel,
    task_id: TaskId,
    ctx: TaskContext,
    now: u128,
)
    ensures
        ({
            let after = manager.before_poll(task_id, ctx, now);
            let (worker, charged) = (
                manager.worker(ctx.worker_id),
                after.worker(ctx.worker_id),
            );
            &&& after.counters.polls == plus(manager.counters.polls, true)
            &&& after.counters.violations == manager.counters.violations
            &&& after.counters.yields == manager.counters.yields
            &&& charged.polls_processed == plus(worker.polls_processed, true)
            &&& charged.tasks_processed == plus(
                worker.tasks_processed,
                !manager.tasks.contains_key(task_id.0),
            )
            &&& charged.cpu_time_ns == worker.cpu_time_ns
            &&& charged.slow_polls == worker.slow_polls
            &&& charged.voluntary_yields == worker.voluntary_yields
        }),
{
}

/// A voluntary yield of a known task is counted for its worker, a demotion that rewards
/// it too, and the task is as after the yield.
pub proof fn yields_are_charged_to_their_worker(
    manager: ManagerModel,
    task_id: TaskId,
    now: u128,
)
    requires
        manager.wf(),
        manager.tasks.contains_key(task_id.0),
    ensures
        ({
            let after = manager.on_yield(task_id, now);
            let task = manager.tasks[task_id.0];
            let (old_tier, new_tier) = (task.current_tier, after.tasks[task_id.0].current_tier);
            let worker = manager.worker(task.worker_id);
            let charged = after.worker(task.worker_id);
            &&& after.tasks[task_id.0] == task.yielded(manager.config, now)
            &&& after.counters.yields == plus(manager.counters.yields, true)
            &&& after.counters.voluntary_yields == plus(manager.counters.voluntary_yields, true)
            &&& after.counters.tier_demotions == plus(
                manager.counters.tier_demotions,
                new_tier < old_tier,
            )
            &&& after.counters.tier_promotions == manager.counters.tier_promotions
            &&& after.counters.polls == manager.counters.polls
            &&& charged.voluntary_yields == plus(worker.voluntary_yields, true)
            &&& charged.tier_demotions == plus(worker.tier_demotions, new_tier < old_tier)
            &&& charged.polls_processed == worker.polls_processed
            &&& charged.cpu_time_ns == worker.cpu_time_ns
            &&& after.slow_queue == manager.slow_queue
            &&& after.pools == manager.pools
        }),
{
}

/// A task that completes gives its budget back to the thread's pool, which drops it
/// when it is full.
pub proof fn completed_tasks_give_their_budget_back(manager: ManagerModel, task_id: TaskId)
    requires
        manager.tasks.contains_key(task_id.0),
    ensures
        ({
            let after = manager.on_completion(task_id);
            let pool = manager.pools.local;
            &&& after.tasks =~= manager.tasks.remove(task_id.0)
            &&& after.pools.global == manager.pools.global
            &&& after.pools.local.budgets == (if pool.budgets.len() < pool.config.max_size {
                pool.budgets.push(manager.tasks[task_id.0].budget)
            } else {
                pool.budgets
            })
            &&& after.slow_queue == manager.slow_queue
        }),
{
}

/// What is reported agrees with what was counted, and with the number of tasks that are
/// known and that wait.
pub proof fn reports_agree_with_the_counts(manager: ManagerModel, worker_id: usize)
    requires
        manager.tasks.dom().len() <= usize::MAX,
        manager.slow_queue.len() <= usize::MAX,
    ensures
        ({
            let report = manager.metrics();
            let worker = manager.worker_metrics(worker_id);
            let stats = manager.worker(worker_id);
            &&& report.total_polls == manager.counters.polls
            &&& report.total_violations == manager.counters.violations
            &&& report.budget_violations == manager.counters.budget_violations
            &&& report.total_yields == manager.counters.yields
            &&& report.voluntary_yields == manager.counters.voluntary_yields
            &&& report.tier_promotions == manager.counters.tier_promotions
            &&& report.tier_demotions == manager.counters.tier_demotions
            &&& report.active_tasks == manager.tasks.dom().len()
            &&& report.slow_queue_size == manager.slow_queue.len()
            &&& worker.worker_id == worker_id
            &&& worker.polls == stats.polls_processed
            &&& worker.violations == stats.budget_violations
            &&& worker.yields == stats.voluntary_yields
            &&& worker.cpu_time_ns == stats.cpu_time_ns
            &&& worker.tasks == stats.tasks_processed
            &&& worker.slow_polls == stats.slow_polls
            &&& !manager.workers.contains_key(worker_id) ==> stats.polls_processed == 0
                && stats.budget_violations == 0 && stats.voluntary_yields == 0
                && stats.cpu_time_ns == 0 && stats.tasks_processed == 0 && stats.slow_polls == 0
                && stats.yields_forced == 0 && stats.tier_promotions == 0
                && stats.tier_demotions == 0
            &&& manager.workers.contains_key(worker_id) ==> stats == manager.workers[worker_id]
            &&& forall|id: TaskId| #[trigger]
                manager.tier(id) == (if manager.tasks.contains_key(id.0) {
                    Some(manager.tasks[id.0].current_tier)
                } else {
                    None
                })
        }),
{
}

/// Serving the slow queue takes tasks from its front, in order, and each that was moved
/// was sent to the scheduler under its own identifier, at its current tier. If fewer
/// were moved than could be, the next one was refused: it is behind the others
/// afterwards, which keep their order.
pub proof fn slow_tasks_are_sent_in_order(
    before: ManagerModel,
    after: ManagerModel,
    max_tasks: usize,
    processed: usize,
)
    requires
        slow_queue_served(before, after, max_tasks, processed),
    ensures
        before.scheduler is Some ==> forall|i: int|
            #![trigger before.slow_queue[i]]
            0 <= i < processed ==> sent_as_itself(before, before.slow_queue[i], SendOutcome::Sent),
        after.slow_queue == (if processed < max_tasks && processed < before.slow_queue.len() {
            before.slow_queue.skip(processed + 1).push(before.slow_queue[processed as int])
        } else {
            before.slow_queue.skip(processed as int)
        }),
        processed < max_tasks && processed < before.slow_queue.len() ==> {
            ||| sent_as_itself(before, before.slow_queue[processed as int], SendOutcome::Full)
            ||| sent_as_itself(
                before,
                before.slow_queue[processed as int],
                SendOutcome::Disconnected,
            )
        },
        after.tasks == before.tasks,
        after.workers == before.workers,
        after.counters == before.counters,
        after.pools == before.pools,
        after.config == before.config,
{
    let queue = before.slow_queue;
    if before.scheduler is Some {
        assert forall|i: int|
            #![trigger before.slow_queue[i]]
            0 <= i < processed implies sent_as_itself(
            before,
            before.slow_queue[i],
            SendOutcome::Sent,
        ) by {
            assert(before.slow_task_offered(queue[i], SendOutcome::Sent));
            lemma_sent_as_itself(before, queue[i], SendOutcome::Sent);
        }
    }
    if processed < max_tasks && processed < queue.len() {
        let next = queue[processed as int];
        if before.slow_task_offered(next, SendOutcome::Full) {
            lemma_sent_as_itself(before, next, SendOutcome::Full);
        } else {
            lemma_sent_as_itself(before, next, SendOutcome::Disconnected);
        }
    }
}

/// Whether a request for the task was put to the scheduler, under the task's own
/// identifier and at the tier that it is at, 0 if it is not known.
pub open spec fn sent_as_itself(
    manager: ManagerModel,
    task_id: TaskId,
    outcome: SendOutcome,
) -> bool {
    manager.scheduler matches Some(scheduler) && exists|task: RescheduleTask|
        {
            &&& task.task_id == task_id
            &&& task.reschedule_count == 0
            &&& task.tier == (if manager.tasks.contains_key(task_id.0) {
                manager.tasks[task_id.0].current_tier as int
            } else {
                0
            })
            &&& #[trigger] scheduler.offered(task, outcome)
        }
}

proof fn lemma_sent_as_itself(manager: ManagerModel, task_id: TaskId, outcome: SendOutcome)
    requires
        manager.slow_task_offered(task_id, outcome),
    ensures
        sent_as_itself(manager, task_id, outcome),
{
    let scheduler = manager.scheduler->0;
    let task = choose|task: RescheduleTask|
        manager.is_request(task_id, task) && #[trigger] scheduler.offered(task, outcome);
    assert(scheduler.offered(task, outcome));
}

/// A policy may be put in force exactly when every threshold is above zero, no more
/// than 1000 violations, a minute of CPU time and 10000 good polls are asked for, and
/// good polls may take no more than a second and a demotion no more than an hour.
pub proof fn acceptable_policies_are_within_bounds(policy: TierPolicy)
    ensures
        policy_objection(policy) is None <==> {
            &&& 1 <= policy.promotion_threshold <= 1000
            &&& 1 <= policy.promotion_cpu_threshold_ms <= 60_000
            &&& 1 <= policy.promotion_slow_poll_threshold
            &&& 1 <= policy.demotion_good_polls <= 10_000
            &&& policy.demotion_min_duration_ms <= 3_600_000
            &&& 1 <= policy.demotion_cpu_threshold_ns <= 1_000_000_000
            &&& 1 <= policy.demotion_evaluation_interval
        },
{
}

/// Replacing the policy of a tier leaves the other tiers and all other settings alone.
pub proof fn replaced_policy_is_in_force(
    config: TierConfig,
    tier: int,
    policy: TierPolicy,
    other: int,
)
    requires
        0 <= tier < 4,
        0 <= other < 4,
    ensures
        ({
            let after = with_policy(config, tier, policy);
            &&& after == (TierConfig { tier_policies: after.tier_policies, ..config })
            &&& after.tier_policies[other] == (if other == tier {
                policy
            } else {
                config.tier_policies[other]
            })
        }),
{
}

/// Of several policies for a tier the last one is in force; a tier for which there is
/// none keeps its own, and all other settings stay.
#[verifier::spinoff_prover]
pub proof fn last_policy_is_in_force(
    config: TierConfig,
    updates: Seq<(usize, TierPolicy)>,
    tier: int,
    last: int,
)
    requires
        0 <= tier < 4,
        forall|i: int| 0 <= i < updates.len() ==> (#[trigger] updates[i]).0 < 4,
        -1 <= last < updates.len(),
        last >= 0 ==> updates[last].0 == tier,
        forall|i: int| last < i < updates.len() ==> (#[trigger] updates[i]).0 != tier,
    ensures
        ({
            let after = with_policies(config, updates);
            &&& after == (TierConfig { tier_policies: after.tier_policies, ..config })
            &&& after.tier_policies[tier] == (if last >= 0 {
                updates[last].1
            } else {
                config.tier_policies[tier]
            })
        }),
    decreases updates.len(),
{
    if updates.len() > 0 {
        let earlier = updates.drop_last();
        let end = updates.len() - 1;
        let before = with_policies(config, earlier);
        assert forall|i: int| 0 <= i < earlier.len() implies (#[trigger] earlier[i]).0 < 4 by {
            assert(earlier[i] == updates[i]);
        }
        assert(updates[end].0 < 4);
        replaced_policy_is_in_force(before, updates[end].0 as int, updates[end].1, tier);
        if last == end {
            lemma_settings_stay(config, earlier);
        } else {
            assert(updates[end].0 != tier);
            assert forall|i: int| last < i < earlier.len() implies (#[trigger] earlier[i]).0
                != tier by {
                assert(earlier[i] == updates[i]);
            }
            last_policy_is_in_force(config, earlier, tier, last);
        }
    }
}

proof fn lemma_settings_stay(config: TierConfig, updates: Seq<(usize, TierPolicy)>)
    ensures
        with_policies(config, updates) == (TierConfig {
            tier_policies: with_policies(config, updates).tier_policies,
            ..config
        }),
    decreases updates.len(),
{
    if updates.len() > 0 {
        lemma_settings_stay(config, updates.drop_last());
    }
}

/// Updates are refused exactly when one of them names a tier that does not exist or a
/// policy that is not acceptable; the first such decides on the message.
pub proof fn updates_are_refused_for_the_first_fault(updates: Seq<(usize, TierPolicy)>)
    ensures
        first_objection(updates) is None <==> forall|i: int|
            0 <= i < updates.len() ==> (#[trigger] updates[i]).0 < 4 && policy_objection(
                updates[i].1,
            ) is None,
        forall|i: int|
            0 <= i < updates.len() && ((#[trigger] updates[i]).0 >= 4 || policy_objection(
                updates[i].1,
            ) is Some) && (forall|j: int|
                0 <= j < i ==> (#[trigger] updates[j]).0 < 4 && policy_objection(
                    updates[j].1,
                ) is None) ==> first_objection(updates) == Some(
                if updates[i].0 >= 4 {
                    index_objection(updates[i].0)
                } else {
                    policy_objection(updates[i].1)->0@
                },
            ),
    decreases updates.len(),
{
    if updates.len() > 0 {
        let rest = updates.skip(1);
        updates_are_refused_for_the_first_fault(rest);
        assert(forall|i: int| 0 <= i < rest.len() ==> #[trigger] rest[i] == updates[i + 1]);
        let first = updates[0];
        let accepted = first.0 < 4 && policy_objection(first.1) is None;
        if accepted {
            assert(first_objection(updates) == first_objection(rest));
            if first_objection(rest) is None {
                assert forall|i: int| 0 <= i < updates.len() implies (#[trigger] updates[i]).0 < 4
                    && policy_objection(updates[i].1) is None by {
                    if i > 0 {
                        assert(rest[i - 1] == updates[i]);
                    }
                }
            }
            assert forall|i: int|
                0 <= i < updates.len() && ((#[trigger] updates[i]).0 >= 4 || policy_objection(
                    updates[i].1,
                ) is Some) && (forall|j: int|
                    0 <= j < i ==> (#[trigger] updates[j]).0 < 4 && policy_objection(
                        updates[j].1,
                    ) is None) implies first_objection(updates) == Some(
                if updates[i].0 >= 4 {
                    index_objection(updates[i].0)
                } else {
                    policy_objection(updates[i].1)->0@
                },
            ) by {
                assert(i > 0);
                assert(rest[i - 1] == updates[i]);
                assert forall|j: int| 0 <= j < i - 1 implies (#[trigger] rest[j]).0 < 4
                    && policy_objection(rest[j].1) is None by {
                    assert(rest[j] == updates[j + 1]);
                }
            }
        } else {
            assert(update_objection(first.0, first.1) is Some);
        }
    }
}

/// A poll of a known task can end exactly when an interval is set for its tier, and for
/// the one that a pending change leads to; the lowest tier needs none.
pub proof fn polls_end_at_tiers_with_an_interval(manager: ManagerModel, task_id: TaskId)
    ensures
        manager.can_end(task_id) <==> manager.tasks.contains_key(task_id.0) ==> {
            let task = manager.tasks[task_id.0];
            let policies = manager.config.tier_policies;
            &&& task.current_tier == 0
                || policies[task.current_tier as int].demotion_evaluation_interval > 0
            &&& task.pending_tier_change == u32::MAX || task.pending_tier_change == 0
                || policies[task.pending_tier_change as int].demotion_evaluation_interval > 0
        },
{
}

/// A new manager knows no task and no worker, has counted nothing and nothing waits; its
/// two pools hold 64 budgets each.
pub proof fn new_managers_know_nothing(
    config: TierConfig,
    clock: crate::stopwatch::Stopwatch,
    scheduler: crate::reschedule::SchedulerModel,
    task_id: TaskId,
    worker_id: usize,
)
    ensures
        ({
            let manager = ManagerModel::fresh(config, clock, scheduler);
            &&& manager.config == config
            &&& manager.clock == clock
            &&& manager.scheduler == Some(scheduler)
            &&& !manager.tasks.contains_key(task_id.0)
            &&& !manager.workers.contains_key(worker_id)
            &&& manager.slow_queue.len() == 0
            &&& manager.counters.polls == 0 && manager.counters.violations == 0
            &&& manager.counters.yields == 0 && manager.counters.budget_violations == 0
            &&& manager.counters.voluntary_yields == 0
            &&& manager.counters.tier_promotions == 0 && manager.counters.tier_demotions == 0
            &&& manager.pools.local.budgets.len() == 64
            &&& manager.pools.global.budgets.len() == 64
        }),
{
}

/// Every slow task that was moved is counted as submitted, and a refused one as dropped
/// if the channel was full, as long as the counts do not wrap. A scheduler that is there
/// stays, with its settings and its channel.
pub proof fn moved_tasks_are_counted_as_submitted(
    before: ManagerModel,
    after: ManagerModel,
    max_tasks: usize,
    processed: usize,
)
    requires
        slow_queue_served(before, after, max_tasks, processed),
        before.scheduler matches Some(scheduler) ==> scheduler.metrics.tasks_submitted + processed
            <= u64::MAX && scheduler.metrics.tasks_dropped < u64::MAX,
    ensures
        after.scheduler is Some <==> before.scheduler is Some,
        before.scheduler is Some ==> {
            let (old_scheduler, new_scheduler) = (before.scheduler->0, after.scheduler->0);
            let (counted, counts) = (old_scheduler.metrics, new_scheduler.metrics);
            let refused = processed < max_tasks && processed < before.slow_queue.len();
            &&& counts.tasks_submitted == counted.tasks_submitted + processed
            &&& counts.tasks_dropped == counted.tasks_dropped || (refused && counts.tasks_dropped
                == counted.tasks_dropped + 1)
            &&& counts.tasks_dropped == counted.tasks_dropped && refused ==> sent_as_itself(
                before,
                before.slow_queue[processed as int],
                SendOutcome::Disconnected,
            )
            &&& counts.tasks_dropped > counted.tasks_dropped ==> sent_as_itself(
                before,
                before.slow_queue[processed as int],
                SendOutcome::Full,
            )
            &&& counts.tasks_processed == counted.tasks_processed
            &&& new_scheduler.task_sender == old_scheduler.task_sender
            &&& new_scheduler.task_receiver == old_scheduler.task_receiver
            &&& new_scheduler.max_queue_size == old_scheduler.max_queue_size
            &&& new_scheduler.shutdown_initiated == old_scheduler.shutdown_initiated
        },
{
    let queue = before.slow_queue;
    if before.scheduler is Some && processed < max_tasks && processed < queue.len() {
        let next = queue[processed as int];
        if before.slow_task_offered(next, SendOutcome::Full) {
            lemma_sent_as_itself(before, next, SendOutcome::Full);
        }
        if before.slow_task_offered(next, SendOutcome::Disconnected) {
            lemma_sent_as_itself(before, next, SendOutcome::Disconnected);
        }
    }
}

} // verus!
