//! What holds of the tier manager over several operations.

use crate::tier_manager::config::{profile_is_recognised, profile_of, ConfigProfile, TierConfig};
use crate::tier_manager::context::{PollResult, TaskContext, TaskId};
use crate::tier_manager::manager::slow_queue_served;
use crate::tier_manager::model::{Intervention, ManagerModel, TierCounters};
use crate::tier_manager::task::{
    elapsed, low_64_bits, TaskModel, MAX_TIER, NANOS_PER_MS, NO_PENDING_TIER,
};
use crate::tier_manager::worker::WorkerStats;
use vstd::prelude::*;
use vstd::seq_lib::lemma_multiset_commutative;

verus! {

/// A promotion moves a task up by exactly one tier, a demotion down by exactly
/// one, and neither leaves the four tiers.
pub proof fn tiers_change_one_step_at_a_time(
    task: TaskModel,
    config: TierConfig,
    hysteresis_ms: u64,
    tier: int,
    now: u128,
)
    requires
        task.wf(),
        0 <= tier <= MAX_TIER,
    ensures
        ({
            let up = task.escalated(hysteresis_ms, now);
            &&& up.wf()
            &&& up.current_tier == task.current_tier + (if task.can_escalate(hysteresis_ms, now) {
                1int
            } else {
                0
            })
        }),
        ({
            let policy = config.tier_policies[tier];
            let down = task.demoted(hysteresis_ms, policy, config.test_mode, now);
            &&& down.wf()
            &&& down.current_tier == task.current_tier - (if task.can_demote(
                hysteresis_ms,
                policy,
                config.test_mode,
                now,
            ) {
                1int
            } else {
                0
            })
        }),
        ({
            let settled = task.settled(
                config.promotion_hysteresis_ms,
                config.demotion_hysteresis_ms,
                now,
            );
            &&& settled.wf()
            &&& -1 <= settled.current_tier - task.current_tier <= 1
        }),
{
}

/// A poll keeps a task within the four tiers.
pub proof fn poll_keeps_task_well_formed(
    task: TaskModel,
    config: TierConfig,
    result: PollResult,
    poll_ns: u128,
    now: u128,
)
    requires
        task.wf(),
    ensures
        task.polled(config, result, poll_ns, now).wf(),
        task.yielded(config, now).wf(),
        -2 <= task.polled(config, result, poll_ns, now).current_tier - task.current_tier <= 2,
{
}

/// Two promotions of a task are at least the promotion hysteresis apart, and
/// after a promotion it takes at least the demotion hysteresis until a demotion.
pub proof fn tier_changes_are_spaced(
    task: TaskModel,
    config: TierConfig,
    hysteresis_ms: u64,
    next_hysteresis_ms: u64,
    tier: int,
    now: u128,
    later: u128,
)
    requires
        task.wf(),
        0 <= tier <= MAX_TIER,
        task.can_escalate(hysteresis_ms, now),
        elapsed(now, later) / NANOS_PER_MS < next_hysteresis_ms,
    ensures
        ({
            let moved = task.promoted(hysteresis_ms, now);
            &&& moved.current_tier == task.current_tier + 1
            &&& !moved.can_escalate(next_hysteresis_ms, later)
            &&& !moved.can_demote(
                next_hysteresis_ms,
                config.tier_policies[tier],
                config.test_mode,
                later,
            )
        }),
{
}

/// A promotion that the hysteresis holds back takes effect once the hysteresis is
/// over.
pub proof fn pending_promotion_takes_effect(
    task: TaskModel,
    hysteresis_ms: u64,
    demotion_hysteresis_ms: u64,
    now: u128,
    later: u128,
)
    requires
        task.wf(),
        task.current_tier < MAX_TIER,
        !task.cooling(now),
        !task.tier_held_for(hysteresis_ms, now),
        task.tier_held_for(hysteresis_ms, later),
    ensures
        ({
            let marked = task.escalated(hysteresis_ms, now);
            let settled = marked.settled(hysteresis_ms, demotion_hysteresis_ms, later);
            &&& marked.current_tier == task.current_tier
            &&& settled.current_tier == task.current_tier + 1
            &&& settled.pending_tier_change == NO_PENDING_TIER
        }),
{
}

/// A task that was promoted and then demoted is back at its tier.
pub proof fn demotion_undoes_promotion(
    task: TaskModel,
    config: TierConfig,
    tier: int,
    now: u128,
    later: u128,
)
    requires
        task.wf(),
        0 <= tier <= MAX_TIER,
        task.can_escalate(config.promotion_hysteresis_ms, now),
        task.escalated(config.promotion_hysteresis_ms, now).can_demote(
            config.demotion_hysteresis_ms,
            config.tier_policies[tier],
            config.test_mode,
            later,
        ),
    ensures
        task.escalated(config.promotion_hysteresis_ms, now).demoted(
            config.demotion_hysteresis_ms,
            config.tier_policies[tier],
            config.test_mode,
            later,
        ).current_tier == task.current_tier,
{
}

/// During a cooldown no task is promoted or demoted on the ground of its latest
/// poll or yield.
pub proof fn cooldown_bars_new_tier_changes(
    task: TaskModel,
    config: TierConfig,
    hysteresis_ms: u64,
    tier: int,
    now: u128,
)
    requires
        task.cooling(now),
        0 <= tier <= MAX_TIER,
    ensures
        task.escalated(hysteresis_ms, now) == task,
        task.demoted(hysteresis_ms, config.tier_policies[tier], config.test_mode, now) == task,
{
}

/// More violations within a second than tolerated start a cooldown that lasts for
/// the configured time and ends then.
pub proof fn rapid_violations_start_cooldown(
    task: TaskModel,
    violation_rate_threshold: u64,
    cooldown_duration_ms: u64,
    now: u128,
    later: u128,
)
    requires
        now <= later,
        task.violations_within_second(now).len() > violation_rate_threshold,
        now + cooldown_duration_ms * NANOS_PER_MS <= u128::MAX,
    ensures
        task.rate_limited(violation_rate_threshold, cooldown_duration_ms, now).cooling(later)
            <==> later < now + cooldown_duration_ms * NANOS_PER_MS,
        task.rate_limited(
            violation_rate_threshold,
            cooldown_duration_ms,
            now,
        ).recent_violations.len() == 0,
{
}

/// A poll that exhausts the budget ends the record of good polls; a demotion
/// starts it anew.
pub proof fn violation_ends_good_record(
    task: TaskModel,
    config: TierConfig,
    result: PollResult,
    poll_ns: u128,
    now: u128,
)
    requires
        task.wf(),
        task.poll_report(config, result, poll_ns, now).violated,
    ensures
        task.polled(config, result, poll_ns, now).consecutive_good_polls == 0,
        task.polled(config, result, poll_ns, now).last_violation_time == now,
        !task.poll_report(config, result, poll_ns, now).demoted,
{
}

/// One poll is counted once, when it begins, and adds exactly one to the polls of
/// its worker; what follows it does not count polls.
pub proof fn polls_are_counted_once(
    manager: ManagerModel,
    task_id: TaskId,
    ctx: TaskContext,
    result: PollResult,
    poll_ns: u128,
    now: u128,
    later: u128,
)
    requires
        manager.counters.polls < u64::MAX,
        manager.worker(ctx.worker_id).polls_processed < u64::MAX,
    ensures
        ({
            let begun = manager.before_poll(task_id, ctx, now);
            let ended = begun.after_poll(task_id, result, poll_ns, later);
            &&& begun.counters.polls == manager.counters.polls + 1
            &&& ended.counters.polls == manager.counters.polls + 1
            &&& ended.worker_metrics(ctx.worker_id).polls == manager.worker_metrics(
                ctx.worker_id,
            ).polls + 1
            &&& ended.on_yield(task_id, later).counters.polls == ended.counters.polls
            &&& ended.on_completion(task_id).counters.polls == ended.counters.polls
        }),
{
}

/// A task is counted for the worker that polls it first, and only then.
pub proof fn tasks_are_counted_once(
    manager: ManagerModel,
    task_id: TaskId,
    ctx: TaskContext,
    now: u128,
)
    requires
        manager.worker(ctx.worker_id).tasks_processed < u64::MAX,
    ensures
        manager.before_poll(task_id, ctx, now).worker(ctx.worker_id).tasks_processed
            == manager.worker(ctx.worker_id).tasks_processed + (if manager.tasks.contains_key(
            task_id.0,
        ) {
            0int
        } else {
            1
        }),
        manager.before_poll(task_id, ctx, now).tasks.contains_key(task_id.0),
{
}

/// Promotions, demotions and yields that a poll or a voluntary yield brings about are
/// counted alike for the manager and for the worker of the task, as long as the counts
/// do not wrap.
pub proof fn worker_shares_in_the_counters(
    manager: ManagerModel,
    task_id: TaskId,
    result: PollResult,
    poll_ns: u128,
    now: u128,
)
    requires
        manager.tasks.contains_key(task_id.0),
        counters_below_limit(manager.counters),
        stats_below_limit(
            manager.worker(manager.tasks[task_id.0].worker_id),
            low_64_bits(poll_ns),
        ),
    ensures
        ({
            let worker_id = manager.tasks[task_id.0].worker_id;
            let (before, counted) = (manager.worker(worker_id), manager.counters);
            let polled = manager.after_poll(task_id, result, poll_ns, now);
            let yielded = manager.on_yield(task_id, now);
            let (after_poll, after_yield) = (polled.worker(worker_id), yielded.worker(worker_id));
            &&& after_poll.tier_promotions - before.tier_promotions
                == polled.counters.tier_promotions - counted.tier_promotions
            &&& after_poll.tier_demotions - before.tier_demotions == polled.counters.tier_demotions
                - counted.tier_demotions
            &&& after_poll.yields_forced - before.yields_forced == polled.counters.yields
                - counted.yields
            &&& after_poll.budget_violations - before.budget_violations
                == polled.counters.budget_violations - counted.budget_violations
            &&& after_yield.tier_demotions - before.tier_demotions
                == yielded.counters.tier_demotions - counted.tier_demotions
            &&& after_yield.voluntary_yields - before.voluntary_yields
                == yielded.counters.voluntary_yields - counted.voluntary_yields
            &&& after_yield.yields_forced == before.yields_forced
        }),
{
}

/// Whether no counter of `after` is lower than in `before`.
pub open spec fn counters_grow(before: TierCounters, after: TierCounters) -> bool {
    &&& before.polls <= after.polls
    &&& before.violations <= after.violations
    &&& before.yields <= after.yields
    &&& before.budget_violations <= after.budget_violations
    &&& before.voluntary_yields <= after.voluntary_yields
    &&& before.tier_promotions <= after.tier_promotions
    &&& before.tier_demotions <= after.tier_demotions
}

/// Whether no count of `after` is lower than in `before`.
pub open spec fn stats_grow(before: WorkerStats, after: WorkerStats) -> bool {
    &&& before.polls_processed <= after.polls_processed
    &&& before.yields_forced <= after.yields_forced
    &&& before.tier_promotions <= after.tier_promotions
    &&& before.tier_demotions <= after.tier_demotions
    &&& before.budget_violations <= after.budget_violations
    &&& before.tasks_processed <= after.tasks_processed
    &&& before.cpu_time_ns <= after.cpu_time_ns
    &&& before.slow_polls <= after.slow_polls
    &&& before.voluntary_yields <= after.voluntary_yields
}

/// Whether no counter is about to wrap.
pub open spec fn counters_below_limit(counters: TierCounters) -> bool {
    &&& counters.polls < u64::MAX
    &&& counters.violations < u64::MAX
    &&& counters.yields < u64::MAX
    &&& counters.budget_violations < u64::MAX
    &&& counters.voluntary_yields < u64::MAX
    &&& counters.tier_promotions < u64::MAX
    &&& counters.tier_demotions < u64::MAX
}

/// Whether no count is about to wrap when `cpu_ns` is added to the CPU time.
pub open spec fn stats_below_limit(stats: WorkerStats, cpu_ns: u64) -> bool {
    &&& stats.polls_processed < u64::MAX
    &&& stats.budget_violations < u64::MAX
    &&& stats.tasks_processed < u64::MAX
    &&& stats.cpu_time_ns + cpu_ns <= u64::MAX
    &&& stats.slow_polls < u64::MAX
    &&& stats.yields_forced < u64::MAX
    &&& stats.tier_promotions < u64::MAX
    &&& stats.tier_demotions < u64::MAX
    &&& stats.voluntary_yields < u64::MAX
}

/// The counters of the manager only grow, as long as they do not wrap.
pub proof fn counters_are_monotone(
    manager: ManagerModel,
    task_id: TaskId,
    ctx: TaskContext,
    result: PollResult,
    poll_ns: u128,
    worker_id: usize,
    now: u128,
)
    requires
        counters_below_limit(manager.counters),
    ensures
        counters_grow(manager.counters, manager.before_poll(task_id, ctx, now).counters),
        counters_grow(
            manager.counters,
            manager.after_poll(task_id, result, poll_ns, now).counters,
        ),
        counters_grow(manager.counters, manager.on_yield(task_id, now).counters),
        counters_grow(manager.counters, manager.on_completion(task_id).counters),
        counters_grow(manager.counters, manager.with_worker_reset(worker_id).counters),
{
}

/// The counts of a worker only grow, except by a reset of this very worker, as
/// long as they do not wrap.
pub proof fn worker_stats_are_monotone(
    manager: ManagerModel,
    task_id: TaskId,
    ctx: TaskContext,
    result: PollResult,
    poll_ns: u128,
    worker_id: usize,
    reset_id: usize,
    now: u128,
)
    requires
        stats_below_limit(manager.worker(worker_id), low_64_bits(poll_ns)),
        reset_id != worker_id,
    ensures
        stats_grow(
            manager.worker(worker_id),
            manager.before_poll(task_id, ctx, now).worker(worker_id),
        ),
        stats_grow(
            manager.worker(worker_id),
            manager.after_poll(task_id, result, poll_ns, now).worker(worker_id),
        ),
        stats_grow(manager.worker(worker_id), manager.on_yield(task_id, now).worker(worker_id)),
        stats_grow(manager.worker(worker_id), manager.on_completion(task_id).worker(worker_id)),
        manager.with_worker_reset(reset_id).worker(worker_id) == manager.worker(worker_id),
{
}

/// What happens to one task leaves the state of every other task alone.
pub proof fn tasks_do_not_interfere(
    manager: ManagerModel,
    task_id: TaskId,
    other: TaskId,
    ctx: TaskContext,
    result: PollResult,
    poll_ns: u128,
    now: u128,
)
    requires
        task_id != other,
    ensures
        ({
            let begun = manager.before_poll(task_id, ctx, now);
            let ended = manager.after_poll(task_id, result, poll_ns, now);
            let yielded = manager.on_yield(task_id, now);
            let gone = manager.on_completion(task_id);
            &&& begun.tasks.contains_key(other.0) == manager.tasks.contains_key(other.0)
            &&& ended.tasks.contains_key(other.0) == manager.tasks.contains_key(other.0)
            &&& yielded.tasks.contains_key(other.0) == manager.tasks.contains_key(other.0)
            &&& gone.tasks.contains_key(other.0) == manager.tasks.contains_key(other.0)
            &&& manager.tasks.contains_key(other.0) ==> {
                &&& begun.tasks[other.0] == manager.tasks[other.0]
                &&& ended.tasks[other.0] == manager.tasks[other.0]
                &&& yielded.tasks[other.0] == manager.tasks[other.0]
                &&& gone.tasks[other.0] == manager.tasks[other.0]
            }
        }),
{
}

/// What happens on one worker leaves the counts of every other worker alone.
pub proof fn workers_do_not_interfere(
    manager: ManagerModel,
    task_id: TaskId,
    ctx: TaskContext,
    result: PollResult,
    poll_ns: u128,
    other: usize,
    now: u128,
)
    requires
        ctx.worker_id != other,
        manager.tasks.contains_key(task_id.0) ==> manager.tasks[task_id.0].worker_id != other,
    ensures
        manager.before_poll(task_id, ctx, now).worker(other) == manager.worker(other),
        manager.after_poll(task_id, result, poll_ns, now).worker(other) == manager.worker(other),
        manager.on_yield(task_id, now).worker(other) == manager.worker(other),
        manager.on_completion(task_id).worker(other) == manager.worker(other),
        manager.with_worker_reset(ctx.worker_id).worker(other) == manager.worker(other),
{
}

/// A worker that was reset reports zero everywhere, and a second reset changes
/// nothing.
pub proof fn worker_reset_is_idempotent(manager: ManagerModel, worker_id: usize)
    ensures
        manager.with_worker_reset(worker_id).worker(worker_id) == WorkerStats::zero(),
        manager.with_worker_reset(worker_id).with_worker_reset(worker_id)
            == manager.with_worker_reset(worker_id),
{
    assert(manager.with_worker_reset(worker_id).with_worker_reset(worker_id)
        =~= manager.with_worker_reset(worker_id));
}

/// A completed task is forgotten, a second completion changes nothing, and the
/// number of active tasks goes down by one if the task was known.
pub proof fn completion_forgets_the_task(manager: ManagerModel, task_id: TaskId)
    requires
        manager.wf(),
    ensures
        ({
            let gone = manager.on_completion(task_id);
            &&& !gone.tasks.contains_key(task_id.0)
            &&& gone.tier(task_id) is None
            &&& gone.on_completion(task_id) == gone
            &&& gone.tasks.dom().len() == manager.tasks.dom().len() - (
            if manager.tasks.contains_key(task_id.0) {
                1int
            } else {
                0
            })
            &&& gone.counters == manager.counters
            &&& gone.workers == manager.workers
            &&& gone.wf()
        }),
{
}

/// A task that begins and completes leaves the known tasks as they were. If the
/// thread's pool had a budget for it, the pool has as many budgets as before.
pub proof fn lifecycle_leaves_no_trace(
    manager: ManagerModel,
    task_id: TaskId,
    ctx: TaskContext,
    now: u128,
)
    requires
        manager.wf(),
        !manager.tasks.contains_key(task_id.0),
        0 < manager.pools.local.budgets.len() <= manager.pools.local.config.max_size,
    ensures
        ({
            let done = manager.before_poll(task_id, ctx, now).on_completion(task_id);
            &&& done.tasks == manager.tasks
            &&& done.pools.local.budgets.len() == manager.pools.local.budgets.len()
            &&& done.pools.global == manager.pools.global
            &&& done.slow_queue == manager.slow_queue
        }),
{
    assert(manager.before_poll(task_id, ctx, now).on_completion(task_id).tasks =~= manager.tasks);
}

/// A voluntary yield adds exactly one to the yields, known task or not.
pub proof fn yields_are_counted_once(manager: ManagerModel, task_id: TaskId, now: u128)
    requires
        manager.counters.yields < u64::MAX,
        manager.counters.voluntary_yields < u64::MAX,
    ensures
        manager.on_yield(task_id, now).counters.yields == manager.counters.yields + 1,
        manager.on_yield(task_id, now).counters.voluntary_yields
            == manager.counters.voluntary_yields + 1,
        manager.on_yield(task_id, now).counters.violations == manager.counters.violations,
{
}

/// A voluntary yield refills the budget of the task and forgives its violations.
pub proof fn yield_refills_the_budget(manager: ManagerModel, task_id: TaskId, now: u128)
    requires
        manager.tasks.contains_key(task_id.0),
    ensures
        ({
            let task = manager.on_yield(task_id, now).tasks[task_id.0];
            &&& task.budget.remaining == manager.config.poll_budget
            &&& task.violation_count == 0
            &&& task.current_tier <= manager.tasks[task_id.0].current_tier
        }),
{
}

/// A poll of a task that is not known, or was forgotten, changes nothing.
pub proof fn unknown_tasks_are_passed_over(
    manager: ManagerModel,
    task_id: TaskId,
    result: PollResult,
    poll_ns: u128,
    now: u128,
)
    requires
        !manager.tasks.contains_key(task_id.0),
    ensures
        manager.after_poll(task_id, result, poll_ns, now) == manager,
        manager.intervention(task_id, result, poll_ns, now) == Intervention::Nothing,
        manager.on_completion(task_id) == manager,
{
}

/// The slow queue never grows above its maximum size. If it was longer, because
/// the maximum was lowered, it does not grow at all.
pub proof fn slow_queue_stays_bounded(
    manager: ManagerModel,
    task_id: TaskId,
    ctx: TaskContext,
    result: PollResult,
    poll_ns: u128,
    now: u128,
)
    ensures
        ({
            let ended = manager.after_poll(task_id, result, poll_ns, now);
            ended.slow_queue.len() <= manager.config.max_slow_queue_size
                || ended.slow_queue.len() <= manager.slow_queue.len()
        }),
        manager.before_poll(task_id, ctx, now).slow_queue == manager.slow_queue,
        manager.on_yield(task_id, now).slow_queue == manager.slow_queue,
        manager.on_completion(task_id).slow_queue == manager.slow_queue,
        manager.slow_queue_bounded() ==> {
            &&& manager.after_poll(task_id, result, poll_ns, now).slow_queue_bounded()
            &&& manager.before_poll(task_id, ctx, now).slow_queue_bounded()
            &&& manager.on_yield(task_id, now).slow_queue_bounded()
            &&& manager.on_completion(task_id).slow_queue_bounded()
        },
{
}

/// Handing tasks of the slow queue to the scheduler never makes the queue longer,
/// and no task is lost on the way: each was sent, was dropped for want of a
/// scheduler, or still waits.
pub proof fn serving_keeps_the_slow_queue_bounded(
    before: ManagerModel,
    after: ManagerModel,
    max_tasks: usize,
    processed: usize,
)
    requires
        slow_queue_served(before, after, max_tasks, processed),
        processed <= before.slow_queue.len(),
    ensures
        after.slow_queue.len() == before.slow_queue.len() - processed,
        before.slow_queue_bounded() ==> after.slow_queue_bounded(),
        before.slow_queue.to_multiset() =~= before.slow_queue.take(
            processed as int,
        ).to_multiset().add(after.slow_queue.to_multiset()),
{
    let queue = before.slow_queue;
    let moved = queue.take(processed as int);
    let left = queue.skip(processed as int);
    assert(queue =~= moved + left);
    lemma_multiset_commutative(moved, left);
    if after.slow_queue != left {
        let task_id = queue[processed as int];
        let rest = queue.skip(processed + 1);
        assert(left =~= seq![task_id] + rest);
        lemma_multiset_commutative(seq![task_id], rest);
        assert(rest.push(task_id) =~= rest + seq![task_id]);
        lemma_multiset_commutative(rest, seq![task_id]);
    }
}

/// A task of a tier that forces yields is marked after the poll. When the next
/// poll ends pending, the mark has led to a yield: it is counted and the budget is
/// refilled.
pub proof fn marked_task_yields_at_next_poll(
    manager: ManagerModel,
    task_id: TaskId,
    poll_ns: u128,
    now: u128,
)
    requires
        manager.tasks.contains_key(task_id.0),
        manager.tasks[task_id.0].force_yield,
        manager.counters.yields < u64::MAX,
    ensures
        ({
            let ended = manager.after_poll(task_id, PollResult::Pending, poll_ns, now);
            &&& ended.counters.yields == manager.counters.yields + 1
            &&& ended.tasks[task_id.0].budget.remaining == manager.config.poll_budget
        }),
{
}

/// A new configuration leaves tasks, workers, queues and counters as they are.
pub proof fn config_update_keeps_state(manager: ManagerModel, config: TierConfig)
    ensures
        manager.with_config(config).config == config,
        manager.with_config(config).tasks == manager.tasks,
        manager.with_config(config).workers == manager.workers,
        manager.with_config(config).slow_queue == manager.slow_queue,
        manager.with_config(config).counters == manager.counters,
        manager.with_config(config).metrics() == manager.metrics(),
        manager.wf() ==> manager.with_config(config).wf(),
{
}

/// After a switch to a predefined profile, that profile is the current one.
pub proof fn switched_profile_is_current(manager: ManagerModel, profile: ConfigProfile)
    requires
        profile != ConfigProfile::Custom,
    ensures
        profile_of(manager.with_config(profile.config()).config) == Some(profile),
{
    profile_is_recognised(profile);
}

/// A poll that took no time is never slow and uses no CPU time.
pub proof fn zero_duration_is_harmless(
    task: TaskModel,
    config: TierConfig,
    result: PollResult,
    now: u128,
)
    ensures
        !task.poll_report(config, result, 0, now).slow,
        task.poll_report(config, result, 0, now).cpu_ns == 0,
        task.measured(0).total_cpu_ns == task.total_cpu_ns,
{
}

} // verus!
