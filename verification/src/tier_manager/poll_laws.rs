//! What a poll, a violation and a yield do to a task, in terms of what was seen of it.

use crate::single::{nearest_single, nearest_single_is_exact_below_25_bits};
use crate::tier_manager::config::{TierConfig, TierPolicy};
use crate::tier_manager::context::{
    scaled, scaling_is_exact_below_25_bits, PollResult, TaskContext,
};
use crate::tier_manager::task::TaskModel;
use vstd::prelude::*;

verus! {

/// Whether the last tier change, if there was one, is at least `ms` milliseconds past.
pub open spec fn rested(task: TaskModel, ms: u64, now: u128) -> bool {
    match task.last_tier_change {
        Some(change) => ms == 0 || now - change >= ms * 1_000_000,
        None => true,
    }
}

/// Whether the task is in a cooldown.
pub open spec fn barred(task: TaskModel, now: u128) -> bool {
    task.cooldown_until matches Some(end) && now < end
}

/// Whether no pending tier change is about to take effect.
pub open spec fn stays_put(task: TaskModel, config: TierConfig, now: u128) -> bool {
    ||| task.pending_tier_change == u32::MAX
    ||| task.pending_tier_change > task.current_tier && !rested(
        task,
        config.promotion_hysteresis_ms,
        now,
    )
    ||| task.pending_tier_change < task.current_tier && !rested(
        task,
        config.demotion_hysteresis_ms,
        now,
    )
}

/// Slow polls in a row, this one included: a poll of more than a millisecond is slow.
pub open spec fn slow_in_a_row(task: TaskModel, poll_ns: u128) -> int {
    if poll_ns > 1_000_000 {
        task.slow_poll_count + 1
    } else {
        0
    }
}

/// Whether a poll took as many whole milliseconds as lead to a promotion, or was the
/// last of as many slow ones in a row as do.
pub open spec fn is_overuse(task: TaskModel, policy: TierPolicy, poll_ns: u128) -> bool {
    ||| poll_ns >= policy.promotion_cpu_threshold_ms * 1_000_000
    ||| slow_in_a_row(task, poll_ns) >= policy.promotion_slow_poll_threshold
}

/// How many violations lead to a promotion: a quarter of the threshold for critical
/// tasks, half of it for those of high priority, twice as many for those of low
/// priority; one at least. Of thresholds above 24 bits only the leading 24 count.
pub open spec fn violations_needed(threshold: u32, priority: Option<u8>) -> int {
    let value = nearest_single(threshold as nat) as int;
    let needed = match priority {
        Some(0) => value / 4,
        Some(1) => value / 2,
        Some(2) => value,
        Some(_) => value * 2,
        None => value,
    };
    if needed < 1 {
        1
    } else if needed > u32::MAX {
        u32::MAX as int
    } else {
        needed
    }
}

/// The violations on record that are less than a second old, with one more now.
pub open spec fn within_a_second(times: Seq<u128>, now: u128) -> Seq<u128> {
    times.push(now).filter(|time: u128| now - time < 1_000_000_000)
}

/// Whether a violation now is one too many within a second.
pub open spec fn is_rapid(task: TaskModel, config: TierConfig, now: u128) -> bool {
    within_a_second(task.recent_violations, now).len() > config.violation_rate_threshold
}

/// Whether no count is about to wrap, and no time to run over.
pub open spec fn counts_have_room(
    task: TaskModel,
    config: TierConfig,
    poll_ns: u128,
    now: u128,
) -> bool {
    &&& task.slow_poll_count < u32::MAX
    &&& task.violation_count < u32::MAX
    &&& task.consecutive_good_polls < u32::MAX
    &&& task.polls_since_demotion_check < u32::MAX
    &&& task.total_cpu_ns + poll_ns <= u64::MAX
    &&& task.good_behavior_duration_ns + poll_ns <= u64::MAX
    &&& now + config.cooldown_duration_ms * 1_000_000 <= u128::MAX
}

proof fn lemma_same_second(times: Seq<u128>, now: u128)
    ensures
        times.push(now).filter(
            |t: u128| crate::tier_manager::task::elapsed(t, now) < 1_000_000_000u128,
        ) == within_a_second(times, now),
{
    assert((|t: u128| crate::tier_manager::task::elapsed(t, now) < 1_000_000_000u128) =~= (|time:
        u128| now - time < 1_000_000_000));
}

proof fn lemma_rested(task: TaskModel, ms: u64, now: u128)
    ensures
        task.tier_held_for(ms, now) == rested(task, ms, now),
{
}

pub(crate) proof fn lemma_stays(task: TaskModel, config: TierConfig, now: u128)
    requires
        task.wf(),
        stays_put(task, config, now),
    ensures
        task.settled(config.promotion_hysteresis_ms, config.demotion_hysteresis_ms, now) == task,
{
    lemma_rested(task, config.promotion_hysteresis_ms, now);
    lemma_rested(task, config.demotion_hysteresis_ms, now);
}

proof fn lemma_violation_limit(task: TaskModel, policy: TierPolicy)
    ensures
        task.violation_limit(policy) == violations_needed(
            policy.promotion_threshold,
            task.context.priority,
        ),
{
    let value = nearest_single(policy.promotion_threshold as nat);
    assert((value * 4) as nat / 4 == value && (value * 8) as nat / 4 == value * 2);
}

/// A poll that uses up the budget is a violation. It moves the task exactly one tier
/// up, unless it is at the highest, cools down or moved too short a time ago, when the
/// violations since the last promotion or voluntary yield have reached what the policy
/// of the task's own tier asks for, given its priority, or when the poll was an overuse.
/// Too many violations within a second start a cooldown that bars this promotion too.
pub proof fn violations_promote_by_the_policy_of_the_tier(
    task: TaskModel,
    config: TierConfig,
    result: PollResult,
    poll_ns: u128,
    now: u128,
)
    requires
        task.wf(),
        stays_put(task, config, now),
        counts_have_room(task, config, poll_ns, now),
        task.budget.remaining <= 1,
    ensures
        ({
            let tier = task.current_tier;
            let policy = config.tier_policies[tier as int];
            let after = task.polled(config, result, poll_ns, now);
            let report = task.poll_report(config, result, poll_ns, now);
            let cools = if is_rapid(task, config, now) {
                config.cooldown_duration_ms > 0
            } else {
                barred(task, now)
            };
            let called_for = tier < 3 && !cools && (is_overuse(task, policy, poll_ns)
                || task.violation_count + 1 >= violations_needed(
                policy.promotion_threshold,
                task.context.priority,
            ));
            let moves = called_for && rested(task, config.promotion_hysteresis_ms, now);
            &&& report.violated && !report.demoted
            &&& report.promoted == moves
            &&& after.current_tier == (if moves {
                tier + 1
            } else {
                tier as int
            })
            &&& after.violation_count == (if moves {
                0
            } else {
                task.violation_count + 1
            })
            &&& after.slow_poll_count == (if moves {
                0
            } else {
                slow_in_a_row(task, poll_ns)
            })
            &&& after.last_tier_change == (if moves {
                Some(now)
            } else {
                task.last_tier_change
            })
            &&& after.pending_tier_change == (if moves {
                u32::MAX as int
            } else if called_for {
                tier + 1
            } else {
                task.pending_tier_change as int
            })
            &&& after.last_violation_time == now
            &&& after.consecutive_good_polls == 0
            &&& after.good_behavior_duration_ns == 0
        }),
{
    reveal(Seq::filter);
    let tier = task.current_tier;
    let policy = config.tier_policies[tier as int];
    lemma_same_second(task.recent_violations, now);
    lemma_rested(task, config.promotion_hysteresis_ms, now);
    lemma_rested(task, config.demotion_hysteresis_ms, now);
    lemma_violation_limit(task, policy);
}

/// A violation that is on record counts against the rate for a second, to the
/// nanosecond: those on record are the ones before and this one, as far as they are
/// less than a second old. If they are more than tolerated, a cooldown begins that
/// lasts for the configured time, and the record starts anew.
pub proof fn violations_count_for_a_second(
    task: TaskModel,
    violation_rate_threshold: u64,
    cooldown_duration_ms: u64,
    now: u128,
)
    requires
        now + cooldown_duration_ms * 1_000_000 <= u128::MAX,
    ensures
        ({
            let after = task.rate_limited(violation_rate_threshold, cooldown_duration_ms, now);
            let recent = within_a_second(task.recent_violations, now);
            let rapid = recent.len() > violation_rate_threshold;
            &&& after.cooldown_until == (if rapid {
                Some((now + cooldown_duration_ms * 1_000_000) as u128)
            } else {
                task.cooldown_until
            })
            &&& after.recent_violations == (if rapid {
                Seq::<u128>::empty()
            } else {
                recent
            })
            &&& after == (TaskModel {
                cooldown_until: after.cooldown_until,
                recent_violations: after.recent_violations,
                ..task
            })
        }),
{
    lemma_same_second(task.recent_violations, now);
}

/// The task after a violation at each of these times.
pub open spec fn after_violations(
    task: TaskModel,
    violation_rate_threshold: u64,
    cooldown_duration_ms: u64,
    times: Seq<u128>,
) -> TaskModel
    decreases times.len(),
{
    if times.len() == 0 {
        task
    } else {
        after_violations(
            task,
            violation_rate_threshold,
            cooldown_duration_ms,
            times.drop_last(),
        ).rate_limited(violation_rate_threshold, cooldown_duration_ms, times.last())
    }
}

proof fn lemma_all_within(times: Seq<u128>, now: u128)
    requires
        forall|i: int| 0 <= i < times.len() ==> now - #[trigger] times[i] < 1_000_000_000,
    ensures
        times.filter(|time: u128| now - time < 1_000_000_000) == times,
    decreases times.len(),
{
    reveal(Seq::filter);
    if times.len() > 0 {
        let earlier = times.drop_last();
        assert forall|i: int| 0 <= i < earlier.len() implies now - #[trigger] earlier[i]
            < 1_000_000_000 by {
            assert(earlier[i] == times[i]);
        }
        assert(now - times[times.len() - 1] < 1_000_000_000);
        lemma_all_within(earlier, now);
        assert(earlier.push(times.last()) =~= times);
    } else {
        assert(times.filter(|time: u128| now - time < 1_000_000_000) =~= times);
    }
}

/// As many violations as are tolerated, at any times within one second, leave a task
/// with a clean record out of cooldown and are all on record; the next one within that
/// second starts a cooldown of the configured length, counted from it.
pub proof fn one_violation_too_many_starts_a_cooldown(
    task: TaskModel,
    violation_rate_threshold: u64,
    cooldown_duration_ms: u64,
    times: Seq<u128>,
)
    requires
        task.recent_violations.len() == 0,
        task.cooldown_until is None,
        0 < times.len() <= violation_rate_threshold + 1,
        forall|i: int, j: int| 0 <= i <= j < times.len() ==> times[i] <= times[j],
        times.last() - times[0] < 1_000_000_000,
        times.last() + cooldown_duration_ms * 1_000_000 <= u128::MAX,
    ensures
        ({
            let after = after_violations(
                task,
                violation_rate_threshold,
                cooldown_duration_ms,
                times,
            );
            if times.len() <= violation_rate_threshold {
                after.recent_violations == times && after.cooldown_until is None
            } else {
                &&& after.recent_violations.len() == 0
                &&& after.cooldown_until == Some(
                    (times.last() + cooldown_duration_ms * 1_000_000) as u128,
                )
            }
        }),
    decreases times.len(),
{
    let earlier = times.drop_last();
    let now = times.last();
    let before = after_violations(task, violation_rate_threshold, cooldown_duration_ms, earlier);
    if earlier.len() > 0 {
        assert(earlier[0] == times[0] && earlier.last() == times[times.len() - 2]);
        one_violation_too_many_starts_a_cooldown(
            task,
            violation_rate_threshold,
            cooldown_duration_ms,
            earlier,
        );
    }
    assert(before.recent_violations =~= earlier);
    assert(earlier.push(now) =~= times);
    lemma_all_within(times, now);
    violations_count_for_a_second(before, violation_rate_threshold, cooldown_duration_ms, now);
}

/// Violations that come at least a second apart never start a cooldown, as long as one
/// is tolerated.
pub proof fn spaced_violations_start_no_cooldown(
    task: TaskModel,
    violation_rate_threshold: u64,
    cooldown_duration_ms: u64,
    now: u128,
)
    requires
        violation_rate_threshold > 0,
        forall|i: int|
            0 <= i < task.recent_violations.len() ==> now - #[trigger] task.recent_violations[i]
                >= 1_000_000_000,
    ensures
        task.rate_limited(violation_rate_threshold, cooldown_duration_ms, now).cooldown_until
            == task.cooldown_until,
        task.rate_limited(violation_rate_threshold, cooldown_duration_ms, now).recent_violations
            == seq![now],
{
    lemma_none_within(task.recent_violations, now);
    lemma_same_second(task.recent_violations, now);
    let recent = |time: u128| now - time < 1_000_000_000;
    task.recent_violations.lemma_filter_push(now, recent);
    assert(task.recent_violations.filter(recent).push(now) =~= seq![now]);
}

proof fn lemma_none_within(times: Seq<u128>, now: u128)
    requires
        forall|i: int| 0 <= i < times.len() ==> now - #[trigger] times[i] >= 1_000_000_000,
    ensures
        times.filter(|time: u128| now - time < 1_000_000_000).len() == 0,
    decreases times.len(),
{
    reveal(Seq::filter);
    if times.len() > 0 {
        let earlier = times.drop_last();
        assert forall|i: int| 0 <= i < earlier.len() implies now - #[trigger] earlier[i]
            >= 1_000_000_000 by {
            assert(earlier[i] == times[i]);
        }
        assert(now - times[times.len() - 1] >= 1_000_000_000);
        lemma_none_within(earlier, now);
    }
}

/// A poll that is an overuse but no violation moves the task exactly one tier up,
/// unless it is at the highest, cools down or moved too short a time ago; then a
/// promotion stays pending.
pub proof fn overuse_promotes(
    task: TaskModel,
    config: TierConfig,
    result: PollResult,
    poll_ns: u128,
    now: u128,
)
    requires
        task.wf(),
        stays_put(task, config, now),
        counts_have_room(task, config, poll_ns, now),
        task.budget.remaining > 1,
        is_overuse(task, config.tier_policies[task.current_tier as int], poll_ns),
    ensures
        ({
            let tier = task.current_tier;
            let after = task.polled(config, result, poll_ns, now);
            let report = task.poll_report(config, result, poll_ns, now);
            let called_for = tier < 3 && !barred(task, now);
            let moves = called_for && rested(task, config.promotion_hysteresis_ms, now);
            &&& !report.violated && !report.demoted
            &&& report.promoted == moves
            &&& after.current_tier == (if moves {
                tier + 1
            } else {
                tier as int
            })
            &&& after.violation_count == (if moves {
                0
            } else {
                task.violation_count
            })
            &&& after.slow_poll_count == (if moves {
                0
            } else {
                slow_in_a_row(task, poll_ns)
            })
            &&& after.last_tier_change == (if moves {
                Some(now)
            } else {
                task.last_tier_change
            })
            &&& after.pending_tier_change == (if moves {
                u32::MAX as int
            } else if called_for {
                tier + 1
            } else {
                task.pending_tier_change as int
            })
            &&& after.recent_violations == task.recent_violations
            &&& after.cooldown_until == task.cooldown_until
            &&& after.consecutive_good_polls == task.consecutive_good_polls
            &&& after.last_violation_time == task.last_violation_time
        }),
{
    lemma_rested(task, config.promotion_hysteresis_ms, now);
    lemma_rested(task, config.demotion_hysteresis_ms, now);
}

/// A good poll, one that is no violation, no overuse, not slow, and within the CPU time
/// that the policy of the tier allows, adds to the record of good polls. It moves the
/// task exactly one tier down when the behaviour was good for long enough: it is time
/// for an evaluation, the good polls are as many as the policy asks for, the CPU time
/// per good poll is low enough, there is no cooldown, the last tier change is past the
/// demotion hysteresis and, but for test mode, the last violation is two seconds past
/// and the task was at its tier for the time that the policy asks for.
pub proof fn sustained_good_polls_demote(
    task: TaskModel,
    config: TierConfig,
    result: PollResult,
    poll_ns: u128,
    now: u128,
)
    requires
        task.wf(),
        stays_put(task, config, now),
        counts_have_room(task, config, poll_ns, now),
        task.budget.remaining > 1,
        !is_overuse(task, config.tier_policies[task.current_tier as int], poll_ns),
        poll_ns <= 1_000_000,
        poll_ns <= config.tier_policies[task.current_tier as int].demotion_cpu_threshold_ns,
    ensures
        ({
            let tier = task.current_tier;
            let policy = config.tier_policies[tier as int];
            let good_polls = task.consecutive_good_polls + 1;
            let after = task.polled(config, result, poll_ns, now);
            let report = task.poll_report(config, result, poll_ns, now);
            let called_for = {
                &&& tier > 0
                &&& task.polls_since_demotion_check as int
                    % policy.demotion_evaluation_interval as int == 0
                &&& good_polls >= policy.demotion_good_polls
                &&& (task.total_cpu_ns + poll_ns) / good_polls <= policy.demotion_cpu_threshold_ns
                &&& !barred(task, now)
                &&& config.test_mode || {
                    &&& now - task.last_violation_time >= 2_000_000_000
                    &&& rested(task, policy.demotion_min_duration_ms, now)
                }
            };
            let moves = called_for && rested(task, config.demotion_hysteresis_ms, now);
            &&& !report.violated && !report.promoted && !report.slow
            &&& report.demoted == moves
            &&& after.current_tier == (if moves {
                tier - 1
            } else {
                tier as int
            })
            &&& after.consecutive_good_polls == (if moves {
                0
            } else {
                good_polls
            })
            &&& after.good_behavior_duration_ns == (if moves {
                0
            } else {
                task.good_behavior_duration_ns + poll_ns
            })
            &&& after.polls_since_demotion_check == task.polls_since_demotion_check + (if tier
                > 0 {
                1int
            } else {
                0
            })
            &&& after.last_tier_change == (if moves {
                Some(now)
            } else {
                task.last_tier_change
            })
            &&& after.pending_tier_change == (if moves {
                u32::MAX as int
            } else if called_for {
                tier - 1
            } else {
                task.pending_tier_change as int
            })
            &&& after.total_cpu_ns == task.total_cpu_ns + poll_ns
            &&& after.slow_poll_count == 0
            &&& after.violation_count == task.violation_count
            &&& after.recent_violations == task.recent_violations
            &&& after.cooldown_until == task.cooldown_until
            &&& after.last_violation_time == task.last_violation_time
        }),
{
    let policy = config.tier_policies[task.current_tier as int];
    lemma_rested(task, config.promotion_hysteresis_ms, now);
    lemma_rested(task, config.demotion_hysteresis_ms, now);
    lemma_rested(task, policy.demotion_min_duration_ms, now);
    let total = (task.total_cpu_ns + poll_ns) as u64;
    let good_polls = (task.consecutive_good_polls + 1) as u32;
    assert(total / (good_polls as u64) == (task.total_cpu_ns + poll_ns) / (
    task.consecutive_good_polls + 1));
}

/// A poll that is no violation and no overuse, but slow or beyond the CPU time of a good
/// poll, leaves the tier and the records of violations and good polls alone.
pub proof fn middling_polls_leave_the_tier(
    task: TaskModel,
    config: TierConfig,
    result: PollResult,
    poll_ns: u128,
    now: u128,
)
    requires
        task.wf(),
        stays_put(task, config, now),
        counts_have_room(task, config, poll_ns, now),
        task.budget.remaining > 1,
        !is_overuse(task, config.tier_policies[task.current_tier as int], poll_ns),
        poll_ns > 1_000_000 || poll_ns
            > config.tier_policies[task.current_tier as int].demotion_cpu_threshold_ns,
    ensures
        ({
            let after = task.polled(config, result, poll_ns, now);
            let report = task.poll_report(config, result, poll_ns, now);
            &&& !report.violated && !report.promoted && !report.demoted
            &&& after == (TaskModel {
                total_cpu_ns: (task.total_cpu_ns + poll_ns) as u64,
                slow_poll_count: slow_in_a_row(task, poll_ns) as u32,
                budget: after.budget,
                force_yield: after.force_yield,
                ..task
            })
        }),
{
    lemma_rested(task, config.promotion_hysteresis_ms, now);
    lemma_rested(task, config.demotion_hysteresis_ms, now);
}

/// A pending tier change whose hysteresis is over takes effect before the poll is
/// judged: the poll of the task is that of a task which has just moved to the pending
/// tier.
pub proof fn pending_change_comes_before_the_poll(
    task: TaskModel,
    config: TierConfig,
    result: PollResult,
    poll_ns: u128,
    now: u128,
)
    requires
        task.wf(),
        !stays_put(task, config, now),
    ensures
        ({
            let moved = TaskModel {
                current_tier: task.pending_tier_change,
                last_tier_change: Some(now),
                pending_tier_change: u32::MAX,
                ..task
            };
            &&& task.polled(config, result, poll_ns, now) == moved.polled(
                config,
                result,
                poll_ns,
                now,
            )
            &&& task.poll_report(config, result, poll_ns, now) == moved.poll_report(
                config,
                result,
                poll_ns,
                now,
            )
        }),
{
    lemma_rested(task, config.promotion_hysteresis_ms, now);
    lemma_rested(task, config.demotion_hysteresis_ms, now);
}

/// What every poll does: one operation is taken off the budget, CPU time is added up, a
/// poll of more than a millisecond is slow. A task that is marked and stays pending has
/// yielded: the mark is off and its budget is refilled. Who the task is stays.
pub proof fn polls_are_measured(
    task: TaskModel,
    config: TierConfig,
    result: PollResult,
    poll_ns: u128,
    now: u128,
)
    requires
        task.total_cpu_ns + poll_ns <= u64::MAX,
    ensures
        ({
            let after = task.polled(config, result, poll_ns, now);
            let report = task.poll_report(config, result, poll_ns, now);
            let yields = result == PollResult::Pending && task.force_yield;
            &&& report.cpu_ns == poll_ns
            &&& report.slow == (poll_ns > 1_000_000)
            &&& report.violated == (task.budget.remaining <= 1)
            &&& report.yielded == yields
            &&& after.total_cpu_ns == task.total_cpu_ns + poll_ns
            &&& after.force_yield == (task.force_yield && !yields)
            &&& after.budget.remaining == (if yields {
                config.poll_budget as int
            } else if task.budget.remaining == 0 {
                0
            } else {
                task.budget.remaining - 1
            })
            &&& after.budget.tier == task.budget.tier
            &&& after.budget.generation == task.budget.generation
            &&& after.budget.deadline_ns == task.budget.deadline_ns
            &&& after.worker_id == task.worker_id
            &&& after.context == task.context
            &&& after.last_poll_time == task.last_poll_time
        }),
{
}

/// A voluntary yield refills the budget and forgives the violations. It moves the task
/// exactly one tier down when the good polls are as many as the policy of its tier asks
/// for, there is no cooldown, the last tier change is past the demotion hysteresis and,
/// but for test mode, the last violation is a second past and the task was at its tier
/// for the time that the policy asks for.
pub proof fn yields_are_rewarded(task: TaskModel, config: TierConfig, now: u128)
    requires
        task.wf(),
    ensures
        ({
            let tier = task.current_tier;
            let policy = config.tier_policies[tier as int];
            let after = task.yielded(config, now);
            let called_for = {
                &&& tier > 0
                &&& task.consecutive_good_polls >= policy.demotion_good_polls
                &&& !barred(task, now)
                &&& config.test_mode || {
                    &&& now - task.last_violation_time >= 1_000_000_000
                    &&& rested(task, policy.demotion_min_duration_ms, now)
                }
            };
            let moves = called_for && rested(task, config.demotion_hysteresis_ms, now);
            &&& after == (TaskModel {
                budget: after.budget,
                violation_count: 0,
                current_tier: after.current_tier,
                last_tier_change: if moves {
                    Some(now)
                } else {
                    task.last_tier_change
                },
                pending_tier_change: after.pending_tier_change,
                consecutive_good_polls: if moves {
                    0
                } else {
                    task.consecutive_good_polls
                },
                good_behavior_duration_ns: if moves {
                    0
                } else {
                    task.good_behavior_duration_ns
                },
                ..task
            })
            &&& after.budget.remaining == config.poll_budget
            &&& after.budget.tier == task.budget.tier
            &&& after.budget.generation == task.budget.generation
            &&& after.budget.deadline_ns == task.budget.deadline_ns
            &&& after.current_tier == (if moves {
                tier - 1
            } else {
                tier as int
            })
            &&& after.pending_tier_change == (if moves {
                u32::MAX as int
            } else if called_for {
                tier - 1
            } else {
                task.pending_tier_change as int
            })
        }),
{
    let policy = config.tier_policies[task.current_tier as int];
    lemma_rested(task, config.demotion_hysteresis_ms, now);
    lemma_rested(task, policy.demotion_min_duration_ms, now);
}

/// A task must yield exactly while it is marked for it or no operation is left.
pub proof fn marked_or_spent_tasks_must_yield(task: TaskModel)
    ensures
        task.should_yield() <==> task.force_yield || task.budget.remaining == 0,
{
}

/// A promotion or demotion of its own accord, as for polls: one tier up unless the task
/// is at the highest, cools down or moved too short a time ago, and one tier down when
/// it was earned.
pub proof fn single_moves_are_earned(
    task: TaskModel,
    policy: TierPolicy,
    hysteresis_ms: u64,
    test_mode: bool,
    now: u128,
)
    requires
        task.wf(),
    ensures
        ({
            let tier = task.current_tier;
            let free = !barred(task, now);
            let held = rested(task, hysteresis_ms, now);
            let up = task.escalated(hysteresis_ms, now);
            let promoted = task.promoted(hysteresis_ms, now);
            let down = task.demoted(hysteresis_ms, policy, test_mode, now);
            let earned = tier > 0 && free && task.consecutive_good_polls
                >= policy.demotion_good_polls && (test_mode || (now - task.last_violation_time
                >= 1_000_000_000 && rested(task, policy.demotion_min_duration_ms, now)));
            &&& task.can_escalate(hysteresis_ms, now) <==> tier < 3 && free && held
            &&& up.current_tier == (if tier < 3 && free && held {
                tier + 1
            } else {
                tier as int
            })
            &&& up.pending_tier_change == (if tier >= 3 || !free {
                task.pending_tier_change as int
            } else if held {
                u32::MAX as int
            } else {
                tier + 1
            })
            &&& up.violation_count == task.violation_count
            &&& promoted.current_tier == up.current_tier
            &&& promoted.pending_tier_change == up.pending_tier_change
            &&& promoted.violation_count == (if tier < 3 && free && held {
                0
            } else {
                task.violation_count
            })
            &&& task.can_demote(hysteresis_ms, policy, test_mode, now) <==> earned && held
            &&& down.current_tier == (if earned && held {
                tier - 1
            } else {
                tier as int
            })
            &&& down.pending_tier_change == (if !earned {
                task.pending_tier_change as int
            } else if held {
                u32::MAX as int
            } else {
                tier - 1
            })
        }),
{
    lemma_rested(task, hysteresis_ms, now);
    lemma_rested(task, policy.demotion_min_duration_ms, now);
}

/// An evaluation counts a poll of a task above the lowest tier. It calls for a demotion
/// at every so many of them, if the behaviour was good for long enough.
pub proof fn evaluations_come_at_intervals(
    task: TaskModel,
    policy: TierPolicy,
    test_mode: bool,
    now: u128,
)
    requires
        task.wf(),
        task.polls_since_demotion_check < u32::MAX,
    ensures
        task.demotion_is_due(policy, test_mode, now) <==> {
            &&& task.current_tier > 0
            &&& task.polls_since_demotion_check as int % policy.demotion_evaluation_interval as int
                == 0
            &&& task.consecutive_good_polls >= policy.demotion_good_polls
            &&& task.consecutive_good_polls > 0 ==> task.total_cpu_ns as int
                / task.consecutive_good_polls as int <= policy.demotion_cpu_threshold_ns
            &&& test_mode || {
                &&& now - task.last_violation_time >= 2_000_000_000
                &&& rested(task, policy.demotion_min_duration_ms, now)
            }
        },
        task.evaluated() == (TaskModel {
            polls_since_demotion_check: (task.polls_since_demotion_check + (if task.current_tier
                > 0 {
                1int
            } else {
                0
            })) as u32,
            ..task
        }),
{
    lemma_rested(task, policy.demotion_min_duration_ms, now);
}

/// A scaled threshold or budget is never zero, and more urgent tasks are promoted
/// earlier but get larger budgets: a quarter, half, once and twice the threshold, and
/// four times, twice, once and half the budget.
pub proof fn priorities_scale_by_powers_of_two(value: u32, context: TaskContext)
    requires
        value < 0x100_0000,
    ensures
        scaled(value, context.threshold_quarters()) == violations_needed(value, context.priority),
        violations_needed(value, context.priority) == (if value == 0 {
            1int
        } else {
            match context.priority {
                Some(0) => if value < 4 {
                    1int
                } else {
                    value as int / 4
                },
                Some(1) => if value < 2 {
                    1int
                } else {
                    value as int / 2
                },
                Some(2) => value as int,
                Some(_) => value * 2,
                None => value as int,
            }
        }),
        scaled(value, context.budget_quarters()) == (if value == 0 {
            1int
        } else {
            match context.priority {
                Some(0) => value * 4,
                Some(1) => value * 2,
                Some(2) => value as int,
                Some(_) => if value == 1 {
                    1int
                } else {
                    value as int / 2
                },
                None => value as int,
            }
        }),
{
    nearest_single_is_exact_below_25_bits(value as nat);
    scaling_is_exact_below_25_bits(value, context.threshold_quarters());
    scaling_is_exact_below_25_bits(value, context.budget_quarters());
}

/// The task after polls of this length that ended at these times.
pub open spec fn polled_at(
    task: TaskModel,
    config: TierConfig,
    result: PollResult,
    poll_ns: u128,
    times: Seq<u128>,
) -> TaskModel
    decreases times.len(),
{
    if times.len() == 0 {
        task
    } else {
        polled_at(task, config, result, poll_ns, times.drop_last()).polled(
            config,
            result,
            poll_ns,
            times.last(),
        )
    }
}

/// A task that keeps violating its spent budget stays at its tier, with its violations
/// counted, until they are as many as the policy of that tier asks for; with this very
/// violation it moves to the next tier.
pub proof fn repeated_violations_promote_at_the_threshold(
    task: TaskModel,
    config: TierConfig,
    result: PollResult,
    poll_ns: u128,
    times: Seq<u128>,
)
    requires
        task.wf(),
        task.current_tier < 3,
        task.pending_tier_change == u32::MAX,
        task.cooldown_until is None,
        task.budget.remaining <= 1,
        !task.force_yield,
        config.tier_policies[task.current_tier as int].promotion_slow_poll_threshold > 0,
        poll_ns <= 1_000_000,
        poll_ns < config.tier_policies[task.current_tier as int].promotion_cpu_threshold_ms
            * 1_000_000,
        times.len() > 0,
        task.recent_violations.len() + times.len() <= config.violation_rate_threshold,
        task.violation_count + times.len() <= violations_needed(
            config.tier_policies[task.current_tier as int].promotion_threshold,
            task.context.priority,
        ),
        forall|i: int|
            0 <= i < times.len() ==> rested(
                task,
                config.promotion_hysteresis_ms,
                #[trigger] times[i],
            ) && times[i] + config.cooldown_duration_ms * 1_000_000 <= u128::MAX,
        task.slow_poll_count < u32::MAX,
        task.consecutive_good_polls < u32::MAX,
        task.polls_since_demotion_check < u32::MAX,
        task.total_cpu_ns + poll_ns * times.len() <= u64::MAX,
        task.good_behavior_duration_ns + poll_ns <= u64::MAX,
    ensures
        ({
            let needed = violations_needed(
                config.tier_policies[task.current_tier as int].promotion_threshold,
                task.context.priority,
            );
            let after = polled_at(task, config, result, poll_ns, times);
            if task.violation_count + times.len() < needed {
                &&& after.current_tier == task.current_tier
                &&& after.violation_count == task.violation_count + times.len()
            } else {
                &&& after.current_tier == task.current_tier + 1
                &&& after.violation_count == 0
                &&& after.last_tier_change == Some(times.last())
            }
        }),
{
    lemma_repeated_violations(task, config, result, poll_ns, times);
}

proof fn lemma_repeated_violations(
    task: TaskModel,
    config: TierConfig,
    result: PollResult,
    poll_ns: u128,
    times: Seq<u128>,
)
    requires
        task.wf(),
        task.current_tier < 3,
        task.pending_tier_change == u32::MAX,
        task.cooldown_until is None,
        task.budget.remaining <= 1,
        !task.force_yield,
        config.tier_policies[task.current_tier as int].promotion_slow_poll_threshold > 0,
        poll_ns <= 1_000_000,
        poll_ns < config.tier_policies[task.current_tier as int].promotion_cpu_threshold_ms
            * 1_000_000,
        task.recent_violations.len() + times.len() <= config.violation_rate_threshold,
        task.violation_count + times.len() <= violations_needed(
            config.tier_policies[task.current_tier as int].promotion_threshold,
            task.context.priority,
        ),
        forall|i: int|
            0 <= i < times.len() ==> rested(
                task,
                config.promotion_hysteresis_ms,
                #[trigger] times[i],
            ) && times[i] + config.cooldown_duration_ms * 1_000_000 <= u128::MAX,
        task.slow_poll_count < u32::MAX,
        task.consecutive_good_polls < u32::MAX,
        task.polls_since_demotion_check < u32::MAX,
        task.total_cpu_ns + poll_ns * times.len() <= u64::MAX,
        task.good_behavior_duration_ns + poll_ns <= u64::MAX,
    ensures
        ({
            let needed = violations_needed(
                config.tier_policies[task.current_tier as int].promotion_threshold,
                task.context.priority,
            );
            let after = polled_at(task, config, result, poll_ns, times);
            if times.len() == 0 || task.violation_count + times.len() < needed {
                &&& after.current_tier == task.current_tier
                &&& after.violation_count == task.violation_count + times.len()
                &&& after.pending_tier_change == u32::MAX
                &&& after.cooldown_until is None
                &&& after.budget.remaining <= 1
                &&& !after.force_yield
                &&& after.last_tier_change == task.last_tier_change
                &&& after.context == task.context
                &&& after.recent_violations.len() <= task.recent_violations.len() + times.len()
                &&& after.slow_poll_count < u32::MAX
                &&& after.consecutive_good_polls < u32::MAX
                &&& after.polls_since_demotion_check < u32::MAX
                &&& after.total_cpu_ns == task.total_cpu_ns + poll_ns * times.len()
                &&& after.good_behavior_duration_ns + poll_ns <= u64::MAX
                &&& after.wf()
            } else {
                &&& after.current_tier == task.current_tier + 1
                &&& after.violation_count == 0
                &&& after.last_tier_change == Some(times.last())
            }
        }),
    decreases times.len(),
{
    if times.len() > 0 {
        let earlier = times.drop_last();
        let now = times.last();
        assert forall|i: int| 0 <= i < earlier.len() implies rested(
            task,
            config.promotion_hysteresis_ms,
            #[trigger] earlier[i],
        ) && earlier[i] + config.cooldown_duration_ms * 1_000_000 <= u128::MAX by {
            assert(earlier[i] == times[i]);
        }
        assert(times[times.len() - 1] == now);
        assert(poll_ns * times.len() == poll_ns * earlier.len() + poll_ns) by (nonlinear_arith)
            requires
                times.len() == earlier.len() + 1,
        ;
        lemma_repeated_violations(task, config, result, poll_ns, earlier);
        let before = polled_at(task, config, result, poll_ns, earlier);
        assert(task.violation_count + earlier.len() < violations_needed(
            config.tier_policies[task.current_tier as int].promotion_threshold,
            task.context.priority,
        ));
        let recent = |time: u128| now - time < 1_000_000_000;
        before.recent_violations.push(now).lemma_filter_len(recent);
        violations_promote_by_the_policy_of_the_tier(before, config, result, poll_ns, now);
        polls_are_measured(before, config, result, poll_ns, now);
        violations_stay_on_record(before, config, result, poll_ns, now);
    }
}

/// A violating poll keeps the violations of the last second on record, and starts a
/// cooldown if they are too many.
pub proof fn violations_stay_on_record(
    task: TaskModel,
    config: TierConfig,
    result: PollResult,
    poll_ns: u128,
    now: u128,
)
    requires
        task.wf(),
        stays_put(task, config, now),
        task.budget.remaining <= 1,
        now + config.cooldown_duration_ms * 1_000_000 <= u128::MAX,
    ensures
        ({
            let after = task.polled(config, result, poll_ns, now);
            let rapid = is_rapid(task, config, now);
            &&& after.recent_violations == (if rapid {
                Seq::<u128>::empty()
            } else {
                within_a_second(task.recent_violations, now)
            })
            &&& after.cooldown_until == (if rapid {
                Some((now + config.cooldown_duration_ms * 1_000_000) as u128)
            } else {
                task.cooldown_until
            })
            &&& after.polls_since_demotion_check == task.polls_since_demotion_check
            &&& after.wf()
        }),
{
    lemma_stays(task, config, now);
    lemma_same_second(task.recent_violations, now);
}

} // verus!
