//! What is known about one task, and how a poll changes it.
//!
//! Points in time are nanoseconds on one clock. A point that lies before another
//! is never later than it by the clock's own account, so differences are cut at
//! zero.

use crate::budget::{BudgetModel, TaskBudget};
use crate::tier_manager::config::{TierConfig, TierPolicy};
use crate::tier_manager::context::{scale, scaled, PollResult, TaskContext};
use vstd::prelude::*;

verus! {

/// Highest tier.
pub const MAX_TIER: u32 = 3;

/// Stands for "no tier change is pending".
pub const NO_PENDING_TIER: u32 = u32::MAX;

/// Nanoseconds in a millisecond.
pub const NANOS_PER_MS: u128 = 1_000_000;

/// Nanoseconds in a second.
pub const NANOS_PER_SEC: u128 = 1_000_000_000;

/// A poll that takes longer is slow (ns).
pub const SLOW_POLL_NS: u128 = 1_000_000;

/// Nanoseconds from `since` to `now`, zero if `since` is later.
pub open spec fn elapsed(since: u128, now: u128) -> u128 {
    now.saturating_sub(since)
}

/// The low 64 bits of a duration in nanoseconds.
pub open spec fn low_64_bits(ns: u128) -> u64 {
    (ns % 0x1_0000_0000_0000_0000) as u64
}

/// State of one task.
#[derive(Debug)]
pub struct TaskState {
    /// Operations left before the task has to yield.
    pub budget: TaskBudget,
    /// Tier level, 0 to 3.
    pub current_tier: u32,
    /// Budget violations since the last promotion or voluntary yield.
    pub violation_count: u32,
    /// CPU time (ns).
    pub total_cpu_ns: u64,
    /// When the task was last polled.
    pub last_poll_time: u128,
    /// Consecutive slow polls at this tier.
    pub slow_poll_count: u32,
    /// Whether the task is marked for a forced yield.
    pub force_yield: bool,
    /// When the tier last changed, `None` if it never has.
    pub last_tier_change: Option<u128>,
    /// Tier to move to when the hysteresis is over, or [`NO_PENDING_TIER`].
    pub pending_tier_change: u32,
    /// No tier changes before this time.
    pub cooldown_until: Option<u128>,
    /// Violations of the last second.
    pub recent_violations: Vec<u128>,
    /// Consecutive good polls.
    pub consecutive_good_polls: u32,
    /// When the budget was last violated, at first the time of creation.
    pub last_violation_time: u128,
    /// CPU time of the consecutive good polls (ns).
    pub good_behavior_duration_ns: u64,
    /// Good polls since the task came to be evaluated for demotion.
    pub polls_since_demotion_check: u32,
    /// Worker thread that first polled the task.
    pub worker_id: usize,
    /// Execution context of the last poll.
    pub context: TaskContext,
}

/// What a [`TaskState`] holds.
#[verifier::ext_equal]
pub struct TaskModel {
    pub budget: BudgetModel,
    pub current_tier: u32,
    pub violation_count: u32,
    pub total_cpu_ns: u64,
    pub last_poll_time: u128,
    pub slow_poll_count: u32,
    pub force_yield: bool,
    pub last_tier_change: Option<u128>,
    pub pending_tier_change: u32,
    pub cooldown_until: Option<u128>,
    pub recent_violations: Seq<u128>,
    pub consecutive_good_polls: u32,
    pub last_violation_time: u128,
    pub good_behavior_duration_ns: u64,
    pub polls_since_demotion_check: u32,
    pub worker_id: usize,
    pub context: TaskContext,
}

/// What happened at one poll.
#[derive(Debug, Clone, Copy)]
pub struct PollReport {
    /// CPU time of the poll (ns).
    pub cpu_ns: u64,
    /// The poll was slow.
    pub slow: bool,
    /// The budget was exhausted.
    pub violated: bool,
    /// The task moved one tier up.
    pub promoted: bool,
    /// The task moved one tier down.
    pub demoted: bool,
    /// A forced yield took place.
    pub yielded: bool,
}

impl View for TaskState {
    type V = TaskModel;

    open spec fn view(&self) -> TaskModel {
        TaskModel {
            budget: self.budget@,
            current_tier: self.current_tier,
            violation_count: self.violation_count,
            total_cpu_ns: self.total_cpu_ns,
            last_poll_time: self.last_poll_time,
            slow_poll_count: self.slow_poll_count,
            force_yield: self.force_yield,
            last_tier_change: self.last_tier_change,
            pending_tier_change: self.pending_tier_change,
            cooldown_until: self.cooldown_until,
            recent_violations: self.recent_violations@,
            consecutive_good_polls: self.consecutive_good_polls,
            last_violation_time: self.last_violation_time,
            good_behavior_duration_ns: self.good_behavior_duration_ns,
            polls_since_demotion_check: self.polls_since_demotion_check,
            worker_id: self.worker_id,
            context: self.context,
        }
    }
}

impl TaskModel {
    /// The tier exists, and a pending one is a neighbour of it.
    pub open spec fn wf(self) -> bool {
        &&& self.current_tier <= MAX_TIER
        &&& {
            ||| self.pending_tier_change == NO_PENDING_TIER
            ||| self.pending_tier_change == self.current_tier + 1 && self.pending_tier_change
                <= MAX_TIER
            ||| self.pending_tier_change + 1 == self.current_tier
        }
    }

    /// Whether the task can be judged after its next poll: it may be evaluated for
    /// demotion at its tier, and at the one that a pending change leads to.
    pub open spec fn can_be_judged(self, config: TierConfig) -> bool {
        &&& config.evaluates(self.current_tier as int)
        &&& self.pending_tier_change != NO_PENDING_TIER ==> config.evaluates(
            self.pending_tier_change as int,
        )
    }

    /// A task that was not polled yet.
    pub open spec fn fresh(
        budget: BudgetModel,
        worker_id: usize,
        context: TaskContext,
        now: u128,
    ) -> TaskModel {
        TaskModel {
            budget,
            current_tier: 0,
            violation_count: 0,
            total_cpu_ns: 0,
            last_poll_time: now,
            slow_poll_count: 0,
            force_yield: false,
            last_tier_change: None,
            pending_tier_change: NO_PENDING_TIER,
            cooldown_until: None,
            recent_violations: Seq::empty(),
            consecutive_good_polls: 0,
            last_violation_time: now,
            good_behavior_duration_ns: 0,
            polls_since_demotion_check: 0,
            worker_id,
            context,
        }
    }

    /// Whether the task has to yield.
    pub open spec fn should_yield(self) -> bool {
        self.force_yield || self.budget.exhausted()
    }

    /// Whether tier changes are barred after rapid violations.
    pub open spec fn cooling(self, now: u128) -> bool {
        match self.cooldown_until {
            Some(end) => now < end,
            None => false,
        }
    }

    /// Whether `ms` whole milliseconds have passed since the tier last changed,
    /// if it ever has.
    pub open spec fn tier_held_for(self, ms: u64, now: u128) -> bool {
        match self.last_tier_change {
            Some(change) => elapsed(change, now) / NANOS_PER_MS >= ms,
            None => true,
        }
    }

    /// Whether `secs` whole seconds have passed since the last violation.
    pub open spec fn clean_for(self, secs: int, now: u128) -> bool {
        elapsed(self.last_violation_time, now) / NANOS_PER_SEC >= secs
    }

    /// The task at `tier` from now on.
    pub open spec fn moved_to(self, tier: u32, now: u128) -> TaskModel {
        TaskModel {
            current_tier: tier,
            last_tier_change: Some(now),
            pending_tier_change: NO_PENDING_TIER,
            ..self
        }
    }

    /// Whether a promotion takes effect now.
    pub open spec fn can_escalate(self, hysteresis_ms: u64, now: u128) -> bool {
        self.current_tier < MAX_TIER && !self.cooling(now) && self.tier_held_for(hysteresis_ms, now)
    }

    /// The task after an attempt to promote it: one tier up, or marked for it
    /// while the hysteresis lasts.
    pub open spec fn escalated(self, hysteresis_ms: u64, now: u128) -> TaskModel {
        if self.current_tier >= MAX_TIER || self.cooling(now) {
            self
        } else if !self.tier_held_for(hysteresis_ms, now) {
            TaskModel { pending_tier_change: (self.current_tier + 1) as u32, ..self }
        } else {
            self.moved_to((self.current_tier + 1) as u32, now)
        }
    }

    /// The task after an attempt to promote it, with the counters that lead to a
    /// promotion started anew if it took effect.
    pub open spec fn promoted(self, hysteresis_ms: u64, now: u128) -> TaskModel {
        if self.can_escalate(hysteresis_ms, now) {
            TaskModel {
                violation_count: 0,
                slow_poll_count: 0,
                ..self.escalated(hysteresis_ms, now)
            }
        } else {
            self.escalated(hysteresis_ms, now)
        }
    }

    /// Whether the task has earned a demotion, hysteresis apart.
    pub open spec fn deserves_demotion(
        self,
        policy: TierPolicy,
        test_mode: bool,
        now: u128,
    ) -> bool {
        &&& self.current_tier > 0
        &&& !self.cooling(now)
        &&& test_mode || self.tier_held_for(policy.demotion_min_duration_ms, now)
        &&& self.consecutive_good_polls >= policy.demotion_good_polls
        &&& test_mode || self.clean_for(1, now)
    }

    /// Whether a demotion takes effect now.
    pub open spec fn can_demote(
        self,
        hysteresis_ms: u64,
        policy: TierPolicy,
        test_mode: bool,
        now: u128,
    ) -> bool {
        self.deserves_demotion(policy, test_mode, now) && self.tier_held_for(hysteresis_ms, now)
    }

    /// The task after an attempt to demote it: one tier down with its record of
    /// good polls started anew, or marked for it while the hysteresis lasts.
    pub open spec fn demoted(
        self,
        hysteresis_ms: u64,
        policy: TierPolicy,
        test_mode: bool,
        now: u128,
    ) -> TaskModel {
        if !self.deserves_demotion(policy, test_mode, now) {
            self
        } else if !self.tier_held_for(hysteresis_ms, now) {
            TaskModel { pending_tier_change: (self.current_tier - 1) as u32, ..self }
        } else {
            TaskModel {
                consecutive_good_polls: 0,
                good_behavior_duration_ns: 0,
                ..self.moved_to((self.current_tier - 1) as u32, now)
            }
        }
    }

    /// The task after a pending tier change took effect, if its hysteresis is
    /// over.
    pub open spec fn settled(
        self,
        promotion_hysteresis_ms: u64,
        demotion_hysteresis_ms: u64,
        now: u128,
    ) -> TaskModel {
        if self.pending_tier_change == NO_PENDING_TIER {
            self
        } else if self.pending_tier_change > self.current_tier && self.tier_held_for(
            promotion_hysteresis_ms,
            now,
        ) {
            self.moved_to(self.pending_tier_change, now)
        } else if self.pending_tier_change < self.current_tier && self.tier_held_for(
            demotion_hysteresis_ms,
            now,
        ) {
            self.moved_to(self.pending_tier_change, now)
        } else {
            self
        }
    }

    /// The violations of the last second, this one included.
    pub open spec fn violations_within_second(self, now: u128) -> Seq<u128> {
        self.recent_violations.push(now).filter(|t: u128| elapsed(t, now) < NANOS_PER_SEC)
    }

    /// The task after a violation was added to those of the last second. More of
    /// them than tolerated start a cooldown.
    pub open spec fn rate_limited(
        self,
        violation_rate_threshold: u64,
        cooldown_duration_ms: u64,
        now: u128,
    ) -> TaskModel {
        let recent = self.violations_within_second(now);
        if recent.len() > violation_rate_threshold {
            TaskModel {
                cooldown_until: Some(
                    now.saturating_add((cooldown_duration_ms * NANOS_PER_MS) as u128),
                ),
                recent_violations: Seq::empty(),
                ..self
            }
        } else {
            TaskModel { recent_violations: recent, ..self }
        }
    }

    /// The task after a good poll.
    pub open spec fn after_good_poll(self, poll_ns: u64) -> TaskModel {
        TaskModel {
            consecutive_good_polls: self.consecutive_good_polls.wrapping_add(1),
            good_behavior_duration_ns: self.good_behavior_duration_ns.wrapping_add(poll_ns),
            ..self
        }
    }

    /// The task after its record of good polls ended with a violation.
    pub open spec fn after_violation(self, now: u128) -> TaskModel {
        TaskModel {
            last_violation_time: now,
            consecutive_good_polls: 0,
            good_behavior_duration_ns: 0,
            ..self
        }
    }

    /// Whether the sustained behaviour of the task calls for a demotion. It is
    /// only looked at every so many good polls. In test mode it does not matter how
    /// long the task has behaved well or has been at its tier.
    pub open spec fn demotion_is_due(
        self,
        policy: TierPolicy,
        test_mode: bool,
        now: u128,
    ) -> bool {
        &&& self.current_tier > 0
        &&& self.polls_since_demotion_check % policy.demotion_evaluation_interval == 0
        &&& self.consecutive_good_polls >= policy.demotion_good_polls
        &&& test_mode || self.clean_for(2, now)
        &&& self.consecutive_good_polls > 0 ==> self.total_cpu_ns / (
        self.consecutive_good_polls as u64) <= policy.demotion_cpu_threshold_ns
        &&& test_mode || self.tier_held_for(policy.demotion_min_duration_ms, now)
    }

    /// The task after it was evaluated for demotion. The lowest tier is not.
    pub open spec fn evaluated(self) -> TaskModel {
        if self.current_tier == 0 {
            self
        } else {
            TaskModel {
                polls_since_demotion_check: self.polls_since_demotion_check.wrapping_add(1),
                ..self
            }
        }
    }

    /// Whether a poll went beyond what the tier allows: too much CPU time in one
    /// poll, or too many slow polls in a row.
    pub open spec fn overuses(self, policy: TierPolicy, cpu_ns: u64) -> bool {
        ||| cpu_ns as u128 / NANOS_PER_MS >= policy.promotion_cpu_threshold_ms
        ||| self.slow_poll_count >= policy.promotion_slow_poll_threshold
    }

    /// How many violations lead to a promotion, given the priority of the task.
    pub open spec fn violation_limit(self, policy: TierPolicy) -> u32 {
        scaled(policy.promotion_threshold, self.context.threshold_quarters())
    }

    /// The task with one more violation on record, before a promotion is
    /// considered.
    pub open spec fn counted_violation(self, config: TierConfig, now: u128) -> TaskModel {
        TaskModel { violation_count: self.violation_count.wrapping_add(1), ..self }.rate_limited(
            config.violation_rate_threshold,
            config.cooldown_duration_ms,
            now,
        )
    }

    /// Whether one more violation leads to an attempt to promote the task.
    pub open spec fn violation_calls_for_promotion(
        self,
        config: TierConfig,
        overused: bool,
        now: u128,
    ) -> bool {
        let counted = self.counted_violation(config, now);
        &&& !counted.cooling(now)
        &&& overused || counted.violation_count >= self.violation_limit(
            config.tier_policies[self.current_tier as int],
        )
    }

    /// The task after one more violation.
    pub open spec fn violated(self, config: TierConfig, overused: bool, now: u128) -> TaskModel {
        let counted = self.counted_violation(config, now);
        if self.violation_calls_for_promotion(config, overused, now) {
            counted.promoted(config.promotion_hysteresis_ms, now)
        } else {
            counted
        }
    }

    /// The task after the CPU time and the slowness of a poll were noted.
    pub open spec fn measured(self, poll_ns: u128) -> TaskModel {
        TaskModel {
            total_cpu_ns: self.total_cpu_ns.wrapping_add(low_64_bits(poll_ns)),
            slow_poll_count: if poll_ns > SLOW_POLL_NS {
                self.slow_poll_count.wrapping_add(1)
            } else {
                0
            },
            ..self
        }
    }

    /// The task after a poll was noted, a pending tier change took effect and one
    /// operation was taken off its budget.
    pub open spec fn charged(self, config: TierConfig, poll_ns: u128, now: u128) -> TaskModel {
        let noted = self.measured(poll_ns).settled(
            config.promotion_hysteresis_ms,
            config.demotion_hysteresis_ms,
            now,
        );
        TaskModel { budget: noted.budget.consumed(), ..noted }
    }

    /// The task after the poll was judged: a violation or overuse may promote it,
    /// a good poll may demote it.
    pub open spec fn judged(self, config: TierConfig, poll_ns: u128, now: u128) -> TaskModel {
        let cpu_ns = low_64_bits(poll_ns);
        let charged = self.charged(config, poll_ns, now);
        let policy = config.tier_policies[charged.current_tier as int];
        let overused = charged.overuses(policy, cpu_ns);
        if charged.budget.exhausted() {
            charged.after_violation(now).violated(config, overused, now)
        } else if overused {
            charged.promoted(config.promotion_hysteresis_ms, now)
        } else if poll_ns <= SLOW_POLL_NS && cpu_ns <= policy.demotion_cpu_threshold_ns {
            let good = charged.after_good_poll(cpu_ns);
            if good.demotion_is_due(policy, config.test_mode, now) {
                good.evaluated().demoted(
                    config.demotion_hysteresis_ms,
                    policy,
                    config.test_mode,
                    now,
                )
            } else {
                good.evaluated()
            }
        } else {
            charged
        }
    }

    /// The task after a poll. A forced yield that took place refills the budget.
    pub open spec fn polled(
        self,
        config: TierConfig,
        result: PollResult,
        poll_ns: u128,
        now: u128,
    ) -> TaskModel {
        let judged = self.judged(config, poll_ns, now);
        if result == PollResult::Pending && judged.force_yield {
            TaskModel {
                force_yield: false,
                budget: judged.budget.refilled(config.poll_budget),
                ..judged
            }
        } else {
            judged
        }
    }

    /// What happened at a poll.
    pub open spec fn poll_report(
        self,
        config: TierConfig,
        result: PollResult,
        poll_ns: u128,
        now: u128,
    ) -> PollReport {
        let charged = self.charged(config, poll_ns, now);
        let judged = self.judged(config, poll_ns, now);
        PollReport {
            cpu_ns: low_64_bits(poll_ns),
            slow: poll_ns > SLOW_POLL_NS,
            violated: charged.budget.exhausted(),
            promoted: judged.current_tier > charged.current_tier,
            demoted: judged.current_tier < charged.current_tier,
            yielded: result == PollResult::Pending && judged.force_yield,
        }
    }

    /// The task after a voluntary yield: the budget is refilled, the violations
    /// are forgiven, and good behaviour may be rewarded with a demotion.
    pub open spec fn yielded(self, config: TierConfig, now: u128) -> TaskModel {
        TaskModel {
            budget: self.budget.refilled(config.poll_budget),
            violation_count: 0,
            ..self
        }.demoted(
            config.demotion_hysteresis_ms,
            config.tier_policies[self.current_tier as int],
            config.test_mode,
            now,
        )
    }
}

fn elapsed_ns(since: u128, now: u128) -> (ns: u128)
    ensures
        ns == elapsed(since, now),
{
    now.saturating_sub(since)
}

proof fn lemma_filter_push(s: Seq<u128>, x: u128, pred: spec_fn(u128) -> bool)
    ensures
        s.push(x).filter(pred) == (if pred(x) {
            s.filter(pred).push(x)
        } else {
            s.filter(pred)
        }),
{
    reveal(Seq::filter);
    assert(s.push(x).drop_last() =~= s);
}

impl TaskState {
    /// Starts to keep track of a task.
    pub fn new(budget: TaskBudget, worker_id: usize, context: TaskContext, now: u128) -> (state:
        Self)
        ensures
            state@ == TaskModel::fresh(budget@, worker_id, context, now),
            state@.wf(),
    {
        let state = TaskState {
            budget,
            current_tier: 0,
            violation_count: 0,
            total_cpu_ns: 0,
            last_poll_time: now,
            slow_poll_count: 0,
            force_yield: false,
            last_tier_change: None,
            pending_tier_change: NO_PENDING_TIER,
            cooldown_until: None,
            recent_violations: Vec::new(),
            consecutive_good_polls: 0,
            last_violation_time: now,
            good_behavior_duration_ns: 0,
            polls_since_demotion_check: 0,
            worker_id,
            context,
        };
        assert(state@ =~= TaskModel::fresh(budget@, worker_id, context, now));
        state
    }

    /// Notes the context of the current poll.
    pub fn update_context(&mut self, context: &TaskContext)
        ensures
            final(self)@ == (TaskModel { context: *context, ..old(self)@ }),
    {
        self.context = *context;
    }

    /// Whether the task has to yield.
    pub fn should_yield(&self) -> (due: bool)
        ensures
            due == self@.should_yield(),
    {
        self.force_yield || self.budget.is_exhausted()
    }

    /// Marks the task for a forced yield.
    pub fn mark_for_yield(&mut self)
        ensures
            final(self)@ == (TaskModel { force_yield: true, ..old(self)@ }),
    {
        self.force_yield = true;
    }

    /// Takes the mark for a forced yield off.
    pub fn clear_yield_flag(&mut self)
        ensures
            final(self)@ == (TaskModel { force_yield: false, ..old(self)@ }),
    {
        self.force_yield = false;
    }

    /// Records a good poll.
    pub fn record_good_poll(&mut self, poll_duration_ns: u64)
        ensures
            final(self)@ == old(self)@.after_good_poll(poll_duration_ns),
    {
        self.consecutive_good_polls = self.consecutive_good_polls.wrapping_add(1);
        self.good_behavior_duration_ns =
            self.good_behavior_duration_ns.wrapping_add(poll_duration_ns);
    }

    /// Ends the record of good polls.
    pub fn record_violation(&mut self, now: u128)
        ensures
            final(self)@ == old(self)@.after_violation(now),
    {
        self.last_violation_time = now;
        self.consecutive_good_polls = 0;
        self.good_behavior_duration_ns = 0;
    }

    /// Consecutive good polls, and nanoseconds since the last violation.
    pub fn get_good_behavior_metrics(&self, now: u128) -> (metrics: (u32, u128))
        ensures
            metrics == (
                self@.consecutive_good_polls,
                elapsed(self@.last_violation_time, now),
            ),
    {
        (self.consecutive_good_polls, elapsed_ns(self.last_violation_time, now))
    }

    fn tier_held_for(&self, ms: u64, now: u128) -> (held: bool)
        ensures
            held == self@.tier_held_for(ms, now),
    {
        match self.last_tier_change {
            Some(change) => elapsed_ns(change, now) / NANOS_PER_MS >= ms as u128,
            None => true,
        }
    }

    /// Evaluates whether the sustained behaviour of the task calls for a
    /// demotion. The lowest tier is not evaluated.
    pub fn evaluate_for_demotion(&mut self, config: &TierConfig, now: u128) -> (due: bool)
        requires
            old(self)@.wf(),
            config.evaluates(old(self)@.current_tier as int),
        ensures
            final(self)@ == old(self)@.evaluated(),
            due == old(self)@.demotion_is_due(
                config.tier_policies[old(self)@.current_tier as int],
                config.test_mode,
                now,
            ),
    {
        if self.current_tier == 0 {
            return false;
        }
        let policy = &config.tier_policies[self.current_tier as usize];
        let evaluation_count: u32 = self.polls_since_demotion_check;
        self.polls_since_demotion_check = self.polls_since_demotion_check.wrapping_add(1);
        if evaluation_count % policy.demotion_evaluation_interval != 0 {
            return false;
        }
        let (good_polls, since_violation): (u32, u128) = self.get_good_behavior_metrics(now);
        if good_polls < policy.demotion_good_polls {
            return false;
        }
        if !config.test_mode && since_violation / NANOS_PER_SEC < 2 {
            return false;
        }
        if good_polls > 0 {
            let average_ns: u64 = self.total_cpu_ns / good_polls as u64;
            if average_ns > policy.demotion_cpu_threshold_ns {
                return false;
            }
        }
        config.test_mode || self.tier_held_for(policy.demotion_min_duration_ms, now)
    }

    /// Tries to move the task one tier up. Returns the new tier if it moved.
    pub fn try_escalate_tier(&mut self, hysteresis_ms: u64, now: u128) -> (new_tier: Option<u32>)
        requires
            old(self)@.wf(),
        ensures
            final(self)@ == old(self)@.escalated(hysteresis_ms, now),
            final(self)@.wf(),
            new_tier == (if old(self)@.can_escalate(hysteresis_ms, now) {
                Some(final(self)@.current_tier)
            } else {
                None
            }),
    {
        let current: u32 = self.current_tier;
        if current >= MAX_TIER {
            return None;
        }
        if self.is_in_cooldown(now) {
            return None;
        }
        if !self.tier_held_for(hysteresis_ms, now) {
            self.pending_tier_change = current + 1;
            return None;
        }
        let new_tier: u32 = current + 1;
        self.current_tier = new_tier;
        self.last_tier_change = Some(now);
        self.pending_tier_change = NO_PENDING_TIER;
        Some(new_tier)
    }

    /// Tries to move the task one tier down. Returns the new tier if it moved.
    pub fn try_demote_tier(
        &mut self,
        hysteresis_ms: u64,
        policy: &TierPolicy,
        test_mode: bool,
        now: u128,
    ) -> (new_tier: Option<u32>)
        requires
            old(self)@.wf(),
        ensures
            final(self)@ == old(self)@.demoted(hysteresis_ms, *policy, test_mode, now),
            final(self)@.wf(),
            new_tier == (if old(self)@.can_demote(hysteresis_ms, *policy, test_mode, now) {
                Some(final(self)@.current_tier)
            } else {
                None
            }),
    {
        let current: u32 = self.current_tier;
        if current == 0 {
            return None;
        }
        if self.is_in_cooldown(now) {
            return None;
        }
        if !test_mode && !self.tier_held_for(policy.demotion_min_duration_ms, now) {
            return None;
        }
        let (good_polls, since_violation): (u32, u128) = self.get_good_behavior_metrics(now);
        if good_polls < policy.demotion_good_polls {
            return None;
        }
        if !test_mode && since_violation / NANOS_PER_SEC < 1 {
            return None;
        }
        if !self.tier_held_for(hysteresis_ms, now) {
            self.pending_tier_change = current - 1;
            return None;
        }
        let new_tier: u32 = current - 1;
        self.current_tier = new_tier;
        self.last_tier_change = Some(now);
        self.pending_tier_change = NO_PENDING_TIER;
        self.consecutive_good_polls = 0;
        self.good_behavior_duration_ns = 0;
        Some(new_tier)
    }

    /// Puts a pending tier change into effect if its hysteresis is over.
    pub fn check_pending_tier_change(
        &mut self,
        promotion_hysteresis_ms: u64,
        demotion_hysteresis_ms: u64,
        now: u128,
    )
        requires
            old(self)@.wf(),
        ensures
            final(self)@ == old(self)@.settled(
                promotion_hysteresis_ms,
                demotion_hysteresis_ms,
                now,
            ),
            final(self)@.wf(),
    {
        let pending: u32 = self.pending_tier_change;
        if pending == NO_PENDING_TIER {
            return ;
        }
        let current: u32 = self.current_tier;
        if pending > current {
            if self.tier_held_for(promotion_hysteresis_ms, now) {
                self.current_tier = pending;
                self.last_tier_change = Some(now);
                self.pending_tier_change = NO_PENDING_TIER;
            }
        } else if pending < current {
            if self.tier_held_for(demotion_hysteresis_ms, now) {
                self.current_tier = pending;
                self.last_tier_change = Some(now);
                self.pending_tier_change = NO_PENDING_TIER;
            }
        }
    }

    /// Adds a violation to those of the last second, and starts a cooldown when
    /// there are more of them than tolerated.
    pub fn track_violation(
        &mut self,
        violation_rate_threshold: u64,
        cooldown_duration_ms: u64,
        now: u128,
    )
        ensures
            final(self)@ == old(self)@.rate_limited(
                violation_rate_threshold,
                cooldown_duration_ms,
                now,
            ),
    {
        let ghost pred = |t: u128| elapsed(t, now) < NANOS_PER_SEC;
        self.recent_violations.push(now);
        let mut recent: Vec<u128> = Vec::new();
        let mut i: usize = 0;
        proof {
            reveal(Seq::filter);
            assert(self.recent_violations@.take(0) =~= Seq::<u128>::empty());
        }
        while i < self.recent_violations.len()
            invariant
                i <= self.recent_violations.len(),
                self.recent_violations@ == old(self).recent_violations@.push(now),
                self@ =~= (TaskModel {
                    recent_violations: self.recent_violations@,
                    ..old(self)@
                }),
                pred == (|t: u128| elapsed(t, now) < NANOS_PER_SEC),
                recent@ == self.recent_violations@.take(i as int).filter(pred),
            decreases self.recent_violations.len() - i,
        {
            let violation: u128 = self.recent_violations[i];
            proof {
                let seen = self.recent_violations@.take(i as int);
                assert(self.recent_violations@.take(i + 1) =~= seen.push(violation));
                lemma_filter_push(seen, violation, pred);
            }
            if elapsed_ns(violation, now) < NANOS_PER_SEC {
                recent.push(violation);
            }
            i += 1;
        }
        assert(self.recent_violations@.take(i as int) =~= self.recent_violations@);
        if recent.len() as u64 > violation_rate_threshold {
            assert(cooldown_duration_ms * NANOS_PER_MS <= u64::MAX * NANOS_PER_MS)
                by (nonlinear_arith)
                requires
                    cooldown_duration_ms <= u64::MAX,
            ;
            self.cooldown_until = Some(
                now.saturating_add(cooldown_duration_ms as u128 * NANOS_PER_MS),
            );
            self.recent_violations = Vec::new();
            assert(self.recent_violations@ =~= Seq::<u128>::empty());
        } else {
            self.recent_violations = recent;
        }
    }

    /// Whether tier changes are barred after rapid violations.
    pub fn is_in_cooldown(&self, now: u128) -> (cooling: bool)
        ensures
            cooling == self@.cooling(now),
    {
        match self.cooldown_until {
            Some(end) => now < end,
            None => false,
        }
    }

    /// Tries to promote the task, and starts the counters that lead to a
    /// promotion anew if it moved. Returns whether it moved.
    pub fn promote(&mut self, hysteresis_ms: u64, now: u128) -> (moved: bool)
        requires
            old(self)@.wf(),
        ensures
            final(self)@ == old(self)@.promoted(hysteresis_ms, now),
            final(self)@.wf(),
            moved == old(self)@.can_escalate(hysteresis_ms, now),
    {
        match self.try_escalate_tier(hysteresis_ms, now) {
            Some(_) => {
                self.violation_count = 0;
                self.slow_poll_count = 0;
                true
            },
            None => false,
        }
    }

    /// Counts a violation and promotes the task when there were too many.
    /// Returns whether it moved.
    pub fn handle_budget_violation(
        &mut self,
        config: &TierConfig,
        overused: bool,
        now: u128,
    ) -> (moved: bool)
        requires
            old(self)@.wf(),
        ensures
            final(self)@ == old(self)@.violated(*config, overused, now),
            final(self)@.wf(),
            moved == (final(self)@.current_tier > old(self)@.current_tier),
            !moved ==> final(self)@.current_tier == old(self)@.current_tier,
    {
        self.violation_count = self.violation_count.wrapping_add(1);
        let violations: u32 = self.violation_count;
        let current_tier: u32 = self.current_tier;
        self.track_violation(config.violation_rate_threshold, config.cooldown_duration_ms, now);
        if self.is_in_cooldown(now) {
            return false;
        }
        let policy = &config.tier_policies[current_tier as usize];
        let adjusted_threshold: u32 = scale(
            policy.promotion_threshold,
            self.context.priority_threshold_multiplier(),
        );
        if violations >= adjusted_threshold || overused {
            self.promote(config.promotion_hysteresis_ms, now)
        } else {
            false
        }
    }

    fn overuses(&self, policy: &TierPolicy, cpu_ns: u64) -> (overused: bool)
        ensures
            overused == self@.overuses(*policy, cpu_ns),
    {
        cpu_ns as u128 / NANOS_PER_MS >= policy.promotion_cpu_threshold_ms as u128
            || self.slow_poll_count >= policy.promotion_slow_poll_threshold
    }

    /// Takes note of a poll and decides on the tier of the task.
    pub fn record_poll(
        &mut self,
        config: &TierConfig,
        result: PollResult,
        poll_ns: u128,
        now: u128,
    ) -> (report: PollReport)
        requires
            old(self)@.wf(),
            old(self)@.can_be_judged(*config),
        ensures
            final(self)@ == old(self)@.polled(*config, result, poll_ns, now),
            final(self)@.wf(),
            report == old(self)@.poll_report(*config, result, poll_ns, now),
    {
        let cpu_ns: u64 = (poll_ns % 0x1_0000_0000_0000_0000) as u64;
        let slow: bool = poll_ns > SLOW_POLL_NS;
        self.total_cpu_ns = self.total_cpu_ns.wrapping_add(cpu_ns);
        if slow {
            self.slow_poll_count = self.slow_poll_count.wrapping_add(1);
        } else {
            self.slow_poll_count = 0;
        }
        assert(self@ =~= old(self)@.measured(poll_ns));
        self.check_pending_tier_change(
            config.promotion_hysteresis_ms,
            config.demotion_hysteresis_ms,
            now,
        );
        let violated: bool = self.budget.consume();
        assert(self@ =~= old(self)@.charged(*config, poll_ns, now));
        let policy = &config.tier_policies[self.current_tier as usize];
        let overused: bool = self.overuses(policy, cpu_ns);
        let mut promoted: bool = false;
        let mut demoted: bool = false;
        if violated {
            self.record_violation(now);
            promoted = self.handle_budget_violation(config, overused, now);
        } else if overused {
            promoted = self.promote(config.promotion_hysteresis_ms, now);
        } else if !slow && cpu_ns <= policy.demotion_cpu_threshold_ns {
            self.record_good_poll(cpu_ns);
            if self.evaluate_for_demotion(config, now) {
                demoted =
                self.try_demote_tier(
                    config.demotion_hysteresis_ms,
                    policy,
                    config.test_mode,
                    now,
                ).is_some();
            }
        }
        assert(self@ == old(self)@.judged(*config, poll_ns, now));
        let yielded: bool = result == PollResult::Pending && self.force_yield;
        if yielded {
            self.clear_yield_flag();
            self.budget.reset(config.poll_budget);
        }
        PollReport { cpu_ns, slow, violated, promoted, demoted, yielded }
    }

    /// Takes note of a voluntary yield. Returns whether the task was demoted for
    /// it.
    pub fn record_yield(&mut self, config: &TierConfig, now: u128) -> (demoted: bool)
        requires
            old(self)@.wf(),
        ensures
            final(self)@ == old(self)@.yielded(*config, now),
            final(self)@.wf(),
            demoted == (final(self)@.current_tier < old(self)@.current_tier),
            !demoted ==> final(self)@.current_tier == old(self)@.current_tier,
    {
        self.budget.reset(config.poll_budget);
        self.violation_count = 0;
        if self.current_tier > 0 {
            let policy = &config.tier_policies[self.current_tier as usize];
            self.try_demote_tier(
                config.demotion_hysteresis_ms,
                policy,
                config.test_mode,
                now,
            ).is_some()
        } else {
            false
        }
    }
}

} // verus!
