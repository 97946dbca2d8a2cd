//! Watching the requests of a service.
//!
//! A request is a task. Each poll of its future is counted, and every so many
//! polls the time spent so far, estimated from the count, is reported to the
//! hooks.

use crate::hooks::{HookRegistry, PreemptionHooks};
use crate::text::{decimal, decimal_text};
use crate::tier_manager::config::TierConfig;
use crate::tier_manager::context::{PollResult, TaskContext, TaskId};
use crate::tier_manager::manager::TierManager;
use crate::tier_manager::model::Intervention;
use vstd::prelude::*;
use vstd::string::*;

verus! {

/// Nanoseconds that one poll is taken to last.
pub const POLL_ESTIMATE_NS: u128 = 100;

/// Settings of the middleware.
#[derive(Debug, Clone, Copy)]
pub struct PreemptionConfig {
    /// Poll budget per request (ns).
    pub poll_budget_ns: u128,
    /// Check the budget every so many polls.
    pub check_interval: u32,
    /// Collect metrics of requests.
    pub enable_metrics: bool,
    /// Custom tier configuration.
    pub tier_config: Option<TierConfig>,
    /// Keep track of worker threads.
    pub track_workers: bool,
}

impl Default for PreemptionConfig {
    fn default() -> (config: Self)
        ensures
            config == (PreemptionConfig {
                poll_budget_ns: 2_000_000,
                check_interval: 1,
                enable_metrics: true,
                tier_config: None,
                track_workers: true,
            }),
    {
        PreemptionConfig {
            poll_budget_ns: 2_000_000,
            check_interval: 1,
            enable_metrics: true,
            tier_config: None,
            track_workers: true,
        }
    }
}

/// Source of identifiers for requests.
#[derive(Debug, Clone, Copy)]
pub struct TaskIdCounter {
    next: u64,
}

impl TaskIdCounter {
    /// The number of the next identifier.
    pub closed spec fn upcoming(self) -> u64 {
        self.next
    }

    /// Starts with identifier 1.
    pub fn new() -> (counter: Self)
        ensures
            counter.upcoming() == 1,
    {
        TaskIdCounter { next: 1 }
    }

    /// The next identifier. Numbers start over after the largest.
    pub fn next_id(&mut self) -> (task_id: TaskId)
        ensures
            task_id.0 == old(self).upcoming(),
            final(self).upcoming() == old(self).upcoming().wrapping_add(1),
    {
        let task_id = TaskId(self.next);
        self.next = self.next.wrapping_add(1);
        task_id
    }
}

/// What one poll of a request calls for.
#[derive(Debug, Clone, Copy, PartialEq, Eq, Structural)]
pub struct PollCheck {
    /// Time to report (ns).
    pub poll_ns: u128,
    /// How often to report it: never between two checks, twice when the budget is
    /// exceeded, else once.
    pub reports: u8,
}

/// A request under way.
#[derive(Debug, Clone, Copy)]
pub struct RequestTracker {
    /// Identifier of the request.
    pub task_id: TaskId,
    /// Context of the request. Which worker serves it is not known here.
    pub context: TaskContext,
    /// Polls so far.
    pub poll_count: u32,
}

/// The estimate of the time spent in `poll_count` polls.
pub open spec fn estimated_ns(poll_count: u32) -> u128 {
    (poll_count * POLL_ESTIMATE_NS) as u128
}

/// What the `poll_count`-th poll calls for.
pub open spec fn poll_check(config: PreemptionConfig, poll_count: u32) -> PollCheck {
    PollCheck {
        poll_ns: estimated_ns(poll_count),
        reports: if poll_count % config.check_interval != 0 {
            0
        } else if estimated_ns(poll_count) > config.poll_budget_ns {
            2
        } else {
            1
        },
    }
}

/// Whether a check can be reported. The task can be at any tier after the first of two
/// reports.
pub open spec fn can_report(manager: TierManager, task_id: TaskId, check: PollCheck) -> bool {
    &&& manager.wf()
    &&& check.reports == 1 ==> manager@.can_end(task_id)
    &&& check.reports == 2 && manager@.tasks.contains_key(task_id.0)
        ==> manager@.config.intervals_positive()
}

/// The effect of one report.
pub open spec fn reported_once(
    before: TierManager,
    after: TierManager,
    task_id: TaskId,
    poll_ns: u128,
    outcome: Intervention,
) -> bool {
    before.after_poll_effect(&after, task_id, PollResult::Pending, poll_ns, outcome)
}

/// The effect of a check: no report, one, or two one after the other.
pub open spec fn reported(
    before: TierManager,
    after: TierManager,
    task_id: TaskId,
    check: PollCheck,
    outcomes: Seq<Intervention>,
) -> bool {
    &&& outcomes.len() == check.reports
    &&& if check.reports == 0 {
        after == before
    } else if check.reports == 1 {
        reported_once(before, after, task_id, check.poll_ns, outcomes[0])
    } else {
        exists|middle: TierManager|
            {
                &&& #[trigger] reported_once(before, middle, task_id, check.poll_ns, outcomes[0])
                &&& reported_once(middle, after, task_id, check.poll_ns, outcomes[1])
            }
    }
}

impl RequestTracker {
    /// Starts to watch a request.
    pub fn new(task_id: TaskId) -> (tracker: Self)
        ensures
            tracker == (RequestTracker {
                task_id,
                context: TaskContext { worker_id: 0, priority: None },
                poll_count: 0,
            }),
    {
        RequestTracker {
            task_id,
            context: TaskContext { worker_id: 0, priority: None },
            poll_count: 0,
        }
    }

    /// Counts a poll and says what it calls for.
    pub fn on_poll(&mut self, config: &PreemptionConfig) -> (check: PollCheck)
        requires
            old(self).poll_count < u32::MAX,
            config.check_interval > 0,
        ensures
            *final(self) == (RequestTracker {
                poll_count: (old(self).poll_count + 1) as u32,
                ..*old(self)
            }),
            check == poll_check(*config, final(self).poll_count),
    {
        self.poll_count = self.poll_count + 1;
        let poll_ns: u128 = self.poll_count as u128 * POLL_ESTIMATE_NS;
        let reports: u8 = if self.poll_count % config.check_interval != 0 {
            0
        } else if poll_ns > config.poll_budget_ns {
            2
        } else {
            1
        };
        PollCheck { poll_ns, reports }
    }

    /// Counts a poll and reports it to the manager in force as often as it calls
    /// for. Returns what is to be done about the request after each report.
    pub fn report_poll(
        &mut self,
        config: &PreemptionConfig,
        registry: &mut HookRegistry<TierManager>,
    ) -> (outcomes: Vec<Intervention>)
        requires
            old(self).poll_count < u32::MAX,
            config.check_interval > 0,
            old(registry).hooks matches Some(manager) ==> can_report(
                manager,
                old(self).task_id,
                poll_check(*config, (old(self).poll_count + 1) as u32),
            ),
        ensures
            *final(self) == (RequestTracker {
                poll_count: (old(self).poll_count + 1) as u32,
                ..*old(self)
            }),
            match old(registry).hooks {
                Some(before) => final(registry).hooks matches Some(after) && reported(
                    before,
                    after,
                    old(self).task_id,
                    poll_check(*config, final(self).poll_count),
                    outcomes@,
                ),
                None => {
                    &&& final(registry).hooks is None
                    &&& outcomes@ =~= Seq::new(
                        poll_check(*config, final(self).poll_count).reports as nat,
                        |i: int| Intervention::Nothing,
                    )
                },
            },
    {
        let check = self.on_poll(config);
        let mut outcomes: Vec<Intervention> = Vec::new();
        if check.reports >= 1 {
            proof {
                if registry.hooks is Some && check.reports == 2
                    && registry.hooks->0@.tasks.contains_key(self.task_id.0) {
                    registry.hooks->0.positive_intervals_let_polls_end(self.task_id);
                }
            }
            outcomes.push(registry.after_poll(self.task_id, PollResult::Pending, check.poll_ns));
            let ghost middle = registry.hooks;
            assert(old(registry).hooks is Some ==> reported_once(
                old(registry).hooks->0,
                middle->0,
                self.task_id,
                check.poll_ns,
                outcomes@[0],
            ));
            if check.reports >= 2 {
                assert(middle is Some ==> middle->0@.config == old(registry).hooks->0@.config);
                proof {
                    if middle is Some && middle->0@.tasks.contains_key(self.task_id.0) {
                        middle->0.positive_intervals_let_polls_end(self.task_id);
                    }
                }
                outcomes.push(
                    registry.after_poll(self.task_id, PollResult::Pending, check.poll_ns),
                );
                assert(middle is Some ==> reported_once(
                    old(registry).hooks->0,
                    middle->0,
                    self.task_id,
                    check.poll_ns,
                    outcomes@[0],
                ));
                assert(middle is Some ==> reported_once(
                    middle->0,
                    registry.hooks->0,
                    self.task_id,
                    check.poll_ns,
                    outcomes@[1],
                ));
            }
        }
        outcomes
    }
}

/// Errors of the middleware.
#[derive(Debug, Clone, Copy, PartialEq, Eq, Structural)]
pub enum PreemptionError {
    /// Task was preempted due to budget exhaustion.
    BudgetExceeded {
        /// The budget that was exceeded.
        budget_us: u64,
    },
    /// Task was isolated due to tier escalation.
    TaskIsolated {
        /// The tier that triggered isolation.
        tier: u8,
    },
}

impl PreemptionError {
    /// The message for users.
    pub open spec fn message_spec(self) -> Seq<char> {
        match self {
            PreemptionError::BudgetExceeded { budget_us } =>
                "Task preempted: exceeded budget of "@ + decimal(budget_us as nat) + "μs"@,
            PreemptionError::TaskIsolated { tier } =>
                "Task isolated: reached tier "@ + decimal(tier as nat),
        }
    }

    /// The message for users.
    pub fn message(&self) -> (text: String)
        ensures
            text@ == self.message_spec(),
    {
        match self {
            PreemptionError::BudgetExceeded { budget_us } => {
                let mut text = "Task preempted: exceeded budget of ".to_owned();
                text.append(decimal_text(*budget_us).as_str());
                text.append("μs");
                text
            },
            PreemptionError::TaskIsolated { tier } => {
                let mut text = "Task isolated: reached tier ".to_owned();
                text.append(decimal_text(*tier as u64).as_str());
                text
            },
        }
    }
}

/// Once a request has exceeded its budget, every later check finds it exceeded.
pub proof fn exceeded_budget_stays_exceeded(config: PreemptionConfig, earlier: u32, later: u32)
    requires
        config.check_interval > 0,
        earlier <= later,
        poll_check(config, earlier).reports == 2,
        later % config.check_interval == 0,
    ensures
        poll_check(config, later).reports == 2,
{
}

/// Identifiers of consecutive requests differ.
pub proof fn consecutive_ids_differ(upcoming: u64)
    ensures
        upcoming != upcoming.wrapping_add(1),
{
}

/// A request is reported at every so many polls, with a hundred nanoseconds for each poll
/// so far: once, or twice when that is more than its budget.
pub proof fn requests_are_reported_at_intervals(config: PreemptionConfig, poll_count: u32)
    requires
        config.check_interval > 0,
    ensures
        ({
            let check = poll_check(config, poll_count);
            let due = poll_count as int % config.check_interval as int == 0;
            &&& check.poll_ns == poll_count * 100
            &&& check.reports == 0 <==> !due
            &&& check.reports == 1 <==> due && poll_count * 100 <= config.poll_budget_ns
            &&& check.reports == 2 <==> due && poll_count * 100 > config.poll_budget_ns
        }),
{
}

/// A check between two reports leaves the manager alone. One report is a poll that stays
/// pending and took the estimated time; two are two such polls, one after the other.
/// There is an outcome for each report.
pub proof fn reports_are_polls_of_the_request(
    before: TierManager,
    after: TierManager,
    task_id: TaskId,
    check: PollCheck,
    outcomes: Seq<Intervention>,
)
    requires
        reported(before, after, task_id, check, outcomes),
        check.reports <= 2,
    ensures
        outcomes.len() == check.reports,
        check.reports == 0 ==> after == before,
        check.reports == 1 ==> before.after_poll_effect(
            &after,
            task_id,
            PollResult::Pending,
            check.poll_ns,
            outcomes[0],
        ),
        check.reports == 2 ==> exists|middle: TierManager|
            {
                &&& #[trigger] before.after_poll_effect(
                    &middle,
                    task_id,
                    PollResult::Pending,
                    check.poll_ns,
                    outcomes[0],
                )
                &&& middle.after_poll_effect(
                    &after,
                    task_id,
                    PollResult::Pending,
                    check.poll_ns,
                    outcomes[1],
                )
            },
{
    if check.reports == 2 {
        let middle = choose|middle: TierManager|
            {
                &&& #[trigger] reported_once(before, middle, task_id, check.poll_ns, outcomes[0])
                &&& reported_once(middle, after, task_id, check.poll_ns, outcomes[1])
            };
        assert(before.after_poll_effect(
            &middle,
            task_id,
            PollResult::Pending,
            check.poll_ns,
            outcomes[0],
        ));
    }
}

} // verus!
