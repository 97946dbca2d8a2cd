//! Configuration of the tiers: policies, their validation, and profiles.

use crate::text::same_text;
use vstd::prelude::*;

verus! {

/// How many tiers there are.
pub const TIER_COUNT: usize = 4;

/// Intervention actions for the tiers.
#[derive(Debug, Clone, Copy, PartialEq, Eq, Structural)]
pub enum InterventionAction {
    /// No intervention.
    Monitor,
    /// Log warnings.
    Warn,
    /// Force yield.
    Yield,
    /// Move to slow queue.
    SlowQueue,
    /// OS-level isolation.
    Isolate,
}

/// Policy for one tier.
#[derive(Debug, Clone, Copy)]
pub struct TierPolicy {
    /// Tier name.
    pub name: &'static str,
    /// Intervention action.
    pub action: InterventionAction,
    /// Violations before promotion to the next tier.
    pub promotion_threshold: u32,
    /// CPU time of one poll (ms) that triggers promotion.
    pub promotion_cpu_threshold_ms: u64,
    /// Consecutive slow polls that trigger promotion.
    pub promotion_slow_poll_threshold: u32,
    /// Good polls required before demotion.
    pub demotion_good_polls: u32,
    /// Minimum time at the tier before demotion (ms).
    pub demotion_min_duration_ms: u64,
    /// Maximum CPU time (ns) for a poll to be considered good.
    pub demotion_cpu_threshold_ns: u64,
    /// Evaluate demotion every so many polls.
    pub demotion_evaluation_interval: u32,
}

/// A policy from its parts, in the order of the fields.
pub open spec fn policy_of(
    name: &'static str,
    action: InterventionAction,
    promotion_threshold: u32,
    promotion_cpu_threshold_ms: u64,
    promotion_slow_poll_threshold: u32,
    demotion_good_polls: u32,
    demotion_min_duration_ms: u64,
    demotion_cpu_threshold_ns: u64,
    demotion_evaluation_interval: u32,
) -> TierPolicy {
    TierPolicy {
        name,
        action,
        promotion_threshold,
        promotion_cpu_threshold_ms,
        promotion_slow_poll_threshold,
        demotion_good_polls,
        demotion_min_duration_ms,
        demotion_cpu_threshold_ns,
        demotion_evaluation_interval,
    }
}

/// Tier management configuration.
#[derive(Debug, Clone, Copy)]
pub struct TierConfig {
    /// Poll operations per budget window.
    pub poll_budget: u32,
    /// CPU time budget (ms).
    pub cpu_ms_budget: u64,
    /// Forced yield interval.
    pub yield_interval: u32,
    /// Tier intervention policies.
    pub tier_policies: [TierPolicy; 4],
    /// Enable OS isolation for the highest tier.
    pub enable_isolation: bool,
    /// Max slow queue size.
    pub max_slow_queue_size: usize,
    /// Hysteresis: min duration between promotions (ms).
    pub promotion_hysteresis_ms: u64,
    /// Hysteresis: min duration between demotions (ms).
    pub demotion_hysteresis_ms: u64,
    /// Cooldown: how many violations within a second are tolerated.
    pub violation_rate_threshold: u64,
    /// Cooldown: duration after rapid violations (ms).
    pub cooldown_duration_ms: u64,
    /// Consecutive good polls before a demotion, for policies to be made from. Only
    /// `demotion_good_polls` of a tier's policy decides on a demotion.
    pub good_behavior_threshold: u32,
    /// Minimum time at a tier before a demotion (ms), for policies to be made from.
    /// Only `demotion_min_duration_ms` of a tier's policy decides on a demotion.
    pub min_tier_duration_ms: u64,
    /// Most CPU time of a good poll (ns), for policies to be made from. Only the field
    /// of this name in a tier's policy decides on a demotion.
    pub demotion_cpu_threshold_ns: u64,
    /// Polls between evaluations for demotion, for policies to be made from. Only the
    /// field of this name in a tier's policy decides on a demotion.
    pub demotion_evaluation_interval: u32,
    /// Test mode: bypass time-based checks for testing.
    pub test_mode: bool,
}

/// The default configuration.
pub open spec fn default_config() -> TierConfig {
    TierConfig {
        poll_budget: 2000,
        cpu_ms_budget: 10,
        yield_interval: 100,
        tier_policies: [
            policy_of("Monitor", InterventionAction::Monitor, 5, 50, 10, 100, 5000, 100_000, 20),
            policy_of("Warn", InterventionAction::Warn, 3, 25, 5, 75, 3000, 200_000, 15),
            policy_of("Yield", InterventionAction::Yield, 2, 15, 3, 50, 2000, 500_000, 10),
            policy_of(
                "Isolate",
                InterventionAction::Isolate,
                u32::MAX,
                u64::MAX,
                u32::MAX,
                25,
                10000,
                1_000_000,
                5,
            ),
        ],
        enable_isolation: false,
        max_slow_queue_size: 10000,
        promotion_hysteresis_ms: 100,
        demotion_hysteresis_ms: 500,
        violation_rate_threshold: 10,
        cooldown_duration_ms: 1000,
        good_behavior_threshold: 50,
        min_tier_duration_ms: 2000,
        demotion_cpu_threshold_ns: 500_000,
        demotion_evaluation_interval: 10,
        test_mode: false,
    }
}

impl Default for TierConfig {
    fn default() -> (config: Self)
        ensures
            config == default_config(),
    {
        let config = TierConfig {
            poll_budget: 2000,
            cpu_ms_budget: 10,
            yield_interval: 100,
            tier_policies: [
                TierPolicy {
                    name: "Monitor",
                    action: InterventionAction::Monitor,
                    promotion_threshold: 5,
                    promotion_cpu_threshold_ms: 50,
                    promotion_slow_poll_threshold: 10,
                    demotion_good_polls: 100,
                    demotion_min_duration_ms: 5000,
                    demotion_cpu_threshold_ns: 100_000,
                    demotion_evaluation_interval: 20,
                },
                TierPolicy {
                    name: "Warn",
                    action: InterventionAction::Warn,
                    promotion_threshold: 3,
                    promotion_cpu_threshold_ms: 25,
                    promotion_slow_poll_threshold: 5,
                    demotion_good_polls: 75,
                    demotion_min_duration_ms: 3000,
                    demotion_cpu_threshold_ns: 200_000,
                    demotion_evaluation_interval: 15,
                },
                TierPolicy {
                    name: "Yield",
                    action: InterventionAction::Yield,
                    promotion_threshold: 2,
                    promotion_cpu_threshold_ms: 15,
                    promotion_slow_poll_threshold: 3,
                    demotion_good_polls: 50,
                    demotion_min_duration_ms: 2000,
                    demotion_cpu_threshold_ns: 500_000,
                    demotion_evaluation_interval: 10,
                },
                TierPolicy {
                    name: "Isolate",
                    action: InterventionAction::Isolate,
                    promotion_threshold: u32::MAX,
                    promotion_cpu_threshold_ms: u64::MAX,
                    promotion_slow_poll_threshold: u32::MAX,
                    demotion_good_polls: 25,
                    demotion_min_duration_ms: 10000,
                    demotion_cpu_threshold_ns: 1_000_000,
                    demotion_evaluation_interval: 5,
                },
            ],
            enable_isolation: false,
            max_slow_queue_size: 10000,
            promotion_hysteresis_ms: 100,
            demotion_hysteresis_ms: 500,
            violation_rate_threshold: 10,
            cooldown_duration_ms: 1000,
            good_behavior_threshold: 50,
            min_tier_duration_ms: 2000,
            demotion_cpu_threshold_ns: 500_000,
            demotion_evaluation_interval: 10,
            test_mode: false,
        };
        assert(config.tier_policies =~= default_config().tier_policies);
        config
    }
}

impl TierConfig {
    /// Whether a task at `tier` can be evaluated for demotion: the interval divides a
    /// poll count. The lowest tier is not evaluated.
    pub open spec fn evaluates(self, tier: int) -> bool {
        tier == 0 || self.tier_policies[tier].demotion_evaluation_interval > 0
    }

    /// Whether a task at `tier` can be evaluated for demotion.
    pub fn can_evaluate(&self, tier: u32) -> (possible: bool)
        requires
            tier < TIER_COUNT,
        ensures
            possible == self.evaluates(tier as int),
    {
        tier == 0 || self.tier_policies[tier as usize].demotion_evaluation_interval > 0
    }

    /// Tasks of every tier can be evaluated for demotion.
    pub open spec fn intervals_positive(self) -> bool {
        forall|tier: int| 1 <= tier < TIER_COUNT ==> #[trigger] self.evaluates(tier)
    }

    /// Whether every tier above the lowest has a demotion interval.
    pub fn has_positive_intervals(&self) -> (positive: bool)
        ensures
            positive == self.intervals_positive(),
    {
        let positive: bool = self.can_evaluate(1) && self.can_evaluate(2) && self.can_evaluate(3);
        assert(self.intervals_positive() ==> self.evaluates(1) && self.evaluates(2)
            && self.evaluates(3));
        positive
    }
}

/// Builder for a [`TierPolicy`].
#[derive(Debug)]
pub struct TierPolicyBuilder {
    name: &'static str,
    action: InterventionAction,
    promotion_threshold: u32,
    promotion_cpu_threshold_ms: u64,
    promotion_slow_poll_threshold: u32,
    demotion_good_polls: u32,
    demotion_min_duration_ms: u64,
    demotion_cpu_threshold_ns: u64,
    demotion_evaluation_interval: u32,
}

impl TierPolicyBuilder {
    /// The policy with what has been set so far.
    pub closed spec fn policy(self) -> TierPolicy {
        TierPolicy {
            name: self.name,
            action: self.action,
            promotion_threshold: self.promotion_threshold,
            promotion_cpu_threshold_ms: self.promotion_cpu_threshold_ms,
            promotion_slow_poll_threshold: self.promotion_slow_poll_threshold,
            demotion_good_polls: self.demotion_good_polls,
            demotion_min_duration_ms: self.demotion_min_duration_ms,
            demotion_cpu_threshold_ns: self.demotion_cpu_threshold_ns,
            demotion_evaluation_interval: self.demotion_evaluation_interval,
        }
    }

    /// Starts with moderate thresholds.
    pub fn new(name: &'static str, action: InterventionAction) -> (builder: Self)
        ensures
            builder.policy() == policy_of(name, action, 3, 25, 5, 75, 3000, 500_000, 15),
    {
        TierPolicyBuilder {
            name,
            action,
            promotion_threshold: 3,
            promotion_cpu_threshold_ms: 25,
            promotion_slow_poll_threshold: 5,
            demotion_good_polls: 75,
            demotion_min_duration_ms: 3000,
            demotion_cpu_threshold_ns: 500_000,
            demotion_evaluation_interval: 15,
        }
    }

    /// Sets the number of violations before promotion to the next tier.
    pub fn promotion_violations(self, threshold: u32) -> (builder: Self)
        ensures
            builder.policy() == (TierPolicy { promotion_threshold: threshold, ..self.policy() }),
    {
        TierPolicyBuilder { promotion_threshold: threshold, ..self }
    }

    /// Sets the CPU time (ms) that triggers promotion.
    pub fn promotion_cpu_ms(self, threshold: u64) -> (builder: Self)
        ensures
            builder.policy() == (TierPolicy {
                promotion_cpu_threshold_ms: threshold,
                ..self.policy()
            }),
    {
        TierPolicyBuilder { promotion_cpu_threshold_ms: threshold, ..self }
    }

    /// Sets the number of slow polls that trigger promotion.
    pub fn promotion_slow_polls(self, threshold: u32) -> (builder: Self)
        ensures
            builder.policy() == (TierPolicy {
                promotion_slow_poll_threshold: threshold,
                ..self.policy()
            }),
    {
        TierPolicyBuilder { promotion_slow_poll_threshold: threshold, ..self }
    }

    /// Sets the number of good polls required before demotion.
    pub fn demotion_good_polls(self, threshold: u32) -> (builder: Self)
        ensures
            builder.policy() == (TierPolicy { demotion_good_polls: threshold, ..self.policy() }),
    {
        TierPolicyBuilder { demotion_good_polls: threshold, ..self }
    }

    /// Sets the minimum time at the tier before demotion (ms).
    pub fn demotion_min_duration_ms(self, duration: u64) -> (builder: Self)
        ensures
            builder.policy() == (TierPolicy {
                demotion_min_duration_ms: duration,
                ..self.policy()
            }),
    {
        TierPolicyBuilder { demotion_min_duration_ms: duration, ..self }
    }

    /// Sets the maximum CPU time (ns) for a poll to be considered good.
    pub fn demotion_cpu_threshold_ns(self, threshold: u64) -> (builder: Self)
        ensures
            builder.policy() == (TierPolicy {
                demotion_cpu_threshold_ns: threshold,
                ..self.policy()
            }),
    {
        TierPolicyBuilder { demotion_cpu_threshold_ns: threshold, ..self }
    }

    /// Sets the evaluation interval for demotion checks.
    pub fn demotion_evaluation_interval(self, interval: u32) -> (builder: Self)
        ensures
            builder.policy() == (TierPolicy {
                demotion_evaluation_interval: interval,
                ..self.policy()
            }),
    {
        TierPolicyBuilder { demotion_evaluation_interval: interval, ..self }
    }

    /// Builds the policy.
    pub fn build(self) -> (policy: TierPolicy)
        requires
            self.policy().promotion_threshold > 0,
            self.policy().demotion_good_polls > 0,
            self.policy().demotion_evaluation_interval > 0,
        ensures
            policy == self.policy(),
    {
        TierPolicy {
            name: self.name,
            action: self.action,
            promotion_threshold: self.promotion_threshold,
            promotion_cpu_threshold_ms: self.promotion_cpu_threshold_ms,
            promotion_slow_poll_threshold: self.promotion_slow_poll_threshold,
            demotion_good_polls: self.demotion_good_polls,
            demotion_min_duration_ms: self.demotion_min_duration_ms,
            demotion_cpu_threshold_ns: self.demotion_cpu_threshold_ns,
            demotion_evaluation_interval: self.demotion_evaluation_interval,
        }
    }
}

/// What is wrong with a policy, the first objection only, or `None` for a policy
/// that may be put in force at run time.
pub open spec fn policy_objection(policy: TierPolicy) -> Option<&'static str> {
    if policy.promotion_threshold == 0 {
        Some("Promotion threshold must be greater than 0")
    } else if policy.promotion_cpu_threshold_ms == 0 {
        Some("Promotion CPU threshold must be greater than 0")
    } else if policy.promotion_slow_poll_threshold == 0 {
        Some("Promotion slow poll threshold must be greater than 0")
    } else if policy.demotion_good_polls == 0 {
        Some("Demotion good polls threshold must be greater than 0")
    } else if policy.demotion_cpu_threshold_ns == 0 {
        Some("Demotion CPU threshold must be greater than 0")
    } else if policy.demotion_evaluation_interval == 0 {
        Some("Demotion evaluation interval must be greater than 0")
    } else if policy.promotion_threshold > 1000 {
        Some("Promotion threshold too high (max 1000)")
    } else if policy.promotion_cpu_threshold_ms > 60000 {
        Some("Promotion CPU threshold too high (max 60 seconds)")
    } else if policy.demotion_good_polls > 10000 {
        Some("Demotion good polls threshold too high (max 10000)")
    } else if policy.demotion_min_duration_ms > 3600000 {
        Some("Demotion minimum duration too high (max 1 hour)")
    } else if policy.demotion_cpu_threshold_ns > 1_000_000_000 {
        Some("Demotion CPU threshold too high (max 1 second)")
    } else {
        None
    }
}

/// Whether a policy may be put in force at run time.
pub(crate) fn find_policy_objection(policy: &TierPolicy) -> (objection: Option<&'static str>)
    ensures
        objection == policy_objection(*policy),
{
    if policy.promotion_threshold == 0 {
        return Some("Promotion threshold must be greater than 0");
    }
    if policy.promotion_cpu_threshold_ms == 0 {
        return Some("Promotion CPU threshold must be greater than 0");
    }
    if policy.promotion_slow_poll_threshold == 0 {
        return Some("Promotion slow poll threshold must be greater than 0");
    }
    if policy.demotion_good_polls == 0 {
        return Some("Demotion good polls threshold must be greater than 0");
    }
    if policy.demotion_cpu_threshold_ns == 0 {
        return Some("Demotion CPU threshold must be greater than 0");
    }
    if policy.demotion_evaluation_interval == 0 {
        return Some("Demotion evaluation interval must be greater than 0");
    }
    if policy.promotion_threshold > 1000 {
        return Some("Promotion threshold too high (max 1000)");
    }
    if policy.promotion_cpu_threshold_ms > 60000 {
        return Some("Promotion CPU threshold too high (max 60 seconds)");
    }
    if policy.demotion_good_polls > 10000 {
        return Some("Demotion good polls threshold too high (max 10000)");
    }
    if policy.demotion_min_duration_ms > 3600000 {
        return Some("Demotion minimum duration too high (max 1 hour)");
    }
    if policy.demotion_cpu_threshold_ns > 1_000_000_000 {
        return Some("Demotion CPU threshold too high (max 1 second)");
    }
    None
}

/// Two policies with the same settings.
pub open spec fn same_policy(a: TierPolicy, b: TierPolicy) -> bool {
    &&& a.name@ == b.name@
    &&& a.action == b.action
    &&& a.promotion_threshold == b.promotion_threshold
    &&& a.promotion_cpu_threshold_ms == b.promotion_cpu_threshold_ms
    &&& a.promotion_slow_poll_threshold == b.promotion_slow_poll_threshold
    &&& a.demotion_good_polls == b.demotion_good_polls
    &&& a.demotion_min_duration_ms == b.demotion_min_duration_ms
    &&& a.demotion_cpu_threshold_ns == b.demotion_cpu_threshold_ns
    &&& a.demotion_evaluation_interval == b.demotion_evaluation_interval
}

/// Two configurations with the same settings.
pub open spec fn same_config(a: TierConfig, b: TierConfig) -> bool {
    &&& a.poll_budget == b.poll_budget
    &&& a.cpu_ms_budget == b.cpu_ms_budget
    &&& a.yield_interval == b.yield_interval
    &&& a.enable_isolation == b.enable_isolation
    &&& a.max_slow_queue_size == b.max_slow_queue_size
    &&& a.promotion_hysteresis_ms == b.promotion_hysteresis_ms
    &&& a.demotion_hysteresis_ms == b.demotion_hysteresis_ms
    &&& a.violation_rate_threshold == b.violation_rate_threshold
    &&& a.cooldown_duration_ms == b.cooldown_duration_ms
    &&& a.good_behavior_threshold == b.good_behavior_threshold
    &&& a.min_tier_duration_ms == b.min_tier_duration_ms
    &&& a.demotion_cpu_threshold_ns == b.demotion_cpu_threshold_ns
    &&& a.demotion_evaluation_interval == b.demotion_evaluation_interval
    &&& a.test_mode == b.test_mode
    &&& forall|tier: int|
        0 <= tier < TIER_COUNT ==> same_policy(
            #[trigger] a.tier_policies[tier],
            b.tier_policies[tier],
        )
}

/// Compares two policies, the most distinctive fields first.
pub fn tier_policies_match(a: &TierPolicy, b: &TierPolicy) -> (matching: bool)
    ensures
        matching == same_policy(*a, *b),
{
    if !same_text(a.name, b.name) {
        return false;
    }
    if a.action != b.action {
        return false;
    }
    a.promotion_threshold == b.promotion_threshold && a.demotion_good_polls
        == b.demotion_good_polls && a.promotion_cpu_threshold_ms == b.promotion_cpu_threshold_ms
        && a.promotion_slow_poll_threshold == b.promotion_slow_poll_threshold
        && a.demotion_min_duration_ms == b.demotion_min_duration_ms
        && a.demotion_cpu_threshold_ns == b.demotion_cpu_threshold_ns
        && a.demotion_evaluation_interval == b.demotion_evaluation_interval
}

/// Compares two configurations, the most distinctive fields first.
pub fn configs_match(a: &TierConfig, b: &TierConfig) -> (matching: bool)
    ensures
        matching == same_config(*a, *b),
{
    if a.poll_budget != b.poll_budget || a.enable_isolation != b.enable_isolation
        || a.max_slow_queue_size != b.max_slow_queue_size {
        return false;
    }
    if !(a.cpu_ms_budget == b.cpu_ms_budget && a.yield_interval == b.yield_interval
        && a.promotion_hysteresis_ms == b.promotion_hysteresis_ms && a.demotion_hysteresis_ms
        == b.demotion_hysteresis_ms && a.violation_rate_threshold == b.violation_rate_threshold
        && a.cooldown_duration_ms == b.cooldown_duration_ms && a.good_behavior_threshold
        == b.good_behavior_threshold && a.min_tier_duration_ms == b.min_tier_duration_ms
        && a.demotion_cpu_threshold_ns == b.demotion_cpu_threshold_ns
        && a.demotion_evaluation_interval == b.demotion_evaluation_interval && a.test_mode
        == b.test_mode) {
        return false;
    }
    let mut tier: usize = 0;
    while tier < TIER_COUNT
        invariant
            tier <= TIER_COUNT,
            forall|t: int|
                0 <= t < tier ==> same_policy(
                    #[trigger] a.tier_policies[t],
                    b.tier_policies[t],
                ),
        decreases TIER_COUNT - tier,
    {
        if !tier_policies_match(&a.tier_policies[tier], &b.tier_policies[tier]) {
            return false;
        }
        tier += 1;
    }
    true
}

/// Predefined configurations for different use cases.
#[derive(Debug, Clone, Copy, PartialEq, Eq, Structural)]
pub enum ConfigProfile {
    /// Low thresholds, quick escalation: for latency-critical services.
    Aggressive,
    /// Moderate thresholds: for general-purpose applications.
    Balanced,
    /// High thresholds, slow escalation: for batch processing.
    Permissive,
    /// User-defined settings.
    Custom,
}

/// The configuration of the aggressive profile.
pub open spec fn aggressive_config() -> TierConfig {
    TierConfig {
        poll_budget: 1000,
        cpu_ms_budget: 5,
        yield_interval: 50,
        tier_policies: [
            policy_of(
                "AggressiveMonitor",
                InterventionAction::Monitor,
                2,
                1,
                2,
                30,
                500,
                50_000,
                3,
            ),
            policy_of("AggressiveWarn", InterventionAction::Warn, 3, 2, 2, 40, 750, 75_000, 4),
            policy_of("AggressiveYield", InterventionAction::Yield, 3, 3, 2, 50, 1000, 100_000, 5),
            policy_of(
                "AggressiveIsolate",
                InterventionAction::Isolate,
                u32::MAX,
                u64::MAX,
                u32::MAX,
                100,
                2000,
                200_000,
                10,
            ),
        ],
        enable_isolation: true,
        max_slow_queue_size: 5000,
        promotion_hysteresis_ms: 50,
        demotion_hysteresis_ms: 200,
        violation_rate_threshold: 5,
        cooldown_duration_ms: 2000,
        good_behavior_threshold: 30,
        min_tier_duration_ms: 300,
        demotion_cpu_threshold_ns: 75_000,
        demotion_evaluation_interval: 3,
        test_mode: false,
    }
}

/// The configuration of the permissive profile.
pub open spec fn permissive_config() -> TierConfig {
    TierConfig {
        poll_budget: 10000,
        cpu_ms_budget: 100,
        yield_interval: 500,
        tier_policies: [
            policy_of(
                "PermissiveMonitor",
                InterventionAction::Monitor,
                10,
                10,
                8,
                10,
                2000,
                500_000,
                10,
            ),
            policy_of("PermissiveWarn", InterventionAction::Warn, 15, 20, 10, 15, 3000, 750_000, 15),
            policy_of(
                "PermissiveYield",
                InterventionAction::Yield,
                20,
                50,
                15,
                20,
                5000,
                1_000_000,
                20,
            ),
            policy_of(
                "PermissiveIsolate",
                InterventionAction::Isolate,
                u32::MAX,
                u64::MAX,
                u32::MAX,
                25,
                10000,
                2_000_000,
                25,
            ),
        ],
        enable_isolation: false,
        max_slow_queue_size: 50000,
        promotion_hysteresis_ms: 1000,
        demotion_hysteresis_ms: 2000,
        violation_rate_threshold: 50,
        cooldown_duration_ms: 500,
        good_behavior_threshold: 15,
        min_tier_duration_ms: 2000,
        demotion_cpu_threshold_ns: 1_000_000,
        demotion_evaluation_interval: 15,
        test_mode: false,
    }
}

impl ConfigProfile {
    /// The configuration that belongs to the profile. A custom configuration
    /// starts from the default.
    pub open spec fn config(self) -> TierConfig {
        match self {
            ConfigProfile::Aggressive => aggressive_config(),
            ConfigProfile::Balanced => default_config(),
            ConfigProfile::Permissive => permissive_config(),
            ConfigProfile::Custom => default_config(),
        }
    }

    /// Creates the configuration that belongs to the profile.
    pub fn create_config(self) -> (config: TierConfig)
        ensures
            config == self.config(),
    {
        match self {
            ConfigProfile::Aggressive => Self::create_aggressive_config(),
            ConfigProfile::Balanced => Self::create_balanced_config(),
            ConfigProfile::Permissive => Self::create_permissive_config(),
            ConfigProfile::Custom => TierConfig::default(),
        }
    }

    /// Low promotion thresholds, short hysteresis, strict CPU limits and high
    /// demotion requirements.
    fn create_aggressive_config() -> (config: TierConfig)
        ensures
            config == aggressive_config(),
    {
        let monitor = TierPolicyBuilder::new("AggressiveMonitor", InterventionAction::Monitor)
            .promotion_violations(2)
            .promotion_cpu_ms(1)
            .promotion_slow_polls(2)
            .demotion_good_polls(30)
            .demotion_min_duration_ms(500)
            .demotion_cpu_threshold_ns(50_000)
            .demotion_evaluation_interval(3)
            .build();
        let warn = TierPolicyBuilder::new("AggressiveWarn", InterventionAction::Warn)
            .promotion_violations(3)
            .promotion_cpu_ms(2)
            .promotion_slow_polls(2)
            .demotion_good_polls(40)
            .demotion_min_duration_ms(750)
            .demotion_cpu_threshold_ns(75_000)
            .demotion_evaluation_interval(4)
            .build();
        let forced_yield = TierPolicyBuilder::new("AggressiveYield", InterventionAction::Yield)
            .promotion_violations(3)
            .promotion_cpu_ms(3)
            .promotion_slow_polls(2)
            .demotion_good_polls(50)
            .demotion_min_duration_ms(1000)
            .demotion_cpu_threshold_ns(100_000)
            .demotion_evaluation_interval(5)
            .build();
        let isolate = TierPolicyBuilder::new("AggressiveIsolate", InterventionAction::Isolate)
            .promotion_violations(u32::MAX)
            .promotion_cpu_ms(u64::MAX)
            .promotion_slow_polls(u32::MAX)
            .demotion_good_polls(100)
            .demotion_min_duration_ms(2000)
            .demotion_cpu_threshold_ns(200_000)
            .demotion_evaluation_interval(10)
            .build();
        let config = TierConfig {
            poll_budget: 1000,
            cpu_ms_budget: 5,
            yield_interval: 50,
            tier_policies: [monitor, warn, forced_yield, isolate],
            enable_isolation: true,
            max_slow_queue_size: 5000,
            promotion_hysteresis_ms: 50,
            demotion_hysteresis_ms: 200,
            violation_rate_threshold: 5,
            cooldown_duration_ms: 2000,
            good_behavior_threshold: 30,
            min_tier_duration_ms: 300,
            demotion_cpu_threshold_ns: 75_000,
            demotion_evaluation_interval: 3,
            test_mode: false,
        };
        assert(config.tier_policies =~= aggressive_config().tier_policies);
        config
    }

    /// The default configuration is the balanced one.
    fn create_balanced_config() -> (config: TierConfig)
        ensures
            config == default_config(),
    {
        TierConfig::default()
    }

    /// High promotion thresholds, long hysteresis, tolerant CPU limits and low
    /// demotion requirements.
    fn create_permissive_config() -> (config: TierConfig)
        ensures
            config == permissive_config(),
    {
        let monitor = TierPolicyBuilder::new("PermissiveMonitor", InterventionAction::Monitor)
            .promotion_violations(10)
            .promotion_cpu_ms(10)
            .promotion_slow_polls(8)
            .demotion_good_polls(10)
            .demotion_min_duration_ms(2000)
            .demotion_cpu_threshold_ns(500_000)
            .demotion_evaluation_interval(10)
            .build();
        let warn = TierPolicyBuilder::new("PermissiveWarn", InterventionAction::Warn)
            .promotion_violations(15)
            .promotion_cpu_ms(20)
            .promotion_slow_polls(10)
            .demotion_good_polls(15)
            .demotion_min_duration_ms(3000)
            .demotion_cpu_threshold_ns(750_000)
            .demotion_evaluation_interval(15)
            .build();
        let forced_yield = TierPolicyBuilder::new("PermissiveYield", InterventionAction::Yield)
            .promotion_violations(20)
            .promotion_cpu_ms(50)
            .promotion_slow_polls(15)
            .demotion_good_polls(20)
            .demotion_min_duration_ms(5000)
            .demotion_cpu_threshold_ns(1_000_000)
            .demotion_evaluation_interval(20)
            .build();
        let isolate = TierPolicyBuilder::new("PermissiveIsolate", InterventionAction::Isolate)
            .promotion_violations(u32::MAX)
            .promotion_cpu_ms(u64::MAX)
            .promotion_slow_polls(u32::MAX)
            .demotion_good_polls(25)
            .demotion_min_duration_ms(10000)
            .demotion_cpu_threshold_ns(2_000_000)
            .demotion_evaluation_interval(25)
            .build();
        let config = TierConfig {
            poll_budget: 10000,
            cpu_ms_budget: 100,
            yield_interval: 500,
            tier_policies: [monitor, warn, forced_yield, isolate],
            enable_isolation: false,
            max_slow_queue_size: 50000,
            promotion_hysteresis_ms: 1000,
            demotion_hysteresis_ms: 2000,
            violation_rate_threshold: 50,
            cooldown_duration_ms: 500,
            good_behavior_threshold: 15,
            min_tier_duration_ms: 2000,
            demotion_cpu_threshold_ns: 1_000_000,
            demotion_evaluation_interval: 15,
            test_mode: false,
        };
        assert(config.tier_policies =~= permissive_config().tier_policies);
        config
    }

    /// A description of the profile.
    pub fn description(self) -> (text: &'static str)
        ensures
            text == (match self {
                ConfigProfile::Aggressive =>
                    "Aggressive intervention with low thresholds and quick escalation. Best for latency-critical applications and user-facing services.",
                ConfigProfile::Balanced =>
                    "Balanced intervention with moderate thresholds and stable performance. Best for general-purpose applications and mixed workloads.",
                ConfigProfile::Permissive =>
                    "Permissive intervention with high thresholds and slow escalation. Best for batch processing, scientific computing, and high-CPU workloads.",
                ConfigProfile::Custom =>
                    "Custom configuration allowing full control over all intervention parameters. Best for specialized applications with specific requirements.",
            }),
    {
        match self {
            ConfigProfile::Aggressive => {
                "Aggressive intervention with low thresholds and quick escalation. Best for latency-critical applications and user-facing services."
            },
            ConfigProfile::Balanced => {
                "Balanced intervention with moderate thresholds and stable performance. Best for general-purpose applications and mixed workloads."
            },
            ConfigProfile::Permissive => {
                "Permissive intervention with high thresholds and slow escalation. Best for batch processing, scientific computing, and high-CPU workloads."
            },
            ConfigProfile::Custom => {
                "Custom configuration allowing full control over all intervention parameters. Best for specialized applications with specific requirements."
            },
        }
    }

    /// All profiles.
    pub fn all_profiles() -> (profiles: [ConfigProfile; 4])
        ensures
            profiles@ == seq![
                ConfigProfile::Aggressive,
                ConfigProfile::Balanced,
                ConfigProfile::Permissive,
                ConfigProfile::Custom,
            ],
    {
        let profiles = [
            ConfigProfile::Aggressive,
            ConfigProfile::Balanced,
            ConfigProfile::Permissive,
            ConfigProfile::Custom,
        ];
        assert(profiles@ =~= seq![
            ConfigProfile::Aggressive,
            ConfigProfile::Balanced,
            ConfigProfile::Permissive,
            ConfigProfile::Custom,
        ]);
        profiles
    }
}

/// The profile whose settings `config` has, the first in the order of
/// aggressive, balanced, permissive; `None` for settings of one's own.
pub open spec fn profile_of(config: TierConfig) -> Option<ConfigProfile> {
    if same_config(config, aggressive_config()) {
        Some(ConfigProfile::Aggressive)
    } else if same_config(config, default_config()) {
        Some(ConfigProfile::Balanced)
    } else if same_config(config, permissive_config()) {
        Some(ConfigProfile::Permissive)
    } else {
        None
    }
}

/// Finds the profile whose settings `config` has.
pub fn detect_profile(config: &TierConfig) -> (profile: Option<ConfigProfile>)
    ensures
        profile == profile_of(*config),
{
    if configs_match(config, &ConfigProfile::Aggressive.create_config()) {
        return Some(ConfigProfile::Aggressive);
    }
    if configs_match(config, &ConfigProfile::Balanced.create_config()) {
        return Some(ConfigProfile::Balanced);
    }
    if configs_match(config, &ConfigProfile::Permissive.create_config()) {
        return Some(ConfigProfile::Permissive);
    }
    None
}

/// A predefined profile is recognised from its own configuration, and each of
/// its tiers has a demotion interval.
pub proof fn profile_is_recognised(profile: ConfigProfile)
    requires
        profile != ConfigProfile::Custom,
    ensures
        profile_of(profile.config()) == Some(profile),
        profile.config().intervals_positive(),
{
}

/// The aggressive profile intervenes earlier and forgives later than the
/// permissive one: lower promotion thresholds and hysteresis, stricter limits on
/// good polls, more good polls before demotion out of the lowest tier, and a
/// longer cooldown that sets in earlier.
pub proof fn aggressive_is_stricter_than_permissive()
    ensures
        forall|tier: int|
            #![trigger aggressive_config().tier_policies[tier]]
            0 <= tier < 3 ==> {
                let a = aggressive_config().tier_policies[tier];
                let p = permissive_config().tier_policies[tier];
                &&& a.promotion_threshold < p.promotion_threshold
                &&& a.promotion_cpu_threshold_ms < p.promotion_cpu_threshold_ms
                &&& a.promotion_slow_poll_threshold < p.promotion_slow_poll_threshold
                &&& a.demotion_good_polls > p.demotion_good_polls
                &&& a.demotion_cpu_threshold_ns < p.demotion_cpu_threshold_ns
            },
        aggressive_config().promotion_hysteresis_ms < permissive_config().promotion_hysteresis_ms,
        aggressive_config().demotion_hysteresis_ms < permissive_config().demotion_hysteresis_ms,
        aggressive_config().violation_rate_threshold
            < permissive_config().violation_rate_threshold,
        aggressive_config().cooldown_duration_ms > permissive_config().cooldown_duration_ms,
{
}

/// A policy that meets no objection has a demotion interval.
pub proof fn accepted_policy_has_interval(policy: TierPolicy)
    requires
        policy_objection(policy) is None,
    ensures
        policy.demotion_evaluation_interval > 0,
        policy.promotion_threshold > 0,
        policy.demotion_good_polls > 0,
{
}

/// Whether a policy takes this action and has these thresholds: violations, CPU time and
/// slow polls before a promotion; good polls, time at the tier, CPU time and interval of
/// polls for a demotion.
pub open spec fn policy_has(
    policy: TierPolicy,
    action: InterventionAction,
    promotion: (u32, u64, u32),
    demotion: (u32, u64, u64, u32),
) -> bool {
    &&& policy.action == action
    &&& policy.promotion_threshold == promotion.0
    &&& policy.promotion_cpu_threshold_ms == promotion.1
    &&& policy.promotion_slow_poll_threshold == promotion.2
    &&& policy.demotion_good_polls == demotion.0
    &&& policy.demotion_min_duration_ms == demotion.1
    &&& policy.demotion_cpu_threshold_ns == demotion.2
    &&& policy.demotion_evaluation_interval == demotion.3
}

/// Every profile watches, warns, forces yields and isolates, tier by tier, never promotes
/// beyond the highest tier, and runs outside of test mode; a custom one starts from the
/// balanced one, which is the default. The tiers differ in their thresholds.
pub proof fn profiles_have_their_thresholds(profile: ConfigProfile)
    ensures
        ({
            let config = profile.config();
            let tiers = config.tier_policies;
            let most = (u32::MAX, u64::MAX, u32::MAX);
            &&& !config.test_mode
            &&& config.enable_isolation <==> profile == ConfigProfile::Aggressive
            &&& match profile {
                ConfigProfile::Aggressive => {
                    &&& policy_has(
                        tiers[0],
                        InterventionAction::Monitor,
                        (2, 1, 2),
                        (30, 500, 50_000, 3),
                    )
                    &&& policy_has(
                        tiers[1],
                        InterventionAction::Warn,
                        (3, 2, 2),
                        (40, 750, 75_000, 4),
                    )
                    &&& policy_has(
                        tiers[2],
                        InterventionAction::Yield,
                        (3, 3, 2),
                        (50, 1000, 100_000, 5),
                    )
                    &&& policy_has(
                        tiers[3],
                        InterventionAction::Isolate,
                        most,
                        (100, 2000, 200_000, 10),
                    )
                    &&& config.poll_budget == 1000 && config.cpu_ms_budget == 5
                    &&& config.yield_interval == 50 && config.max_slow_queue_size == 5000
                    &&& config.promotion_hysteresis_ms == 50 && config.demotion_hysteresis_ms == 200
                    &&& config.violation_rate_threshold == 5 && config.cooldown_duration_ms == 2000
                    &&& config.good_behavior_threshold == 30 && config.min_tier_duration_ms == 300
                    &&& config.demotion_cpu_threshold_ns == 75_000
                    &&& config.demotion_evaluation_interval == 3
                },
                ConfigProfile::Permissive => {
                    &&& policy_has(
                        tiers[0],
                        InterventionAction::Monitor,
                        (10, 10, 8),
                        (10, 2000, 500_000, 10),
                    )
                    &&& policy_has(
                        tiers[1],
                        InterventionAction::Warn,
                        (15, 20, 10),
                        (15, 3000, 750_000, 15),
                    )
                    &&& policy_has(
                        tiers[2],
                        InterventionAction::Yield,
                        (20, 50, 15),
                        (20, 5000, 1_000_000, 20),
                    )
                    &&& policy_has(
                        tiers[3],
                        InterventionAction::Isolate,
                        most,
                        (25, 10_000, 2_000_000, 25),
                    )
                    &&& config.poll_budget == 10_000 && config.cpu_ms_budget == 100
                    &&& config.yield_interval == 500 && config.max_slow_queue_size == 50_000
                    &&& config.promotion_hysteresis_ms == 1000
                    &&& config.demotion_hysteresis_ms == 2000
                    &&& config.violation_rate_threshold == 50 && config.cooldown_duration_ms == 500
                    &&& config.good_behavior_threshold == 15 && config.min_tier_duration_ms == 2000
                    &&& config.demotion_cpu_threshold_ns == 1_000_000
                    &&& config.demotion_evaluation_interval == 15
                },
                _ => {
                    &&& config == default_config()
                    &&& policy_has(
                        tiers[0],
                        InterventionAction::Monitor,
                        (5, 50, 10),
                        (100, 5000, 100_000, 20),
                    )
                    &&& policy_has(
                        tiers[1],
                        InterventionAction::Warn,
                        (3, 25, 5),
                        (75, 3000, 200_000, 15),
                    )
                    &&& policy_has(
                        tiers[2],
                        InterventionAction::Yield,
                        (2, 15, 3),
                        (50, 2000, 500_000, 10),
                    )
                    &&& policy_has(
                        tiers[3],
                        InterventionAction::Isolate,
                        most,
                        (25, 10_000, 1_000_000, 5),
                    )
                    &&& config.poll_budget == 2000 && config.cpu_ms_budget == 10
                    &&& config.yield_interval == 100 && config.max_slow_queue_size == 10_000
                    &&& config.promotion_hysteresis_ms == 100
                    &&& config.demotion_hysteresis_ms == 500
                    &&& config.violation_rate_threshold == 10 && config.cooldown_duration_ms == 1000
                    &&& config.good_behavior_threshold == 50 && config.min_tier_duration_ms == 2000
                    &&& config.demotion_cpu_threshold_ns == 500_000
                    &&& config.demotion_evaluation_interval == 10
                },
            }
        }),
{
}

/// Two configurations match exactly when they agree in every setting, tier by tier.
pub proof fn matching_configs_agree_everywhere(a: TierConfig, b: TierConfig, tier: int)
    requires
        same_config(a, b),
        0 <= tier < 4,
    ensures
        a.tier_policies[tier].name@ == b.tier_policies[tier].name@,
        policy_has(
            a.tier_policies[tier],
            b.tier_policies[tier].action,
            (
                b.tier_policies[tier].promotion_threshold,
                b.tier_policies[tier].promotion_cpu_threshold_ms,
                b.tier_policies[tier].promotion_slow_poll_threshold,
            ),
            (
                b.tier_policies[tier].demotion_good_polls,
                b.tier_policies[tier].demotion_min_duration_ms,
                b.tier_policies[tier].demotion_cpu_threshold_ns,
                b.tier_policies[tier].demotion_evaluation_interval,
            ),
        ),
        a == (TierConfig { tier_policies: a.tier_policies, ..b }),
{
    assert(same_policy(a.tier_policies[tier], b.tier_policies[tier]));
}

/// A configuration matches itself, and one that differs from it in the names' storage
/// alone.
pub proof fn equal_configs_match(a: TierConfig, b: TierConfig)
    requires
        a == (TierConfig { tier_policies: a.tier_policies, ..b }),
        forall|tier: int|
            0 <= tier < 4 ==> (#[trigger] a.tier_policies[tier]) == b.tier_policies[tier],
    ensures
        same_config(a, b),
{
}

/// The profile of a configuration is one that it matches, and there is none exactly when
/// it matches no predefined one.
pub proof fn profiles_are_recognised_by_their_settings(config: TierConfig)
    ensures
        match profile_of(config) {
            Some(profile) => profile != ConfigProfile::Custom && same_config(
                config,
                profile.config(),
            ),
            None => forall|profile: ConfigProfile|
                profile != ConfigProfile::Custom ==> !same_config(
                    config,
                    #[trigger] profile.config(),
                ),
        },
{
    if profile_of(config) is None {
        assert forall|profile: ConfigProfile| profile != ConfigProfile::Custom implies !same_config(
            config,
            #[trigger] profile.config(),
        ) by {
            match profile {
                ConfigProfile::Aggressive => {},
                ConfigProfile::Balanced => {},
                ConfigProfile::Permissive => {},
                ConfigProfile::Custom => {},
            }
        }
    }
}

/// An objection names the field at fault: first those that are zero, then those that are
/// too large, each in the order of the fields.
pub proof fn objections_name_the_first_fault(policy: TierPolicy)
    ensures
        ({
            let objection = policy_objection(policy);
            let positive = policy.promotion_threshold > 0 && policy.promotion_cpu_threshold_ms > 0
                && policy.promotion_slow_poll_threshold > 0 && policy.demotion_good_polls > 0
                && policy.demotion_cpu_threshold_ns > 0 && policy.demotion_evaluation_interval > 0;
            &&& policy.promotion_threshold == 0 ==> objection == Some(
                "Promotion threshold must be greater than 0",
            )
            &&& policy.promotion_threshold > 0 && policy.promotion_cpu_threshold_ms == 0
                ==> objection == Some("Promotion CPU threshold must be greater than 0")
            &&& policy.promotion_threshold > 0 && policy.promotion_cpu_threshold_ms > 0
                && policy.promotion_slow_poll_threshold == 0 ==> objection == Some(
                "Promotion slow poll threshold must be greater than 0",
            )
            &&& policy.promotion_threshold > 0 && policy.promotion_cpu_threshold_ms > 0
                && policy.promotion_slow_poll_threshold > 0 && policy.demotion_good_polls == 0
                ==> objection == Some("Demotion good polls threshold must be greater than 0")
            &&& policy.promotion_threshold > 0 && policy.promotion_cpu_threshold_ms > 0
                && policy.promotion_slow_poll_threshold > 0 && policy.demotion_good_polls > 0
                && policy.demotion_cpu_threshold_ns == 0 ==> objection == Some(
                "Demotion CPU threshold must be greater than 0",
            )
            &&& policy.promotion_threshold > 0 && policy.promotion_cpu_threshold_ms > 0
                && policy.promotion_slow_poll_threshold > 0 && policy.demotion_good_polls > 0
                && policy.demotion_cpu_threshold_ns > 0 && policy.demotion_evaluation_interval == 0
                ==> objection == Some("Demotion evaluation interval must be greater than 0")
            &&& positive && policy.promotion_threshold > 1000 ==> objection == Some(
                "Promotion threshold too high (max 1000)",
            )
            &&& positive && policy.promotion_threshold <= 1000 && policy.promotion_cpu_threshold_ms
                > 60_000 ==> objection == Some("Promotion CPU threshold too high (max 60 seconds)")
            &&& positive && policy.promotion_threshold <= 1000 && policy.promotion_cpu_threshold_ms
                <= 60_000 && policy.demotion_good_polls > 10_000 ==> objection == Some(
                "Demotion good polls threshold too high (max 10000)",
            )
            &&& positive && policy.promotion_threshold <= 1000 && policy.promotion_cpu_threshold_ms
                <= 60_000 && policy.demotion_good_polls <= 10_000
                && policy.demotion_min_duration_ms > 3_600_000 ==> objection == Some(
                "Demotion minimum duration too high (max 1 hour)",
            )
            &&& positive && policy.promotion_threshold <= 1000 && policy.promotion_cpu_threshold_ms
                <= 60_000 && policy.demotion_good_polls <= 10_000
                && policy.demotion_min_duration_ms <= 3_600_000 && policy.demotion_cpu_threshold_ns
                > 1_000_000_000 ==> objection == Some(
                "Demotion CPU threshold too high (max 1 second)",
            )
        }),
{
}

} // verus!
