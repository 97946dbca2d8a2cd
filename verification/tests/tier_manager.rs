use std::time::Duration;
use tokio_pulse::slow_queue::TaskPriority;
use tokio_pulse::tier_manager::task::TaskState;
use tokio_pulse::{
    ConfigProfile, InterventionAction, PollResult, TaskBudget, TaskContext, TaskId, TierConfig,
    TierManager, TierPolicy, TierPolicyBuilder,
};

/// Clock that is set by hand.
struct Clock {
    now: u128,
}

impl Clock {
    fn pass_ms(&mut self, ms: u64) {
        self.now += ms as u128 * 1_000_000;
    }
}

#[test]
fn test_tier_config_default() {
    let config = TierConfig::default();
    assert_eq!(config.poll_budget, 2000);
    assert_eq!(config.cpu_ms_budget, 10);
    assert_eq!(config.tier_policies.len(), 4);
}

#[test]
fn test_task_state_tier_escalation() {
    let mut clock = Clock { now: 1_000_000_000 };
    let budget = TaskBudget::new(100);
    let context = TaskContext { worker_id: 0, priority: None };
    let mut state = TaskState::new(budget, 0, context, clock.now);

    assert_eq!(state.current_tier, 0);

    let new_tier = state.try_escalate_tier(0, clock.now);
    assert_eq!(new_tier, Some(1));
    assert_eq!(state.current_tier, 1);

    clock.pass_ms(1);
    state.try_escalate_tier(0, clock.now);
    clock.pass_ms(1);
    state.try_escalate_tier(0, clock.now);
    assert_eq!(state.current_tier, 3);

    let tier = state.try_escalate_tier(0, clock.now);
    assert_eq!(tier, None);
}

#[test]
fn test_violation_cooldown() {
    let mut clock = Clock { now: 1_000_000_000 };
    let budget = TaskBudget::new(100);
    let context = TaskContext { worker_id: 0, priority: None };
    let mut state = TaskState::new(budget, 0, context, clock.now);

    for _ in 0..12 {
        state.track_violation(10, 1000, clock.now);
    }

    assert!(state.is_in_cooldown(clock.now));

    let result = state.try_escalate_tier(0, clock.now);
    assert_eq!(result, None);

    clock.pass_ms(1100);

    assert!(!state.is_in_cooldown(clock.now));

    let result = state.try_escalate_tier(0, clock.now);
    assert_eq!(result, Some(1));
}

#[test]
fn test_tier_hysteresis() {
    let mut clock = Clock { now: 1_000_000_000 };
    let budget = TaskBudget::new(100);
    let context = TaskContext { worker_id: 0, priority: None };
    let mut state = TaskState::new(budget, 0, context, clock.now);

    clock.pass_ms(1);

    let result = state.try_escalate_tier(0, clock.now);
    assert_eq!(result, Some(1));
    assert_eq!(state.current_tier, 1);

    let result = state.try_escalate_tier(100, clock.now);
    assert_eq!(result, None);
    assert_eq!(state.current_tier, 1);
    assert_eq!(state.pending_tier_change, 2);

    clock.pass_ms(110);

    state.check_pending_tier_change(100, 500, clock.now);
    assert_eq!(state.current_tier, 2);
    assert_eq!(state.pending_tier_change, u32::MAX);

    for _ in 0..15 {
        state.record_good_poll(100_000);
    }

    clock.pass_ms(1100);

    let tier_policy_strict = TierPolicy {
        name: "test_strict",
        action: InterventionAction::Monitor,
        promotion_threshold: 5,
        promotion_cpu_threshold_ms: 2,
        promotion_slow_poll_threshold: 3,
        demotion_good_polls: 10,
        demotion_min_duration_ms: 2000,
        demotion_cpu_threshold_ns: 1_000_000,
        demotion_evaluation_interval: 5,
    };
    let result = state.try_demote_tier(500, &tier_policy_strict, false, clock.now);
    assert_eq!(result, None);

    let tier_policy_lenient = TierPolicy {
        name: "test_lenient",
        action: InterventionAction::Monitor,
        promotion_threshold: 5,
        promotion_cpu_threshold_ms: 2,
        promotion_slow_poll_threshold: 3,
        demotion_good_polls: 10,
        demotion_min_duration_ms: 100,
        demotion_cpu_threshold_ns: 1_000_000,
        demotion_evaluation_interval: 5,
    };
    let result = state.try_demote_tier(2000, &tier_policy_lenient, true, clock.now);
    assert_eq!(result, None);
    assert_eq!(state.pending_tier_change, 1);
}

#[test]
fn test_enhanced_demotion_logic() {
    let mut clock = Clock { now: 1_000_000_000 };
    let budget = TaskBudget::new(1000);
    let context = TaskContext { worker_id: 0, priority: None };
    let mut state = TaskState::new(budget, 0, context, clock.now);

    let _ = state.try_escalate_tier(0, clock.now);
    let _ = state.try_escalate_tier(0, clock.now);
    assert_eq!(state.current_tier, 2);

    let tier_policy = TierPolicy {
        name: "test_enhanced",
        action: InterventionAction::Monitor,
        promotion_threshold: 5,
        promotion_cpu_threshold_ms: 2,
        promotion_slow_poll_threshold: 3,
        demotion_good_polls: 50,
        demotion_min_duration_ms: 100,
        demotion_cpu_threshold_ns: 1_000_000,
        demotion_evaluation_interval: 5,
    };
    let result = state.try_demote_tier(100, &tier_policy, true, clock.now);
    assert_eq!(result, None);

    for _ in 0..60 {
        state.record_good_poll(100_000);
    }

    clock.pass_ms(150);

    let result = state.try_demote_tier(100, &tier_policy, true, clock.now);
    assert_eq!(result, Some(1));

    assert_eq!(state.current_tier, 1);

    assert_eq!(state.consecutive_good_polls, 0);
    assert_eq!(state.good_behavior_duration_ns, 0);
}

#[test]
fn test_tier_manager_creation() {
    let config = TierConfig::default();
    let manager = TierManager::new(config);
    assert_eq!(manager.metrics().active_tasks, 0);
    assert_eq!(manager.metrics().slow_queue_size, 0);
}

#[test]
fn test_tier_manager_task_lifecycle() {
    let mut manager = TierManager::new(TierConfig::default());
    let task_id = TaskId(1);
    let ctx = TaskContext { worker_id: 0, priority: None };

    manager.before_poll(task_id, &ctx);
    assert_eq!(manager.metrics().active_tasks, 1);

    manager.after_poll(task_id, PollResult::Pending, Duration::from_micros(100).as_nanos());

    manager.on_yield(task_id);

    manager.on_completion(task_id);
    assert_eq!(manager.metrics().active_tasks, 0);
}

#[test]
fn test_tier_manager_metrics() {
    let mut manager = TierManager::new(TierConfig::default());
    let task_id = TaskId(1);
    let ctx = TaskContext { worker_id: 0, priority: None };

    manager.before_poll(task_id, &ctx);
    manager.after_poll(task_id, PollResult::Pending, Duration::from_micros(100).as_nanos());

    let metrics = manager.metrics();
    assert_eq!(metrics.total_polls, 1);
    assert_eq!(metrics.active_tasks, 1);
}

#[test]
fn test_runtime_configuration_updates() {
    let mut manager = TierManager::new(TierConfig::default());

    let new_policy = TierPolicyBuilder::new("TestUpdate", InterventionAction::Warn)
        .promotion_violations(3)
        .demotion_good_polls(25)
        .build();

    let result = manager.update_tier_policy(1, new_policy.clone());
    assert!(result.is_ok(), "Failed to update tier policy: {:?}", result);

    let config = manager.get_current_config();
    assert_eq!(config.tier_policies[1].name, "TestUpdate");
    assert_eq!(config.tier_policies[1].promotion_threshold, 3);
    assert_eq!(config.tier_policies[1].demotion_good_polls, 25);

    let invalid_result = manager.update_tier_policy(10, new_policy.clone());
    assert!(invalid_result.is_err());
    assert!(invalid_result.unwrap_err().contains("Invalid tier index"));

    let invalid_policy = TierPolicy {
        name: "Invalid",
        action: InterventionAction::Monitor,
        promotion_threshold: 0,
        promotion_cpu_threshold_ms: 2,
        promotion_slow_poll_threshold: 3,
        demotion_good_polls: 10,
        demotion_min_duration_ms: 100,
        demotion_cpu_threshold_ns: 1_000_000,
        demotion_evaluation_interval: 5,
    };
    let invalid_result = manager.update_tier_policy(0, invalid_policy);
    assert!(invalid_result.is_err());
    assert!(invalid_result.unwrap_err().contains("Promotion threshold must be greater than 0"));

    let original_budget = manager.get_current_config().poll_budget;
    manager.update_global_config(|config: &mut TierConfig| {
        config.poll_budget = 5000;
        config.demotion_hysteresis_ms = 1500;
    });

    let updated_config = manager.get_current_config();
    assert_eq!(updated_config.poll_budget, 5000);
    assert_eq!(updated_config.demotion_hysteresis_ms, 1500);
    assert_ne!(updated_config.poll_budget, original_budget);

    let policy1 = TierPolicyBuilder::new("MultiUpdate1", InterventionAction::Monitor)
        .promotion_violations(2)
        .build();
    let policy2 = TierPolicyBuilder::new("MultiUpdate2", InterventionAction::Warn)
        .promotion_violations(4)
        .build();

    let updates = vec![(0, policy1), (2, policy2)];
    let result = manager.update_multiple_tier_policies(updates);
    assert!(result.is_ok(), "Failed to update multiple policies: {:?}", result);

    let final_config = manager.get_current_config();
    assert_eq!(final_config.tier_policies[0].name, "MultiUpdate1");
    assert_eq!(final_config.tier_policies[0].promotion_threshold, 2);
    assert_eq!(final_config.tier_policies[2].name, "MultiUpdate2");
    assert_eq!(final_config.tier_policies[2].promotion_threshold, 4);

    let invalid_updates = vec![(0, new_policy.clone()), (99, new_policy)];
    let result = manager.update_multiple_tier_policies(invalid_updates);
    assert!(result.is_err());
    assert!(result.unwrap_err().contains("Invalid tier index"));
}

#[test]
fn test_tier_policy_validation() {
    let manager = TierManager::new(TierConfig::default());

    let valid_policy = TierPolicyBuilder::new("Valid", InterventionAction::Monitor)
        .promotion_violations(5)
        .demotion_good_polls(10)
        .build();
    let result = manager.validate_tier_policy(&valid_policy);
    assert!(result.is_ok());

    let invalid_policy = TierPolicy {
        name: "Invalid",
        action: InterventionAction::Monitor,
        promotion_threshold: 0,
        promotion_cpu_threshold_ms: 2,
        promotion_slow_poll_threshold: 3,
        demotion_good_polls: 10,
        demotion_min_duration_ms: 100,
        demotion_cpu_threshold_ns: 1_000_000,
        demotion_evaluation_interval: 5,
    };
    let result = manager.validate_tier_policy(&invalid_policy);
    assert!(result.is_err());
    assert!(result.unwrap_err().contains("Promotion threshold must be greater than 0"));

    let high_threshold_policy = TierPolicy {
        name: "TooHigh",
        action: InterventionAction::Monitor,
        promotion_threshold: 2000,
        promotion_cpu_threshold_ms: 2,
        promotion_slow_poll_threshold: 3,
        demotion_good_polls: 10,
        demotion_min_duration_ms: 100,
        demotion_cpu_threshold_ns: 1_000_000,
        demotion_evaluation_interval: 5,
    };
    let result = manager.validate_tier_policy(&high_threshold_policy);
    assert!(result.is_err());
    assert!(result.unwrap_err().contains("Promotion threshold too high"));
}

#[test]
fn test_configuration_profiles() {
    let aggressive_config = ConfigProfile::Aggressive.create_config();
    let balanced_config = ConfigProfile::Balanced.create_config();
    let permissive_config = ConfigProfile::Permissive.create_config();
    let custom_config = ConfigProfile::Custom.create_config();

    assert_eq!(aggressive_config.poll_budget, 1000);
    assert!(aggressive_config.enable_isolation);
    assert_eq!(aggressive_config.tier_policies[0].name, "AggressiveMonitor");
    assert_eq!(aggressive_config.tier_policies[0].promotion_threshold, 2);
    assert_eq!(aggressive_config.tier_policies[0].demotion_good_polls, 30);

    let default_config = TierConfig::default();
    assert_eq!(balanced_config.poll_budget, default_config.poll_budget);
    assert_eq!(balanced_config.tier_policies[0].name, default_config.tier_policies[0].name);

    assert_eq!(permissive_config.poll_budget, 10000);
    assert!(!permissive_config.enable_isolation);
    assert_eq!(permissive_config.tier_policies[0].name, "PermissiveMonitor");
    assert_eq!(permissive_config.tier_policies[0].promotion_threshold, 10);
    assert_eq!(permissive_config.tier_policies[0].demotion_good_polls, 10);

    assert_eq!(custom_config.poll_budget, default_config.poll_budget);

    assert!(ConfigProfile::Aggressive.description().contains("low thresholds"));
    assert!(ConfigProfile::Balanced.description().contains("moderate thresholds"));
    assert!(ConfigProfile::Permissive.description().contains("high thresholds"));
    assert!(ConfigProfile::Custom.description().contains("full control"));

    let all_profiles = ConfigProfile::all_profiles();
    assert_eq!(all_profiles.len(), 4);
    assert!(all_profiles.contains(&ConfigProfile::Aggressive));
    assert!(all_profiles.contains(&ConfigProfile::Balanced));
    assert!(all_profiles.contains(&ConfigProfile::Permissive));
    assert!(all_profiles.contains(&ConfigProfile::Custom));
}

#[test]
fn test_tier_manager_with_profiles() {
    let aggressive_manager = TierManager::with_profile(ConfigProfile::Aggressive);
    let mut balanced_manager = TierManager::with_profile(ConfigProfile::Balanced);
    let permissive_manager = TierManager::with_profile(ConfigProfile::Permissive);

    let aggressive_config = aggressive_manager.get_current_config();
    let balanced_config = balanced_manager.get_current_config();
    let permissive_config = permissive_manager.get_current_config();

    assert_eq!(aggressive_config.poll_budget, 1000);
    assert_eq!(balanced_config.poll_budget, 2000);
    assert_eq!(permissive_config.poll_budget, 10000);

    balanced_manager.switch_to_profile(ConfigProfile::Aggressive);
    let updated_config = balanced_manager.get_current_config();
    assert_eq!(updated_config.poll_budget, 1000);

    assert_eq!(aggressive_manager.current_profile(), Some(ConfigProfile::Aggressive));
    assert_eq!(balanced_manager.current_profile(), Some(ConfigProfile::Aggressive));
    assert_eq!(permissive_manager.current_profile(), Some(ConfigProfile::Permissive));

    balanced_manager.switch_to_profile(ConfigProfile::Custom);
    let config_after_custom = balanced_manager.get_current_config();
    assert_eq!(config_after_custom.poll_budget, 1000);
}

#[test]
fn test_profile_config_matching() {
    let mut manager = TierManager::with_profile(ConfigProfile::Balanced);

    assert_eq!(manager.current_profile(), Some(ConfigProfile::Balanced));

    manager.update_global_config(|config: &mut TierConfig| {
        config.poll_budget = 9999;
    });

    assert_eq!(manager.current_profile(), None);

    manager.switch_to_profile(ConfigProfile::Permissive);
    assert_eq!(manager.current_profile(), Some(ConfigProfile::Permissive));
}

#[test]
fn test_profile_tier_policies_differences() {
    let aggressive_config = ConfigProfile::Aggressive.create_config();
    let permissive_config = ConfigProfile::Permissive.create_config();

    let aggressive_monitor = &aggressive_config.tier_policies[0];
    let permissive_monitor = &permissive_config.tier_policies[0];

    assert!(aggressive_monitor.promotion_threshold < permissive_monitor.promotion_threshold);
    assert!(aggressive_monitor.promotion_cpu_threshold_ms < permissive_monitor.promotion_cpu_threshold_ms);

    assert!(aggressive_monitor.demotion_good_polls > permissive_monitor.demotion_good_polls);

    assert!(aggressive_monitor.demotion_cpu_threshold_ns < permissive_monitor.demotion_cpu_threshold_ns);

    assert!(aggressive_config.promotion_hysteresis_ms < permissive_config.promotion_hysteresis_ms);
    assert!(aggressive_config.demotion_hysteresis_ms < permissive_config.demotion_hysteresis_ms);
    assert!(aggressive_config.violation_rate_threshold < permissive_config.violation_rate_threshold);
    assert!(aggressive_config.cooldown_duration_ms > permissive_config.cooldown_duration_ms);
}

#[test]
fn test_priority_based_scheduling() {
    let mut manager = TierManager::new(TierConfig::default());

    let critical_context = TaskContext { worker_id: 0, priority: Some(0) };
    let normal_context = TaskContext { worker_id: 1, priority: None };
    let low_context = TaskContext { worker_id: 2, priority: Some(3) };

    assert_eq!(critical_context.task_priority(), TaskPriority::Critical);
    assert_eq!(normal_context.task_priority(), TaskPriority::Normal);
    assert_eq!(low_context.task_priority(), TaskPriority::Low);

    assert_eq!(critical_context.priority_threshold_multiplier() as f32 / 4.0, 0.25);
    assert_eq!(normal_context.priority_threshold_multiplier() as f32 / 4.0, 1.0);
    assert_eq!(low_context.priority_threshold_multiplier() as f32 / 4.0, 2.0);

    assert_eq!(critical_context.priority_budget_multiplier() as f32 / 4.0, 4.0);
    assert_eq!(normal_context.priority_budget_multiplier() as f32 / 4.0, 1.0);
    assert_eq!(low_context.priority_budget_multiplier() as f32 / 4.0, 0.5);

    let critical_task = TaskId(1);
    let normal_task = TaskId(2);

    manager.before_poll(critical_task, &critical_context);
    manager.before_poll(normal_task, &normal_context);

    let short_duration = Duration::from_micros(50).as_nanos();

    manager.after_poll(critical_task, PollResult::Pending, short_duration);

    manager.after_poll(normal_task, PollResult::Pending, short_duration);
    manager.before_poll(normal_task, &normal_context);
    manager.after_poll(normal_task, PollResult::Pending, short_duration);

    let critical_tier = manager.get_task_tier(critical_task).unwrap_or(0);
    let normal_tier = manager.get_task_tier(normal_task).unwrap_or(0);

    println!("Critical tier: {}, Normal tier: {}", critical_tier, normal_tier);
    assert!(critical_tier >= normal_tier);
}

#[test]
fn test_priority_budget_allocation() {
    let mut manager = TierManager::new(TierConfig::default());

    let critical_context = TaskContext { worker_id: 0, priority: Some(0) };
    let low_context = TaskContext { worker_id: 1, priority: Some(3) };

    let critical_task = TaskId(10);
    let low_task = TaskId(11);

    manager.before_poll(critical_task, &critical_context);
    manager.before_poll(low_task, &low_context);

    let critical_remaining = manager.get_task_budget(critical_task).unwrap_or(0);
    let low_remaining = manager.get_task_budget(low_task).unwrap_or(0);

    assert!(critical_remaining > low_remaining);
    println!("Critical budget: {}, Low budget: {}", critical_remaining, low_remaining);
}
