use std::time::Duration;
use tokio_pulse::tier_manager::{PollResult, TaskContext, TaskId, TierConfig, TierManager};

#[test]
fn test_tier_escalation_and_demotion_flow() {
    let mut config = TierConfig::default();
    config.poll_budget = 10;
    config.good_behavior_threshold = 5;
    config.min_tier_duration_ms = 1;
    config.demotion_evaluation_interval = 2;

    let mut manager = TierManager::new(config);
    let ctx = TaskContext { worker_id: 0, priority: None };
    let task_id = TaskId(1001);

    for i in 0..15 {
        manager.before_poll(task_id, &ctx);
        let duration = Duration::from_millis(10).as_nanos();
        manager.after_poll(task_id, PollResult::Pending, duration);

        if i % 5 == 4 {
            let tier = manager.get_task_tier(task_id).unwrap_or(0);
        }
    }

    let escalated_tier = manager.get_task_tier(task_id).unwrap_or(0);
    assert!(escalated_tier > 0, "Task should have been escalated");

    for i in 0..15 {
        manager.before_poll(task_id, &ctx);
        let duration = Duration::from_nanos(10_000).as_nanos();
        manager.after_poll(task_id, PollResult::Pending, duration);

        if i % 3 == 2 {
            let tier = manager.get_task_tier(task_id).unwrap_or(0);
        }
    }

    let final_tier = manager.get_task_tier(task_id).unwrap_or(0);

    let metrics = manager.get_metrics();

    assert!(metrics.total_polls == 30, "Should have executed 30 polls");
    assert!(metrics.budget_violations > 10, "Should have many violations");
    assert!(metrics.tier_promotions > 0, "Should have promoted task");

    manager.on_completion(task_id);
}

#[test]
fn quick_validation_test_voluntary_yield_demotion() {
    let mut config = TierConfig::default();
    config.poll_budget = 20;
    config.good_behavior_threshold = 3;
    config.min_tier_duration_ms = 1;

    let mut manager = TierManager::new(config);
    let ctx = TaskContext { worker_id: 0, priority: None };
    let task_id = TaskId(2001);

    for _ in 0..10 {
        manager.before_poll(task_id, &ctx);
        manager.after_poll(task_id, PollResult::Pending, Duration::from_millis(5).as_nanos());
    }

    let tier_before_yield = manager.get_task_tier(task_id).unwrap_or(0);

    for _ in 0..5 {
        manager.before_poll(task_id, &ctx);
        manager.after_poll(task_id, PollResult::Pending, Duration::from_nanos(10_000).as_nanos());
    }

    manager.on_yield(task_id);

    let tier_after_yield = manager.get_task_tier(task_id).unwrap_or(0);

    let metrics = manager.get_metrics();
    assert!(metrics.voluntary_yields > 0, "Should record voluntary yield");

    manager.on_completion(task_id);
}

#[test]
fn quick_validation_test_multiple_tasks_isolation() {
    let config = TierConfig::default();
    let mut manager = TierManager::new(config);
    let ctx = TaskContext { worker_id: 0, priority: None };

    let aggressive_task = TaskId(3001);
    let moderate_task = TaskId(3002);
    let good_task = TaskId(3003);

    for round in 0..20 {
        manager.before_poll(aggressive_task, &ctx);
        manager.after_poll(aggressive_task, PollResult::Pending, Duration::from_millis(8).as_nanos());

        manager.before_poll(moderate_task, &ctx);
        let moderate_duration = if round % 3 == 0 {
            Duration::from_millis(3).as_nanos()
        } else {
            Duration::from_nanos(100_000).as_nanos()
        };
        manager.after_poll(moderate_task, PollResult::Pending, moderate_duration);

        manager.before_poll(good_task, &ctx);
        manager.after_poll(good_task, PollResult::Pending, Duration::from_nanos(50_000).as_nanos());

        if round % 5 == 4 {
            let aggressive_tier = manager.get_task_tier(aggressive_task).unwrap_or(0);
            let moderate_tier = manager.get_task_tier(moderate_task).unwrap_or(0);
            let good_tier = manager.get_task_tier(good_task).unwrap_or(0);
        }
    }

    let aggressive_tier = manager.get_task_tier(aggressive_task).unwrap_or(0);
    let moderate_tier = manager.get_task_tier(moderate_task).unwrap_or(0);
    let good_tier = manager.get_task_tier(good_task).unwrap_or(0);

    assert!(aggressive_tier >= moderate_tier,
        "Aggressive task should be in higher tier than moderate");

    let final_metrics = manager.get_metrics();

    manager.on_completion(aggressive_task);
    manager.on_completion(moderate_task);
    manager.on_completion(good_task);
}
