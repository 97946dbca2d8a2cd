use std::time::Duration;
use tokio_pulse::{HookRegistry, PollResult, TaskContext, TaskId, TierConfig, TierManager};

fn installed(config: TierConfig) -> HookRegistry<TierManager> {
    let mut registry = HookRegistry::new();
    assert!(registry.set_hooks(TierManager::new(config)).is_none());
    registry
}

fn manager(registry: &mut HookRegistry<TierManager>) -> &mut TierManager {
    registry.hooks.as_mut().unwrap()
}

#[test]
fn test_tier_manager_as_hooks() {
    let mut config = TierConfig::default();
    config.poll_budget = 100;
    config.tier_policies[0].promotion_threshold = 2;

    let mut registry = installed(config);

    let task_id = TaskId(1);
    let context = TaskContext {
        worker_id: 0,
        priority: None,
    };

    registry.before_poll(task_id, &context);
    registry.after_poll(task_id, PollResult::Pending, Duration::from_micros(50).as_nanos());

    let metrics = manager(&mut registry).metrics();
    assert_eq!(metrics.total_polls, 1);
    assert_eq!(metrics.total_violations, 0);

    registry.before_poll(task_id, &context);
    registry.after_poll(task_id, PollResult::Pending, Duration::from_micros(100).as_nanos());

    let metrics = manager(&mut registry).metrics();
    assert_eq!(metrics.total_polls, 2);

    registry.on_completion(task_id);

    let metrics = manager(&mut registry).metrics();
    assert_eq!(metrics.active_tasks, 0);
}

#[test]
fn test_hook_registry_switching() {
    let mut registry = HookRegistry::new();

    assert!(!registry.has_hooks());

    let old = registry.set_hooks(TierManager::new(TierConfig::default()));
    assert!(old.is_none());
    assert!(registry.has_hooks());

    let old = registry.set_hooks(TierManager::new(TierConfig::default()));
    assert!(old.is_some());

    let old = registry.clear_hooks();
    assert!(old.is_some());
    assert!(!registry.has_hooks());
}

#[test]
fn test_tier_escalation_through_hooks() {
    let mut config = TierConfig::default();
    config.poll_budget = 100;
    config.tier_policies[0].promotion_threshold = 1;

    let mut registry = installed(config);

    let task_id = TaskId(42);
    let context = TaskContext {
        worker_id: 1,
        priority: Some(5),
    };

    for _ in 0..5 {
        registry.before_poll(task_id, &context);
        registry.after_poll(task_id, PollResult::Pending, Duration::from_micros(50).as_nanos());
    }

    let metrics = manager(&mut registry).metrics();
    assert_eq!(metrics.total_polls, 5);
}

#[test]
fn test_voluntary_yield_resets_tier() {
    let mut registry = installed(TierConfig::default());

    let task_id = TaskId(99);
    let context = TaskContext {
        worker_id: 2,
        priority: None,
    };

    for _ in 0..3 {
        registry.before_poll(task_id, &context);
        registry.after_poll(task_id, PollResult::Pending, Duration::from_micros(50).as_nanos());
    }

    let metrics_before = manager(&mut registry).metrics();

    registry.on_yield(task_id);

    let metrics_after = manager(&mut registry).metrics();
    assert_eq!(metrics_after.total_yields, metrics_before.total_yields + 1);
}

#[test]
fn test_worker_specific_statistics() {
    let mut registry = installed(TierConfig::default());

    let task1 = TaskId(1);
    let task2 = TaskId(2);
    let task3 = TaskId(3);

    let worker0_context = TaskContext { worker_id: 0, priority: None };
    let worker1_context = TaskContext { worker_id: 1, priority: None };
    let worker2_context = TaskContext { worker_id: 2, priority: None };

    registry.before_poll(task1, &worker0_context);
    registry.after_poll(task1, PollResult::Pending, Duration::from_millis(1).as_nanos());
    registry.before_poll(task1, &worker0_context);
    registry.after_poll(task1, PollResult::Pending, Duration::from_millis(5).as_nanos());

    registry.before_poll(task2, &worker1_context);
    registry.after_poll(task2, PollResult::Pending, Duration::from_micros(500).as_nanos());
    registry.before_poll(task2, &worker1_context);
    registry.after_poll(task2, PollResult::Pending, Duration::from_micros(300).as_nanos());
    registry.before_poll(task2, &worker1_context);
    registry.after_poll(task2, PollResult::Pending, Duration::from_micros(200).as_nanos());
    registry.on_yield(task2);

    registry.before_poll(task3, &worker2_context);
    registry.after_poll(task3, PollResult::Ready, Duration::from_micros(100).as_nanos());

    let worker0_metrics = manager(&mut registry).get_worker_metrics(0);
    assert_eq!(worker0_metrics.worker_id, 0);
    assert_eq!(worker0_metrics.polls, 2);
    assert_eq!(worker0_metrics.tasks, 1);
    assert_eq!(worker0_metrics.slow_polls, 1);
    assert!(worker0_metrics.cpu_time_ns > 0);

    let worker1_metrics = manager(&mut registry).get_worker_metrics(1);
    assert_eq!(worker1_metrics.worker_id, 1);
    assert_eq!(worker1_metrics.polls, 3);
    assert_eq!(worker1_metrics.tasks, 1);
    assert_eq!(worker1_metrics.yields, 1);
    assert_eq!(worker1_metrics.slow_polls, 0);

    let worker2_metrics = manager(&mut registry).get_worker_metrics(2);
    assert_eq!(worker2_metrics.worker_id, 2);
    assert_eq!(worker2_metrics.polls, 1);
    assert_eq!(worker2_metrics.tasks, 1);
    assert_eq!(worker2_metrics.yields, 0);
    assert_eq!(worker2_metrics.slow_polls, 0);

    let all_metrics = manager(&mut registry).get_all_worker_metrics();
    assert_eq!(all_metrics.len(), 3);
    assert!(all_metrics.contains_key(&0));
    assert!(all_metrics.contains_key(&1));
    assert!(all_metrics.contains_key(&2));

    let nonexistent_worker = manager(&mut registry).get_worker_metrics(99);
    assert_eq!(nonexistent_worker.worker_id, 99);
    assert_eq!(nonexistent_worker.polls, 0);
    assert_eq!(nonexistent_worker.tasks, 0);

    manager(&mut registry).reset_worker_stats(0);
    let reset_metrics = manager(&mut registry).get_worker_metrics(0);
    assert_eq!(reset_metrics.polls, 0);
    assert_eq!(reset_metrics.tasks, 0);
    assert_eq!(reset_metrics.slow_polls, 0);
    assert_eq!(reset_metrics.cpu_time_ns, 0);

    let worker1_after_reset = manager(&mut registry).get_worker_metrics(1);
    assert_eq!(worker1_after_reset.polls, 3);
    assert_eq!(worker1_after_reset.yields, 1);
}

#[test]
fn test_worker_tier_promotions_and_violations() {
    let mut config = TierConfig::default();
    config.poll_budget = 2;
    config.tier_policies[0].promotion_threshold = 1;
    config.tier_policies[1].promotion_threshold = 1;
    config.tier_policies[2].promotion_threshold = 1;

    let mut registry = installed(config);

    let task1 = TaskId(101);
    let task2 = TaskId(102);
    let worker0_context = TaskContext { worker_id: 0, priority: None };
    let worker1_context = TaskContext { worker_id: 1, priority: None };

    for _ in 0..5 {
        registry.before_poll(task1, &worker0_context);
        registry.after_poll(task1, PollResult::Pending, Duration::from_millis(100).as_nanos());
    }

    registry.before_poll(task2, &worker1_context);
    registry.after_poll(task2, PollResult::Pending, Duration::from_micros(10).as_nanos());

    let worker0_metrics = manager(&mut registry).get_worker_metrics(0);
    assert_eq!(worker0_metrics.worker_id, 0);
    assert_eq!(worker0_metrics.polls, 5);
    assert!(worker0_metrics.violations > 0, "Worker 0 should have budget violations");

    let worker1_metrics = manager(&mut registry).get_worker_metrics(1);
    assert_eq!(worker1_metrics.worker_id, 1);
    assert_eq!(worker1_metrics.polls, 1);
    assert_eq!(worker1_metrics.violations, 0);
}

#[test]
fn test_worker_voluntary_vs_forced_yields() {
    let mut registry = installed(TierConfig::default());

    let task1 = TaskId(201);
    let task2 = TaskId(202);
    let worker0_context = TaskContext { worker_id: 0, priority: None };
    let worker1_context = TaskContext { worker_id: 1, priority: None };

    registry.before_poll(task1, &worker0_context);
    registry.after_poll(task1, PollResult::Pending, Duration::from_micros(100).as_nanos());
    registry.on_yield(task1);
    registry.on_yield(task1);

    registry.before_poll(task2, &worker1_context);
    registry.after_poll(task2, PollResult::Ready, Duration::from_micros(50).as_nanos());

    let worker0_metrics = manager(&mut registry).get_worker_metrics(0);
    assert_eq!(worker0_metrics.worker_id, 0);
    assert_eq!(worker0_metrics.yields, 2, "Worker 0 should have 2 voluntary yields");

    let worker1_metrics = manager(&mut registry).get_worker_metrics(1);
    assert_eq!(worker1_metrics.worker_id, 1);
    assert_eq!(worker1_metrics.yields, 0, "Worker 1 should have 0 yields");
}

#[test]
fn test_worker_cpu_time_isolation() {
    let mut registry = installed(TierConfig::default());

    let task1 = TaskId(301);
    let task2 = TaskId(302);
    let worker0_context = TaskContext { worker_id: 0, priority: None };
    let worker1_context = TaskContext { worker_id: 1, priority: None };

    registry.before_poll(task1, &worker0_context);
    registry.after_poll(task1, PollResult::Pending, Duration::from_millis(10).as_nanos());

    registry.before_poll(task2, &worker1_context);
    registry.after_poll(task2, PollResult::Pending, Duration::from_micros(100).as_nanos());

    let worker0_metrics = manager(&mut registry).get_worker_metrics(0);
    let worker1_metrics = manager(&mut registry).get_worker_metrics(1);

    assert!(worker0_metrics.cpu_time_ns > 0, "Worker 0 should have CPU time");
    assert!(worker1_metrics.cpu_time_ns > 0, "Worker 1 should have CPU time");

    assert_ne!(worker0_metrics.cpu_time_ns, worker1_metrics.cpu_time_ns,
              "Workers should have different CPU time records");
}
