use std::time::Duration;
use tokio_pulse::{HookRegistry, PollResult, TaskContext, TaskId, TierConfig, TierManager};

fn installed(config: TierConfig) -> HookRegistry<TierManager> {
    let mut registry = HookRegistry::new();
    assert!(registry.set_hooks(TierManager::new(config)).is_none());
    registry
}

fn manager(registry: &mut HookRegistry<TierManager>) -> &mut TierManager {
    registry.hooks.as_mut().unwrap()
}

#[test]
fn test_worker_stats_initialization() {
    let manager = TierManager::new(TierConfig::default());

    let all_stats = manager.get_all_worker_metrics();
    assert!(all_stats.is_empty(), "New manager should have no worker stats");

    let nonexistent_worker = manager.get_worker_metrics(999);
    assert_eq!(nonexistent_worker.worker_id, 999);
    assert_eq!(nonexistent_worker.polls, 0);
    assert_eq!(nonexistent_worker.violations, 0);
    assert_eq!(nonexistent_worker.yields, 0);
    assert_eq!(nonexistent_worker.cpu_time_ns, 0);
    assert_eq!(nonexistent_worker.tasks, 0);
    assert_eq!(nonexistent_worker.slow_polls, 0);
}

#[test]
fn test_worker_isolation() {
    let mut registry = installed(TierConfig::default());

    let tasks_per_worker = 3;
    let num_workers = 5;

    for worker_id in 0..num_workers {
        for task_idx in 0..tasks_per_worker {
            let task_id = TaskId((worker_id * 100 + task_idx) as u64);
            let context = TaskContext { worker_id, priority: None };

            registry.before_poll(task_id, &context);
            registry.after_poll(task_id, PollResult::Pending, Duration::from_micros(100).as_nanos());

            if task_idx == 0 {
                registry.on_yield(task_id);
            }
        }
    }

    for worker_id in 0..num_workers {
        let worker_metrics = manager(&mut registry).get_worker_metrics(worker_id);
        assert_eq!(worker_metrics.worker_id, worker_id);
        assert_eq!(worker_metrics.polls, tasks_per_worker as u64);
        assert_eq!(worker_metrics.tasks, tasks_per_worker as u64);
        assert_eq!(worker_metrics.yields, 1);
        assert!(worker_metrics.cpu_time_ns > 0);
    }

    let all_stats = manager(&mut registry).get_all_worker_metrics();
    assert_eq!(all_stats.len(), num_workers);

    let total_polls: u64 = all_stats.values().map(|s| s.polls).sum();
    assert_eq!(total_polls, (num_workers * tasks_per_worker) as u64);
}

#[test]
fn test_worker_stats_overflow_handling() {
    let mut registry = installed(TierConfig::default());

    let _task_id = TaskId(1);
    let context = TaskContext { worker_id: 0, priority: None };

    let large_operations = 100_000;

    for i in 0..large_operations {
        let task_id = TaskId(i as u64);
        registry.before_poll(task_id, &context);
        registry.after_poll(task_id, PollResult::Ready, Duration::from_nanos(1).as_nanos());

        if i % 10_000 == 0 {
            let worker_metrics = manager(&mut registry).get_worker_metrics(0);
            assert_eq!(worker_metrics.worker_id, 0);
            assert!(worker_metrics.polls > 0);
            assert!(worker_metrics.tasks > 0);
        }
    }

    let final_metrics = manager(&mut registry).get_worker_metrics(0);
    assert_eq!(final_metrics.polls, large_operations as u64);
    assert_eq!(final_metrics.tasks, large_operations as u64);
}

#[test]
fn test_reset_individual_vs_all_workers() {
    let mut registry = installed(TierConfig::default());

    let num_workers = 4;

    for worker_id in 0..num_workers {
        for i in 0..5 {
            let task_id = TaskId((worker_id * 10 + i) as u64);
            let context = TaskContext { worker_id, priority: None };

            registry.before_poll(task_id, &context);
            registry.after_poll(task_id, PollResult::Pending, Duration::from_micros(100).as_nanos());
            registry.on_yield(task_id);
        }
    }

    for worker_id in 0..num_workers {
        let worker_metrics = manager(&mut registry).get_worker_metrics(worker_id);
        assert!(worker_metrics.polls > 0);
        assert!(worker_metrics.yields > 0);
    }

    manager(&mut registry).reset_worker_stats(1);

    let worker_1_metrics = manager(&mut registry).get_worker_metrics(1);
    assert_eq!(worker_1_metrics.polls, 0);
    assert_eq!(worker_1_metrics.yields, 0);
    assert_eq!(worker_1_metrics.tasks, 0);
    assert_eq!(worker_1_metrics.cpu_time_ns, 0);

    for worker_id in [0, 2, 3] {
        let worker_metrics = manager(&mut registry).get_worker_metrics(worker_id);
        assert!(worker_metrics.polls > 0, "Worker {} should still have stats", worker_id);
        assert!(worker_metrics.yields > 0, "Worker {} should still have yields", worker_id);
    }

    manager(&mut registry).reset_worker_stats(1);
    manager(&mut registry).reset_worker_stats(1);
    let worker_1_after_multiple_resets = manager(&mut registry).get_worker_metrics(1);
    assert_eq!(worker_1_after_multiple_resets.polls, 0);
    assert_eq!(worker_1_after_multiple_resets.yields, 0);
}

#[test]
fn test_worker_metrics_api_consistency() {
    let mut registry = installed(TierConfig::default());

    let task_id = TaskId(42);
    let context = TaskContext { worker_id: 5, priority: None };

    registry.before_poll(task_id, &context);
    registry.after_poll(task_id, PollResult::Pending, Duration::from_millis(2).as_nanos());
    registry.on_yield(task_id);

    let single_worker_metrics = manager(&mut registry).get_worker_metrics(5);
    let all_worker_metrics = manager(&mut registry).get_all_worker_metrics();

    assert!(all_worker_metrics.contains_key(&5));
    let worker_5_from_all = &all_worker_metrics[&5];

    assert_eq!(single_worker_metrics.worker_id, worker_5_from_all.worker_id);
    assert_eq!(single_worker_metrics.polls, worker_5_from_all.polls);
    assert_eq!(single_worker_metrics.violations, worker_5_from_all.violations);
    assert_eq!(single_worker_metrics.yields, worker_5_from_all.yields);
    assert_eq!(single_worker_metrics.cpu_time_ns, worker_5_from_all.cpu_time_ns);
    assert_eq!(single_worker_metrics.tasks, worker_5_from_all.tasks);
    assert_eq!(single_worker_metrics.slow_polls, worker_5_from_all.slow_polls);

    assert_eq!(single_worker_metrics.worker_id, 5);
    assert_eq!(single_worker_metrics.polls, 1);
    assert_eq!(single_worker_metrics.tasks, 1);
    assert_eq!(single_worker_metrics.yields, 1);
    assert_eq!(single_worker_metrics.slow_polls, 1);
    assert!(single_worker_metrics.cpu_time_ns > 0);
}

#[test]
fn test_high_frequency_updates() {
    let mut registry = installed(TierConfig::default());

    let start_time = std::time::Instant::now();
    let operations = 50_000;
    let worker_id = 0;

    for i in 0..operations {
        let task_id = TaskId(i as u64);
        let context = TaskContext { worker_id, priority: None };

        registry.before_poll(task_id, &context);
        registry.after_poll(task_id, PollResult::Ready, Duration::from_nanos(100).as_nanos());
    }

    let elapsed = start_time.elapsed();
    let final_metrics = manager(&mut registry).get_worker_metrics(worker_id);

    assert_eq!(final_metrics.polls, operations as u64);
    assert_eq!(final_metrics.tasks, operations as u64);

    assert!(elapsed < Duration::from_secs(10),
           "High frequency updates took too long: {:?}", elapsed);
}

#[test]
fn test_worker_stats_memory_usage() {
    let mut registry = installed(TierConfig::default());

    let num_workers = 100;
    let tasks_per_worker = 10;

    for worker_id in 0..num_workers {
        for task_idx in 0..tasks_per_worker {
            let task_id = TaskId((worker_id * 1000 + task_idx) as u64);
            let context = TaskContext { worker_id, priority: None };

            registry.before_poll(task_id, &context);
            registry.after_poll(task_id, PollResult::Ready, Duration::from_micros(10).as_nanos());
            registry.on_completion(task_id);
        }
    }

    let all_stats = manager(&mut registry).get_all_worker_metrics();
    assert_eq!(all_stats.len(), num_workers);

    for worker_id in 0..num_workers {
        let worker_metrics = manager(&mut registry).get_worker_metrics(worker_id);
        assert_eq!(worker_metrics.worker_id, worker_id);
        assert_eq!(worker_metrics.polls, tasks_per_worker as u64);
        assert_eq!(worker_metrics.tasks, tasks_per_worker as u64);
    }

    for worker_id in 0..num_workers {
        manager(&mut registry).reset_worker_stats(worker_id);
    }

    let all_stats_after_reset = manager(&mut registry).get_all_worker_metrics();
    assert_eq!(all_stats_after_reset.len(), num_workers);

    for worker_id in 0..num_workers {
        let worker_metrics = manager(&mut registry).get_worker_metrics(worker_id);
        assert_eq!(worker_metrics.polls, 0);
        assert_eq!(worker_metrics.tasks, 0);
        assert_eq!(worker_metrics.yields, 0);
        assert_eq!(worker_metrics.cpu_time_ns, 0);
    }
}

#[test]
fn test_worker_stats_edge_cases() {
    let mut registry = installed(TierConfig::default());

    let max_worker_id = usize::MAX;
    let task_id = TaskId(1);
    let context = TaskContext { worker_id: max_worker_id, priority: Some(255) };

    registry.before_poll(task_id, &context);
    registry.after_poll(task_id, PollResult::Ready, Duration::from_micros(1).as_nanos());

    let max_worker_metrics = manager(&mut registry).get_worker_metrics(max_worker_id);
    assert_eq!(max_worker_metrics.worker_id, max_worker_id);
    assert_eq!(max_worker_metrics.polls, 1);
    assert_eq!(max_worker_metrics.tasks, 1);

    for i in 1000..2000 {
        let task_id = TaskId(i);
        let context = TaskContext { worker_id: 0, priority: None };

        registry.before_poll(task_id, &context);
        registry.after_poll(task_id, PollResult::Ready, Duration::from_nanos(1).as_nanos());
        registry.on_completion(task_id);
    }

    let worker_0_metrics = manager(&mut registry).get_worker_metrics(0);
    assert_eq!(worker_0_metrics.polls, 1000);
    assert_eq!(worker_0_metrics.tasks, 1000);

    let task_id = TaskId(9999);
    let context = TaskContext { worker_id: 1, priority: None };

    registry.before_poll(task_id, &context);
    registry.after_poll(task_id, PollResult::Pending, Duration::ZERO.as_nanos());

    let worker_1_metrics = manager(&mut registry).get_worker_metrics(1);
    assert_eq!(worker_1_metrics.polls, 1);
    assert_eq!(worker_1_metrics.cpu_time_ns, 0);
}
