use tokio_pulse::slow_queue::adaptive::adaptive_batch_size;
use tokio_pulse::slow_queue::{
    LoadReading, QueueError, SchedulingAlgorithm, SlidingWindow, SlowQueue, SlowQueueConfig,
    SlowTask, TaskPriority,
};
use tokio_pulse::TaskId;

const SECOND: u128 = 1_000_000_000;

fn task(id: u64, priority: TaskPriority) -> SlowTask {
    SlowTask {
        task_id: TaskId(id),
        enqueue_time: 0,
        tier: 1,
        violations: 1,
        cpu_time_ns: 0,
        poll_count: 0,
        priority,
    }
}

fn ids(batch: &[SlowTask]) -> Vec<u64> {
    batch.iter().map(|task| task.task_id.0).collect()
}

fn average(window: &SlidingWindow) -> f64 {
    let samples = window.filled();
    if samples.is_empty() {
        return 0.0;
    }
    samples.iter().map(|bits| f64::from_bits(*bits)).sum::<f64>() / samples.len() as f64
}

fn derivative(window: &SlidingWindow) -> f64 {
    match window.latest_two() {
        Some((latest, before)) => f64::from_bits(latest) - f64::from_bits(before),
        None => 0.0,
    }
}

#[test]
fn test_enqueue_dequeue_basic() {
    let mut queue = SlowQueue::new(Default::default());

    let task = SlowTask {
        task_id: TaskId(1),
        enqueue_time: queue.now_ns(),
        tier: 2,
        violations: 3,
        cpu_time_ns: 1_000_000,
        poll_count: 100,
        priority: TaskPriority::Normal,
    };

    assert!(queue.enqueue(task).is_ok());
    assert_eq!(queue.size(), 1);

    let batch = queue.process_batch(1);
    assert_eq!(batch.len(), 1);
    assert_eq!(queue.size(), 0);
}

#[test]
fn test_priority_ordering() {
    let mut queue = SlowQueue::new(Default::default());

    for i in 0..4 {
        let task = SlowTask {
            task_id: TaskId(i),
            enqueue_time: queue.now_ns(),
            tier: 2,
            violations: 1,
            cpu_time_ns: 0,
            poll_count: 0,
            priority: match i {
                0 => TaskPriority::Low,
                1 => TaskPriority::Normal,
                2 => TaskPriority::High,
                3 => TaskPriority::Critical,
                _ => TaskPriority::Normal,
            },
        };
        queue.enqueue(task).unwrap();
    }

    let batch = queue.process_batch(1);
    assert_eq!(batch[0].priority, TaskPriority::Critical);
}

#[test]
fn test_queue_full() {
    let mut config = SlowQueueConfig::default();
    config.max_queue_size = 2;
    let mut queue = SlowQueue::new(config);

    for i in 0..3 {
        let task = SlowTask {
            task_id: TaskId(i),
            enqueue_time: queue.now_ns(),
            tier: 2,
            violations: 1,
            cpu_time_ns: 0,
            poll_count: 0,
            priority: TaskPriority::Normal,
        };

        if i < 2 {
            assert!(queue.enqueue(task).is_ok());
        } else {
            assert!(matches!(queue.enqueue(task), Err(QueueError::QueueFull)));
        }
    }
}

#[test]
fn test_source_throttling() {
    let mut config = SlowQueueConfig::default();
    config.max_tasks_per_source = 2;
    let mut queue = SlowQueue::new(config);

    for i in 0..3 {
        let task = SlowTask {
            task_id: TaskId((1u64 << 32) | i),
            enqueue_time: queue.now_ns(),
            tier: 2,
            violations: 1,
            cpu_time_ns: 0,
            poll_count: 0,
            priority: TaskPriority::Normal,
        };

        if i < 2 {
            assert!(queue.enqueue(task).is_ok());
        } else {
            assert!(matches!(queue.enqueue(task), Err(QueueError::SourceThrottled)));
        }
    }
}

#[test]
fn test_metrics_tracking() {
    let mut queue = SlowQueue::new(Default::default());

    let task = SlowTask {
        task_id: TaskId(1),
        enqueue_time: queue.now_ns(),
        tier: 2,
        violations: 1,
        cpu_time_ns: 0,
        poll_count: 0,
        priority: TaskPriority::Critical,
    };

    queue.enqueue(task).unwrap();
    let metrics = queue.metrics();
    assert_eq!(metrics.critical_enqueued, 1);

    let _ = queue.process_batch(1);
    let metrics = queue.metrics();
    assert_eq!(metrics.critical_processed, 1);
    assert_eq!(metrics.total_processed, 1);
}

#[test]
fn test_adaptive_batch_sizing() {
    let mut config = SlowQueueConfig::default();
    config.adaptive_enabled = true;
    config.default_batch_size = 32;
    config.max_batch_size = 256;

    let mut queue = SlowQueue::new(config);

    let batch_size = queue.calculate_batch_size();
    assert!(batch_size >= 24 && batch_size <= 32);

    for i in 0..100 {
        let task = SlowTask {
            task_id: TaskId(i),
            enqueue_time: queue.now_ns(),
            tier: 1,
            violations: 1,
            cpu_time_ns: 500_000,
            poll_count: 10,
            priority: TaskPriority::Normal,
        };
        let _ = queue.enqueue(task);
    }

    queue.update_memory_pressure(0.5f32.to_bits());
    let batch_size = queue.calculate_batch_size();
    assert!(batch_size >= 1 && batch_size <= 256);
}

#[test]
fn test_adaptive_queue_controller() {
    let config = SlowQueueConfig::default();
    let mut queue = SlowQueue::new(config);

    let (current_size, resize_count, memory_pressure) = queue.adaptive_metrics();
    assert_eq!(current_size, 10_000);
    assert_eq!(resize_count, 0);
    assert_eq!(f32::from_bits(memory_pressure), 0.0);

    queue.update_memory_pressure(0.75f32.to_bits());
    let (_, _, memory_pressure) = queue.adaptive_metrics();
    assert_eq!(f32::from_bits(memory_pressure), 0.75);

    let load = LoadReading {
        throughput_high: false,
        throughput_low: false,
        queue_growing: false,
        queue_shrinking: false,
        grown_size: 0,
        shrunk_size: 0,
    };
    let now = queue.now_ns();
    queue.record_load(100.0f64.to_bits(), 0.0f64.to_bits(), now);
    queue.update_adaptive_metrics(&load, now);
}

#[test]
fn test_adaptive_queue_sizing_disabled() {
    let mut config = SlowQueueConfig::default();
    config.adaptive_enabled = false;

    let mut queue = SlowQueue::new(config);

    for i in 0..1001 {
        queue.enqueue(task(i << 32, TaskPriority::Normal)).unwrap();
    }
    assert_eq!(queue.size(), 1001);

    let batch_size = queue.calculate_batch_size();
    assert_eq!(batch_size, 64);

    assert_eq!(queue.process_batch(500).len(), 500);
    assert_eq!(queue.size(), 501);
    let batch_size = queue.calculate_batch_size();
    assert_eq!(batch_size, 48);

    assert_eq!(queue.process_batch(401).len(), 401);
    assert_eq!(queue.size(), 100);
    let batch_size = queue.calculate_batch_size();
    assert_eq!(batch_size, 32);
}

#[test]
fn test_sliding_window() {
    let mut window = SlidingWindow::new(5, 0);

    assert_eq!(average(&window), 0.0);
    assert_eq!(derivative(&window), 0.0);

    window.add_sample(10.0f64.to_bits(), 1);
    window.add_sample(20.0f64.to_bits(), 2);
    window.add_sample(30.0f64.to_bits(), 3);

    assert_eq!(average(&window), 20.0);
    assert_eq!(derivative(&window), 10.0);

    for i in 0..10 {
        window.add_sample((i as f64).to_bits(), 4);
    }

    assert_eq!(window.count(), 5);
}

#[test]
fn test_adaptive_memory_pressure_constraints() {
    let mut config = SlowQueueConfig::default();
    config.adaptive_enabled = true;
    config.memory_pressure_threshold_bits = 0.8f32.to_bits();

    let mut queue = SlowQueue::new(config);

    for i in 0..500 {
        let task = SlowTask {
            task_id: TaskId(i),
            enqueue_time: queue.now_ns(),
            tier: 1,
            violations: 1,
            cpu_time_ns: 500_000,
            poll_count: 10,
            priority: TaskPriority::Normal,
        };
        let _ = queue.enqueue(task);
    }

    queue.update_memory_pressure(0.9f32.to_bits());
    let high_pressure_batch = queue.calculate_batch_size();

    queue.update_memory_pressure(0.3f32.to_bits());
    let low_pressure_batch = queue.calculate_batch_size();

    assert!(high_pressure_batch <= low_pressure_batch);
}

#[test]
fn test_lottery_scheduling_fairness() {
    let mut config = SlowQueueConfig::default();
    config.scheduling_algorithm = SchedulingAlgorithm::Lottery;
    config.lottery_tickets = [0, 60, 30, 10];

    let mut queue = SlowQueue::new(config);

    let high_priority_count = 5;
    let normal_priority_count = 5;
    let low_priority_count = 5;

    for i in 0..high_priority_count {
        let task = SlowTask {
            task_id: TaskId(i),
            enqueue_time: queue.now_ns(),
            tier: 1,
            violations: 1,
            cpu_time_ns: 100_000,
            poll_count: 5,
            priority: TaskPriority::High,
        };
        queue.enqueue(task).unwrap();
    }

    for i in high_priority_count..(high_priority_count + normal_priority_count) {
        let task = SlowTask {
            task_id: TaskId(i),
            enqueue_time: queue.now_ns(),
            tier: 1,
            violations: 1,
            cpu_time_ns: 100_000,
            poll_count: 5,
            priority: TaskPriority::Normal,
        };
        queue.enqueue(task).unwrap();
    }

    let others = high_priority_count + normal_priority_count;
    for i in others..(others + low_priority_count) {
        let task = SlowTask {
            task_id: TaskId(i),
            enqueue_time: queue.now_ns(),
            tier: 1,
            violations: 1,
            cpu_time_ns: 100_000,
            poll_count: 5,
            priority: TaskPriority::Low,
        };
        queue.enqueue(task).unwrap();
    }

    let mut high_processed = 0;
    let mut normal_processed = 0;
    let mut low_processed = 0;

    while queue.size() > 0 {
        let batch = queue.process_batch_lottery(1);
        for task in batch {
            match task.priority {
                TaskPriority::High => high_processed += 1,
                TaskPriority::Normal => normal_processed += 1,
                TaskPriority::Low => low_processed += 1,
                _ => {}
            }
        }
    }

    assert_eq!(
        high_processed, high_priority_count as i32,
        "All high priority tasks should be processed"
    );
    assert_eq!(
        normal_processed, normal_priority_count as i32,
        "All normal priority tasks should be processed"
    );
    assert_eq!(
        low_processed, low_priority_count as i32,
        "All low priority tasks should be processed"
    );

    assert!(high_processed > 0, "High priority tasks should get some processing");
    assert!(normal_processed > 0, "Normal priority tasks should get some processing");
    assert!(low_processed > 0, "Low priority tasks should get some processing");
}

#[test]
fn test_lottery_scheduling_critical_priority() {
    let mut config = SlowQueueConfig::default();
    config.scheduling_algorithm = SchedulingAlgorithm::Lottery;
    config.lottery_tickets = [0, 60, 30, 10];

    let mut queue = SlowQueue::new(config);

    let critical_task = SlowTask {
        task_id: TaskId(1),
        enqueue_time: queue.now_ns(),
        tier: 1,
        violations: 1,
        cpu_time_ns: 100_000,
        poll_count: 5,
        priority: TaskPriority::Critical,
    };
    queue.enqueue(critical_task).unwrap();

    for i in 2..10 {
        let task = SlowTask {
            task_id: TaskId(i),
            enqueue_time: queue.now_ns(),
            tier: 1,
            violations: 1,
            cpu_time_ns: 100_000,
            poll_count: 5,
            priority: TaskPriority::Normal,
        };
        queue.enqueue(task).unwrap();
    }

    let batch = queue.process_batch_lottery(3);
    assert_eq!(batch[0].priority, TaskPriority::Critical,
              "Critical task should be processed first");
}

#[test]
fn test_drr_scheduling_fairness() {
    let mut config = SlowQueueConfig::default();
    config.scheduling_algorithm = SchedulingAlgorithm::DeficitRoundRobin;
    config.drr_quantum = [0, 1, 2, 3];

    let mut queue = SlowQueue::new(config);

    for i in 0..5 {
        let task = SlowTask {
            task_id: TaskId(i),
            enqueue_time: queue.now_ns(),
            tier: 1,
            violations: 1,
            cpu_time_ns: 100_000,
            poll_count: 5,
            priority: TaskPriority::High,
        };
        queue.enqueue(task).unwrap();
    }

    for i in 5..10 {
        let task = SlowTask {
            task_id: TaskId(i),
            enqueue_time: queue.now_ns(),
            tier: 1,
            violations: 1,
            cpu_time_ns: 100_000,
            poll_count: 5,
            priority: TaskPriority::Normal,
        };
        queue.enqueue(task).unwrap();
    }

    for i in 10..15 {
        let task = SlowTask {
            task_id: TaskId(i),
            enqueue_time: queue.now_ns(),
            tier: 1,
            violations: 1,
            cpu_time_ns: 100_000,
            poll_count: 5,
            priority: TaskPriority::Low,
        };
        queue.enqueue(task).unwrap();
    }

    let mut high_processed = 0;
    let mut normal_processed = 0;
    let mut low_processed = 0;

    for _ in 0..10 {
        let batch = queue.process_batch_drr(3);
        for task in batch {
            match task.priority {
                TaskPriority::High => high_processed += 1,
                TaskPriority::Normal => normal_processed += 1,
                TaskPriority::Low => low_processed += 1,
                _ => {}
            }
        }
    }

    assert!(high_processed >= normal_processed,
           "High priority (quantum=3) should process >= Normal (quantum=2): {} vs {}",
           high_processed, normal_processed);
    assert!(normal_processed >= low_processed,
           "Normal priority (quantum=2) should process >= Low (quantum=1): {} vs {}",
           normal_processed, low_processed);

    assert!(low_processed > 0, "Low priority tasks should get some processing");
}

#[test]
fn test_drr_deficit_tracking() {
    let mut config = SlowQueueConfig::default();
    config.scheduling_algorithm = SchedulingAlgorithm::DeficitRoundRobin;
    config.drr_quantum = [0, 1, 2, 3];

    let mut queue = SlowQueue::new(config);

    let priorities = [TaskPriority::High, TaskPriority::Normal, TaskPriority::Low];
    for (i, priority) in priorities.iter().enumerate() {
        let task = SlowTask {
            task_id: TaskId(i as u64),
            enqueue_time: queue.now_ns(),
            tier: 1,
            violations: 1,
            cpu_time_ns: 100_000,
            poll_count: 5,
            priority: *priority,
        };
        queue.enqueue(task).unwrap();
    }

    let batch = queue.process_batch_drr(1);
    assert_eq!(batch.len(), 1);
    assert_eq!(batch[0].priority, TaskPriority::High);

    for i in 10..13 {
        let task = SlowTask {
            task_id: TaskId(i),
            enqueue_time: queue.now_ns(),
            tier: 1,
            violations: 1,
            cpu_time_ns: 100_000,
            poll_count: 5,
            priority: TaskPriority::High,
        };
        queue.enqueue(task).unwrap();
    }

    let batch = queue.process_batch_drr(3);
    assert!(batch.len() <= 3);

}

#[test]
fn test_drr_round_robin_progression() {
    let mut config = SlowQueueConfig::default();
    config.scheduling_algorithm = SchedulingAlgorithm::DeficitRoundRobin;
    config.drr_quantum = [0, 2, 2, 2];

    let mut queue = SlowQueue::new(config);

    let task_count_per_priority = 6;

    for priority_idx in 1..=3 {
        for i in 0..task_count_per_priority {
            let task = SlowTask {
                task_id: TaskId((priority_idx * 100 + i) as u64),
                enqueue_time: queue.now_ns(),
                tier: 1,
                violations: 1,
                cpu_time_ns: 100_000,
                poll_count: 5,
                priority: match priority_idx {
                    1 => TaskPriority::High,
                    2 => TaskPriority::Normal,
                    3 => TaskPriority::Low,
                    _ => TaskPriority::Normal,
                },
            };
            queue.enqueue(task).unwrap();
        }
    }

    let mut processed_by_priority = vec![0; 4];

    for _ in 0..15 {
        let batch = queue.process_batch_drr(1);
        for task in batch {
            let priority_idx = match task.priority {
                TaskPriority::Critical => 0,
                TaskPriority::High => 1,
                TaskPriority::Normal => 2,
                TaskPriority::Low => 3,
            };
            processed_by_priority[priority_idx] += 1;
        }
    }

    let high_processed = processed_by_priority[1];
    let normal_processed = processed_by_priority[2];
    let low_processed = processed_by_priority[3];

    let max_variance = 3;
    assert!((high_processed as i32 - normal_processed as i32).abs() <= max_variance,
           "High and Normal should have similar processing counts with equal quantum: {} vs {}",
           high_processed, normal_processed);
    assert!((normal_processed as i32 - low_processed as i32).abs() <= max_variance,
           "Normal and Low should have similar processing counts with equal quantum: {} vs {}",
           normal_processed, low_processed);
}

#[test]
fn test_credit_based_scheduling() {
    let mut config = SlowQueueConfig::default();
    config.scheduling_algorithm = SchedulingAlgorithm::CreditBased;

    let mut queue = SlowQueue::new(config);

    for i in 0..10 {
        let task = SlowTask {
            task_id: TaskId(i),
            enqueue_time: queue.now_ns(),
            tier: 1,
            violations: 1,
            cpu_time_ns: 100_000,
            poll_count: 5,
            priority: if i < 3 { TaskPriority::High }
                     else if i < 7 { TaskPriority::Normal }
                     else { TaskPriority::Low },
        };
        queue.enqueue(task).unwrap();
    }

    let batch = queue.process_batch(5);
    assert!(batch.len() <= 5);

    for i in 0..batch.len().saturating_sub(1) {
        let current_priority_val = match batch[i].priority {
            TaskPriority::Critical => 0,
            TaskPriority::High => 1,
            TaskPriority::Normal => 2,
            TaskPriority::Low => 3,
        };
        let next_priority_val = match batch[i + 1].priority {
            TaskPriority::Critical => 0,
            TaskPriority::High => 1,
            TaskPriority::Normal => 2,
            TaskPriority::Low => 3,
        };

        assert!(current_priority_val <= next_priority_val,
               "Tasks should be processed in priority order for credit-based");
    }
}

#[test]
fn critical_tasks_come_first_in_order() {
    for algorithm in [
        SchedulingAlgorithm::CreditBased,
        SchedulingAlgorithm::Lottery,
        SchedulingAlgorithm::DeficitRoundRobin,
    ] {
        let mut config = SlowQueueConfig::default();
        config.scheduling_algorithm = algorithm;
        let mut queue = SlowQueue::new(config);
        queue.enqueue(task(1, TaskPriority::High)).unwrap();
        queue.enqueue(task(2, TaskPriority::Critical)).unwrap();
        queue.enqueue(task(3, TaskPriority::Critical)).unwrap();
        assert_eq!(ids(&queue.process_batch(2)), vec![2, 3]);
        assert_eq!(queue.size(), 1);
        assert_eq!(queue.metrics().critical_processed, 2);
    }
}

#[test]
fn credits_bound_each_priority() {
    let mut queue = SlowQueue::new(SlowQueueConfig::default());
    for i in 0..5 {
        queue.enqueue(task(i, TaskPriority::High)).unwrap();
    }
    for i in 5..8 {
        queue.enqueue(task(i, TaskPriority::Normal)).unwrap();
    }
    for i in 8..10 {
        queue.enqueue(task(i, TaskPriority::Low)).unwrap();
    }
    assert_eq!(ids(&queue.process_batch(6)), vec![0, 1, 2, 5, 6, 8]);
    assert_eq!(queue.size(), 4);
    // Each batch has credits of its own.
    assert_eq!(ids(&queue.process_batch(4)), vec![3, 4, 7, 9]);
    assert_eq!(queue.size(), 0);
}

#[test]
fn first_come_first_served_when_credits_are_spent() {
    let mut queue = SlowQueue::new(SlowQueueConfig::default());
    for i in 0..5 {
        queue.enqueue(task(i, TaskPriority::High)).unwrap();
    }
    queue.enqueue(task(7, TaskPriority::Low)).unwrap();
    queue.enqueue(task(8, TaskPriority::Low)).unwrap();
    queue.enqueue(task(5, TaskPriority::High)).unwrap();
    assert_eq!(ids(&queue.process_batch(8)), vec![0, 1, 2, 7, 3, 4, 8, 5]);
    assert_eq!(queue.size(), 0);
}

#[test]
fn empty_queue_gives_an_empty_batch() {
    let mut queue = SlowQueue::new(SlowQueueConfig::default());
    assert!(queue.process_batch(10).is_empty());
    assert!(queue.process_batch_lottery(10).is_empty());
    assert!(queue.process_batch_drr(10).is_empty());
    assert_eq!(queue.metrics().total_processed, 0);
}

#[test]
fn tickets_decide_the_lottery() {
    let mut config = SlowQueueConfig::default();
    config.lottery_tickets = [0, 60, 30, 10];
    let mut queue = SlowQueue::new(config);
    queue.enqueue(task(1, TaskPriority::High)).unwrap();
    queue.enqueue(task(2, TaskPriority::Normal)).unwrap();
    queue.enqueue(task(3, TaskPriority::Low)).unwrap();

    assert_eq!(queue.lottery_step(60).unwrap().task_id, TaskId(2));
    assert_eq!(queue.lottery_step(90).unwrap().task_id, TaskId(3));
    assert_eq!(queue.lottery_step(59).unwrap().task_id, TaskId(1));
    assert!(queue.lottery_step(0).is_none());
    assert_eq!(queue.size(), 0);
    // The winner has no task: the first to arrive is served.
    queue.enqueue(task(4, TaskPriority::Normal)).unwrap();
    queue.enqueue(task(5, TaskPriority::High)).unwrap();
    assert_eq!(queue.lottery_step(95).unwrap().task_id, TaskId(4));
    assert_eq!(queue.lottery_step(95).unwrap().task_id, TaskId(5));
}

#[test]
fn a_winner_without_tasks_passes_its_turn_down() {
    let mut config = SlowQueueConfig::default();
    config.lottery_tickets = [0, 60, 30, 10];
    let mut queue = SlowQueue::new(config);
    queue.enqueue(task(3, TaskPriority::Low)).unwrap();
    assert_eq!(queue.lottery_step(0).unwrap().task_id, TaskId(3));
}

#[test]
fn lottery_draws_different_winners() {
    let mut config = SlowQueueConfig::default();
    config.lottery_tickets = [0, 50, 50, 0];
    let mut queue = SlowQueue::new(config);
    fastrand::seed(3);
    for i in 0..40 {
        let priority = if i < 20 { TaskPriority::High } else { TaskPriority::Normal };
        queue.enqueue(task(i, priority)).unwrap();
    }
    let batch = queue.process_batch_lottery(20);
    let high = batch.iter().filter(|task| task.priority == TaskPriority::High).count();
    assert_eq!(batch.len(), 20);
    assert!(high > 0 && high < 20, "{}", high);
}

#[test]
fn deficits_follow_the_quantum() {
    let mut config = SlowQueueConfig::default();
    config.drr_quantum = [0, 2, 1, 1];
    let mut queue = SlowQueue::new(config);
    for i in 0..3 {
        queue.enqueue(task(i, TaskPriority::High)).unwrap();
        queue.enqueue(task(10 + i, TaskPriority::Normal)).unwrap();
        queue.enqueue(task(20 + i, TaskPriority::Low)).unwrap();
    }
    assert_eq!(queue.process_batch_drr(4).len(), 4);
    assert_eq!(queue.size(), 5);
}

#[test]
fn quantum_is_served_once_per_turn() {
    let mut queue = SlowQueue::new(SlowQueueConfig::default());
    for i in 0..6 {
        queue.enqueue(task(i, TaskPriority::High)).unwrap();
        queue.enqueue(task(10 + i, TaskPriority::Normal)).unwrap();
        queue.enqueue(task(20 + i, TaskPriority::Low)).unwrap();
    }
    assert_eq!(ids(&queue.process_batch_drr(6)), vec![0, 1, 2, 10, 11, 20]);
    assert_eq!(ids(&queue.process_batch_drr(4)), vec![3, 4, 5, 12]);
    // The turn goes on in the next batch.
    assert_eq!(ids(&queue.process_batch_drr(8)), vec![13, 21, 14, 15, 22, 23, 24, 25]);
    assert_eq!(queue.size(), 0);
}

#[test]
fn large_base_batches_need_no_room_while_the_queue_is_short() {
    let mut config = SlowQueueConfig::default();
    config.adaptive_enabled = false;
    config.default_batch_size = usize::MAX;
    let mut queue = SlowQueue::new(config);
    queue.enqueue(task(1, TaskPriority::Low)).unwrap();
    assert_eq!(queue.calculate_batch_size(), usize::MAX);
}

#[test]
fn no_task_is_handed_out_again() {
    for algorithm in [
        SchedulingAlgorithm::CreditBased,
        SchedulingAlgorithm::Lottery,
        SchedulingAlgorithm::DeficitRoundRobin,
    ] {
        let mut config = SlowQueueConfig::default();
        config.scheduling_algorithm = algorithm;
        let mut queue = SlowQueue::new(config);
        let priorities = [
            TaskPriority::Critical,
            TaskPriority::High,
            TaskPriority::Normal,
            TaskPriority::Low,
        ];
        for i in 0..20 {
            queue.enqueue(task(i, priorities[i as usize % 4])).unwrap();
        }
        let mut seen = Vec::new();
        for round in 1..8 {
            let batch = queue.process_batch(round);
            seen.extend(ids(&batch));
            assert_eq!(queue.size(), 20usize.saturating_sub(seen.len()));
        }
        seen.sort_unstable();
        assert_eq!(seen, (0..20).collect::<Vec<u64>>());
        assert!(queue.process_batch(5).is_empty());
        assert_eq!(queue.metrics().total_processed, 20);
    }
}

#[test]
fn handed_out_critical_tasks_free_their_source() {
    let mut config = SlowQueueConfig::default();
    config.max_tasks_per_source = 1;
    let mut queue = SlowQueue::new(config);
    for i in 0..3 {
        queue.enqueue(task(i, TaskPriority::Critical)).unwrap();
        assert!(matches!(
            queue.enqueue(task(9, TaskPriority::Critical)),
            Err(QueueError::SourceThrottled)
        ));
        assert_eq!(ids(&queue.process_batch(1)), vec![i]);
    }
    assert_eq!(queue.size(), 0);
}

#[test]
fn refused_tasks_change_nothing() {
    let mut config = SlowQueueConfig::default();
    config.max_queue_size = 1;
    let mut queue = SlowQueue::new(config);
    queue.enqueue(task(1, TaskPriority::Normal)).unwrap();
    let before = queue.metrics();
    assert!(matches!(
        queue.enqueue(task(2, TaskPriority::Normal)),
        Err(QueueError::QueueFull)
    ));
    assert_eq!(queue.metrics(), before);
}

#[test]
fn backoff_ends_at_its_time() {
    let mut queue = SlowQueue::new(SlowQueueConfig::default());
    queue.apply_backoff_at(TaskId(5), 100, 1_000);
    assert!(matches!(
        queue.enqueue_at(task(5, TaskPriority::Normal), 1_099),
        Err(QueueError::BackoffActive)
    ));
    assert!(queue.enqueue_at(task(6, TaskPriority::Normal), 1_099).is_ok());
    assert!(queue.enqueue_at(task(5, TaskPriority::Normal), 1_100).is_ok());

    queue.apply_backoff(TaskId(7), 3600 * SECOND);
    assert!(matches!(
        queue.enqueue(task(7, TaskPriority::Normal)),
        Err(QueueError::BackoffActive)
    ));
}

#[test]
fn sources_are_released_with_their_tasks() {
    let mut config = SlowQueueConfig::default();
    config.max_tasks_per_source = 1;
    let mut queue = SlowQueue::new(config);
    queue.enqueue(task(1, TaskPriority::Normal)).unwrap();
    assert!(matches!(
        queue.enqueue(task(2, TaskPriority::Normal)),
        Err(QueueError::SourceThrottled)
    ));
    assert!(queue.enqueue(task(1 << 32, TaskPriority::Normal)).is_ok());
    assert_eq!(ids(&queue.process_batch(1)), vec![1]);
    assert!(queue.enqueue(task(2, TaskPriority::Normal)).is_ok());
}

#[test]
fn starving_tasks_are_boosted() {
    let mut queue = SlowQueue::new(SlowQueueConfig::default());
    queue.enqueue(task(1, TaskPriority::Low)).unwrap();
    let mut fresh = task(2, TaskPriority::Low);
    fresh.enqueue_time = 10 * SECOND;
    queue.enqueue(fresh).unwrap();

    queue.prevent_starvation_at(SECOND);
    assert_eq!(queue.metrics().starvation_prevented, 0);

    queue.prevent_starvation_at(SECOND + SECOND / 1000);
    assert_eq!(queue.metrics().starvation_prevented, 1);
    assert_eq!(queue.metrics().priority_promotions, 1);

    let batch = queue.process_batch(1);
    assert_eq!(batch[0].task_id, TaskId(1));
    assert_eq!(batch[0].priority, TaskPriority::Normal);
}

#[test]
fn starving_high_tasks_stay_high() {
    let mut queue = SlowQueue::new(SlowQueueConfig::default());
    queue.enqueue(task(1, TaskPriority::High)).unwrap();
    queue.prevent_starvation_at(5 * SECOND);
    let batch = queue.process_batch(1);
    assert_eq!(ids(&batch), vec![1]);
    assert_eq!(batch[0].priority, TaskPriority::High);
}

#[test]
fn cleared_queue_remembers_nothing() {
    let mut config = SlowQueueConfig::default();
    config.max_tasks_per_source = 1;
    let mut queue = SlowQueue::new(config);
    queue.enqueue(task(1, TaskPriority::Normal)).unwrap();
    queue.apply_backoff(TaskId(9), 3600 * SECOND);
    queue.clear();
    assert_eq!(queue.size(), 0);
    assert!(queue.process_batch(5).is_empty());
    assert!(queue.enqueue(task(9, TaskPriority::Normal)).is_ok());
}

#[test]
fn high_water_mark_stays() {
    let mut queue = SlowQueue::new(SlowQueueConfig::default());
    for i in 0..3 {
        queue.enqueue(task(i, TaskPriority::Critical)).unwrap();
    }
    assert_eq!(queue.process_batch(3).len(), 3);
    assert_eq!(queue.size(), 0);
    assert_eq!(queue.metrics().queue_depth_high_water, 3);
    assert_eq!(queue.metrics().total_processed, 3);
}

#[test]
fn boosts_stop_at_high() {
    assert_eq!(TaskPriority::Low.boost(), TaskPriority::Normal);
    assert_eq!(TaskPriority::Normal.boost(), TaskPriority::High);
    assert_eq!(TaskPriority::High.boost(), TaskPriority::High);
    assert_eq!(TaskPriority::Critical.boost(), TaskPriority::Critical);
    assert_eq!(TaskPriority::Low.index(), 3);
    assert!(TaskPriority::Critical < TaskPriority::Low);
}

#[test]
fn window_keeps_the_latest_samples() {
    let mut window = SlidingWindow::new(3, 0);
    for i in 1..=5 {
        window.add_sample(i, i as u128);
    }
    assert_eq!(window.count(), 3);
    let mut kept = window.filled();
    kept.sort();
    assert_eq!(kept, vec![3, 4, 5]);
    assert_eq!(window.latest_two(), Some((5, 4)));
    assert_eq!(window.idle_ns(12), 7);
}

#[test]
fn load_changes_the_limit() {
    let mut queue = SlowQueue::new(SlowQueueConfig::default());
    let growing = LoadReading {
        throughput_high: true,
        throughput_low: false,
        queue_growing: true,
        queue_shrinking: false,
        grown_size: 15_000,
        shrunk_size: 7_500,
    };
    queue.update_adaptive_metrics(&growing, 4 * SECOND);
    assert_eq!(queue.current_max_queue_size(), 10_000);
    queue.update_adaptive_metrics(&growing, 5 * SECOND);
    assert_eq!(queue.current_max_queue_size(), 15_000);
    queue.update_adaptive_metrics(&growing, 9 * SECOND);
    assert_eq!(queue.adaptive_metrics().1, 1);

    let shrinking = LoadReading {
        throughput_high: false,
        throughput_low: true,
        queue_growing: false,
        queue_shrinking: true,
        grown_size: 22_500,
        shrunk_size: 900,
    };
    queue.update_adaptive_metrics(&shrinking, 10 * SECOND);
    assert_eq!(queue.current_max_queue_size(), 1_000);
    assert_eq!(queue.metrics().resize_count, 2);

    let huge = LoadReading { grown_size: usize::MAX, ..growing };
    queue.update_adaptive_metrics(&huge, 20 * SECOND);
    assert_eq!(queue.current_max_queue_size(), 4_000);

    queue.update_memory_pressure(0.9f32.to_bits());
    queue.update_adaptive_metrics(&huge, 30 * SECOND);
    assert_eq!(queue.current_max_queue_size(), 4_000);
}

#[test]
fn load_is_sampled() {
    let mut queue = SlowQueue::new(SlowQueueConfig::default());
    let now = queue.now_ns();
    assert_eq!(queue.latest_depths(), None);
    queue.record_load(1, 10, now + 2 * SECOND);
    queue.record_load(2, 11, now + 2 * SECOND);
    assert_eq!(queue.latest_depths(), Some((11, 10)));
    assert_eq!(queue.throughput_samples(), vec![1]);
    assert_eq!(queue.throughput_idle_ns(now + 5 * SECOND), 3 * SECOND);
}

#[test]
fn memory_pressure_is_kept_in_range() {
    let mut queue = SlowQueue::new(SlowQueueConfig::default());
    queue.update_memory_pressure(1.5f32.to_bits());
    assert_eq!(f32::from_bits(queue.adaptive_metrics().2), 1.0);
    queue.update_memory_pressure((-0.5f32).to_bits());
    assert_eq!(f32::from_bits(queue.adaptive_metrics().2), 0.0);
}

fn batch_size_in_floats(
    base: usize,
    size: usize,
    limit: usize,
    pressure: f32,
    threshold: f32,
    most: usize,
) -> usize {
    let utilization = size as f32 / limit as f32;
    let factor = if utilization > 0.8 {
        2.0
    } else if utilization > 0.5 {
        1.5
    } else if utilization < 0.2 {
        0.75
    } else {
        1.0
    };
    let memory = if pressure > threshold {
        0.5
    } else if pressure > 0.7 {
        0.75
    } else {
        1.0
    };
    ((base as f32 * factor * memory) as usize).clamp(1, most)
}

#[test]
fn batch_sizes_agree_with_floats() {
    fastrand::seed(11);
    for round in 0..20_000 {
        let shift = fastrand::u32(0..60);
        let limit = (fastrand::u64(..) >> shift) as usize + 1;
        let size = match round % 3 {
            0 => fastrand::usize(0..=limit),
            1 => (limit as f64 * 0.8) as usize,
            _ => (limit as f64 * 0.2) as usize,
        };
        let base = fastrand::usize(0..100_000);
        let pressure = fastrand::u32(0..=100) as f32 / 100.0;
        let threshold = 0.85f32;
        assert_eq!(
            adaptive_batch_size(
                base,
                size,
                limit,
                pressure.to_bits(),
                threshold.to_bits(),
                1 << 30
            ),
            batch_size_in_floats(base, size, limit, pressure, threshold, 1 << 30),
            "{} {} {} {}",
            base,
            size,
            limit,
            pressure
        );
    }
}
