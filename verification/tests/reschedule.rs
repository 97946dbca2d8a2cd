use tokio_pulse::reschedule::{
    delay_ms, next_worker_action, ReceiveOutcome, SendOutcome, WorkerAction,
};
use tokio_pulse::{
    DedicatedThreadScheduler, RescheduleError, RescheduleTask, TaskId, ThreadSchedulerConfig,
    ThreadSchedulerMetrics,
};

#[test]
fn test_scheduler_creation() {
    let config = ThreadSchedulerConfig::default();
    let scheduler = DedicatedThreadScheduler::new(config);

    assert!(scheduler.can_accept_tasks());
    assert_eq!(scheduler.queue_depth() as f32 / scheduler.max_queue_size() as f32, 0.0);
}

#[test]
fn test_task_submission() {
    let config = ThreadSchedulerConfig::default();
    let mut scheduler = DedicatedThreadScheduler::new(config);

    let task = RescheduleTask::new(TaskId(12345), 2);
    let result = scheduler.reschedule_task(task);

    assert!(result.is_ok());

    let metrics = scheduler.metrics();
    assert_eq!(metrics.tasks_submitted, 1);
}

#[test]
fn test_queue_overflow() {
    let mut config = ThreadSchedulerConfig::default();
    config.max_queue_size = 2;
    config.min_threads = 0;

    let mut scheduler = DedicatedThreadScheduler::new(config);

    for i in 0..3 {
        let task = RescheduleTask::new(TaskId(i), 1);
        let result = scheduler.reschedule_task(task);

        if i < 2 {
            assert!(result.is_ok());
        } else {
            assert!(matches!(result, Err(RescheduleError::QueueFull)));
        }
    }

    let metrics = scheduler.metrics();
    assert_eq!(metrics.tasks_submitted, 2);
    assert_eq!(metrics.tasks_dropped, 1);
}

#[test]
fn test_reschedule_task_properties() {
    let mut task = RescheduleTask::new(TaskId(999), 3);

    assert_eq!(task.task_id, TaskId(999));
    assert_eq!(task.tier, 3);
    assert_eq!(task.reschedule_count, 0);

    task.reschedule();
    assert_eq!(task.reschedule_count, 1);

    let age = task.age();
    assert!(task.age() >= age);
}

#[test]
fn reschedule_test_metrics_snapshot() {
    let mut metrics = ThreadSchedulerMetrics::default();

    metrics.tasks_submitted = 10;
    metrics.tasks_processed = 8;
    metrics.active_threads = 4;

    let snapshot = metrics.snapshot();
    assert_eq!(snapshot.tasks_submitted, 10);
    assert_eq!(snapshot.tasks_processed, 8);
    assert_eq!(snapshot.active_threads, 4);
}

#[test]
fn thread_count_follows_the_processors() {
    let limits: Vec<usize> = vec![1, 4, 5, 6, 16, 17, 64]
        .into_iter()
        .map(|cpus| ThreadSchedulerConfig::for_parallelism(cpus).max_threads)
        .collect();
    assert_eq!(limits, vec![2, 2, 2, 3, 8, 8, 8]);

    let config = ThreadSchedulerConfig::default();
    assert_eq!(config.min_threads, 2);
    assert_eq!(config.keep_alive_ms, 60_000);
    assert_eq!(config.max_queue_size, 1024);
    assert_eq!(config.thread_name_prefix, "tokio-pulse-reschedule");
}

#[test]
fn workers_receive_what_was_submitted() {
    let mut scheduler = DedicatedThreadScheduler::new(ThreadSchedulerConfig::default());
    let queue = scheduler.worker_queue();
    for i in 0..3 {
        assert!(scheduler.reschedule_task(RescheduleTask::new(TaskId(i), 2)).is_ok());
    }
    assert_eq!(scheduler.queue_depth(), 3);
    assert_eq!(scheduler.metrics().queue_depth, 3);

    let task = queue.try_recv().unwrap();
    assert_eq!(task.task_id, TaskId(0));
    assert_eq!(scheduler.queue_depth(), 2);
    assert_eq!(scheduler.metrics().queue_depth, 2);
    assert_eq!(scheduler.metrics_at_depth(9).queue_depth, 9);
    assert_eq!(scheduler.metrics_at_depth(9).tasks_submitted, 3);

    let done = scheduler.process_task(task);
    assert_eq!(done.reschedule_count, 1);
    assert_eq!(done.task_id, TaskId(0));
    assert_eq!(scheduler.metrics().tasks_processed, 1);
}

#[test]
fn scheduler_refuses_above_nine_tenths() {
    let mut config = ThreadSchedulerConfig::default();
    config.max_queue_size = 10;
    let mut scheduler = DedicatedThreadScheduler::new(config);

    for i in 0..9 {
        assert!(scheduler.can_accept_tasks());
        assert!(scheduler.reschedule_task(RescheduleTask::new(TaskId(i), 0)).is_ok());
    }
    assert!(!scheduler.can_accept_tasks());
    assert!(scheduler.can_accept_at_depth(8));
    assert!(!scheduler.can_accept_at_depth(9));
}

#[test]
fn submissions_settle_by_outcome() {
    let mut scheduler = DedicatedThreadScheduler::new(ThreadSchedulerConfig::default());

    assert!(scheduler.settle_submission(5, SendOutcome::Sent).is_ok());
    assert!(matches!(
        scheduler.settle_submission(6, SendOutcome::Full),
        Err(RescheduleError::QueueFull)
    ));
    assert!(matches!(
        scheduler.settle_submission(7, SendOutcome::Disconnected),
        Err(RescheduleError::ShuttingDown)
    ));

    let metrics = scheduler.metrics();
    assert_eq!(metrics.tasks_submitted, 1);
    assert_eq!(metrics.tasks_dropped, 1);
    assert_eq!(metrics.queue_depth, 0);
}

#[test]
fn worker_threads_are_counted_and_named() {
    let mut scheduler = DedicatedThreadScheduler::new(ThreadSchedulerConfig::default());
    assert_eq!(scheduler.min_threads(), 2);
    assert_eq!(scheduler.keep_alive_ms(), 60_000);
    assert_eq!(scheduler.worker_name(0), "tokio-pulse-reschedule-0");
    assert_eq!(scheduler.worker_name(105), "tokio-pulse-reschedule-105");

    scheduler.record_worker_started();
    scheduler.record_worker_started();
    scheduler.record_worker_stopped();
    let metrics = scheduler.metrics();
    assert_eq!(metrics.active_threads, 1);
    assert_eq!(metrics.threads_created, 2);
    assert_eq!(metrics.threads_destroyed, 1);
}

#[test]
fn shutdown_is_remembered() {
    let mut scheduler = DedicatedThreadScheduler::new(ThreadSchedulerConfig::default());
    assert!(!scheduler.is_shutting_down());
    assert!(scheduler.shutdown().is_ok());
    assert!(scheduler.is_shutting_down());
}

#[test]
fn delays_grow_with_the_tier() {
    let delays: Vec<u64> = (0..6).map(|tier: u8| delay_ms(tier)).collect();
    assert_eq!(delays, vec![1, 1, 5, 10, 20, 20]);
}

#[test]
fn worker_decides_on_what_it_received() {
    let task = RescheduleTask::new(TaskId(4), 3);
    match next_worker_action(false, ReceiveOutcome::Task(task)) {
        WorkerAction::Process { task, delay_ms } => {
            assert_eq!(task.task_id, TaskId(4));
            assert_eq!(delay_ms, 10);
        }
        other => panic!("{:?}", other),
    }
    assert!(matches!(next_worker_action(false, ReceiveOutcome::TimedOut), WorkerAction::Wait));
    assert!(matches!(next_worker_action(false, ReceiveOutcome::Disconnected), WorkerAction::Exit));
    assert!(matches!(next_worker_action(true, ReceiveOutcome::Task(task)), WorkerAction::Exit));
}

#[test]
fn reschedule_errors_have_messages() {
    assert_eq!(RescheduleError::QueueFull.message(), "Task queue is full");
    assert_eq!(RescheduleError::ShuttingDown.message(), "Scheduler is shutting down");
    assert_eq!(
        RescheduleError::ThreadCreationFailed("no memory".to_string()).message(),
        "Failed to create worker thread: no memory"
    );
    assert_eq!(
        RescheduleError::InvalidConfig("zero threads".to_string()).message(),
        "Invalid configuration: zero threads"
    );
}
