use tokio_pulse::middleware::{
    PollCheck, PreemptionConfig, PreemptionError, RequestTracker, TaskIdCounter,
};
use tokio_pulse::{HookRegistry, TaskId, TierConfig, TierManager};

#[test]
fn default_settings() {
    let config = PreemptionConfig::default();
    assert_eq!(config.poll_budget_ns, 2_000_000);
    assert_eq!(config.check_interval, 1);
    assert!(config.enable_metrics);
    assert!(config.tier_config.is_none());
    assert!(config.track_workers);
}

#[test]
fn identifiers_start_at_one_and_differ() {
    let mut counter = TaskIdCounter::new();
    assert_eq!(counter.next_id(), TaskId(1));
    assert_eq!(counter.next_id(), TaskId(2));
}

#[test]
fn polls_are_checked_at_the_interval() {
    let config = PreemptionConfig { check_interval: 2, ..PreemptionConfig::default() };
    let mut tracker = RequestTracker::new(TaskId(3));
    assert_eq!(tracker.on_poll(&config), PollCheck { poll_ns: 100, reports: 0 });
    assert_eq!(tracker.on_poll(&config), PollCheck { poll_ns: 200, reports: 1 });
    assert_eq!(tracker.on_poll(&config), PollCheck { poll_ns: 300, reports: 0 });
    assert_eq!(tracker.poll_count, 3);
}

#[test]
fn exceeded_budget_is_reported_twice() {
    let config = PreemptionConfig { poll_budget_ns: 200, ..PreemptionConfig::default() };
    let mut tracker = RequestTracker::new(TaskId(3));
    let reports: Vec<u8> = (0..4).map(|_| tracker.on_poll(&config).reports).collect();
    assert_eq!(reports, vec![1, 1, 2, 2]);
}

#[test]
fn reports_reach_the_manager() {
    let config = PreemptionConfig { poll_budget_ns: 100, ..PreemptionConfig::default() };
    let mut registry = HookRegistry::new();
    registry.set_hooks(TierManager::new(TierConfig::default()));
    let mut tracker = RequestTracker::new(TaskId(3));
    registry.before_poll(tracker.task_id, &tracker.context);

    assert_eq!(tracker.report_poll(&config, &mut registry).len(), 1);
    assert_eq!(tracker.report_poll(&config, &mut registry).len(), 2);
    let manager = registry.hooks.as_ref().unwrap();
    assert_eq!(manager.get_metrics().total_polls, 1);
    assert_eq!(manager.get_worker_metrics(0).cpu_time_ns, 100 + 200 + 200);
}

#[test]
fn without_hooks_nothing_happens() {
    let config = PreemptionConfig::default();
    let mut registry: HookRegistry<TierManager> = HookRegistry::new();
    let mut tracker = RequestTracker::new(TaskId(3));
    tracker.report_poll(&config, &mut registry);
    assert!(!registry.has_hooks());
    assert_eq!(tracker.poll_count, 1);
}

#[test]
fn preemption_errors_have_messages() {
    assert_eq!(
        PreemptionError::BudgetExceeded { budget_us: 1500 }.message(),
        "Task preempted: exceeded budget of 1500μs"
    );
    assert_eq!(
        PreemptionError::TaskIsolated { tier: 3 }.message(),
        "Task isolated: reached tier 3"
    );
}
