use tokio_pulse::metrics::PulseMetrics;
use tokio_pulse::stopwatch::Stopwatch;

#[test]
fn test_metrics_creation() {
    let metrics = PulseMetrics::new();
    let snapshot = metrics.snapshot();

    assert_eq!(snapshot.total_polls, 0);
    assert_eq!(snapshot.budget_violations, 0);
    assert!(snapshot.uptime_ns as f64 / 1e9 >= 0.0);
}

#[test]
fn test_poll_recording() {
    let mut metrics = PulseMetrics::new();

    metrics.record_poll();
    metrics.record_poll();

    assert_eq!(metrics.total_polls, 2);
}

#[test]
fn test_violation_recording() {
    let mut metrics = PulseMetrics::new();

    metrics.record_budget_violation();
    metrics.record_budget_violation();
    metrics.record_budget_violation();

    assert_eq!(metrics.budget_violations, 3);
}

#[test]
fn test_tier_changes() {
    let mut metrics = PulseMetrics::new();

    metrics.record_tier_promotion(0, 1);
    metrics.record_tier_promotion(1, 2);
    metrics.record_tier_demotion(2, 1);

    assert_eq!(metrics.tier_promotions, 2);
    assert_eq!(metrics.tier_demotions, 1);
}

#[test]
fn test_cpu_time_recording() {
    let mut metrics = PulseMetrics::new();

    metrics.record_cpu_time(1000);
    metrics.record_cpu_time(2000);

    assert_eq!(metrics.total_cpu_time_us, 3000);
}

#[test]
fn test_slow_queue_metrics() {
    let mut metrics = PulseMetrics::new();

    metrics.record_slow_queue_enqueue();
    metrics.record_slow_queue_enqueue();
    metrics.record_slow_queue_processed(5);

    assert_eq!(metrics.slow_queue_enqueues, 2);
    assert_eq!(metrics.slow_queue_processed, 5);
}

#[test]
fn test_intervention_recording() {
    let mut metrics = PulseMetrics::new();

    metrics.record_intervention("yield");
    metrics.record_intervention("isolate");

    assert_eq!(metrics.interventions_total, 2);
}

#[test]
fn metrics_test_metrics_snapshot() {
    let mut metrics = PulseMetrics::new();

    metrics.record_poll();
    metrics.record_budget_violation();

    let snapshot1 = metrics.snapshot();
    let snapshot2 = metrics.snapshot();

    assert_eq!(snapshot1.total_polls, snapshot2.total_polls);
    assert_eq!(snapshot1.budget_violations, snapshot2.budget_violations);
    assert_eq!(snapshot1.voluntary_yields, snapshot2.voluntary_yields);
    assert_eq!(snapshot1.tier_promotions, snapshot2.tier_promotions);
    assert_eq!(snapshot1.tier_demotions, snapshot2.tier_demotions);
    assert_eq!(snapshot1.slow_queue_enqueues, snapshot2.slow_queue_enqueues);
    assert_eq!(snapshot1.slow_queue_processed, snapshot2.slow_queue_processed);
    assert_eq!(snapshot1.total_cpu_time_us, snapshot2.total_cpu_time_us);
    assert_eq!(snapshot1.interventions_total, snapshot2.interventions_total);
    assert_eq!(snapshot1.config_updates, snapshot2.config_updates);

    assert_eq!(snapshot1.total_polls, 1);
    assert_eq!(snapshot1.budget_violations, 1);
    assert!(snapshot2.uptime_ns >= snapshot1.uptime_ns);
}

#[test]
fn snapshot_at_a_given_uptime() {
    let mut metrics = PulseMetrics::new();
    metrics.record_voluntary_yield();
    metrics.record_config_update();
    metrics.update_slow_queue_size(7);
    metrics.update_active_tasks(9);

    let snapshot = metrics.snapshot_at(1_500_000_000);
    assert_eq!(snapshot.uptime_ns, 1_500_000_000);
    assert_eq!(snapshot.voluntary_yields, 1);
    assert_eq!(snapshot.config_updates, 1);
    assert_eq!(snapshot.total_polls, 0);
    assert_eq!(metrics.slow_queue_size, 7);
    assert_eq!(metrics.active_tasks, 9);
}

#[test]
fn counters_wrap_around() {
    let mut metrics = PulseMetrics::new();
    metrics.total_polls = u64::MAX;
    metrics.record_poll();
    assert_eq!(metrics.total_polls, 0);

    metrics.total_cpu_time_us = u64::MAX - 1;
    metrics.record_cpu_time(5);
    assert_eq!(metrics.total_cpu_time_us, 3);
}

#[test]
fn stopwatch_runs_forward() {
    let watch = Stopwatch::start();
    let first = watch.elapsed_ns();
    let mut later = watch.elapsed_ns();
    for _ in 0..1_000_000 {
        later = watch.elapsed_ns();
        if later > first {
            break;
        }
    }
    assert!(later > first);
}
