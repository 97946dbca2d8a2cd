use tokio_pulse::tier_manager::config::{configs_match, detect_profile};
use tokio_pulse::tier_manager::task::{TaskState, NO_PENDING_TIER};
use tokio_pulse::budget::{thread_local_pool_stats, BudgetPools};
use tokio_pulse::tier_manager::{Intervention, PollReport, WorkerStats};
use tokio_pulse::{
    ConfigProfile, InterventionAction, PollResult, TaskBudget, TaskContext, TaskId, TierConfig,
    TierManager, TierPolicyBuilder,
};

const MS: u128 = 1_000_000;
const SECOND: u128 = 1_000_000_000;

fn context(worker_id: usize) -> TaskContext {
    TaskContext { worker_id, priority: None }
}

fn fresh(now: u128) -> TaskState {
    TaskState::new(TaskBudget::new(1000), 0, context(0), now)
}

/// A configuration whose tiers all take the same action.
fn uniform(action: InterventionAction) -> TierConfig {
    let mut config = TierConfig::default();
    for policy in &mut config.tier_policies {
        policy.action = action;
    }
    config
}

#[test]
fn tiers_move_by_one_and_stay_in_range() {
    let mut state = fresh(0);
    let mut tiers = Vec::new();
    for step in 0..5 {
        state.try_escalate_tier(100, step * 200 * MS);
        tiers.push(state.current_tier);
    }
    assert_eq!(tiers, vec![1, 2, 3, 3, 3]);

    let mut policy = TierConfig::default().tier_policies[0];
    policy.demotion_good_polls = 1;
    for step in 0..5 {
        state.record_good_poll(10);
        state.try_demote_tier(0, &policy, true, (10 + step) * SECOND);
        tiers.push(state.current_tier);
    }
    assert_eq!(tiers[5..], [2, 1, 0, 0, 0]);
}

#[test]
fn promotions_are_spaced_by_the_hysteresis() {
    let mut state = fresh(0);
    assert_eq!(state.try_escalate_tier(100, 5 * MS), Some(1));
    assert_eq!(state.try_escalate_tier(100, 104 * MS), None);
    assert_eq!(state.pending_tier_change, 2);
    assert_eq!(state.try_escalate_tier(100, 105 * MS), Some(2));
    assert_eq!(state.pending_tier_change, NO_PENDING_TIER);
}

#[test]
fn pending_promotion_is_made_up_for() {
    let mut state = fresh(0);
    state.try_escalate_tier(100, 0);
    state.try_escalate_tier(100, MS);
    state.check_pending_tier_change(100, 500, 99 * MS);
    assert_eq!(state.current_tier, 1);
    state.check_pending_tier_change(100, 500, 100 * MS);
    assert_eq!(state.current_tier, 2);
    assert_eq!(state.pending_tier_change, NO_PENDING_TIER);
}

#[test]
fn demotion_takes_a_promotion_back() {
    let mut policy = TierConfig::default().tier_policies[1];
    policy.demotion_good_polls = 3;
    let mut state = fresh(0);
    state.try_escalate_tier(100, 0);
    for _ in 0..3 {
        state.record_good_poll(10);
    }
    assert_eq!(state.try_demote_tier(500, &policy, false, 2 * SECOND), None);
    assert_eq!(state.try_demote_tier(500, &policy, false, 3 * SECOND), Some(0));
    assert_eq!(state.consecutive_good_polls, 0);
}

#[test]
fn cooldown_starts_and_ends_in_time() {
    let mut state = fresh(0);
    for i in 0..10 {
        state.track_violation(10, 1000, i);
        assert!(!state.is_in_cooldown(i));
    }
    state.track_violation(10, 1000, 10);
    assert!(state.is_in_cooldown(SECOND + 9));
    assert_eq!(state.try_escalate_tier(0, SECOND + 9), None);
    assert!(!state.is_in_cooldown(SECOND + 10));
    assert_eq!(state.try_escalate_tier(0, SECOND + 10), Some(1));
    assert!(state.recent_violations.is_empty());
}

#[test]
fn old_violations_do_not_count() {
    let mut state = fresh(0);
    for i in 0..20 {
        state.track_violation(3, 1000, i * SECOND);
    }
    assert_eq!(state.recent_violations, vec![19 * SECOND]);
    assert!(!state.is_in_cooldown(19 * SECOND));
}

#[test]
fn violation_ends_the_good_record() {
    let mut state = fresh(0);
    state.record_good_poll(50);
    state.record_good_poll(60);
    assert_eq!(state.get_good_behavior_metrics(7), (2, 7));
    assert_eq!(state.good_behavior_duration_ns, 110);
    state.record_violation(5);
    assert_eq!(state.get_good_behavior_metrics(7), (0, 2));
    assert_eq!(state.good_behavior_duration_ns, 0);
}

#[test]
fn test_mode_does_not_wait_for_a_demotion() {
    let mut config = TierConfig::default();
    config.tier_policies[1].demotion_good_polls = 2;
    config.tier_policies[1].demotion_evaluation_interval = 1;
    config.tier_policies[1].demotion_min_duration_ms = 5_000;
    let mut state = fresh(0);
    state.try_escalate_tier(0, 0);
    state.record_good_poll(10);
    state.record_good_poll(10);
    assert!(!state.evaluate_for_demotion(&config, MS));
    assert!(!state.evaluate_for_demotion(&config, 4 * SECOND));
    config.test_mode = true;
    assert!(state.evaluate_for_demotion(&config, MS));
    // How much the task did well still counts.
    config.tier_policies[1].demotion_good_polls = 3;
    assert!(!state.evaluate_for_demotion(&config, MS));
}

#[test]
fn sustained_good_behaviour_is_noticed_at_the_interval() {
    let mut config = TierConfig::default();
    config.tier_policies[1].demotion_good_polls = 2;
    config.tier_policies[1].demotion_evaluation_interval = 2;
    let mut state = fresh(0);
    assert!(!state.evaluate_for_demotion(&config, 60 * SECOND));
    state.try_escalate_tier(0, 0);
    state.record_good_poll(10);
    state.record_good_poll(10);
    assert!(!state.evaluate_for_demotion(&config, 2 * SECOND));
    assert!(!state.evaluate_for_demotion(&config, 60 * SECOND));
    assert!(state.evaluate_for_demotion(&config, 60 * SECOND));
    state.total_cpu_ns = 400_001 * 2;
    assert!(!state.evaluate_for_demotion(&config, 60 * SECOND));
    assert!(!state.evaluate_for_demotion(&config, 60 * SECOND));
}

#[test]
fn polls_and_tasks_are_counted_once() {
    let mut manager = TierManager::new(TierConfig::default());
    for i in 0..3 {
        manager.before_poll_at(TaskId(1), &context(4), i);
        manager.after_poll_at(TaskId(1), PollResult::Pending, 100, i);
    }
    manager.before_poll_at(TaskId(2), &context(4), 9);
    assert_eq!(manager.get_metrics().total_polls, 4);
    assert_eq!(manager.get_metrics().active_tasks, 2);
    let worker = manager.get_worker_metrics(4);
    assert_eq!(worker.polls, 4);
    assert_eq!(worker.tasks, 2);
    assert_eq!(worker.cpu_time_ns, 300);
}

#[test]
fn tasks_and_workers_are_kept_apart() {
    let mut manager = TierManager::new(TierConfig::default());
    manager.before_poll_at(TaskId(1), &context(0), 0);
    manager.before_poll_at(TaskId(2), &context(1), 0);
    for i in 0..10 {
        manager.after_poll_at(TaskId(1), PollResult::Pending, 2 * MS, i);
    }
    assert_eq!(manager.get_task_tier(TaskId(1)), Some(1));
    assert_eq!(manager.get_task_tier(TaskId(2)), Some(0));
    assert_eq!(manager.get_task_budget(TaskId(2)), Some(2000));
    assert_eq!(manager.get_worker_metrics(0).slow_polls, 10);
    assert_eq!(manager.get_worker_metrics(1).slow_polls, 0);
    assert_eq!(manager.get_worker_metrics(1).polls, 1);
}

#[test]
fn worker_reset_is_complete_and_local() {
    let mut manager = TierManager::new(TierConfig::default());
    manager.before_poll_at(TaskId(1), &context(0), 0);
    manager.before_poll_at(TaskId(2), &context(1), 0);
    manager.reset_worker_stats(0);
    manager.reset_worker_stats(0);
    manager.reset_worker_stats(77);
    assert_eq!(manager.get_worker_metrics(0).polls, 0);
    assert_eq!(manager.get_worker_metrics(1).polls, 1);
    assert_eq!(manager.get_all_worker_metrics().len(), 2);
}

#[test]
fn completed_tasks_are_forgotten() {
    let mut manager = TierManager::new(TierConfig::default());
    manager.before_poll_at(TaskId(1), &context(0), 0);
    assert_eq!(manager.get_metrics().active_tasks, 1);
    manager.on_completion(TaskId(1));
    manager.on_completion(TaskId(1));
    assert_eq!(manager.get_metrics().active_tasks, 0);
    assert_eq!(manager.get_task_tier(TaskId(1)), None);
    assert_eq!(manager.get_task_budget(TaskId(1)), None);
    assert_eq!(
        manager.after_poll_at(TaskId(1), PollResult::Pending, 100, 1),
        Intervention::Nothing
    );
    assert_eq!(manager.get_metrics().active_tasks, 0);
}

#[test]
fn yield_refills_and_is_counted() {
    let mut config = TierConfig::default();
    config.poll_budget = 10;
    let mut manager = TierManager::new(config);
    manager.before_poll_at(TaskId(1), &context(0), 0);
    for i in 0..4 {
        manager.after_poll_at(TaskId(1), PollResult::Pending, 100, i);
    }
    assert_eq!(manager.get_task_budget(TaskId(1)), Some(6));
    manager.on_yield_at(TaskId(1), 5);
    assert_eq!(manager.get_task_budget(TaskId(1)), Some(10));
    manager.on_yield_at(TaskId(99), 6);
    assert_eq!(manager.get_metrics().voluntary_yields, 2);
    assert_eq!(manager.get_metrics().total_yields, 2);
    assert_eq!(manager.get_worker_metrics(0).yields, 1);
}

#[test]
fn interventions_follow_the_action() {
    let outcomes: Vec<Intervention> = [
        InterventionAction::Monitor,
        InterventionAction::Warn,
        InterventionAction::Yield,
        InterventionAction::SlowQueue,
        InterventionAction::Isolate,
    ]
    .into_iter()
    .map(|action| {
        let mut manager = TierManager::new(uniform(action));
        manager.before_poll_at(TaskId(1), &context(0), 0);
        manager.after_poll_at(TaskId(1), PollResult::Pending, 100, 0)
    })
    .collect();
    assert_eq!(
        outcomes,
        vec![
            Intervention::Nothing,
            Intervention::Warn,
            Intervention::MarkedForYield,
            Intervention::Queued,
            Intervention::Queued,
        ]
    );

    let mut config = uniform(InterventionAction::Isolate);
    config.enable_isolation = true;
    let mut manager = TierManager::new(config);
    manager.before_poll_at(TaskId(1), &context(0), 0);
    assert_eq!(
        manager.after_poll_at(TaskId(1), PollResult::Ready, 100, 0),
        Intervention::Isolate
    );
    assert_eq!(manager.get_metrics().slow_queue_size, 0);
}

#[test]
fn slow_queue_has_a_limit() {
    for action in [InterventionAction::SlowQueue, InterventionAction::Isolate] {
        let mut config = uniform(action);
        config.max_slow_queue_size = 2;
        let mut manager = TierManager::new(config);
        manager.before_poll_at(TaskId(1), &context(0), 0);
        let outcomes: Vec<Intervention> = (0..3)
            .map(|i| manager.after_poll_at(TaskId(1), PollResult::Pending, 100, i))
            .collect();
        assert_eq!(
            outcomes,
            vec![Intervention::Queued, Intervention::Queued, Intervention::SlowQueueFull]
        );
        assert_eq!(manager.get_metrics().slow_queue_size, 2);
    }
}

#[test]
fn slow_tasks_go_to_the_scheduler() {
    let mut manager = TierManager::new(uniform(InterventionAction::SlowQueue));
    for id in 1..=3 {
        manager.before_poll_at(TaskId(id), &context(0), 0);
        manager.after_poll_at(TaskId(id), PollResult::Pending, 100, 0);
    }
    assert_eq!(manager.process_slow_queue(2), 2);
    assert_eq!(manager.get_metrics().slow_queue_size, 1);
    let scheduler = manager.scheduler.as_ref().unwrap();
    assert_eq!(scheduler.metrics().tasks_submitted, 2);
    assert_eq!(scheduler.queue_depth(), 2);
    let queue = scheduler.worker_queue();
    assert_eq!(queue.try_recv().unwrap().task_id, TaskId(1));
    assert_eq!(queue.try_recv().unwrap().task_id, TaskId(2));
    assert_eq!(scheduler.queue_depth(), 0);
    assert!(scheduler.can_accept_tasks());

    let request = manager.next_slow_task().unwrap();
    assert_eq!(request.task_id, TaskId(3));
    assert_eq!(request.tier, 0);
    assert_eq!(manager.process_slow_queue(5), 0);
    manager.return_slow_task(TaskId(3));
    manager.scheduler = None;
    assert_eq!(manager.process_slow_queue(5), 1);
}

#[test]
fn refused_slow_tasks_go_back() {
    let mut scheduler_config = tokio_pulse::ThreadSchedulerConfig::default();
    scheduler_config.max_queue_size = 1;
    let mut manager =
        TierManager::with_scheduler(uniform(InterventionAction::SlowQueue), scheduler_config);
    for id in 1..=3 {
        manager.before_poll_at(TaskId(id), &context(0), 0);
        manager.after_poll_at(TaskId(id), PollResult::Pending, 100, 0);
    }
    assert_eq!(manager.process_slow_queue(10), 1);
    assert_eq!(manager.get_metrics().slow_queue_size, 2);
    let scheduler = manager.scheduler.as_ref().unwrap();
    assert_eq!(scheduler.metrics().tasks_dropped, 1);
    assert_eq!(manager.next_slow_task().unwrap().task_id, TaskId(3));
    assert_eq!(manager.next_slow_task().unwrap().task_id, TaskId(2));
}

#[test]
fn marked_task_yields_at_its_next_poll() {
    let mut config = uniform(InterventionAction::Yield);
    config.poll_budget = 50;
    let mut manager = TierManager::new(config);
    manager.before_poll_at(TaskId(1), &context(0), 0);
    manager.after_poll_at(TaskId(1), PollResult::Pending, 100, 0);
    assert_eq!(manager.get_metrics().total_yields, 0);
    assert_eq!(manager.get_task_budget(TaskId(1)), Some(49));
    manager.after_poll_at(TaskId(1), PollResult::Ready, 100, 1);
    assert_eq!(manager.get_metrics().total_yields, 0);
    manager.after_poll_at(TaskId(1), PollResult::Pending, 100, 2);
    assert_eq!(manager.get_metrics().total_yields, 1);
    assert_eq!(manager.get_task_budget(TaskId(1)), Some(50));
}

#[test]
fn polls_above_a_millisecond_are_slow() {
    let mut manager = TierManager::new(TierConfig::default());
    manager.before_poll_at(TaskId(1), &context(0), 0);
    manager.after_poll_at(TaskId(1), PollResult::Pending, 0, 0);
    manager.after_poll_at(TaskId(1), PollResult::Pending, MS, 1);
    assert_eq!(manager.get_worker_metrics(0).slow_polls, 0);
    manager.after_poll_at(TaskId(1), PollResult::Pending, MS + 1, 2);
    assert_eq!(manager.get_worker_metrics(0).slow_polls, 1);
    assert_eq!(manager.get_worker_metrics(0).cpu_time_ns, 2_000_001);
}

#[test]
fn overuse_promotes() {
    let mut manager = TierManager::new(TierConfig::default());
    manager.before_poll_at(TaskId(1), &context(0), 0);
    manager.after_poll_at(TaskId(1), PollResult::Pending, 49 * MS, 0);
    assert_eq!(manager.get_task_tier(TaskId(1)), Some(0));
    manager.after_poll_at(TaskId(1), PollResult::Pending, 50 * MS, 1);
    assert_eq!(manager.get_task_tier(TaskId(1)), Some(1));

    manager.before_poll_at(TaskId(2), &context(0), 0);
    for i in 0..9 {
        manager.after_poll_at(TaskId(2), PollResult::Pending, 2 * MS, i);
    }
    assert_eq!(manager.get_task_tier(TaskId(2)), Some(0));
    manager.after_poll_at(TaskId(2), PollResult::Pending, 2 * MS, 10);
    assert_eq!(manager.get_task_tier(TaskId(2)), Some(1));
    assert_eq!(manager.get_metrics().tier_promotions, 2);
}

#[test]
fn violations_promote_sooner_at_higher_priority() {
    let violations_until_promotion = |priority: Option<u8>| {
        let mut config = TierConfig::default();
        config.poll_budget = 1;
        config.violation_rate_threshold = 1000;
        let mut manager = TierManager::new(config);
        let ctx = TaskContext { worker_id: 0, priority };
        manager.before_poll_at(TaskId(1), &ctx, 0);
        let start = manager.get_task_budget(TaskId(1)).unwrap() as usize;
        let mut polls = 0;
        while manager.get_task_tier(TaskId(1)) == Some(0) {
            manager.after_poll_at(TaskId(1), PollResult::Pending, 100, polls as u128);
            polls += 1;
        }
        polls + 1 - start
    };
    assert_eq!(violations_until_promotion(Some(0)), 1);
    assert_eq!(violations_until_promotion(Some(1)), 2);
    assert_eq!(violations_until_promotion(None), 5);
    assert_eq!(violations_until_promotion(Some(3)), 10);
}

#[test]
fn new_configuration_keeps_the_state() {
    let mut manager = TierManager::new(TierConfig::default());
    manager.before_poll_at(TaskId(1), &context(0), 0);
    let mut config = TierConfig::default();
    config.poll_budget = 777;
    manager.update_config(config);
    assert_eq!(manager.get_current_config().poll_budget, 777);
    assert_eq!(manager.get_metrics().active_tasks, 1);
    assert_eq!(manager.get_metrics().total_polls, 1);
}

#[test]
fn profiles_are_recognised() {
    for profile in
        [ConfigProfile::Aggressive, ConfigProfile::Balanced, ConfigProfile::Permissive]
    {
        let mut manager = TierManager::new(TierConfig::default());
        manager.switch_to_profile(profile);
        assert_eq!(manager.current_profile(), Some(profile));
        assert_eq!(detect_profile(&profile.create_config()), Some(profile));
    }
    let mut other = TierConfig::default();
    other.tier_policies[3].demotion_good_polls += 1;
    assert!(!configs_match(&other, &TierConfig::default()));
    assert_eq!(detect_profile(&other), None);
    let mut renamed = TierConfig::default();
    renamed.tier_policies[2].name = "Yields";
    assert_eq!(detect_profile(&renamed), None);
}

#[test]
fn policies_are_validated_in_order() {
    let manager = TierManager::new(TierConfig::default());
    let valid = TierPolicyBuilder::new("Valid", InterventionAction::Warn).build();
    let objection = |change: fn(&mut tokio_pulse::TierPolicy)| {
        let mut policy = valid;
        change(&mut policy);
        manager.validate_tier_policy(&policy).unwrap_err()
    };
    assert!(manager.validate_tier_policy(&valid).is_ok());
    assert_eq!(
        objection(|policy| policy.promotion_threshold = 0),
        "Promotion threshold must be greater than 0"
    );
    assert_eq!(
        objection(|policy| policy.promotion_cpu_threshold_ms = 0),
        "Promotion CPU threshold must be greater than 0"
    );
    assert_eq!(
        objection(|policy| policy.promotion_slow_poll_threshold = 0),
        "Promotion slow poll threshold must be greater than 0"
    );
    assert_eq!(
        objection(|policy| policy.demotion_good_polls = 0),
        "Demotion good polls threshold must be greater than 0"
    );
    assert_eq!(
        objection(|policy| policy.demotion_cpu_threshold_ns = 0),
        "Demotion CPU threshold must be greater than 0"
    );
    assert_eq!(
        objection(|policy| policy.demotion_evaluation_interval = 0),
        "Demotion evaluation interval must be greater than 0"
    );
    assert_eq!(
        objection(|policy| policy.promotion_threshold = 1001),
        "Promotion threshold too high (max 1000)"
    );
    assert_eq!(
        objection(|policy| policy.promotion_cpu_threshold_ms = 60_001),
        "Promotion CPU threshold too high (max 60 seconds)"
    );
    assert_eq!(
        objection(|policy| policy.demotion_good_polls = 10_001),
        "Demotion good polls threshold too high (max 10000)"
    );
    assert_eq!(
        objection(|policy| policy.demotion_min_duration_ms = 3_600_001),
        "Demotion minimum duration too high (max 1 hour)"
    );
    assert_eq!(
        objection(|policy| policy.demotion_cpu_threshold_ns = 1_000_000_001),
        "Demotion CPU threshold too high (max 1 second)"
    );
}

#[test]
fn refused_policy_updates_change_nothing() {
    let mut manager = TierManager::new(TierConfig::default());
    let policy = TierPolicyBuilder::new("New", InterventionAction::Warn).build();
    assert_eq!(
        manager.update_tier_policy(4, policy).unwrap_err(),
        "Invalid tier index: 4. Valid range is 0-3"
    );
    assert_eq!(
        manager.update_multiple_tier_policies(vec![(0, policy), (10, policy)]).unwrap_err(),
        "Invalid tier index: 10. Valid range is 0-3"
    );
    assert!(configs_match(&manager.get_current_config(), &TierConfig::default()));
    let later = TierPolicyBuilder::new("Later", InterventionAction::Yield).build();
    assert!(manager.update_multiple_tier_policies(vec![(0, policy), (0, later)]).is_ok());
    assert_eq!(manager.get_current_config().tier_policies[0].name, "Later");
}

#[test]
fn polls_can_begin_while_there_is_a_budget() {
    let mut config = TierConfig::default();
    config.poll_budget = 50;
    let mut manager = TierManager::new(config);
    // The pool of the thread and that of the process hold 64 budgets each.
    for id in 0..128 {
        assert!(manager.can_begin(TaskId(id), &context(0)));
        manager.before_poll_at(TaskId(id), &context(0), 0);
    }
    assert!(manager.can_begin(TaskId(0), &context(0)));
    assert!(!manager.can_begin(TaskId(128), &context(0)));
    manager.on_completion(TaskId(0));
    assert!(manager.can_begin(TaskId(128), &context(0)));
}

#[test]
fn managers_can_share_the_pools_of_a_thread() {
    let mut pools = BudgetPools::default();
    let mut first = TierManager::new(TierConfig::default());
    let mut second = TierManager::new(TierConfig::default());
    for manager in [&mut first, &mut second] {
        manager.exchange_pools(&mut pools);
        manager.before_poll_at(TaskId(1), &context(0), 0);
        manager.exchange_pools(&mut pools);
    }
    let stats = thread_local_pool_stats(&pools).unwrap();
    assert_eq!((stats.pool_hits, stats.current_size), (2, 62));
    for manager in [&mut first, &mut second] {
        manager.exchange_pools(&mut pools);
        manager.on_completion(TaskId(1));
        manager.exchange_pools(&mut pools);
    }
    let stats = thread_local_pool_stats(&pools).unwrap();
    assert_eq!((stats.pool_returns, stats.current_size), (2, 64));
}

#[test]
fn workers_share_in_tier_changes_and_forced_yields() {
    let mut stats = WorkerStats::default();
    assert_eq!((stats.yields_forced, stats.tier_promotions, stats.tier_demotions), (0, 0, 0));
    let quiet = PollReport {
        cpu_ns: 7,
        slow: false,
        violated: false,
        promoted: false,
        demoted: false,
        yielded: false,
    };
    stats.record_poll(&PollReport { promoted: true, ..quiet });
    stats.record_poll(&PollReport { yielded: true, ..quiet });
    stats.record_poll(&PollReport { demoted: true, yielded: true, ..quiet });
    assert_eq!((stats.yields_forced, stats.tier_promotions, stats.tier_demotions), (2, 1, 1));
    assert_eq!(stats.cpu_time_ns, 21);
}

#[test]
fn polls_end_where_the_tier_can_be_evaluated() {
    let mut config = TierConfig::default();
    config.tier_policies[1].demotion_evaluation_interval = 0;
    config.tier_policies[3].demotion_evaluation_interval = 0;
    assert!(config.can_evaluate(0) && !config.can_evaluate(1) && config.can_evaluate(2));
    let mut manager = TierManager::new(config);
    manager.before_poll_at(TaskId(1), &context(0), 0);
    assert!(manager.can_end(TaskId(1)));
    assert!(manager.can_end(TaskId(2)));
    // A long poll moves the task up to a tier that cannot be evaluated.
    manager.after_poll_at(TaskId(1), PollResult::Pending, 60 * SECOND, SECOND);
    assert_eq!(manager.get_task_tier(TaskId(1)), Some(1));
    assert!(!manager.can_end(TaskId(1)));
}

#[test]
fn interventions_respect_the_room_in_the_slow_queue() {
    let mut config = uniform(InterventionAction::SlowQueue);
    config.max_slow_queue_size = 1;
    let mut manager = TierManager::new(config);
    let mut state = fresh(0);
    assert_eq!(manager.apply_intervention(TaskId(1), &mut state), Intervention::Queued);
    assert_eq!(manager.apply_intervention(TaskId(2), &mut state), Intervention::SlowQueueFull);
    assert_eq!(manager.get_metrics().slow_queue_size, 1);
}
