use tokio_pulse::budget::{
    acquire_budget, global_pool_stats, release_budget, thread_local_pool_stats, BudgetPool,
    BudgetPoolConfig, BudgetPoolStats, BudgetPools, TaskBudget, DEFAULT_BUDGET, MAX_BUDGET,
    MIN_BUDGET,
};

#[test]
fn test_size_and_alignment() {
    assert_eq!(std::mem::size_of::<TaskBudget>(), 16);
    assert_eq!(std::mem::align_of::<TaskBudget>(), 16);
}

#[test]
fn test_budget_consumption() {
    let mut budget = TaskBudget::new(MIN_BUDGET);

    for i in 0..MIN_BUDGET - 1 {
        let should_yield = budget.consume();
        assert!(!should_yield, "Should not yield at iteration {i}");
    }

    assert!(budget.consume(), "Should yield when budget exhausted");
    assert!(budget.is_exhausted());
}

#[test]
fn test_budget_reset() {
    let mut budget = TaskBudget::new(100);

    for _ in 0..100 {
        budget.consume();
    }
    assert!(budget.is_exhausted());

    budget.reset(200);
    assert_eq!(budget.remaining(), 200);
    assert!(!budget.is_exhausted());
}

#[test]
fn test_tier_escalation() {
    let mut budget = TaskBudget::new(1000);

    assert_eq!(budget.tier(), 0);

    assert_eq!(budget.escalate_tier(), 1);
    assert_eq!(budget.tier(), 1);

    assert_eq!(budget.escalate_tier(), 2);
    assert_eq!(budget.tier(), 2);

    assert_eq!(budget.escalate_tier(), 3);
    assert_eq!(budget.tier(), 3);

    assert_eq!(budget.escalate_tier(), 3);
    assert_eq!(budget.tier(), 3);

    budget.reset_tier();
    assert_eq!(budget.tier(), 0);
}

#[test]
fn budget_test_size_and_alignment() {
    assert_eq!(std::mem::size_of::<TaskBudget>(), 16);
    assert_eq!(std::mem::align_of::<TaskBudget>(), 16);
}

#[test]
fn budget_test_budget_consumption() {
    let mut budget = TaskBudget::new(MIN_BUDGET);
    for i in 0..MIN_BUDGET - 1 {
        let should_yield = budget.consume();
        assert!(!should_yield, "Should not yield at iteration {}", i);
    }
    assert!(budget.consume(), "Should yield when budget exhausted");
    assert!(budget.is_exhausted());
}

#[test]
fn budget_test_budget_reset() {
    let mut budget = TaskBudget::new(100);
    for _ in 0..100 {
        budget.consume();
    }
    assert!(budget.is_exhausted());
    budget.reset(200);
    assert_eq!(budget.remaining(), 200);
    assert!(!budget.is_exhausted());
}

#[test]
fn budget_test_tier_escalation() {
    let mut budget = TaskBudget::new(1000);
    assert_eq!(budget.tier(), 0);
    assert_eq!(budget.escalate_tier(), 1);
    assert_eq!(budget.tier(), 1);
    assert_eq!(budget.escalate_tier(), 2);
    assert_eq!(budget.tier(), 2);
    assert_eq!(budget.escalate_tier(), 3);
    assert_eq!(budget.tier(), 3);
    assert_eq!(budget.escalate_tier(), 3);
    assert_eq!(budget.tier(), 3);
    budget.reset_tier();
    assert_eq!(budget.tier(), 0);
}

#[test]
fn exhausted_budget_stays_exhausted_until_refilled() {
    let mut budget = TaskBudget::new(MIN_BUDGET);
    for _ in 0..MIN_BUDGET + 5 {
        budget.consume();
    }
    assert_eq!(budget.remaining(), 0);
    assert!(budget.consume());
    assert!(budget.is_exhausted());
    budget.reset(MIN_BUDGET);
    assert_eq!(budget.remaining(), MIN_BUDGET);
    assert_eq!(budget.tier(), 0);
    assert_eq!(budget.generation(), 0);
}

#[test]
fn default_budget_and_deadline() {
    let mut budget = TaskBudget::default();
    assert_eq!(budget.remaining(), DEFAULT_BUDGET);
    assert_eq!(budget.deadline(), 0);
    budget.set_deadline(77);
    assert_eq!(budget.deadline(), 77);
    assert_eq!(budget.remaining(), DEFAULT_BUDGET);
    assert_eq!(MAX_BUDGET, 10_000);
}

#[test]
fn generation_wraps_after_256_reuses() {
    let mut budget = TaskBudget::new(100);
    for _ in 0..255 {
        budget.reset_all(100);
    }
    assert_eq!(budget.generation(), 255);
    budget.reset_all(7);
    assert_eq!(budget.generation(), 0);
    assert_eq!(budget.remaining(), 7);
}

#[test]
fn test_budget_pool_basic_operations() {
    let mut pool = BudgetPool::default();

    assert_eq!(pool.size(), 64);

    let budget = pool.acquire(1000);
    assert_eq!(budget.remaining(), 1000);
    assert_eq!(pool.size(), 63);

    pool.release(budget);
    assert_eq!(pool.size(), 64);
}

#[test]
fn test_budget_pool_warm_up() {
    let config = BudgetPoolConfig {
        initial_size: 10,
        max_size: 20,
        high_watermark: 15,
        low_watermark: 5,
    };
    let pool = BudgetPool::new(config);

    assert_eq!(pool.size(), 10);

    let stats = pool.stats();
    assert_eq!(stats.current_size, 10);
    assert_eq!(stats.pool_hits, 0);
    assert_eq!(stats.pool_misses, 0);
}

#[test]
fn test_budget_pool_acquire_miss() {
    let config = BudgetPoolConfig {
        initial_size: 0,
        max_size: 10,
        high_watermark: 8,
        low_watermark: 2,
    };
    let mut pool = BudgetPool::new(config);

    assert_eq!(pool.size(), 0);

    let budget = pool.acquire(500);
    assert_eq!(budget.remaining(), 500);

    let stats = pool.stats();
    assert_eq!(stats.pool_misses, 1);
    assert_eq!(stats.pool_hits, 0);
}

#[test]
fn test_budget_pool_overflow() {
    let config = BudgetPoolConfig {
        initial_size: 2,
        max_size: 2,
        high_watermark: 2,
        low_watermark: 1,
    };
    let mut pool = BudgetPool::new(config);

    let budget1 = pool.acquire(100);
    let budget2 = pool.acquire(200);
    assert_eq!(pool.size(), 0);

    pool.release(budget1);
    assert_eq!(pool.size(), 1);
    pool.release(budget2);
    assert_eq!(pool.size(), 2);

    let budget3 = pool.acquire(300);
    assert_eq!(pool.size(), 1);

    let budget4 = pool.acquire(400);
    assert_eq!(pool.size(), 0);

    pool.release(budget3);
    assert_eq!(pool.size(), 1);

    pool.release(budget4);
    assert_eq!(pool.size(), 2);

    let extra_budget = TaskBudget::new(500);
    pool.release(extra_budget);

    let stats = pool.stats();
    assert!(stats.pool_discards > 0);
    assert_eq!(stats.pool_discards, 1);
    assert_eq!(pool.size(), 2);
}

#[test]
fn test_budget_pool_reset_all() {
    let config = BudgetPoolConfig {
        initial_size: 1,
        max_size: 10,
        high_watermark: 8,
        low_watermark: 2,
    };
    let mut pool = BudgetPool::new(config);

    let mut budget = pool.acquire(1000);

    budget.consume();
    budget.escalate_tier();
    budget.set_deadline(12345);

    assert_eq!(budget.remaining(), 999);
    assert_eq!(budget.tier(), 1);
    assert_eq!(budget.deadline(), 12345);
    let old_generation = budget.generation();

    pool.release(budget);
    let new_budget = pool.acquire(2000);

    assert_eq!(new_budget.remaining(), 2000);
    assert_eq!(new_budget.tier(), 0);
    assert_eq!(new_budget.deadline(), 0);
    assert_eq!(new_budget.generation(), old_generation + 1);
}

#[test]
fn test_budget_pool_memory_pressure() {
    let pool = BudgetPool::default();

    assert!(!pool.should_shrink(0.3f32.to_bits()));
    assert!(!pool.should_shrink(0.7f32.to_bits()));
    assert!(pool.should_shrink(0.9f32.to_bits()));
}

#[test]
fn shrinking_thresholds_follow_the_pressure() {
    let config = BudgetPoolConfig {
        initial_size: 60,
        max_size: 100,
        high_watermark: 100,
        low_watermark: 10,
    };
    let pool = BudgetPool::new(config);
    for (pressure, expected) in [
        (0.0f32, false),
        (0.6, false),
        (0.60001, true),
        (0.8, true),
        (0.81, true),
        (-1.0, false),
        (f32::NAN, false),
        (f32::INFINITY, true),
    ] {
        assert_eq!(pool.should_shrink(pressure.to_bits()), expected, "pressure {pressure}");
    }
    let small = BudgetPool::new(BudgetPoolConfig { initial_size: 11, ..config });
    assert!(!small.should_shrink(0.8f32.to_bits()));
    assert!(small.should_shrink(0.80001f32.to_bits()));
}

#[test]
fn test_budget_pool_shrink() {
    let mut pool = BudgetPool::default();
    let initial_size = pool.size();

    let target = initial_size / 2;
    let shrunk = pool.shrink(target);

    assert_eq!(shrunk, initial_size - target);
    assert_eq!(pool.size(), target);
    assert_eq!(pool.shrink(target), 0);
    assert_eq!(pool.shrink(usize::MAX), 0);
}

#[test]
fn pool_hands_out_the_oldest_budget() {
    let mut pool = BudgetPool::new(BudgetPoolConfig {
        initial_size: 0,
        max_size: 3,
        high_watermark: 3,
        low_watermark: 1,
    });
    let mut first = TaskBudget::new(100);
    for _ in 0..9 {
        first.reset_all(100);
    }
    pool.release(first);
    pool.release(TaskBudget::new(100));
    assert_eq!(pool.acquire(300).generation(), 10);
    assert_eq!(pool.acquire(300).generation(), 1);
    assert!(!pool.can_acquire(50));
    assert!(!pool.can_acquire(10_001));
    assert!(pool.can_acquire(100));
    pool.release(TaskBudget::new(100));
    assert!(pool.can_acquire(50));
    assert_eq!(pool.acquire(50).remaining(), 50);
}

#[test]
fn test_global_pool_functions() {
    let mut pools = BudgetPools::default();
    let budget1 = acquire_budget(&mut pools, 1500);
    assert_eq!(budget1.remaining(), 1500);

    let budget2 = acquire_budget(&mut pools, 2500);
    assert_eq!(budget2.remaining(), 2500);

    release_budget(&mut pools, budget1);
    release_budget(&mut pools, budget2);

    let stats = global_pool_stats(&pools);
    let local_stats = thread_local_pool_stats(&pools);
    assert_eq!(stats.pool_hits, 0);
    assert_eq!(stats.current_size, 64);
    assert_eq!(local_stats.unwrap().pool_hits, 2);
    assert_eq!(local_stats.unwrap().pool_returns, 2);
}

#[test]
fn global_pool_helps_out() {
    let config =
        BudgetPoolConfig { initial_size: 1, max_size: 4, high_watermark: 3, low_watermark: 1 };
    let mut pools =
        BudgetPools { global: BudgetPool::new(config), local: BudgetPool::new(config) };
    let mut held = Vec::new();
    for _ in 0..2 {
        assert!(pools.can_acquire(50));
        let budget = acquire_budget(&mut pools, 50);
        assert_eq!(budget.remaining(), 50);
        assert_eq!(budget.generation(), 1);
        held.push(budget);
    }
    let local = thread_local_pool_stats(&pools).unwrap();
    let global = global_pool_stats(&pools);
    assert_eq!((local.pool_hits, local.pool_misses, local.current_size), (1, 0, 0));
    assert_eq!((global.pool_hits, global.pool_misses, global.current_size), (1, 0, 0));

    // Both are empty: a new one is made, within the limits.
    assert!(!pools.can_acquire(50));
    assert!(pools.can_acquire(100));
    assert_eq!(acquire_budget(&mut pools, 100).generation(), 0);
    assert_eq!(thread_local_pool_stats(&pools).unwrap().pool_misses, 1);
    assert_eq!(global_pool_stats(&pools).pool_misses, 0);

    for budget in held {
        release_budget(&mut pools, budget);
    }
    assert_eq!(thread_local_pool_stats(&pools).unwrap().current_size, 2);
    assert_eq!(global_pool_stats(&pools).current_size, 0);
}

#[test]
fn test_budget_pool_stats() {
    let mut pool = BudgetPool::default();

    let budget1 = pool.acquire(100);
    let budget2 = pool.acquire(200);

    let stats = pool.stats();
    assert_eq!(stats.pool_hits, 2);
    assert_eq!(stats.pool_misses, 0);
    assert_eq!(stats.pool_returns, 0);

    pool.release(budget1);
    pool.release(budget2);

    let stats = pool.stats();
    assert_eq!(stats.pool_returns, 2);
    assert_eq!(stats.pool_discards, 0);
}

#[test]
fn stats_snapshot_copies_every_counter() {
    let stats = BudgetPoolStats {
        pool_hits: 1,
        pool_misses: 2,
        pool_returns: 3,
        pool_discards: 4,
        current_size: 5,
    };
    let snapshot = stats.snapshot();
    assert_eq!(
        (
            snapshot.pool_hits,
            snapshot.pool_misses,
            snapshot.pool_returns,
            snapshot.pool_discards,
            snapshot.current_size
        ),
        (1, 2, 3, 4, 5)
    );
    let fresh = BudgetPoolStats::default().snapshot();
    assert_eq!(fresh.pool_hits + fresh.pool_misses + fresh.current_size, 0);
}
