//! Task budgets: how many operations a task may run before it has to yield, and
//! a pool that reuses budgets.

use crate::collections::{new_budget_queue, pop_budget, push_budget, queued_budgets};
use crate::single::{exceeds, single_exceeds};
use crossbeam::queue::SegQueue;
use vstd::prelude::*;

verus! {

/// Default budget allocation per task poll cycle.
pub const DEFAULT_BUDGET: u32 = 2000;

/// Minimum budget to prevent thrashing.
pub const MIN_BUDGET: u32 = 100;

/// Maximum budget to prevent starvation.
pub const MAX_BUDGET: u32 = 10000;

/// Highest intervention tier.
pub const MAX_BUDGET_TIER: u8 = 3;

/// Task execution budget, 16 bytes wide and aligned to 16 bytes.
#[derive(Debug)]
pub struct TaskBudget {
    deadline_ns: u64,
    remaining: u32,
    tier: u8,
    generation: u8,
    alignment: [u128; 0],
}

/// What a [`TaskBudget`] holds.
pub struct BudgetModel {
    /// CPU time deadline in nanoseconds.
    pub deadline_ns: u64,
    /// Operations left before the task has to yield.
    pub remaining: u32,
    /// Intervention tier, 0 to 3.
    pub tier: u8,
    /// How often the budget was reused, modulo 256.
    pub generation: u8,
}

impl BudgetModel {
    /// A budget that has not been used yet.
    pub open spec fn fresh(initial_budget: u32) -> BudgetModel {
        BudgetModel { deadline_ns: 0, remaining: initial_budget, tier: 0, generation: 0 }
    }

    /// The budget after one more operation. An exhausted budget stays at zero.
    pub open spec fn consumed(self) -> BudgetModel {
        BudgetModel { remaining: self.remaining.saturating_sub(1), ..self }
    }

    /// The budget after `n` more operations.
    pub open spec fn consumed_times(self, n: nat) -> BudgetModel
        decreases n,
    {
        if n == 0 {
            self
        } else {
            self.consumed_times((n - 1) as nat).consumed()
        }
    }

    /// Whether no operation is left.
    pub open spec fn exhausted(self) -> bool {
        self.remaining == 0
    }

    /// The budget with `new_budget` operations and everything else kept.
    pub open spec fn refilled(self, new_budget: u32) -> BudgetModel {
        BudgetModel { remaining: new_budget, ..self }
    }

    /// The budget one tier higher, up to the highest.
    pub open spec fn escalated(self) -> BudgetModel {
        BudgetModel {
            tier: if self.tier < MAX_BUDGET_TIER {
                (self.tier + 1) as u8
            } else {
                self.tier
            },
            ..self
        }
    }

    /// The budget as it comes out of a pool: refilled, without deadline, at tier
    /// 0, one generation on.
    pub open spec fn recycled(self, new_budget: u32) -> BudgetModel {
        BudgetModel {
            deadline_ns: 0,
            remaining: new_budget,
            tier: 0,
            generation: self.generation.wrapping_add(1),
        }
    }
}

impl View for TaskBudget {
    type V = BudgetModel;

    closed spec fn view(&self) -> BudgetModel {
        BudgetModel {
            deadline_ns: self.deadline_ns,
            remaining: self.remaining,
            tier: self.tier,
            generation: self.generation,
        }
    }
}

impl TaskBudget {
    #[verifier::type_invariant]
    spec fn tier_in_range(self) -> bool {
        self.tier <= MAX_BUDGET_TIER
    }

    /// Creates a budget of `initial_budget` operations.
    #[must_use]
    pub fn new(initial_budget: u32) -> (budget: Self)
        requires
            MIN_BUDGET <= initial_budget <= MAX_BUDGET,
        ensures
            budget@ == BudgetModel::fresh(initial_budget),
    {
        TaskBudget {
            deadline_ns: 0,
            remaining: initial_budget,
            tier: 0,
            generation: 0,
            alignment: [],
        }
    }

    /// Consumes one operation. Returns whether the budget is exhausted.
    pub fn consume(&mut self) -> (exhausted: bool)
        ensures
            final(self)@ == old(self)@.consumed(),
            exhausted == final(self)@.exhausted(),
    {
        proof {
            use_type_invariant(&*self);
        }
        self.remaining = self.remaining.saturating_sub(1);
        self.remaining == 0
    }

    /// Whether the budget is exhausted.
    pub fn is_exhausted(&self) -> (exhausted: bool)
        ensures
            exhausted == self@.exhausted(),
    {
        self.remaining == 0
    }

    /// Refills the budget for a new poll cycle.
    pub fn reset(&mut self, new_budget: u32)
        ensures
            final(self)@ == old(self)@.refilled(new_budget),
    {
        proof {
            use_type_invariant(&*self);
        }
        self.remaining = new_budget;
    }

    /// Operations left.
    pub fn remaining(&self) -> (remaining: u32)
        ensures
            remaining == self@.remaining,
    {
        self.remaining
    }

    /// Current tier.
    pub fn tier(&self) -> (tier: u8)
        ensures
            tier == self@.tier,
            tier <= MAX_BUDGET_TIER,
    {
        proof {
            use_type_invariant(self);
        }
        self.tier
    }

    /// Moves one tier up, up to the highest, and returns the new tier.
    pub fn escalate_tier(&mut self) -> (tier: u8)
        ensures
            final(self)@ == old(self)@.escalated(),
            tier == final(self)@.tier,
            tier <= MAX_BUDGET_TIER,
    {
        proof {
            use_type_invariant(&*self);
        }
        if self.tier < MAX_BUDGET_TIER {
            self.tier = self.tier + 1;
        }
        self.tier
    }

    /// Moves back to tier 0.
    pub fn reset_tier(&mut self)
        ensures
            final(self)@ == (BudgetModel { tier: 0, ..old(self)@ }),
    {
        self.tier = 0;
    }

    /// Sets the CPU time deadline.
    pub fn set_deadline(&mut self, deadline_ns: u64)
        ensures
            final(self)@ == (BudgetModel { deadline_ns, ..old(self)@ }),
    {
        proof {
            use_type_invariant(&*self);
        }
        self.deadline_ns = deadline_ns;
    }

    /// CPU time deadline in nanoseconds.
    pub fn deadline(&self) -> (deadline_ns: u64)
        ensures
            deadline_ns == self@.deadline_ns,
    {
        self.deadline_ns
    }

    /// Prepares a used budget for another task.
    pub fn reset_all(&mut self, new_budget: u32)
        ensures
            final(self)@ == old(self)@.recycled(new_budget),
    {
        proof {
            use_type_invariant(&*self);
        }
        self.remaining = new_budget;
        self.deadline_ns = 0;
        self.tier = 0;
        self.generation = self.generation.wrapping_add(1);
    }

    /// How often the budget was reused, modulo 256.
    pub fn generation(&self) -> (generation: u8)
        ensures
            generation == self@.generation,
    {
        self.generation
    }
}

impl Default for TaskBudget {
    fn default() -> (budget: Self)
        ensures
            budget@ == BudgetModel::fresh(DEFAULT_BUDGET),
    {
        TaskBudget::new(DEFAULT_BUDGET)
    }
}

/// Consuming `n` times takes `n` operations off, but not below zero, and changes
/// nothing else. So a budget of `n` operations is exhausted by the `n`-th, not
/// earlier, and stays exhausted.
pub proof fn consuming_counts_down(budget: BudgetModel, n: nat)
    ensures
        budget.consumed_times(n) == (BudgetModel {
            remaining: (if n < budget.remaining { budget.remaining - n } else { 0 }) as u32,
            ..budget
        }),
        budget.consumed_times(n).exhausted() <==> n >= budget.remaining,
    decreases n,
{
    if n > 0 {
        consuming_counts_down(budget, (n - 1) as nat);
    }
}

/// A refill undoes any amount of consumption.
pub proof fn refill_undoes_consumption(budget: BudgetModel, n: nat)
    ensures
        budget.consumed_times(n).refilled(budget.remaining) == budget,
{
    consuming_counts_down(budget, n);
}

/// Pool configuration.
#[derive(Debug, Clone, Copy)]
pub struct BudgetPoolConfig {
    /// Initial pool size.
    pub initial_size: usize,
    /// Maximum pool size.
    pub max_size: usize,
    /// High watermark for pool shrinking.
    pub high_watermark: usize,
    /// Low watermark for pool shrinking.
    pub low_watermark: usize,
}

/// The default configuration of a pool.
pub open spec fn default_pool_config() -> BudgetPoolConfig {
    BudgetPoolConfig { initial_size: 64, max_size: 256, high_watermark: 200, low_watermark: 32 }
}

impl Default for BudgetPoolConfig {
    fn default() -> (config: Self)
        ensures
            config == default_pool_config(),
    {
        BudgetPoolConfig { initial_size: 64, max_size: 256, high_watermark: 200, low_watermark: 32 }
    }
}

/// Counters of a pool.
#[derive(Debug, Clone, Copy)]
pub struct BudgetPoolStats {
    /// Budgets taken out of the pool.
    pub pool_hits: u64,
    /// Budgets made because the pool was empty.
    pub pool_misses: u64,
    /// Budgets put back into the pool.
    pub pool_returns: u64,
    /// Budgets dropped because the pool was full.
    pub pool_discards: u64,
    /// Budgets in the pool.
    pub current_size: u64,
}

impl Default for BudgetPoolStats {
    fn default() -> (stats: Self)
        ensures
            stats == (BudgetPoolStats {
                pool_hits: 0,
                pool_misses: 0,
                pool_returns: 0,
                pool_discards: 0,
                current_size: 0,
            }),
    {
        BudgetPoolStats {
            pool_hits: 0,
            pool_misses: 0,
            pool_returns: 0,
            pool_discards: 0,
            current_size: 0,
        }
    }
}

impl BudgetPoolStats {
    /// The counters as a snapshot.
    pub open spec fn snapshot_spec(self) -> BudgetPoolStatsSnapshot {
        BudgetPoolStatsSnapshot {
            pool_hits: self.pool_hits,
            pool_misses: self.pool_misses,
            pool_returns: self.pool_returns,
            pool_discards: self.pool_discards,
            current_size: self.current_size,
        }
    }

    /// Takes a snapshot of the counters.
    pub fn snapshot(&self) -> (snapshot: BudgetPoolStatsSnapshot)
        ensures
            snapshot == self.snapshot_spec(),
    {
        BudgetPoolStatsSnapshot {
            pool_hits: self.pool_hits,
            pool_misses: self.pool_misses,
            pool_returns: self.pool_returns,
            pool_discards: self.pool_discards,
            current_size: self.current_size,
        }
    }
}

/// Counters of a pool at one moment.
#[derive(Debug, Clone, Copy, PartialEq, Eq, Structural)]
pub struct BudgetPoolStatsSnapshot {
    /// Budgets taken out of the pool.
    pub pool_hits: u64,
    /// Budgets made because the pool was empty.
    pub pool_misses: u64,
    /// Budgets put back into the pool.
    pub pool_returns: u64,
    /// Budgets dropped because the pool was full.
    pub pool_discards: u64,
    /// Budgets in the pool.
    pub current_size: u64,
}

/// Pool of budgets for reuse, first in, first out.
pub struct BudgetPool {
    budgets: SegQueue<TaskBudget>,
    config: BudgetPoolConfig,
    stats: BudgetPoolStats,
}

/// What a [`BudgetPool`] holds.
#[verifier::ext_equal]
pub struct PoolModel {
    /// Budgets that wait for reuse, the next one first.
    pub budgets: Seq<BudgetModel>,
    /// Configuration.
    pub config: BudgetPoolConfig,
    /// Counters.
    pub stats: BudgetPoolStats,
}

/// Memory pressure of 0.8 as a single-precision bit pattern.
pub const HIGH_PRESSURE_BITS: u32 = 0x3f4c_cccd;

/// Memory pressure of 0.6 as a single-precision bit pattern.
pub const MEDIUM_PRESSURE_BITS: u32 = 0x3f19_999a;

impl PoolModel {
    /// A pool that was just filled: `initial_size` fresh default budgets.
    pub open spec fn warm(config: BudgetPoolConfig) -> PoolModel {
        PoolModel {
            budgets: Seq::new(
                config.initial_size as nat,
                |i: int| BudgetModel::fresh(DEFAULT_BUDGET),
            ),
            config,
            stats: BudgetPoolStats {
                pool_hits: 0,
                pool_misses: 0,
                pool_returns: 0,
                pool_discards: 0,
                current_size: config.initial_size as u64,
            },
        }
    }

    /// Whether a budget of `initial_budget` operations can be handed out: from an
    /// empty pool only within the limits of [`TaskBudget::new`].
    pub open spec fn can_acquire(self, initial_budget: u32) -> bool {
        self.budgets.len() > 0 || MIN_BUDGET <= initial_budget <= MAX_BUDGET
    }

    /// The budget that [`BudgetPool::acquire`] hands out.
    pub open spec fn acquired(self, initial_budget: u32) -> BudgetModel {
        if self.budgets.len() > 0 {
            self.budgets[0].recycled(initial_budget)
        } else {
            BudgetModel::fresh(initial_budget)
        }
    }

    /// The pool after a budget was handed out.
    pub open spec fn after_acquire(self) -> PoolModel {
        if self.budgets.len() > 0 {
            PoolModel {
                budgets: self.budgets.skip(1),
                stats: BudgetPoolStats {
                    pool_hits: self.stats.pool_hits.wrapping_add(1),
                    current_size: (self.stats.current_size - 1) as u64,
                    ..self.stats
                },
                ..self
            }
        } else {
            PoolModel {
                stats: BudgetPoolStats {
                    pool_misses: self.stats.pool_misses.wrapping_add(1),
                    ..self.stats
                },
                ..self
            }
        }
    }

    /// The pool after `budget` was given back: kept below the maximum size,
    /// dropped otherwise.
    pub open spec fn after_release(self, budget: BudgetModel) -> PoolModel {
        if self.budgets.len() < self.config.max_size {
            PoolModel {
                budgets: self.budgets.push(budget),
                stats: BudgetPoolStats {
                    pool_returns: self.stats.pool_returns.wrapping_add(1),
                    current_size: (self.stats.current_size + 1) as u64,
                    ..self.stats
                },
                ..self
            }
        } else {
            PoolModel {
                stats: BudgetPoolStats {
                    pool_discards: self.stats.pool_discards.wrapping_add(1),
                    ..self.stats
                },
                ..self
            }
        }
    }

    /// How many budgets shrinking to `target_size` drops.
    pub open spec fn surplus(self, target_size: usize) -> nat {
        if self.budgets.len() > target_size {
            (self.budgets.len() - target_size) as nat
        } else {
            0
        }
    }

    /// The pool after shrinking: the oldest budgets are gone.
    pub open spec fn after_shrink(self, target_size: usize) -> PoolModel {
        PoolModel {
            budgets: self.budgets.skip(self.surplus(target_size) as int),
            stats: BudgetPoolStats {
                current_size: (self.stats.current_size - self.surplus(target_size)) as u64,
                ..self.stats
            },
            ..self
        }
    }

    /// The size above which a pool shrinks under this memory pressure.
    pub open spec fn shrink_threshold(self, memory_pressure_bits: u32) -> usize {
        if single_exceeds(memory_pressure_bits, HIGH_PRESSURE_BITS) {
            self.config.low_watermark
        } else if single_exceeds(memory_pressure_bits, MEDIUM_PRESSURE_BITS) {
            self.config.high_watermark / 2
        } else {
            self.config.high_watermark
        }
    }

    /// The size counter agrees with the contents.
    pub open spec fn wf(self) -> bool {
        self.stats.current_size == self.budgets.len() && self.budgets.len() <= usize::MAX
    }
}

impl View for BudgetPool {
    type V = PoolModel;

    closed spec fn view(&self) -> PoolModel {
        PoolModel {
            budgets: queued_budgets(self.budgets).map_values(|budget: TaskBudget| budget@),
            config: self.config,
            stats: self.stats,
        }
    }
}

impl BudgetPool {
    /// Creates a pool and fills it with `initial_size` default budgets.
    pub fn new(config: BudgetPoolConfig) -> (pool: Self)
        ensures
            pool@ == PoolModel::warm(config),
            pool@.wf(),
    {
        let mut pool = BudgetPool {
            budgets: new_budget_queue(),
            config,
            stats: BudgetPoolStats::default(),
        };
        pool.warm_up();
        pool
    }

    /// Puts `initial_size` default budgets into the empty pool.
    fn warm_up(&mut self)
        requires
            old(self)@.budgets.len() == 0,
        ensures
            final(self)@ == (PoolModel {
                budgets: PoolModel::warm(old(self)@.config).budgets,
                stats: BudgetPoolStats {
                    current_size: old(self)@.config.initial_size as u64,
                    ..old(self)@.stats
                },
                ..old(self)@
            }),
    {
        let mut filled: usize = 0;
        while filled < self.config.initial_size
            invariant
                filled <= self.config.initial_size,
                self@.budgets =~= Seq::new(
                    filled as nat,
                    |i: int| BudgetModel::fresh(DEFAULT_BUDGET),
                ),
                self@.config == old(self)@.config,
                self@.stats == old(self)@.stats,
            decreases self.config.initial_size - filled,
        {
            let ghost before = self@.budgets;
            let budget = TaskBudget::new(DEFAULT_BUDGET);
            push_budget(&mut self.budgets, budget);
            assert(self@.budgets =~= before.push(budget@));
            filled += 1;
        }
        self.stats.current_size = self.config.initial_size as u64;
    }

    /// Takes the oldest budget out of the pool and refills it, or makes a new one
    /// when the pool is empty.
    pub fn acquire(&mut self, initial_budget: u32) -> (budget: TaskBudget)
        requires
            old(self)@.wf(),
            old(self)@.can_acquire(initial_budget),
        ensures
            budget@ == old(self)@.acquired(initial_budget),
            final(self)@ == old(self)@.after_acquire(),
            final(self)@.wf(),
    {
        match pop_budget(&mut self.budgets) {
            Some(mut budget) => {
                budget.reset_all(initial_budget);
                self.stats.pool_hits = self.stats.pool_hits.wrapping_add(1);
                self.stats.current_size = self.stats.current_size - 1;
                assert(self@.budgets =~= old(self)@.budgets.skip(1));
                budget
            },
            None => {
                self.stats.pool_misses = self.stats.pool_misses.wrapping_add(1);
                TaskBudget::new(initial_budget)
            },
        }
    }

    /// Gives a budget back. A full pool drops it.
    pub fn release(&mut self, budget: TaskBudget)
        requires
            old(self)@.wf(),
        ensures
            final(self)@ == old(self)@.after_release(budget@),
            final(self)@.wf(),
    {
        let current_size: usize = self.stats.current_size as usize;
        if current_size < self.config.max_size {
            push_budget(&mut self.budgets, budget);
            self.stats.pool_returns = self.stats.pool_returns.wrapping_add(1);
            self.stats.current_size = self.stats.current_size + 1;
            assert(self@.budgets =~= old(self)@.budgets.push(budget@));
        } else {
            self.stats.pool_discards = self.stats.pool_discards.wrapping_add(1);
        }
    }

    /// Takes a snapshot of the counters.
    pub fn stats(&self) -> (snapshot: BudgetPoolStatsSnapshot)
        ensures
            snapshot == self@.stats.snapshot_spec(),
    {
        self.stats.snapshot()
    }

    /// How many budgets are in the pool.
    pub fn size(&self) -> (size: usize)
        requires
            self@.wf(),
        ensures
            size == self@.budgets.len(),
    {
        self.stats.current_size as usize
    }

    /// Whether a budget of `initial_budget` operations can be handed out.
    pub fn can_acquire(&self, initial_budget: u32) -> (possible: bool)
        requires
            self@.wf(),
        ensures
            possible == self@.can_acquire(initial_budget),
    {
        self.stats.current_size > 0 || (MIN_BUDGET <= initial_budget && initial_budget
            <= MAX_BUDGET)
    }

    /// Whether the pool is larger than it should be under this memory pressure,
    /// a single-precision bit pattern.
    pub fn should_shrink(&self, memory_pressure_bits: u32) -> (shrink: bool)
        requires
            self@.wf(),
        ensures
            shrink == (self@.budgets.len() > self@.shrink_threshold(memory_pressure_bits)),
    {
        let threshold: usize = if exceeds(memory_pressure_bits, HIGH_PRESSURE_BITS) {
            self.config.low_watermark
        } else if exceeds(memory_pressure_bits, MEDIUM_PRESSURE_BITS) {
            self.config.high_watermark / 2
        } else {
            self.config.high_watermark
        };
        self.size() > threshold
    }

    /// Drops the oldest budgets until at most `target_size` are left. Returns how
    /// many were dropped.
    pub fn shrink(&mut self, target_size: usize) -> (shrunk: usize)
        requires
            old(self)@.wf(),
        ensures
            shrunk == old(self)@.surplus(target_size),
            final(self)@ == old(self)@.after_shrink(target_size),
            final(self)@.wf(),
    {
        let mut shrunk: usize = 0;
        while self.size() > target_size
            invariant
                self@.wf(),
                shrunk <= old(self)@.surplus(target_size),
                old(self)@.wf(),
                self@ =~= (PoolModel {
                    budgets: old(self)@.budgets.skip(shrunk as int),
                    stats: BudgetPoolStats {
                        current_size: (old(self)@.stats.current_size - shrunk) as u64,
                        ..old(self)@.stats
                    },
                    ..old(self)@
                }),
            decreases self@.budgets.len(),
        {
            let ghost before = self@.budgets;
            let dropped = pop_budget(&mut self.budgets);
            assert(self@.budgets =~= before.skip(1));
            shrunk += 1;
            self.stats.current_size = self.stats.current_size - 1;
        }
        shrunk
    }
}

impl Default for BudgetPool {
    fn default() -> (pool: Self)
        ensures
            pool@ == PoolModel::warm(default_pool_config()),
            pool@.wf(),
    {
        BudgetPool::new(BudgetPoolConfig::default())
    }
}

/// A pool never grows above the larger of its maximum size and the size that it
/// had: handing out and shrinking only make it smaller, and a full pool drops
/// what it is given.
pub proof fn pool_size_stays_bounded(
    pool: PoolModel,
    initial_budget: u32,
    budget: BudgetModel,
    target_size: usize,
)
    requires
        pool.wf(),
    ensures
        pool.after_acquire().budgets.len() <= pool.budgets.len(),
        pool.after_shrink(target_size).budgets.len() <= pool.budgets.len(),
        pool.after_release(budget).budgets.len() <= pool.budgets.len()
            || pool.after_release(budget).budgets.len() <= pool.config.max_size,
        pool.after_acquire().wf(),
        pool.after_release(budget).wf(),
        pool.after_shrink(target_size).wf(),
{
}

/// Every acquisition counts as a hit or as a miss, and every release as a return
/// or as a discard, as long as the counters do not wrap.
pub proof fn pool_traffic_is_counted(pool: PoolModel, budget: BudgetModel)
    requires
        pool.wf(),
        pool.stats.pool_hits < u64::MAX,
        pool.stats.pool_misses < u64::MAX,
        pool.stats.pool_returns < u64::MAX,
        pool.stats.pool_discards < u64::MAX,
    ensures
        pool.after_acquire().stats.pool_hits + pool.after_acquire().stats.pool_misses
            == pool.stats.pool_hits + pool.stats.pool_misses + 1,
        pool.after_release(budget).stats.pool_returns + pool.after_release(
            budget,
        ).stats.pool_discards == pool.stats.pool_returns + pool.stats.pool_discards + 1,
{
}

/// A budget that was used and given back to an empty pool with room comes out
/// again as the same budget, reset and one generation on.
pub proof fn released_budget_is_reused(pool: PoolModel, budget: BudgetModel, next_budget: u32)
    requires
        pool.wf(),
        pool.budgets.len() == 0,
        pool.config.max_size > 0,
    ensures
        pool.after_release(budget).acquired(next_budget) == budget.recycled(next_budget),
        pool.after_release(budget).after_acquire().budgets =~= pool.budgets,
        pool.after_release(budget).after_acquire().stats.current_size == pool.stats.current_size,
{
}

/// The pools that a worker thread draws on: its own, and one shared with others.
pub struct BudgetPools {
    /// Pool of the process.
    pub global: BudgetPool,
    /// Pool of the thread.
    pub local: BudgetPool,
}

/// What [`BudgetPools`] hold.
#[verifier::ext_equal]
pub struct PoolsModel {
    /// Pool of the process.
    pub global: PoolModel,
    /// Pool of the thread.
    pub local: PoolModel,
}

impl PoolsModel {
    /// Both pools just filled.
    pub open spec fn warm() -> PoolsModel {
        PoolsModel {
            global: PoolModel::warm(default_pool_config()),
            local: PoolModel::warm(default_pool_config()),
        }
    }

    /// Both pools are well-formed.
    pub open spec fn wf(self) -> bool {
        self.global.wf() && self.local.wf()
    }

    /// Whether the thread's pool is empty and the process's pool helps out.
    pub open spec fn falls_back(self) -> bool {
        self.local.budgets.len() == 0 && self.global.budgets.len() > 0
    }

    /// Whether a budget of `initial_budget` operations can be handed out: from empty
    /// pools only within the limits of [`TaskBudget::new`].
    pub open spec fn can_acquire(self, initial_budget: u32) -> bool {
        self.local.budgets.len() > 0 || self.global.budgets.len() > 0 || MIN_BUDGET
            <= initial_budget <= MAX_BUDGET
    }

    /// The budget that [`acquire_budget`] hands out: the oldest one of the thread's
    /// pool, else that of the process's pool, else a new one.
    pub open spec fn acquired(self, initial_budget: u32) -> BudgetModel {
        if self.falls_back() {
            self.global.acquired(initial_budget)
        } else {
            self.local.acquired(initial_budget)
        }
    }

    /// The pools after a budget was handed out. Only the pool that it came from
    /// changes; a new one counts as a miss of the thread's pool.
    pub open spec fn after_acquire(self) -> PoolsModel {
        if self.falls_back() {
            PoolsModel { global: self.global.after_acquire(), ..self }
        } else {
            PoolsModel { local: self.local.after_acquire(), ..self }
        }
    }

    /// The pools after a budget was given back to the thread's pool.
    pub open spec fn after_release(self, budget: BudgetModel) -> PoolsModel {
        PoolsModel { local: self.local.after_release(budget), ..self }
    }
}

impl View for BudgetPools {
    type V = PoolsModel;

    open spec fn view(&self) -> PoolsModel {
        PoolsModel { global: self.global@, local: self.local@ }
    }
}

impl Default for BudgetPools {
    fn default() -> (pools: Self)
        ensures
            pools@ == PoolsModel::warm(),
            pools@.wf(),
    {
        BudgetPools { global: BudgetPool::default(), local: BudgetPool::default() }
    }
}

impl BudgetPools {
    /// Whether a budget of `initial_budget` operations can be handed out.
    pub fn can_acquire(&self, initial_budget: u32) -> (possible: bool)
        requires
            self@.wf(),
        ensures
            possible == self@.can_acquire(initial_budget),
    {
        self.local.can_acquire(initial_budget) || self.global.size() > 0
    }
}

/// Acquires a budget from the thread's pool, with the process's pool as fallback. A
/// new one is made when both are empty.
pub fn acquire_budget(pools: &mut BudgetPools, initial_budget: u32) -> (budget: TaskBudget)
    requires
        old(pools)@.wf(),
        old(pools)@.can_acquire(initial_budget),
    ensures
        budget@ == old(pools)@.acquired(initial_budget),
        final(pools)@ == old(pools)@.after_acquire(),
        final(pools)@.wf(),
{
    if pools.local.size() == 0 && pools.global.size() > 0 {
        pools.global.acquire(initial_budget)
    } else {
        pools.local.acquire(initial_budget)
    }
}

/// Releases a budget to the thread's pool. A full pool drops it.
pub fn release_budget(pools: &mut BudgetPools, budget: TaskBudget)
    requires
        old(pools)@.wf(),
    ensures
        final(pools)@ == old(pools)@.after_release(budget@),
        final(pools)@.wf(),
{
    pools.local.release(budget)
}

/// The thread's pool comes first, the process's pool helps out while the thread's is
/// empty, and a new budget is made only when both are: then, and only then, there are
/// as many budgets in the pools as before.
pub proof fn pools_help_out_in_order(pools: PoolsModel, initial_budget: u32)
    requires
        pools.wf(),
    ensures
        ({
            let (local, global) = (pools.local.budgets, pools.global.budgets);
            let after = pools.after_acquire();
            &&& local.len() > 0 ==> {
                &&& pools.acquired(initial_budget) == local[0].recycled(initial_budget)
                &&& after.local.budgets == local.skip(1)
                &&& after.global == pools.global
            }
            &&& local.len() == 0 && global.len() > 0 ==> {
                &&& pools.acquired(initial_budget) == global[0].recycled(initial_budget)
                &&& after.global.budgets == global.skip(1)
                &&& after.local == pools.local
            }
            &&& local.len() == 0 && global.len() == 0 ==> {
                &&& pools.acquired(initial_budget) == BudgetModel::fresh(initial_budget)
                &&& after.local.stats.pool_misses == pools.local.stats.pool_misses.wrapping_add(1)
                &&& after.global == pools.global
            }
            &&& after.local.budgets.len() + after.global.budgets.len() == local.len()
                + global.len() <==> local.len() == 0 && global.len() == 0
            &&& after.wf()
        }),
{
}

/// Counters of the process's pool.
pub fn global_pool_stats(pools: &BudgetPools) -> (snapshot: BudgetPoolStatsSnapshot)
    ensures
        snapshot == pools.global@.stats.snapshot_spec(),
{
    pools.global.stats()
}

/// Counters of the thread's pool.
pub fn thread_local_pool_stats(pools: &BudgetPools) -> (snapshot: Option<BudgetPoolStatsSnapshot>)
    ensures
        snapshot == Some(pools.local@.stats.snapshot_spec()),
{
    Some(pools.local.stats())
}

/// A budget that comes out of a pool has the operations that were asked for, no
/// deadline, the lowest tier, and was reused once more; a new one was never used.
pub proof fn budgets_start_anew(budget: BudgetModel, operations: u32)
    ensures
        ({
            let renewed = budget.recycled(operations);
            let new = BudgetModel::fresh(operations);
            &&& renewed.remaining == operations && new.remaining == operations
            &&& renewed.deadline_ns == 0 && new.deadline_ns == 0
            &&& renewed.tier == 0 && new.tier == 0
            &&& new.generation == 0
            &&& renewed.generation as int == (budget.generation + 1) % 256
        }),
{
}

/// A budget counts down by one with each operation and is exhausted exactly at zero; a
/// refill sets the operations and nothing else; the tier goes up by one, to three at
/// most.
pub proof fn budgets_change_one_thing_at_a_time(budget: BudgetModel, operations: u32)
    ensures
        budget.consumed() == (BudgetModel {
            remaining: (if budget.remaining > 0 { budget.remaining - 1 } else { 0 }) as u32,
            ..budget
        }),
        budget.exhausted() <==> budget.remaining == 0,
        budget.refilled(operations) == (BudgetModel { remaining: operations, ..budget }),
        budget.escalated() == (BudgetModel {
            tier: (if budget.tier < 3 { budget.tier + 1 } else { budget.tier as int }) as u8,
            ..budget
        }),
{
}

/// A pool is first in, first out: what is given back comes out behind all that was in
/// the pool before, renewed, while the pool had room for it. Each of these operations
/// counts as what it was.
pub proof fn pools_are_first_in_first_out(pool: PoolModel, budget: BudgetModel, operations: u32)
    requires
        pool.wf(),
    ensures
        ({
            let taken = pool.after_acquire();
            let given = pool.after_release(budget);
            let stats = pool.stats;
            &&& pool.budgets.len() > 0 ==> {
                &&& pool.acquired(operations) == pool.budgets[0].recycled(operations)
                &&& taken.budgets == pool.budgets.skip(1)
                &&& stats.pool_hits < u64::MAX ==> taken.stats.pool_hits == stats.pool_hits + 1
                &&& taken.stats.pool_misses == stats.pool_misses
            }
            &&& pool.budgets.len() == 0 ==> {
                &&& pool.acquired(operations) == BudgetModel::fresh(operations)
                &&& taken.budgets == pool.budgets
                &&& stats.pool_misses < u64::MAX ==> taken.stats.pool_misses == stats.pool_misses
                    + 1
                &&& taken.stats.pool_hits == stats.pool_hits
            }
            &&& pool.budgets.len() < pool.config.max_size ==> {
                &&& given.budgets == pool.budgets.push(budget)
                &&& stats.pool_returns < u64::MAX ==> given.stats.pool_returns
                    == stats.pool_returns + 1
                &&& given.stats.pool_discards == stats.pool_discards
            }
            &&& pool.budgets.len() >= pool.config.max_size ==> {
                &&& given.budgets == pool.budgets
                &&& stats.pool_discards < u64::MAX ==> given.stats.pool_discards
                    == stats.pool_discards + 1
                &&& given.stats.pool_returns == stats.pool_returns
            }
            &&& taken.config == pool.config && given.config == pool.config
            &&& taken.stats.pool_returns == stats.pool_returns && taken.stats.pool_discards
                == stats.pool_discards
            &&& given.stats.pool_hits == stats.pool_hits && given.stats.pool_misses
                == stats.pool_misses
            &&& pool.can_acquire(operations) <==> pool.budgets.len() > 0 || 100 <= operations
                <= 10_000
        }),
{
}

/// A pool shrinks to the size asked for, oldest budgets first, and only if it is larger.
pub proof fn shrinking_drops_the_oldest(pool: PoolModel, target_size: usize)
    requires
        pool.wf(),
    ensures
        ({
            let after = pool.after_shrink(target_size);
            &&& pool.budgets.len() <= target_size ==> after.budgets == pool.budgets
                && pool.surplus(target_size) == 0
            &&& pool.budgets.len() > target_size ==> {
                &&& after.budgets.len() == target_size
                &&& after.budgets == pool.budgets.skip(pool.budgets.len() - target_size)
                &&& pool.surplus(target_size) == pool.budgets.len() - target_size
            }
            &&& after.config == pool.config
            &&& after.stats.pool_hits == pool.stats.pool_hits
            &&& after.stats.pool_returns == pool.stats.pool_returns
            &&& after.stats.pool_discards == pool.stats.pool_discards
        }),
{
    assert(pool.budgets.skip(0) =~= pool.budgets);
}

/// A pool should shrink to the low watermark above a memory pressure of 0.8, to half of
/// the high watermark above 0.6, and to the high watermark else.
pub proof fn memory_pressure_lowers_the_watermark(pool: PoolModel, memory_pressure_bits: u32)
    ensures
        pool.shrink_threshold(memory_pressure_bits) == (if single_exceeds(
            memory_pressure_bits,
            0x3f4c_cccd,
        ) {
            pool.config.low_watermark as int
        } else if single_exceeds(memory_pressure_bits, 0x3f19_999a) {
            pool.config.high_watermark as int / 2
        } else {
            pool.config.high_watermark as int
        }),
{
}

/// A warm pool holds as many budgets as it begins with, each of 2000 operations and never
/// used, and has counted nothing.
pub proof fn warm_pools_hold_default_budgets(config: BudgetPoolConfig, i: int)
    requires
        0 <= i < config.initial_size,
    ensures
        ({
            let pool = PoolModel::warm(config);
            &&& pool.budgets.len() == config.initial_size
            &&& pool.budgets[i].remaining == 2000
            &&& pool.budgets[i].generation == 0
            &&& pool.budgets[i].tier == 0
            &&& pool.stats.pool_hits == 0 && pool.stats.pool_misses == 0
            &&& pool.stats.pool_returns == 0 && pool.stats.pool_discards == 0
            &&& pool.config == config
        }),
{
}

/// The counters are reported as they are.
pub proof fn pool_reports_agree(stats: BudgetPoolStats)
    ensures
        stats.snapshot_spec().pool_hits == stats.pool_hits,
        stats.snapshot_spec().pool_misses == stats.pool_misses,
        stats.snapshot_spec().pool_returns == stats.pool_returns,
        stats.snapshot_spec().pool_discards == stats.pool_discards,
        stats.snapshot_spec().current_size == stats.current_size,
{
}

} // verus!
