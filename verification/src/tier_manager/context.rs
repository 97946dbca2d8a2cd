//! Who a task is and where it runs.

use crate::single::{nearest_single, round_to_single};
use crate::slow_queue::priority::TaskPriority;
use vstd::prelude::*;

verus! {

/// Task identifier.
#[derive(Debug, Clone, Copy, PartialEq, Eq, Hash, Structural)]
pub struct TaskId(pub u64);

/// Poll operation result.
#[derive(Debug, Clone, Copy, PartialEq, Eq, Structural)]
pub enum PollResult {
    /// Task completed.
    Ready,
    /// Task continues.
    Pending,
    /// Task panicked.
    Panicked,
}

/// Task execution context.
#[derive(Debug, Clone, Copy, PartialEq, Eq, Structural)]
pub struct TaskContext {
    /// Worker thread ID.
    pub worker_id: usize,
    /// Task priority.
    pub priority: Option<u8>,
}

impl TaskContext {
    /// The priority level: 0 is critical, 1 high, 2 normal, everything above low,
    /// and an unspecified priority is normal.
    pub open spec fn level(self) -> TaskPriority {
        match self.priority {
            Some(0) => TaskPriority::Critical,
            Some(1) => TaskPriority::High,
            Some(2) => TaskPriority::Normal,
            Some(_) => TaskPriority::Low,
            None => TaskPriority::Normal,
        }
    }

    /// By how many quarters promotion thresholds are scaled: the more urgent the
    /// task, the fewer violations it takes.
    pub open spec fn threshold_quarters(self) -> u32 {
        match self.level() {
            TaskPriority::Critical => 1,
            TaskPriority::High => 2,
            TaskPriority::Normal => 4,
            TaskPriority::Low => 8,
        }
    }

    /// By how many quarters budgets are scaled: the more urgent the task, the
    /// larger its budget.
    pub open spec fn budget_quarters(self) -> u32 {
        match self.level() {
            TaskPriority::Critical => 16,
            TaskPriority::High => 8,
            TaskPriority::Normal => 4,
            TaskPriority::Low => 2,
        }
    }

    /// The priority level.
    pub fn task_priority(&self) -> (level: TaskPriority)
        ensures
            level == self.level(),
    {
        match self.priority {
            Some(0) => TaskPriority::Critical,
            Some(1) => TaskPriority::High,
            Some(2) => TaskPriority::Normal,
            Some(_) => TaskPriority::Low,
            None => TaskPriority::Normal,
        }
    }

    /// Multiplier of promotion thresholds, in quarters.
    pub fn priority_threshold_multiplier(&self) -> (quarters: u32)
        ensures
            quarters == self.threshold_quarters(),
    {
        match self.task_priority() {
            TaskPriority::Critical => 1,
            TaskPriority::High => 2,
            TaskPriority::Normal => 4,
            TaskPriority::Low => 8,
        }
    }

    /// Multiplier of budgets, in quarters.
    pub fn priority_budget_multiplier(&self) -> (quarters: u32)
        ensures
            quarters == self.budget_quarters(),
    {
        match self.task_priority() {
            TaskPriority::Critical => 16,
            TaskPriority::High => 8,
            TaskPriority::Normal => 4,
            TaskPriority::Low => 2,
        }
    }
}

/// `value` scaled by `quarters` in single precision: rounded to 24 significant
/// bits, multiplied, cut to a whole number, at least 1 and at most `u32::MAX`.
pub open spec fn scaled(value: u32, quarters: u32) -> u32 {
    let exact = (nearest_single(value as nat) * quarters) as nat / 4;
    if exact < 1 {
        1
    } else if exact > u32::MAX {
        u32::MAX
    } else {
        exact as u32
    }
}

/// Scales `value` by `quarters` in single precision.
pub fn scale(value: u32, quarters: u32) -> (result: u32)
    requires
        quarters <= 16,
    ensures
        result == scaled(value, quarters),
        result >= 1,
{
    let rounded: u128 = round_to_single(value as u128);
    assert(rounded * quarters <= 0x2_0000_0000 * 16) by (nonlinear_arith)
        requires
            rounded <= 0x2_0000_0000,
            quarters <= 16,
    ;
    let exact: u128 = rounded * (quarters as u128) / 4;
    if exact < 1 {
        1
    } else if exact > 0xffff_ffff {
        u32::MAX
    } else {
        exact as u32
    }
}

/// Within 24 bits a scaled value is the exact product, cut to a whole number, but
/// at least 1.
pub proof fn scaling_is_exact_below_25_bits(value: u32, quarters: u32)
    requires
        value < 0x100_0000,
        quarters <= 16,
    ensures
        scaled(value, quarters) == (if value * quarters < 4 {
            1
        } else {
            value * quarters / 4
        }),
{
    crate::single::nearest_single_is_exact_below_25_bits(value as nat);
    assert(value * quarters <= 0x100_0000 * 16) by (nonlinear_arith)
        requires
            value < 0x100_0000,
            quarters <= 16,
    ;
}

/// A more urgent task needs no more violations for a promotion and gets no
/// smaller budget.
pub proof fn urgency_is_monotone(a: TaskContext, b: TaskContext)
    requires
        a.level().rank() <= b.level().rank(),
    ensures
        a.threshold_quarters() <= b.threshold_quarters(),
        a.budget_quarters() >= b.budget_quarters(),
        forall|value: u32|
            #![trigger scaled(value, a.threshold_quarters())]
            scaled(value, a.threshold_quarters()) <= scaled(value, b.threshold_quarters()),
        forall|value: u32|
            #![trigger scaled(value, a.budget_quarters())]
            scaled(value, a.budget_quarters()) >= scaled(value, b.budget_quarters()),
{
    assert forall|value: u32|
        #![trigger scaled(value, a.threshold_quarters())]
        scaled(value, a.threshold_quarters()) <= scaled(value, b.threshold_quarters()) by {
        scaling_is_monotone(value, a.threshold_quarters(), b.threshold_quarters());
    }
    assert forall|value: u32|
        #![trigger scaled(value, a.budget_quarters())]
        scaled(value, a.budget_quarters()) >= scaled(value, b.budget_quarters()) by {
        scaling_is_monotone(value, b.budget_quarters(), a.budget_quarters());
    }
}

proof fn scaling_is_monotone(value: u32, q1: u32, q2: u32)
    requires
        q1 <= q2,
    ensures
        scaled(value, q1) <= scaled(value, q2),
{
    let n = nearest_single(value as nat);
    assert(n * q1 <= n * q2) by (nonlinear_arith)
        requires
            q1 <= q2,
            n >= 0,
    ;
}

} // verus!
