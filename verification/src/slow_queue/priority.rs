//! Priority levels of tasks.

use vstd::prelude::*;

verus! {

/// Priority levels for slow queue processing.
#[derive(Debug, Clone, Copy, PartialEq, Eq, PartialOrd, Ord, Structural)]
pub enum TaskPriority {
    /// System tasks, never fully blocked.
    Critical,
    /// User-interactive tasks.
    High,
    /// Standard async tasks.
    Normal,
    /// Background work.
    Low,
}

impl TaskPriority {
    /// Rank of the level: 0 is the most urgent.
    pub open spec fn rank(self) -> int {
        match self {
            TaskPriority::Critical => 0,
            TaskPriority::High => 1,
            TaskPriority::Normal => 2,
            TaskPriority::Low => 3,
        }
    }

    /// The level one step more urgent. High is as far as a boost goes.
    pub open spec fn boosted(self) -> TaskPriority {
        match self {
            TaskPriority::Low => TaskPriority::Normal,
            TaskPriority::Normal => TaskPriority::High,
            TaskPriority::High => TaskPriority::High,
            TaskPriority::Critical => TaskPriority::Critical,
        }
    }

    /// Boosts the priority by one level.
    #[must_use]
    pub fn boost(self) -> (boosted: Self)
        ensures
            boosted == self.boosted(),
    {
        match self {
            TaskPriority::Low => TaskPriority::Normal,
            TaskPriority::Normal => TaskPriority::High,
            TaskPriority::High => TaskPriority::High,
            TaskPriority::Critical => TaskPriority::Critical,
        }
    }

    /// Rank of the level: 0 is the most urgent.
    pub fn index(self) -> (rank: usize)
        ensures
            rank == self.rank(),
            rank < 4,
    {
        match self {
            TaskPriority::Critical => 0,
            TaskPriority::High => 1,
            TaskPriority::Normal => 2,
            TaskPriority::Low => 3,
        }
    }
}

/// A boost never makes a task less urgent, moves it by at most one level, and
/// never makes it critical.
pub proof fn boost_raises_by_at_most_one(priority: TaskPriority)
    ensures
        priority.rank() - 1 <= priority.boosted().rank() <= priority.rank(),
        priority.boosted() == TaskPriority::Critical <==> priority == TaskPriority::Critical,
        priority.boosted().boosted().boosted() == priority.boosted().boosted(),
{
}

/// The levels are ranked critical, high, normal, low, and a boost takes low to normal
/// and normal to high.
pub proof fn boosts_go_to_the_next_rank(priority: TaskPriority)
    ensures
        priority.rank() == 0 <==> priority == TaskPriority::Critical,
        priority.rank() == 1 <==> priority == TaskPriority::High,
        priority.rank() == 2 <==> priority == TaskPriority::Normal,
        priority.rank() == 3 <==> priority == TaskPriority::Low,
        priority.boosted().rank() == (if priority.rank() >= 2 {
            priority.rank() - 1
        } else {
            priority.rank()
        }),
{
}

} // verus!
