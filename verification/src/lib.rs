//! Cooperative preemption control for async tasks.
//!
//! A task that never yields starves its neighbours on a worker thread. This
//! library decides when such a task is warned, asked to yield, queued apart or
//! isolated. Every decision is a function of plain values (counters, clock
//! readings in nanoseconds, configuration), so that it can be stated in a
//! contract and proved.

pub mod budget;
pub mod collections;
pub mod hooks;
pub mod instrument;
pub mod isolation;
pub mod metrics;
pub mod middleware;
pub mod reschedule;
pub mod single;
pub mod slow_queue;
pub mod stopwatch;
pub mod text;
pub mod tier_manager;
pub mod timing;

pub use budget::TaskBudget;
pub use hooks::{HookRegistry, NullHooks, PreemptionHooks};
pub use isolation::{IsolationError, TaskIsolation};
pub use reschedule::{
    DedicatedThreadScheduler, RescheduleError, RescheduleTask, ThreadSchedulerConfig,
    ThreadSchedulerMetrics, ThreadSchedulerMetricsSnapshot,
};
pub use tier_manager::{
    ConfigProfile, InterventionAction, PollResult, TaskContext, TaskId, TierConfig, TierManager,
    TierMetrics, TierPolicy, TierPolicyBuilder,
};
pub use timing::{create_cpu_timer, CpuTimer, TimingError};
