//! Multi-tier task management for preemption control.
//!
//! Tasks move through four tiers (monitor, warn, yield, isolate) as they overrun
//! their budget or their share of CPU time, and back as they behave.

pub mod config;
pub mod context;
pub mod laws;
pub mod manager;
pub mod manager_laws;
pub mod model;
pub mod poll_laws;
pub mod task;
pub mod worker;

pub use self::config::{
    ConfigProfile, InterventionAction, TierConfig, TierPolicy, TierPolicyBuilder,
};
pub use self::context::{PollResult, TaskContext, TaskId};
pub use self::worker::{TierMetrics, WorkerMetrics, WorkerStats};
pub use self::manager::TierManager;
pub use self::model::{Intervention, TierCounters};
pub use self::task::{PollReport, TaskState};
