//! Queue for tasks that overran their share of CPU time.

pub mod adaptive;
pub mod batches;
pub mod laws;
pub mod model;
pub mod priority;
pub mod queue;
pub mod relief;
pub mod service_laws;
pub mod sizing_laws;
pub mod types;

pub use self::adaptive::{AdaptiveQueueController, LoadReading, SlidingWindow};
pub use self::priority::TaskPriority;
pub use self::types::{
    QueueError, SchedulingAlgorithm, SlowQueueConfig, SlowQueueMetrics, SlowQueueMetricsSnapshot,
    SlowTask,
};
pub use self::queue::SlowQueue;
