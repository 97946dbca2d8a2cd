//! CPU time measurement.
//!
//! Reading the clock of a thread is a system call that is made outside; the
//! timers here turn a reading into nanoseconds and take the calibrated overhead
//! off. Only the fallback timer has a clock of its own.

pub mod fallback;
pub mod linux;
pub mod macos;
pub mod samples;
pub mod timer;
pub mod windows;

pub use self::fallback::FallbackTimer;
pub use self::linux::{LinuxTimer, ThreadTime};
pub use self::macos::{MacOsTimer, ThreadUsage};
pub use self::samples::median_of_sorted;
pub use self::timer::{
    create_cpu_timer, Calibratable, CpuTimer, PlatformTimer, TimerInfo, TimingError,
};
pub use self::windows::WindowsTimer;
