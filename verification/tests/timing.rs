use tokio_pulse::stopwatch::Stopwatch;
use tokio_pulse::timing::samples::{median_of, overhead_between, CALIBRATION_SAMPLES};
use tokio_pulse::timing::{
    median_of_sorted, Calibratable, FallbackTimer, LinuxTimer, MacOsTimer, PlatformTimer,
    ThreadTime, ThreadUsage, TimerInfo, WindowsTimer,
};
use tokio_pulse::{create_cpu_timer, CpuTimer, TimingError};

/// Clock that stands for the CPU clock of a thread.
struct Clock {
    watch: Stopwatch,
}

impl Clock {
    fn new() -> Self {
        Clock { watch: Stopwatch::start() }
    }

    fn thread_time(&self) -> ThreadTime {
        let ns = self.watch.elapsed_ns();
        ThreadTime { secs: (ns / 1_000_000_000) as u64, nanos: (ns % 1_000_000_000) as u64 }
    }

    fn thread_usage(&self) -> ThreadUsage {
        let us = self.watch.elapsed_ns() / 1_000;
        ThreadUsage {
            user_secs: (us / 1_000_000) as u64,
            user_micros: (us % 1_000_000) as u64,
            system_secs: 0,
            system_micros: 0,
        }
    }

    fn cycles(&self) -> u64 {
        (self.watch.elapsed_ns() * 3) as u64
    }
}

const FREQUENCY: u64 = 3_000_000_000;

fn overheads<F: Fn() -> u64>(reading: F) -> Vec<u64> {
    (0..CALIBRATION_SAMPLES)
        .map(|_| {
            let start = reading();
            overhead_between(start, reading())
        })
        .collect()
}

fn work(rounds: u64) {
    let mut sum = 0u64;
    for i in 0..rounds {
        sum = sum.wrapping_add(i);
    }
    std::hint::black_box(sum);
}

fn no_native() -> Result<PlatformTimer, TimingError> {
    Err(TimingError::PlatformNotSupported("none".to_string()))
}

fn created() -> PlatformTimer {
    create_cpu_timer(no_native(), Ok(Vec::new()))
}

fn read(timer: &PlatformTimer) -> Result<u64, TimingError> {
    let raw = timer.own_reading().expect("No clock of its own");
    timer.thread_cpu_time_ns(Ok(raw))
}

fn read_fallback(timer: &FallbackTimer) -> Result<u64, TimingError> {
    timer.thread_cpu_time_ns(Ok(timer.get_time_raw()))
}

#[test]
fn test_fallback_timer_creation() {
    let timer = FallbackTimer::new();

    let result = read_fallback(&timer);
    assert!(result.is_ok(), "Failed to get time: {:?}", result);
}

#[test]
fn fallback_test_calibration() {
    let mut timer = FallbackTimer::new();

    let initial_overhead = timer.calibrated_overhead_ns();

    let samples = timer.sample_overheads(CALIBRATION_SAMPLES);
    timer.calibrate(Ok(samples)).expect("Calibration failed");

    let overhead = timer.calibrated_overhead_ns();
    assert!(overhead < 5000, "Overhead too high: {} ns", overhead);

    let diff = (overhead as i64 - initial_overhead as i64).abs();
    assert!(diff < 1000, "Calibration inconsistent: {} vs {}", initial_overhead, overhead);
}

#[test]
fn fallback_test_monotonicity() {
    let timer = FallbackTimer::new();

    let mut previous = read_fallback(&timer).expect("Failed to get time");

    for _ in 0..1000 {
        let current = read_fallback(&timer).expect("Failed to get time");
        assert!(current >= previous, "Time went backwards: {} < {}", current, previous);
        previous = current;
    }
}

#[test]
fn test_platform_name() {
    let timer = FallbackTimer::new();
    assert!(timer.platform_name().contains("Fallback"));
    assert!(timer.platform_name().contains("WARNING"));
}

#[test]
fn test_linux_timer_creation() {
    let clock = Clock::new();
    let result = LinuxTimer::new(Ok(clock.thread_time()));
    assert!(result.is_ok(), "Failed to create Linux timer: {:?}", result);
}

#[test]
fn test_linux_timer_measurement() {
    let clock = Clock::new();
    let timer = LinuxTimer::new(Ok(clock.thread_time())).expect("Failed to create timer");

    let time1 =
        timer.thread_cpu_time_ns(Ok(clock.thread_time().to_ns())).expect("Failed to get time");

    work(100_000);

    let time2 =
        timer.thread_cpu_time_ns(Ok(clock.thread_time().to_ns())).expect("Failed to get time");

    assert!(time2 > time1, "Time did not increase: {} <= {}", time2, time1);
}

#[test]
fn linux_test_calibration() {
    let clock = Clock::new();
    let mut timer = LinuxTimer::new(Ok(clock.thread_time())).expect("Failed to create timer");

    assert_eq!(timer.calibrated_overhead_ns(), 0);

    timer.calibrate(Ok(overheads(|| clock.thread_time().to_ns()))).expect("Calibration failed");

    let overhead = timer.calibrated_overhead_ns();
    assert!(overhead < 1000, "Overhead too high: {} ns", overhead);
}

#[test]
fn linux_test_monotonicity() {
    let clock = Clock::new();
    let timer = LinuxTimer::new(Ok(clock.thread_time())).expect("Failed to create timer");

    let mut previous =
        timer.thread_cpu_time_ns(Ok(clock.thread_time().to_ns())).expect("Failed to get time");

    for _ in 0..1000 {
        let current =
            timer.thread_cpu_time_ns(Ok(clock.thread_time().to_ns())).expect("Failed to get time");
        assert!(current >= previous, "Time went backwards: {} < {}", current, previous);
        previous = current;
    }
}

#[test]
fn test_macos_timer_creation() {
    let clock = Clock::new();
    let result = MacOsTimer::new(Ok(clock.thread_usage()));
    assert!(result.is_ok(), "Failed to create macOS timer: {:?}", result);
}

#[test]
fn test_macos_timer_measurement() {
    let clock = Clock::new();
    let timer = MacOsTimer::new(Ok(clock.thread_usage())).expect("Failed to create timer");

    let time1 =
        timer.thread_cpu_time_ns(Ok(clock.thread_usage().to_ns())).expect("Failed to get time");

    work(100_000);

    let time2 =
        timer.thread_cpu_time_ns(Ok(clock.thread_usage().to_ns())).expect("Failed to get time");

    assert!(time2 >= time1, "Time went backwards: {} < {}", time2, time1);
}

#[test]
fn macos_test_calibration() {
    let clock = Clock::new();
    let mut timer = MacOsTimer::new(Ok(clock.thread_usage())).expect("Failed to create timer");

    assert_eq!(timer.calibrated_overhead_ns(), 0);

    timer.calibrate(Ok(overheads(|| clock.thread_usage().to_ns()))).expect("Calibration failed");

    let overhead = timer.calibrated_overhead_ns();
    assert!(overhead < 10000, "Overhead too high: {} ns", overhead);
}

#[test]
fn macos_test_monotonicity() {
    let clock = Clock::new();
    let timer = MacOsTimer::new(Ok(clock.thread_usage())).expect("Failed to create timer");

    let mut previous =
        timer.thread_cpu_time_ns(Ok(clock.thread_usage().to_ns())).expect("Failed to get time");

    for _ in 0..1000 {
        let current =
            timer.thread_cpu_time_ns(Ok(clock.thread_usage().to_ns())).expect("Failed to get time");
        assert!(current >= previous, "Time went backwards: {} < {}", current, previous);
        previous = current;
    }
}

#[test]
fn test_resolution() {
    let clock = Clock::new();
    let timer = MacOsTimer::new(Ok(clock.thread_usage())).expect("Failed to create timer");

    let mut times = Vec::new();
    for _ in 0..100 {
        times.push(
            timer.thread_cpu_time_ns(Ok(clock.thread_usage().to_ns())).expect("Failed to get time"),
        );
    }

    let mut min_diff = u64::MAX;
    for i in 1..times.len() {
        let diff = times[i].saturating_sub(times[i - 1]);
        if diff > 0 && diff < min_diff {
            min_diff = diff;
        }
    }

    if min_diff != u64::MAX {
        assert!(min_diff >= 1000, "Resolution better than expected: {} ns", min_diff);
    }
}

#[test]
fn test_windows_timer_creation() {
    let clock = Clock::new();
    let result = WindowsTimer::new(Ok(FREQUENCY), Ok(clock.cycles()));
    assert!(result.is_ok(), "Failed to create Windows timer: {:?}", result);
}

#[test]
fn test_windows_timer_measurement() {
    let clock = Clock::new();
    let timer =
        WindowsTimer::new(Ok(FREQUENCY), Ok(clock.cycles())).expect("Failed to create timer");

    let time1 = timer
        .thread_cpu_time_ns(Ok(timer.cycles_to_nanoseconds(clock.cycles())))
        .expect("Failed to get time");

    work(100_000);

    let time2 = timer
        .thread_cpu_time_ns(Ok(timer.cycles_to_nanoseconds(clock.cycles())))
        .expect("Failed to get time");

    assert!(time2 > time1, "Time did not increase: {} <= {}", time2, time1);
}

#[test]
fn windows_test_calibration() {
    let clock = Clock::new();
    let mut timer =
        WindowsTimer::new(Ok(FREQUENCY), Ok(clock.cycles())).expect("Failed to create timer");

    assert_eq!(timer.calibrated_overhead_ns(), 0);

    let samples = overheads(|| timer.cycles_to_nanoseconds(clock.cycles()));
    timer.calibrate(Ok(samples)).expect("Calibration failed");

    let overhead = timer.calibrated_overhead_ns();
    assert!(overhead < 1000, "Overhead too high: {} ns", overhead);
}

#[test]
fn test_frequency() {
    let timer = WindowsTimer::new(Ok(FREQUENCY), Ok(0)).expect("Failed to create timer");
    let frequency = timer.frequency();

    assert!(frequency > 1_000_000, "Frequency too low: {}", frequency);
    assert!(frequency < 10_000_000_000, "Frequency too high: {}", frequency);
}

#[test]
fn windows_test_monotonicity() {
    let clock = Clock::new();
    let timer =
        WindowsTimer::new(Ok(FREQUENCY), Ok(clock.cycles())).expect("Failed to create timer");

    let mut previous = timer
        .thread_cpu_time_ns(Ok(timer.cycles_to_nanoseconds(clock.cycles())))
        .expect("Failed to get time");

    for _ in 0..1000 {
        let current = timer
            .thread_cpu_time_ns(Ok(timer.cycles_to_nanoseconds(clock.cycles())))
            .expect("Failed to get time");
        assert!(current >= previous, "Time went backwards: {} < {}", current, previous);
        previous = current;
    }
}

#[test]
fn test_create_timer() {
    let timer = created();

    assert!(!timer.platform_name().is_empty());

    let result = read(&timer);
    assert!(result.is_ok(), "Failed to get CPU time: {:?}", result);
}

#[test]
fn test_timer_monotonicity() {
    let timer = created();

    let mut previous = read(&timer).unwrap();

    for _ in 0..100 {
        work(1000);

        let current = read(&timer).unwrap();
        assert!(current >= previous, "Time went backwards: {} < {}", current, previous);
        previous = current;
    }
}

#[test]
fn test_median_calculation() {
    assert_eq!(median_of_sorted(&[]), 0);
    assert_eq!(median_of_sorted(&[5]), 5);
    assert_eq!(median_of_sorted(&[1, 2]), 1);
    assert_eq!(median_of_sorted(&[1, 2, 3]), 2);
    assert_eq!(median_of_sorted(&[1, 2, 3, 4]), 2);
}

#[test]
fn test_timer_creation_and_basic_usage() {
    let timer = created();

    let platform = timer.platform_name();
    assert!(!platform.is_empty());
    println!("Using timer: {}", platform);

    let time1 = read(&timer).expect("Failed to get initial CPU time");

    work(1_000_000);

    let time2 = read(&timer).expect("Failed to get final CPU time");

    assert!(time2 > time1, "CPU time did not increase");

    let elapsed = time2 - time1;
    println!("CPU time elapsed: {} ns ({:.3} ms)", elapsed, elapsed as f64 / 1_000_000.0);
}

#[test]
fn test_monotonicity_across_measurements() {
    let timer = created();
    let mut previous = read(&timer).expect("Failed to get initial time");

    for i in 0..1000 {
        std::hint::black_box(i);

        let current = read(&timer).expect("Failed to get time");

        assert!(
            current >= previous,
            "Time went backwards at iteration {}: {} < {}",
            i,
            current,
            previous
        );

        previous = current;
    }
}

#[test]
fn test_overhead_is_reasonable() {
    let timer = created();
    let overhead = timer.calibrated_overhead_ns();

    println!("Calibrated overhead: {} ns", overhead);

    let max_expected = if timer.platform_name().contains("Linux") {
        100
    } else if timer.platform_name().contains("Windows") {
        200
    } else if timer.platform_name().contains("macOS") {
        5000
    } else {
        10000
    };

    assert!(
        overhead <= max_expected,
        "Overhead {} ns exceeds maximum {} ns for {}",
        overhead,
        max_expected,
        timer.platform_name()
    );
}

#[test]
fn test_high_frequency_measurements() {
    let timer = created();
    let mut measurements = Vec::with_capacity(10000);

    let start = std::time::Instant::now();

    for _ in 0..10000 {
        measurements.push(read(&timer).expect("Failed to get time"));
    }

    let elapsed = start.elapsed();

    let max_ns_per_measurement = if timer.platform_name().contains("Linux") {
        100
    } else if timer.platform_name().contains("Windows") {
        200
    } else if timer.platform_name().contains("macOS") {
        1000
    } else {
        2000
    };

    assert!(
        elapsed.as_nanos() / 10000 < max_ns_per_measurement,
        "Measurements too slow: {:?} for 10000 measurements ({}ns per measurement, max allowed: {}ns)",
        elapsed,
        elapsed.as_nanos() / 10000,
        max_ns_per_measurement
    );

    for i in 1..measurements.len() {
        assert!(
            measurements[i] >= measurements[i - 1],
            "Non-monotonic at index {}: {} < {}",
            i,
            measurements[i],
            measurements[i - 1]
        );
    }
}

#[test]
fn median_does_not_depend_on_the_order() {
    assert_eq!(median_of(vec![9, 1, 4]), 4);
    assert_eq!(median_of(vec![4, 9, 1]), 4);
    assert_eq!(median_of(vec![10, 1, 4, 8]), 6);
    assert_eq!(median_of(vec![u64::MAX, u64::MAX]), u64::MAX);
    assert_eq!(median_of(Vec::new()), 0);
}

#[test]
fn overhead_is_taken_off_but_not_below_zero() {
    let mut timer = LinuxTimer::new(Ok(ThreadTime { secs: 0, nanos: 0 })).unwrap();
    timer.calibrate(Ok(vec![30, 10, 20])).unwrap();
    assert_eq!(timer.calibrated_overhead_ns(), 20);
    assert_eq!(timer.thread_cpu_time_ns(Ok(1000)).unwrap(), 980);
    assert_eq!(timer.thread_cpu_time_ns(Ok(7)).unwrap(), 0);
    assert_eq!(timer.measure_overhead(vec![1, 2, 6]), 2);
    assert_eq!(timer.calibrated_overhead_ns(), 20);

    let failed = timer.calibrate(Err(TimingError::CalibrationFailed("clock".to_string())));
    assert!(matches!(failed, Err(TimingError::CalibrationFailed(_))));
    assert_eq!(timer.calibrated_overhead_ns(), 20);
}

#[test]
fn failed_readings_stay_errors() {
    let broken = || TimingError::SystemCallFailed("clock".to_string());
    assert!(matches!(LinuxTimer::new(Err(broken())), Err(TimingError::SystemCallFailed(_))));
    assert!(matches!(MacOsTimer::new(Err(broken())), Err(TimingError::SystemCallFailed(_))));
    assert!(matches!(
        WindowsTimer::new(Err(TimingError::Overflow), Err(broken())),
        Err(TimingError::Overflow)
    ));
    assert!(matches!(
        WindowsTimer::new(Ok(1), Err(broken())),
        Err(TimingError::SystemCallFailed(_))
    ));
    let timer = created();
    assert!(matches!(
        timer.thread_cpu_time_ns(Err(TimingError::Overflow)),
        Err(TimingError::Overflow)
    ));
}

#[test]
fn readings_convert_to_nanoseconds() {
    assert_eq!(ThreadTime { secs: 2, nanos: 5 }.to_ns(), 2_000_000_005);
    assert_eq!(ThreadTime { secs: u64::MAX, nanos: 0 }.to_ns(), u64::MAX);
    let usage =
        ThreadUsage { user_secs: 1, user_micros: 2, system_secs: 3, system_micros: 4 };
    assert_eq!(usage.to_ns(), 4_000_006_000);

    let timer = WindowsTimer::new(Ok(FREQUENCY), Ok(0)).unwrap();
    assert_eq!(timer.cycles_to_nanoseconds(3_000), 1_000);
    assert_eq!(timer.cycles_to_nanoseconds(u64::MAX), u64::MAX / FREQUENCY);
}

#[test]
fn native_timer_is_taken_where_there_is_one() {
    let linux = LinuxTimer::new(Ok(ThreadTime { secs: 0, nanos: 0 })).unwrap();
    let timer = create_cpu_timer(Ok(PlatformTimer::Linux(linux)), Ok(vec![5, 6, 7]));
    assert_eq!(timer.platform_name(), "Linux (clock_gettime)");
    assert_eq!(timer.calibrated_overhead_ns(), 6);
    assert_eq!(timer.own_reading(), None);

    let windows = WindowsTimer::new(Ok(1_000_000), Ok(0)).unwrap();
    let timer = create_cpu_timer(Ok(PlatformTimer::Windows(windows)), Err(TimingError::Overflow));
    assert_eq!(timer.platform_name(), "Windows (QueryThreadCycleTime)");
    assert_eq!(timer.calibrated_overhead_ns(), 0);

    assert!(matches!(created(), PlatformTimer::Fallback(_)));
}

#[test]
fn calibration_keeps_the_source() {
    let mut windows = WindowsTimer::new(Ok(2_000_000), Ok(0)).unwrap();
    windows.calibrate(Ok(vec![9, 3, 5])).unwrap();
    assert_eq!(windows.calibrated_overhead_ns(), 5);
    assert_eq!(windows.frequency(), 2_000_000);
    assert_eq!(windows.cycles_to_nanoseconds(4), 2_000);

    let mut fallback = FallbackTimer::new();
    let before = fallback.get_time_raw();
    fallback.calibrate(Ok(vec![u64::MAX])).unwrap();
    assert!(fallback.get_time_raw() >= before);
    assert_eq!(fallback.thread_cpu_time_ns(Ok(7)).unwrap(), 0);
    let name = fallback.platform_name();
    assert!(name.starts_with("Fallback") && name.contains("WARNING"));
}

#[test]
fn fallback_timer_measures_its_own_overhead() {
    let timer = FallbackTimer::default();
    assert!(timer.measure_own_overhead() < 5000);
    assert_eq!(timer.sample_overheads(17).len(), 17);
}

#[test]
fn timer_facts_in_one_line() {
    let info = TimerInfo {
        platform: "Linux".to_string(),
        overhead_ns: 20,
        resolution_ns: 1,
        measures_cpu_time: true,
    };
    assert_eq!(info.to_text(), "Timer[Linux: overhead=20ns, resolution=1ns, cpu_time=true]");
    let info = TimerInfo { measures_cpu_time: false, overhead_ns: 0, ..info };
    assert_eq!(info.to_text(), "Timer[Linux: overhead=0ns, resolution=1ns, cpu_time=false]");
}

#[test]
fn timing_errors_have_messages() {
    assert_eq!(
        TimingError::PlatformNotSupported("dos".to_string()).message(),
        "Platform not supported: dos"
    );
    assert_eq!(
        TimingError::SystemCallFailed("errno 1".to_string()).message(),
        "System call failed: errno 1"
    );
    assert_eq!(
        TimingError::CalibrationFailed("noise".to_string()).message(),
        "Calibration failed: noise"
    );
    assert_eq!(TimingError::Overflow.message(), "Time calculation overflow");
}
