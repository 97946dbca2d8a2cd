[package]
name = "tokio_pulse"
version = "0.1.0"
edition = "2021"
publish = false

[dependencies]
crossbeam = "=0.8.5"
dashmap = "=6.2.1"
fastrand = "=2.5.0"
futures-util = "=0.3.34"
libc = "=0.2.191"
mach2 = "0.6"
metrics = "=0.24.6"
parking_lot = "=0.12.5"
pin-project-lite = "=0.2.17"
proc-macro2 = "=1.0.107"
quote = "=1.0.47"
syn = { version = "=2.0.119", features = ["full", "visit-mut"] }
thiserror = "=2.0.21"
tower = "=0.5.3"
tracing = "=0.1.44"
windows-sys = { version = "=0.52.0", features = ["Win32_Foundation", "Win32_Security", "Win32_System_JobObjects", "Win32_System_Performance", "Win32_System_Threading", "Win32_System_WindowsProgramming"] }
