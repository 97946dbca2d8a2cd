# tokio_pulse

A task that never yields starves its neighbours on a worker thread. This library
watches polls, and decides when a task is warned, marked for a forced yield, queued
apart or isolated. Every decision is verified with Verus against a contract over
mathematical values.

## Layout

- `src/budget.rs`: operations that a task may run before it yields, and pools of
  such budgets.
- `src/tier_manager/`: the four tiers. `task.rs` is one task, `model.rs` and
  `manager.rs` are the manager, `config.rs` holds policies and profiles, `laws.rs`
  states what holds over several operations.
- `src/slow_queue/`: the queue for slow tasks. `batches.rs` holds the three
  scheduling algorithms, `relief.rs` the boost for tasks that starve, `model.rs` and
  `laws.rs` what is stated of them.
- `src/reschedule.rs`: handing slow tasks to dedicated threads.
- `src/isolation.rs`: the steps of isolation on Linux, Windows and macOS.
- `src/timing/`: CPU time readings and calibration.
- `src/metrics.rs`, `src/hooks.rs`, `src/middleware.rs`, `src/instrument.rs`:
  counters, hooks, requests of services, and the attribute for async functions.
- `src/collections.rs`, `src/stopwatch.rs`: what is taken for granted of concurrent
  collections and of the clock.
- `src/single.rs`, `src/text.rs`: single-precision rounding and comparison on
  integers, and numbers as text.
- `tests/`: tests of the library.
- `app/`: running it in a process: shared managers, clocks, system calls, worker
  threads, published metrics, tower services and macro expansion.

## Conventions

Points in time and durations are nanoseconds in a `u128`. An operation that reads
the clock has a twin that ends in `_at` and takes the time as an argument. Fractions
are given as bit patterns of single-precision numbers.
