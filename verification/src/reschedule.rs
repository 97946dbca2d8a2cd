//! Handing slow tasks to dedicated threads.
//!
//! The scheduler owns the sending end of a bounded channel. Worker threads take
//! tasks off the receiving end; what a worker does next is decided here, by
//! [`next_worker_action`].

use crate::stopwatch::Stopwatch;
use crate::text::{decimal, decimal_text};
use crate::tier_manager::context::TaskId;
use crossbeam::channel::{Receiver, Sender};
use vstd::prelude::*;
use vstd::string::*;

verus! {

/// `crossbeam`'s sending end of a channel.
#[verifier::external_type_specification]
#[verifier::external_body]
#[verifier::reject_recursive_types(T)]
pub struct ExSender<T>(crossbeam::channel::Sender<T>);

/// `crossbeam`'s receiving end of a channel.
#[verifier::external_type_specification]
#[verifier::external_body]
#[verifier::reject_recursive_types(T)]
pub struct ExReceiver<T>(crossbeam::channel::Receiver<T>);

/// How many tasks fit into the channel that a receiving end belongs to.
pub uninterp spec fn channel_capacity(receiver: Receiver<RescheduleTask>) -> nat;

/// `crossbeam::channel::bounded` makes a channel for at most `capacity` tasks. It
/// panics when the slots, each less than 64 bytes wide, do not fit into the
/// address space.
#[verifier::external_body]
fn bounded_task_channel(capacity: usize) -> (ends: (
    Sender<RescheduleTask>,
    Receiver<RescheduleTask>,
))
    requires
        capacity <= isize::MAX / 64,
    ensures
        channel_capacity(ends.1) == capacity,
{
    crossbeam::channel::bounded(capacity)
}

/// `Sender::try_send` hands the task over without waiting. Whether there is room
/// at that moment depends on the threads at the receiving end, so nothing is
/// claimed of the outcome.
#[verifier::external_body]
fn try_send(sender: &Sender<RescheduleTask>, task: RescheduleTask) -> SendOutcome {
    match sender.try_send(task) {
        Ok(()) => SendOutcome::Sent,
        Err(crossbeam::channel::TrySendError::Full(_)) => SendOutcome::Full,
        Err(crossbeam::channel::TrySendError::Disconnected(_)) => SendOutcome::Disconnected,
    }
}

/// `Receiver::len` counts the tasks in the channel: never more than fit. How many
/// there are depends on the other threads.
#[verifier::external_body]
fn waiting_tasks(receiver: &Receiver<RescheduleTask>) -> (count: usize)
    ensures
        count <= channel_capacity(*receiver),
{
    receiver.len()
}

/// `Receiver::clone` makes another receiving end of the same channel.
#[verifier::external_body]
fn clone_receiver(receiver: &Receiver<RescheduleTask>) -> (other: Receiver<RescheduleTask>)
    ensures
        channel_capacity(other) == channel_capacity(*receiver),
{
    receiver.clone()
}

/// What became of a task that was sent.
#[derive(Debug, Clone, Copy, PartialEq, Eq, Structural)]
pub enum SendOutcome {
    /// The task is in the channel.
    Sent,
    /// There was no room.
    Full,
    /// Nobody will receive any more.
    Disconnected,
}

/// Configuration for the dedicated thread scheduler.
#[derive(Debug, Clone)]
pub struct ThreadSchedulerConfig {
    /// Minimum number of threads in the pool.
    pub min_threads: usize,
    /// Maximum number of threads in the pool.
    pub max_threads: usize,
    /// How long idle threads wait for a task (ms).
    pub keep_alive_ms: u64,
    /// Maximum tasks in the submission queue.
    pub max_queue_size: usize,
    /// Thread name prefix.
    pub thread_name_prefix: String,
}

/// Half of the processors, but between 2 and 8.
pub open spec fn thread_limit(cpu_count: usize) -> usize {
    if cpu_count / 2 < 2 {
        2
    } else if cpu_count / 2 > 8 {
        8
    } else {
        cpu_count / 2
    }
}

impl ThreadSchedulerConfig {
    /// The configuration for a machine with `cpu_count` processors.
    pub fn for_parallelism(cpu_count: usize) -> (config: Self)
        ensures
            config.min_threads == 2,
            config.max_threads == thread_limit(cpu_count),
            config.keep_alive_ms == 60_000,
            config.max_queue_size == 1024,
            config.thread_name_prefix@ == "tokio-pulse-reschedule"@,
    {
        let half: usize = cpu_count / 2;
        let max_threads: usize = if half < 2 {
            2
        } else if half > 8 {
            8
        } else {
            half
        };
        ThreadSchedulerConfig {
            min_threads: 2,
            max_threads,
            keep_alive_ms: 60_000,
            max_queue_size: 1024,
            thread_name_prefix: "tokio-pulse-reschedule".to_owned(),
        }
    }
}

impl Default for ThreadSchedulerConfig {
    /// The configuration for a machine whose number of processors is not known:
    /// four are taken for granted.
    fn default() -> (config: Self)
        ensures
            config.min_threads == 2,
            config.max_threads == 2,
            config.keep_alive_ms == 60_000,
            config.max_queue_size == 1024,
            config.thread_name_prefix@ == "tokio-pulse-reschedule"@,
    {
        ThreadSchedulerConfig::for_parallelism(4)
    }
}

/// Counters of the thread scheduler.
#[derive(Debug, Clone, Copy)]
pub struct ThreadSchedulerMetrics {
    /// Total tasks submitted for rescheduling.
    pub tasks_submitted: u64,
    /// Total tasks processed.
    pub tasks_processed: u64,
    /// Tasks dropped due to queue overflow.
    pub tasks_dropped: u64,
    /// Current number of active threads.
    pub active_threads: usize,
    /// Queue depth when a task was last submitted.
    pub queue_depth: usize,
    /// Total thread creation events.
    pub threads_created: u64,
    /// Total thread destruction events.
    pub threads_destroyed: u64,
}

impl Default for ThreadSchedulerMetrics {
    fn default() -> (metrics: Self)
        ensures
            metrics == ThreadSchedulerMetrics::zero(),
    {
        ThreadSchedulerMetrics {
            tasks_submitted: 0,
            tasks_processed: 0,
            tasks_dropped: 0,
            active_threads: 0,
            queue_depth: 0,
            threads_created: 0,
            threads_destroyed: 0,
        }
    }
}

impl ThreadSchedulerMetrics {
    /// Nothing has happened yet.
    pub open spec fn zero() -> ThreadSchedulerMetrics {
        ThreadSchedulerMetrics {
            tasks_submitted: 0,
            tasks_processed: 0,
            tasks_dropped: 0,
            active_threads: 0,
            queue_depth: 0,
            threads_created: 0,
            threads_destroyed: 0,
        }
    }

    /// The counters after a task was sent while `queue_depth` others waited.
    pub open spec fn after_submission(
        self,
        queue_depth: usize,
        outcome: SendOutcome,
    ) -> ThreadSchedulerMetrics {
        ThreadSchedulerMetrics {
            queue_depth,
            tasks_submitted: if outcome == SendOutcome::Sent {
                self.tasks_submitted.wrapping_add(1)
            } else {
                self.tasks_submitted
            },
            tasks_dropped: if outcome == SendOutcome::Full {
                self.tasks_dropped.wrapping_add(1)
            } else {
                self.tasks_dropped
            },
            ..self
        }
    }

    /// The counters as a snapshot.
    pub open spec fn snapshot_spec(self) -> ThreadSchedulerMetricsSnapshot {
        ThreadSchedulerMetricsSnapshot {
            tasks_submitted: self.tasks_submitted,
            tasks_processed: self.tasks_processed,
            tasks_dropped: self.tasks_dropped,
            active_threads: self.active_threads,
            queue_depth: self.queue_depth,
            threads_created: self.threads_created,
            threads_destroyed: self.threads_destroyed,
        }
    }

    /// The counters as a snapshot while `queue_depth` tasks wait.
    pub open spec fn snapshot_at(self, queue_depth: usize) -> ThreadSchedulerMetricsSnapshot {
        ThreadSchedulerMetricsSnapshot { queue_depth, ..self.snapshot_spec() }
    }

    /// Takes a snapshot of the counters.
    pub fn snapshot(&self) -> (snapshot: ThreadSchedulerMetricsSnapshot)
        ensures
            snapshot == self.snapshot_spec(),
    {
        ThreadSchedulerMetricsSnapshot {
            tasks_submitted: self.tasks_submitted,
            tasks_processed: self.tasks_processed,
            tasks_dropped: self.tasks_dropped,
            active_threads: self.active_threads,
            queue_depth: self.queue_depth,
            threads_created: self.threads_created,
            threads_destroyed: self.threads_destroyed,
        }
    }

    /// Counts a worker thread that started.
    pub fn record_worker_started(&mut self)
        ensures
            *final(self) == (ThreadSchedulerMetrics {
                active_threads: old(self).active_threads.wrapping_add(1),
                threads_created: old(self).threads_created.wrapping_add(1),
                ..*old(self)
            }),
    {
        self.active_threads = self.active_threads.wrapping_add(1);
        self.threads_created = self.threads_created.wrapping_add(1);
    }

    /// Counts a worker thread that ended.
    pub fn record_worker_stopped(&mut self)
        ensures
            *final(self) == (ThreadSchedulerMetrics {
                active_threads: old(self).active_threads.wrapping_sub(1),
                threads_destroyed: old(self).threads_destroyed.wrapping_add(1),
                ..*old(self)
            }),
    {
        self.active_threads = self.active_threads.wrapping_sub(1);
        self.threads_destroyed = self.threads_destroyed.wrapping_add(1);
    }
}

/// Counters of the thread scheduler at one moment.
#[derive(Debug, Clone, Copy, PartialEq, Eq, Structural)]
pub struct ThreadSchedulerMetricsSnapshot {
    /// Total tasks submitted for rescheduling.
    pub tasks_submitted: u64,
    /// Total tasks processed by worker threads.
    pub tasks_processed: u64,
    /// Total tasks dropped due to queue overflow.
    pub tasks_dropped: u64,
    /// Current number of active worker threads.
    pub active_threads: usize,
    /// Queue depth at that moment.
    pub queue_depth: usize,
    /// Total worker threads created.
    pub threads_created: u64,
    /// Total worker threads destroyed.
    pub threads_destroyed: u64,
}

/// Task to be processed on a dedicated thread.
#[derive(Debug, Clone, Copy)]
pub struct RescheduleTask {
    /// Task identifier.
    pub task_id: TaskId,
    /// Runs since the submission.
    pub submitted_at: Stopwatch,
    /// Current tier level.
    pub tier: u8,
    /// How often the task has been rescheduled.
    pub reschedule_count: u32,
}

impl RescheduleTask {
    /// Creates a task that is submitted now.
    pub fn new(task_id: TaskId, tier: u8) -> (task: Self)
        ensures
            task.task_id == task_id,
            task.tier == tier,
            task.reschedule_count == 0,
            task.submitted_at.started_by_clock(),
    {
        RescheduleTask { task_id, submitted_at: Stopwatch::start(), tier, reschedule_count: 0 }
    }

    /// Nanoseconds since the submission.
    pub fn age(&self) -> (ns: u128)
        ensures
            self.submitted_at.shows(ns),
    {
        self.submitted_at.elapsed_ns()
    }

    /// Counts one more rescheduling.
    pub fn reschedule(&mut self)
        requires
            old(self).reschedule_count < u32::MAX,
        ensures
            *final(self) == (RescheduleTask {
                reschedule_count: (old(self).reschedule_count + 1) as u32,
                ..*old(self)
            }),
    {
        self.reschedule_count = self.reschedule_count + 1;
    }
}

/// Errors that can occur during task rescheduling.
#[derive(Debug, Clone)]
pub enum RescheduleError {
    /// Task queue is full.
    QueueFull,
    /// Scheduler is shutting down.
    ShuttingDown,
    /// Worker thread creation failed.
    ThreadCreationFailed(String),
    /// Invalid configuration.
    InvalidConfig(String),
}

impl RescheduleError {
    /// The message for users.
    pub open spec fn message_spec(self) -> Seq<char> {
        match self {
            RescheduleError::QueueFull => "Task queue is full"@,
            RescheduleError::ShuttingDown => "Scheduler is shutting down"@,
            RescheduleError::ThreadCreationFailed(reason) =>
                "Failed to create worker thread: "@ + reason@,
            RescheduleError::InvalidConfig(reason) => "Invalid configuration: "@ + reason@,
        }
    }

    /// The message for users.
    pub fn message(&self) -> (text: String)
        ensures
            text@ == self.message_spec(),
    {
        match self {
            RescheduleError::QueueFull => "Task queue is full".to_owned(),
            RescheduleError::ShuttingDown => "Scheduler is shutting down".to_owned(),
            RescheduleError::ThreadCreationFailed(reason) => {
                "Failed to create worker thread: ".to_owned().concat(reason.as_str())
            },
            RescheduleError::InvalidConfig(reason) => {
                "Invalid configuration: ".to_owned().concat(reason.as_str())
            },
        }
    }
}

/// What a submission returns for each outcome.
pub open spec fn submission_result(outcome: SendOutcome) -> Result<(), RescheduleError> {
    match outcome {
        SendOutcome::Sent => Ok(()),
        SendOutcome::Full => Err(RescheduleError::QueueFull),
        SendOutcome::Disconnected => Err(RescheduleError::ShuttingDown),
    }
}

/// Dedicated thread scheduler for slow tasks.
pub struct DedicatedThreadScheduler {
    config: ThreadSchedulerConfig,
    task_sender: Sender<RescheduleTask>,
    task_receiver: Receiver<RescheduleTask>,
    metrics: ThreadSchedulerMetrics,
    shutdown_initiated: bool,
}

/// What a [`DedicatedThreadScheduler`] holds.
pub struct SchedulerModel {
    /// Most tasks that may wait.
    pub max_queue_size: usize,
    /// Threads to start with.
    pub min_threads: usize,
    /// Most threads.
    pub max_threads: usize,
    /// How long idle threads wait for a task (ms).
    pub keep_alive_ms: u64,
    /// What the names of the threads begin with.
    pub thread_name_prefix: Seq<char>,
    /// Counters.
    pub metrics: ThreadSchedulerMetrics,
    /// Whether a shutdown was asked for.
    pub shutdown_initiated: bool,
    /// The sending end of the channel.
    pub task_sender: Sender<RescheduleTask>,
    /// The receiving end of the channel.
    pub task_receiver: Receiver<RescheduleTask>,
}

impl SchedulerModel {
    /// A scheduler that was not used yet, with the two ends of its channel.
    pub open spec fn fresh(
        config: ThreadSchedulerConfig,
        task_sender: Sender<RescheduleTask>,
        task_receiver: Receiver<RescheduleTask>,
    ) -> SchedulerModel {
        SchedulerModel {
            max_queue_size: config.max_queue_size,
            min_threads: config.min_threads,
            max_threads: config.max_threads,
            keep_alive_ms: config.keep_alive_ms,
            thread_name_prefix: config.thread_name_prefix@,
            metrics: ThreadSchedulerMetrics::zero(),
            shutdown_initiated: false,
            task_sender,
            task_receiver,
        }
    }

    /// Whether this is a scheduler that was not used yet, with the default
    /// configuration and a channel of its own.
    pub open spec fn is_default_fresh(self) -> bool {
        &&& self == (SchedulerModel {
            max_queue_size: 1024,
            min_threads: 2,
            max_threads: 2,
            keep_alive_ms: 60_000,
            thread_name_prefix: "tokio-pulse-reschedule"@,
            metrics: ThreadSchedulerMetrics::zero(),
            shutdown_initiated: false,
            task_sender: self.task_sender,
            task_receiver: self.task_receiver,
        })
        &&& self.channel_made(1024)
    }

    /// Whether the two ends are those of one channel that was made for `capacity`
    /// tasks.
    pub closed spec fn channel_made(self, capacity: usize) -> bool {
        call_ensures(bounded_task_channel, (capacity,), (self.task_sender, self.task_receiver))
    }

    /// Whether `task` was put to the sending end of the channel, with this outcome.
    pub open spec fn offered(self, task: RescheduleTask, outcome: SendOutcome) -> bool {
        offered_to(self.task_sender, task, outcome)
    }

    /// Whether `depth` is a count of the tasks in the channel.
    pub open spec fn counted_waiting(self, depth: usize) -> bool {
        counted_in(self.task_receiver, depth)
    }

    /// Whether `receiver` is another receiving end of the channel: what
    /// `Receiver::clone` made of the scheduler's own.
    pub closed spec fn receives_here(self, receiver: Receiver<RescheduleTask>) -> bool {
        call_ensures(clone_receiver, (&self.task_receiver,), receiver)
    }
}

/// Whether `task` was put to this sending end, with this outcome of
/// `Sender::try_send`.
pub closed spec fn offered_to(
    sender: Sender<RescheduleTask>,
    task: RescheduleTask,
    outcome: SendOutcome,
) -> bool {
    call_ensures(try_send, (&sender, task), outcome)
}

/// Whether `depth` is a number that `Receiver::len` gave for this receiving end.
/// Counts may differ, as other threads take tasks out.
pub closed spec fn counted_in(receiver: Receiver<RescheduleTask>, depth: usize) -> bool {
    call_ensures(waiting_tasks, (&receiver,), depth)
}

impl View for DedicatedThreadScheduler {
    type V = SchedulerModel;

    closed spec fn view(&self) -> SchedulerModel {
        SchedulerModel {
            max_queue_size: self.config.max_queue_size,
            min_threads: self.config.min_threads,
            max_threads: self.config.max_threads,
            keep_alive_ms: self.config.keep_alive_ms,
            thread_name_prefix: self.config.thread_name_prefix@,
            metrics: self.metrics,
            shutdown_initiated: self.shutdown_initiated,
            task_sender: self.task_sender,
            task_receiver: self.task_receiver,
        }
    }
}

/// Whether a scheduler with room for `max_queue_size` tasks takes more while
/// `depth` wait: below nine tenths of the room.
pub open spec fn accepts_at_depth(max_queue_size: usize, depth: usize) -> bool {
    depth < max_queue_size * 90 / 100
}

impl DedicatedThreadScheduler {
    /// The channel has the configured room, and never held more.
    pub closed spec fn wf(&self) -> bool {
        &&& self.config.max_queue_size <= isize::MAX / 64
        &&& channel_capacity(self.task_receiver) == self.config.max_queue_size
        &&& self.metrics.queue_depth <= self.config.max_queue_size
    }

    /// Whether `depth` is a count of the tasks in the scheduler's channel.
    pub open spec fn counted_waiting(&self, depth: usize) -> bool {
        self@.counted_waiting(depth)
    }

    /// Creates a scheduler without worker threads.
    pub fn new(config: ThreadSchedulerConfig) -> (scheduler: Self)
        requires
            config.max_queue_size <= isize::MAX / 64,
        ensures
            scheduler.wf(),
            scheduler@ == SchedulerModel::fresh(
                config,
                scheduler@.task_sender,
                scheduler@.task_receiver,
            ),
            scheduler@.channel_made(config.max_queue_size),
    {
        let (task_sender, task_receiver) = bounded_task_channel(config.max_queue_size);
        DedicatedThreadScheduler {
            config,
            task_sender,
            task_receiver,
            metrics: ThreadSchedulerMetrics::default(),
            shutdown_initiated: false,
        }
    }

    /// Submits a task for rescheduling on a dedicated thread. What is returned
    /// and counted follows from the queue depth and from what became of the task,
    /// as [`settle_submission`](Self::settle_submission) says.
    pub fn reschedule_task(&mut self, task: RescheduleTask) -> (result: Result<
        (),
        RescheduleError,
    >)
        requires
            old(self).wf(),
        ensures
            final(self).wf(),
            exists|depth: usize, outcome: SendOutcome|
                #![trigger old(self)@.metrics.after_submission(depth, outcome)]
                {
                    &&& depth <= old(self)@.max_queue_size
                    &&& old(self)@.counted_waiting(depth)
                    &&& old(self)@.offered(task, outcome)
                    &&& result == submission_result(outcome)
                    &&& final(self)@ == (SchedulerModel {
                        metrics: old(self)@.metrics.after_submission(depth, outcome),
                        ..old(self)@
                    })
                },
    {
        let queue_depth: usize = waiting_tasks(&self.task_receiver);
        let outcome = try_send(&self.task_sender, task);
        self.settle_submission(queue_depth, outcome)
    }

    /// Counts a submission made while `queue_depth` tasks waited, and says what
    /// it returns.
    pub fn settle_submission(&mut self, queue_depth: usize, outcome: SendOutcome) -> (result:
        Result<(), RescheduleError>)
        requires
            old(self).wf(),
            queue_depth <= old(self)@.max_queue_size,
        ensures
            final(self).wf(),
            result == submission_result(outcome),
            final(self)@ == (SchedulerModel {
                metrics: old(self)@.metrics.after_submission(queue_depth, outcome),
                ..old(self)@
            }),
    {
        self.metrics.queue_depth = queue_depth;
        match outcome {
            SendOutcome::Sent => {
                self.metrics.tasks_submitted = self.metrics.tasks_submitted.wrapping_add(1);
                Ok(())
            },
            SendOutcome::Full => {
                self.metrics.tasks_dropped = self.metrics.tasks_dropped.wrapping_add(1);
                Err(RescheduleError::QueueFull)
            },
            SendOutcome::Disconnected => Err(RescheduleError::ShuttingDown),
        }
    }

    /// Takes a snapshot of the counters, with the queue depth at this moment.
    pub fn metrics(&self) -> (snapshot: ThreadSchedulerMetricsSnapshot)
        requires
            self.wf(),
        ensures
            self.counted_waiting(snapshot.queue_depth),
            snapshot.queue_depth <= self@.max_queue_size,
            snapshot == self@.metrics.snapshot_at(snapshot.queue_depth),
    {
        let depth: usize = waiting_tasks(&self.task_receiver);
        self.metrics_at_depth(depth)
    }

    /// [`metrics`](Self::metrics) while `depth` tasks wait.
    pub fn metrics_at_depth(&self, depth: usize) -> (snapshot: ThreadSchedulerMetricsSnapshot)
        ensures
            snapshot == self@.metrics.snapshot_at(depth),
    {
        ThreadSchedulerMetricsSnapshot { queue_depth: depth, ..self.metrics.snapshot() }
    }

    /// How many tasks wait at this moment.
    pub fn queue_depth(&self) -> (depth: usize)
        requires
            self.wf(),
        ensures
            self.counted_waiting(depth),
            depth <= self@.max_queue_size,
    {
        waiting_tasks(&self.task_receiver)
    }

    /// Most tasks that may wait.
    pub fn max_queue_size(&self) -> (size: usize)
        ensures
            size == self@.max_queue_size,
    {
        self.config.max_queue_size
    }

    /// Threads to start with.
    pub fn min_threads(&self) -> (threads: usize)
        ensures
            threads == self@.min_threads,
    {
        self.config.min_threads
    }

    /// How long idle threads wait for a task (ms).
    pub fn keep_alive_ms(&self) -> (ms: u64)
        ensures
            ms == self@.keep_alive_ms,
    {
        self.config.keep_alive_ms
    }

    /// Name of a worker thread: the prefix, a hyphen and the number.
    pub fn worker_name(&self, thread_id: usize) -> (name: String)
        ensures
            name@ == self@.thread_name_prefix + "-"@ + decimal(thread_id as nat),
    {
        let mut name = self.config.thread_name_prefix.clone();
        name.append("-");
        name.append(decimal_text(thread_id as u64).as_str());
        name
    }

    /// Whether the scheduler takes more tasks at this moment.
    pub fn can_accept_tasks(&self) -> (accepts: bool)
        requires
            self.wf(),
        ensures
            exists|depth: usize|
                self.counted_waiting(depth) && depth <= self@.max_queue_size && accepts == #[trigger] accepts_at_depth(
                    self@.max_queue_size,
                    depth,
                ),
    {
        let depth: usize = waiting_tasks(&self.task_receiver);
        self.can_accept_at_depth(depth)
    }

    /// Whether the scheduler takes more tasks while `depth` wait.
    pub fn can_accept_at_depth(&self, depth: usize) -> (accepts: bool)
        requires
            self.wf(),
        ensures
            accepts == accepts_at_depth(self@.max_queue_size, depth),
    {
        depth < self.config.max_queue_size * 90 / 100
    }

    /// A receiving end for a worker thread.
    pub fn worker_queue(&self) -> (receiver: Receiver<RescheduleTask>)
        requires
            self.wf(),
        ensures
            self@.receives_here(receiver),
            channel_capacity(receiver) == self@.max_queue_size,
    {
        clone_receiver(&self.task_receiver)
    }

    /// Counts a worker thread that started.
    pub fn record_worker_started(&mut self)
        requires
            old(self).wf(),
        ensures
            final(self).wf(),
            final(self)@ == (SchedulerModel {
                metrics: ThreadSchedulerMetrics {
                    active_threads: old(self)@.metrics.active_threads.wrapping_add(1),
                    threads_created: old(self)@.metrics.threads_created.wrapping_add(1),
                    ..old(self)@.metrics
                },
                ..old(self)@
            }),
    {
        self.metrics.record_worker_started();
    }

    /// Counts a worker thread that ended.
    pub fn record_worker_stopped(&mut self)
        requires
            old(self).wf(),
        ensures
            final(self).wf(),
            final(self)@ == (SchedulerModel {
                metrics: ThreadSchedulerMetrics {
                    active_threads: old(self)@.metrics.active_threads.wrapping_sub(1),
                    threads_destroyed: old(self)@.metrics.threads_destroyed.wrapping_add(1),
                    ..old(self)@.metrics
                },
                ..old(self)@
            }),
    {
        self.metrics.record_worker_stopped();
    }

    /// Counts a task that a worker thread has processed, and returns it with one
    /// more rescheduling.
    pub fn process_task(&mut self, task: RescheduleTask) -> (done: RescheduleTask)
        requires
            old(self).wf(),
            task.reschedule_count < u32::MAX,
        ensures
            final(self).wf(),
            final(self)@ == (SchedulerModel {
                metrics: ThreadSchedulerMetrics {
                    tasks_processed: old(self)@.metrics.tasks_processed.wrapping_add(1),
                    ..old(self)@.metrics
                },
                ..old(self)@
            }),
            done == (RescheduleTask {
                reschedule_count: (task.reschedule_count + 1) as u32,
                ..task
            }),
    {
        let mut done = task;
        done.reschedule();
        self.metrics.tasks_processed = self.metrics.tasks_processed.wrapping_add(1);
        done
    }

    /// Asks the worker threads to end.
    pub fn shutdown(&mut self) -> (result: Result<(), RescheduleError>)
        requires
            old(self).wf(),
        ensures
            final(self).wf(),
            result == Ok::<(), RescheduleError>(()),
            final(self)@ == (SchedulerModel { shutdown_initiated: true, ..old(self)@ }),
    {
        self.shutdown_initiated = true;
        Ok(())
    }

    /// Whether a shutdown was asked for.
    pub fn is_shutting_down(&self) -> (initiated: bool)
        ensures
            initiated == self@.shutdown_initiated,
    {
        self.shutdown_initiated
    }
}

/// How long a task of this tier is held back before it goes on (ms).
pub open spec fn delay_ms_spec(tier: u8) -> u64 {
    if tier <= 1 {
        1
    } else if tier == 2 {
        5
    } else if tier == 3 {
        10
    } else {
        20
    }
}

/// How long a task of this tier is held back before it goes on (ms).
pub fn delay_ms(tier: u8) -> (delay: u64)
    ensures
        delay == delay_ms_spec(tier),
{
    match tier {
        0 | 1 => 1,
        2 => 5,
        3 => 10,
        _ => 20,
    }
}

/// What a worker thread got when it waited for a task.
#[derive(Debug, Clone, Copy)]
pub enum ReceiveOutcome {
    /// A task.
    Task(RescheduleTask),
    /// Nothing within the keep-alive time.
    TimedOut,
    /// Nobody will send any more.
    Disconnected,
}

/// What a worker thread does next.
#[derive(Debug, Clone, Copy)]
pub enum WorkerAction {
    /// Hold the task back for `delay_ms`, then process it.
    Process {
        /// The task.
        task: RescheduleTask,
        /// Delay in milliseconds.
        delay_ms: u64,
    },
    /// Wait for the next task.
    Wait,
    /// End the thread.
    Exit,
}

/// What a worker thread does when it found no shutdown under way and then got
/// `received`.
pub open spec fn worker_action_spec(shutting_down: bool, received: ReceiveOutcome) -> WorkerAction {
    if shutting_down {
        WorkerAction::Exit
    } else {
        match received {
            ReceiveOutcome::Task(task) => WorkerAction::Process {
                task,
                delay_ms: delay_ms_spec(task.tier),
            },
            ReceiveOutcome::TimedOut => WorkerAction::Wait,
            ReceiveOutcome::Disconnected => WorkerAction::Exit,
        }
    }
}

/// Decides what a worker thread does next.
pub fn next_worker_action(shutting_down: bool, received: ReceiveOutcome) -> (action: WorkerAction)
    ensures
        action == worker_action_spec(shutting_down, received),
{
    if shutting_down {
        return WorkerAction::Exit;
    }
    match received {
        ReceiveOutcome::Task(task) => WorkerAction::Process {
            task,
            delay_ms: delay_ms(task.tier),
        },
        ReceiveOutcome::TimedOut => WorkerAction::Wait,
        ReceiveOutcome::Disconnected => WorkerAction::Exit,
    }
}

/// A submission counts as submitted exactly when it returns `Ok`, as dropped
/// exactly when the queue was full, and never as both, as long as the counters do
/// not wrap.
pub proof fn submissions_are_counted_once(
    metrics: ThreadSchedulerMetrics,
    depth: usize,
    outcome: SendOutcome,
)
    requires
        metrics.tasks_submitted < u64::MAX,
        metrics.tasks_dropped < u64::MAX,
    ensures
        ({
            let after = metrics.after_submission(depth, outcome);
            &&& after.tasks_submitted == metrics.tasks_submitted + (if submission_result(
                outcome,
            ) is Ok {
                1int
            } else {
                0
            })
            &&& after.tasks_dropped == metrics.tasks_dropped + (if submission_result(outcome)
                == Err::<(), RescheduleError>(RescheduleError::QueueFull) {
                1int
            } else {
                0
            })
            &&& after.tasks_processed == metrics.tasks_processed
        }),
{
}

/// The higher the tier of a task, the longer it is held back.
pub proof fn delay_grows_with_tier(lower: u8, higher: u8)
    requires
        lower <= higher,
    ensures
        1 <= delay_ms_spec(lower) <= delay_ms_spec(higher) <= 20,
{
}

/// Tasks are accepted exactly while one more would fill at most nine tenths of the room.
pub proof fn tasks_are_accepted_below_nine_tenths(max_queue_size: usize, depth: usize)
    ensures
        accepts_at_depth(max_queue_size, depth) <==> (depth + 1) * 10 <= max_queue_size * 9,
{
}

/// There is a thread for every two processors, but at least two and at most eight.
pub proof fn threads_for_half_of_the_processors(cpu_count: usize)
    ensures
        ({
            let limit = thread_limit(cpu_count);
            &&& 2 <= limit <= 8
            &&& limit > 2 ==> limit * 2 <= cpu_count
            &&& limit < 8 ==> cpu_count < (limit + 1) * 2
        }),
{
}

/// A task is held back for one millisecond at the two lowest tiers, for five at tier 2,
/// for ten at tier 3 and for twenty beyond.
pub proof fn delays_are_by_tier(tier: u8)
    ensures
        delay_ms_spec(tier) == 1 <==> tier <= 1,
        delay_ms_spec(tier) == 5 <==> tier == 2,
        delay_ms_spec(tier) == 10 <==> tier == 3,
        delay_ms_spec(tier) == 20 <==> tier >= 4,
{
}

/// A worker processes each task that it receives, after the delay of the task's tier, and
/// waits on when nothing came, until a shutdown or until nobody sends any more.
pub proof fn workers_process_what_they_receive(shutting_down: bool, received: ReceiveOutcome)
    ensures
        ({
            let action = worker_action_spec(shutting_down, received);
            &&& action is Exit <==> shutting_down || received is Disconnected
            &&& action is Wait <==> !shutting_down && received is TimedOut
            &&& action is Process <==> !shutting_down && received is Task
            &&& action matches WorkerAction::Process { task, delay_ms } ==> ReceiveOutcome::Task(
                task,
            ) == received && delay_ms == delay_ms_spec(task.tier)
        }),
{
}

/// A submission returns `Ok` when the task was sent, says that the queue is full or that
/// the scheduler shuts down else, notes the depth that it found, and changes no counter
/// but those of sent and dropped tasks.
pub proof fn submissions_return_what_happened(
    metrics: ThreadSchedulerMetrics,
    depth: usize,
    outcome: SendOutcome,
)
    ensures
        ({
            let result = submission_result(outcome);
            let after = metrics.after_submission(depth, outcome);
            &&& result == Ok::<(), RescheduleError>(()) <==> outcome == SendOutcome::Sent
            &&& result == Err::<(), RescheduleError>(RescheduleError::QueueFull) <==> outcome
                == SendOutcome::Full
            &&& result == Err::<(), RescheduleError>(RescheduleError::ShuttingDown) <==> outcome
                == SendOutcome::Disconnected
            &&& after.queue_depth == depth
            &&& after.active_threads == metrics.active_threads
            &&& after.threads_created == metrics.threads_created
            &&& after.threads_destroyed == metrics.threads_destroyed
            &&& after.tasks_processed == metrics.tasks_processed
        }),
{
}

/// The counters are reported as they are, with the depth at that moment.
pub proof fn scheduler_reports_agree(metrics: ThreadSchedulerMetrics, depth: usize)
    ensures
        ({
            let report = metrics.snapshot_at(depth);
            &&& report.queue_depth == depth
            &&& report.tasks_submitted == metrics.tasks_submitted
            &&& report.tasks_processed == metrics.tasks_processed
            &&& report.tasks_dropped == metrics.tasks_dropped
            &&& report.active_threads == metrics.active_threads
            &&& report.threads_created == metrics.threads_created
            &&& report.threads_destroyed == metrics.threads_destroyed
            &&& metrics.snapshot_spec().queue_depth == metrics.queue_depth
            &&& metrics.snapshot_spec().tasks_submitted == metrics.tasks_submitted
            &&& metrics.snapshot_spec().tasks_processed == metrics.tasks_processed
            &&& metrics.snapshot_spec().active_threads == metrics.active_threads
        }),
{
}

} // verus!
