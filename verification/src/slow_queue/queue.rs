//! The slow queue.

use crate::collections::{
    backoff_entries, backoff_in_map, clear_backoffs, clear_sources, count_slow_tasks,
    front, insert_backoff, insert_source, new_backoff_map, new_slow_task_queue, new_source_map,
    pop_slow_task, push_slow_task, queued_slow_tasks, remove_backoff, rest, source_entries,
    source_in_map,
};
use crate::single::unit_range;
use crate::slow_queue::adaptive::{
    adaptive_batch_size, AdaptiveModel, AdaptiveQueueController, LoadReading,
};
use crate::slow_queue::model::{source_of, ticket_total, Batch, SlowQueueModel};
use crate::slow_queue::types::{
    QueueError, QueuedTask, SlowQueueConfig, SlowQueueMetrics,
    SlowQueueMetricsSnapshot, SlowTask,
};
use crate::stopwatch::Stopwatch;
use crate::tier_manager::context::TaskId;
use crossbeam::queue::SegQueue;
use dashmap::DashMap;
use vstd::prelude::*;

verus! {

/// Main slow queue structure for managing misbehaving tasks.
pub struct SlowQueue {
    fronts: [Option<QueuedTask>; 4],
    priority_queues: [SegQueue<QueuedTask>; 4],
    next_arrival: u64,
    metrics: SlowQueueMetrics,
    config: SlowQueueConfig,
    source_counts: DashMap<u64, usize>,
    backoff_map: DashMap<u64, u128>,
    adaptive_controller: AdaptiveQueueController,
    current_turn: usize,
    turn_begun: bool,
    drr_deficit: u32,
    clock: Stopwatch,
}

/// The task that was taken out of its queue to be looked at, if there is one.
spec fn held(front: Option<QueuedTask>) -> Seq<QueuedTask> {
    match front {
        Some(queued) => seq![queued],
        None => Seq::empty(),
    }
}

/// The tasks of a priority: the one that was taken out to be looked at, then the
/// others.
#[verifier::opaque]
spec fn level(front: Option<QueuedTask>, queue: SegQueue<QueuedTask>) -> Seq<QueuedTask> {
    held(front) + queued_slow_tasks(queue)
}

impl View for SlowQueue {
    type V = SlowQueueModel;

    closed spec fn view(&self) -> SlowQueueModel {
        SlowQueueModel {
            levels: Seq::new(
                4,
                |i: int| level(self.fronts[i], self.priority_queues[i]),
            ),
            next_arrival: self.next_arrival,
            metrics: self.metrics,
            config: self.config,
            sources: source_entries(self.source_counts),
            backoffs: backoff_entries(self.backoff_map),
            controller: self.adaptive_controller@,
            turn: self.current_turn as nat,
            turn_begun: self.turn_begun,
            deficit: self.drr_deficit,
            clock: self.clock,
        }
    }
}

impl SlowQueue {
    /// Creates a queue that holds nothing.
    #[must_use]
    pub fn new(config: SlowQueueConfig) -> (queue: Self)
        ensures
            queue@.wf(),
            queue@.clock.started_by_clock(),
            exists|now: u128|
                queue.clock_shows(now) && queue@ == #[trigger] SlowQueueModel::fresh(
                    config,
                    now,
                    queue@.clock,
                ),
    {
        let clock = Stopwatch::start();
        let now: u128 = clock.elapsed_ns();
        let queue = SlowQueue {
            fronts: [None, None, None, None],
            priority_queues: [
                new_slow_task_queue(),
                new_slow_task_queue(),
                new_slow_task_queue(),
                new_slow_task_queue(),
            ],
            next_arrival: 0,
            metrics: SlowQueueMetrics::default(),
            config,
            source_counts: new_source_map(),
            backoff_map: new_backoff_map(),
            adaptive_controller: AdaptiveQueueController::new(config.max_queue_size, now),
            current_turn: 0,
            turn_begun: false,
            drr_deficit: 0,
            clock,
        };
        proof {
            reveal(level);
            let expected = SlowQueueModel::fresh(config, now, clock);
            assert forall|r: int| 0 <= r < 4 implies #[trigger] queue@.levels[r]
                == expected.levels[r] by {
                assert(queue@.levels[r] =~= Seq::<QueuedTask>::empty());
            }
            assert(queue@.levels =~= expected.levels);
            assert(queue@ =~= expected);
        }
        assert(queue.clock_shows(now));
        queue
    }

    /// Whether `ns` is a reading of the queue's clock.
    pub open spec fn clock_shows(&self, ns: u128) -> bool {
        self@.clock.shows(ns)
    }

    /// Nanoseconds on the queue's clock.
    pub fn now_ns(&self) -> (ns: u128)
        ensures
            self.clock_shows(ns),
    {
        self.clock.elapsed_ns()
    }

    /// Adds a task.
    ///
    /// # Errors
    ///
    /// `QueueFull` if the queue has reached its capacity, `BackoffActive` if the
    /// task is kept out for now, `SourceThrottled` if its source has too many
    /// tasks in the queue.
    pub fn enqueue(&mut self, task: SlowTask) -> (result: Result<(), QueueError>)
        requires
            old(self)@.wf(),
        ensures
            final(self)@.wf(),
            exists|now: u128|
                {
                    &&& old(self).clock_shows(now)
                    &&& final(self)@ == #[trigger] old(self)@.enqueued(task, now)
                    &&& result == (match old(self)@.refusal(task, now) {
                        Some(error) => Err(error),
                        None => Ok(()),
                    })
                },
    {
        let now: u128 = self.now_ns();
        self.enqueue_at(task, now)
    }

    /// [`enqueue`](Self::enqueue) at a given time.
    pub fn enqueue_at(&mut self, task: SlowTask, now: u128) -> (result: Result<(), QueueError>)
        requires
            old(self)@.wf(),
        ensures
            final(self)@.wf(),
            final(self)@ == old(self)@.enqueued(task, now),
            result == (match old(self)@.refusal(task, now) {
                Some(error) => Err(error),
                None => Ok(()),
            }),
    {
        let current_size: usize = self.metrics.total_queued;
        let max_size: usize = self.adaptive_controller.current_max_size();
        if current_size >= max_size {
            return Err(QueueError::QueueFull);
        }
        match backoff_in_map(&self.backoff_map, task.task_id.0) {
            Some(until) => {
                if now < until {
                    return Err(QueueError::BackoffActive);
                }
                remove_backoff(&mut self.backoff_map, task.task_id.0);
            },
            None => {},
        }
        assert(self@.backoffs =~= old(self)@.backoffs.remove(task.task_id.0));
        let source: u64 = self.identify_source(&task);
        let count: usize = match source_in_map(&self.source_counts, source) {
            Some(count) => count,
            None => 0,
        };
        if count >= self.config.max_tasks_per_source {
            return Err(QueueError::SourceThrottled);
        }
        insert_source(&mut self.source_counts, source, count + 1);
        let rank: usize = task.priority.index();
        self.push_level(rank, QueuedTask { arrival: self.next_arrival, task });
        self.next_arrival = self.next_arrival.wrapping_add(1);
        if rank == 0 {
            self.metrics.critical_enqueued = self.metrics.critical_enqueued.wrapping_add(1);
        }
        self.metrics.record_queue_depth(current_size + 1);
        proof {
            let expected = old(self)@.enqueued(task, now);
            assert(self@ =~= expected);
            assert forall|r: int, i: int|
                0 <= r < 4 && 0 <= i < self@.levels[r].len() implies (
            #[trigger] self@.levels[r][i]).task.priority.rank() == r by {
                if r == rank && i == old(self)@.levels[r].len() {
                } else {
                    assert(self@.levels[r][i] == old(self)@.levels[r][i]);
                }
            }
        }
        Ok(())
    }

    /// The settings.
    pub(crate) fn config(&self) -> (config: SlowQueueConfig)
        ensures
            config == self@.config,
    {
        self.config
    }

    /// Puts a task behind the others of a priority.
    pub(crate) fn push_level(&mut self, rank: usize, queued: QueuedTask)
        requires
            rank < 4,
        ensures
            final(self)@ == (SlowQueueModel {
                levels: old(self)@.levels.update(
                    rank as int,
                    old(self)@.levels[rank as int].push(queued),
                ),
                ..old(self)@
            }),
    {
        push_slow_task(&mut self.priority_queues[rank], queued);
        proof {
            let levels = old(self)@.levels;
            let expected = levels.update(rank as int, levels[rank as int].push(queued));
            assert forall|r: int| 0 <= r < 4 implies #[trigger] self@.levels[r] == expected[r] by {
                reveal(level);
                assert(self@.levels[r] =~= expected[r]);
            }
            assert(self@.levels =~= expected);
        }
    }

    /// Takes the next task of a priority out.
    pub(crate) fn pop_level(&mut self, rank: usize) -> (queued: Option<QueuedTask>)
        requires
            rank < 4,
        ensures
            queued == front(old(self)@.levels[rank as int]),
            final(self)@ == (SlowQueueModel {
                levels: old(self)@.levels.update(
                    rank as int,
                    rest(old(self)@.levels[rank as int]),
                ),
                ..old(self)@
            }),
    {
        let queued = match self.fronts[rank] {
            Some(queued) => {
                self.fronts[rank] = None;
                Some(queued)
            },
            None => pop_slow_task(&mut self.priority_queues[rank]),
        };
        proof {
            reveal(level);
            let levels = old(self)@.levels;
            let expected = levels.update(rank as int, rest(levels[rank as int]));
            assert forall|r: int| 0 <= r < 4 implies #[trigger] self@.levels[r] == expected[r] by {
                reveal(level);
                assert(self@.levels[r] =~= expected[r]);
            }
            assert(self@.levels =~= expected);
        }
        queued
    }

    /// Takes all tasks of a priority out.
    fn drain_level(&mut self, rank: usize)
        requires
            rank < 4,
        ensures
            final(self)@ == (SlowQueueModel {
                levels: old(self)@.levels.update(rank as int, Seq::<QueuedTask>::empty()),
                ..old(self)@
            }),
    {
        let mut more: bool = true;
        while more
            invariant
                rank < 4,
                self@.levels.len() == 4,
                old(self)@.levels.len() == 4,
                self@ == (SlowQueueModel {
                    levels: old(self)@.levels.update(rank as int, self@.levels[rank as int]),
                    ..old(self)@
                }),
                !more ==> self@.levels[rank as int].len() == 0,
            decreases self@.levels[rank as int].len(), if more { 1int } else { 0 },
        {
            more = self.pop_level(rank).is_some();
            assert(self@.levels =~= old(self)@.levels.update(
                rank as int,
                self@.levels[rank as int],
            ));
        }
        assert(self@.levels[rank as int] =~= Seq::<QueuedTask>::empty());
    }

    /// Looks at the next task of a priority: when it arrived.
    fn next_arrival_of(&mut self, rank: usize) -> (arrival: Option<u64>)
        requires
            rank < 4,
        ensures
            final(self)@ == old(self)@,
            arrival == (match front(old(self)@.levels[rank as int]) {
                Some(queued) => Some(queued.arrival),
                None => None,
            }),
    {
        if self.fronts[rank].is_none() {
            let next = pop_slow_task(&mut self.priority_queues[rank]);
            self.fronts[rank] = next;
        }
        proof {
            reveal(level);
            let levels = old(self)@.levels;
            assert forall|r: int| 0 <= r < 4 implies #[trigger] self@.levels[r] == levels[r] by {
                reveal(level);
                assert(self@.levels[r] =~= levels[r]);
            }
            assert(self@.levels =~= levels);
            assert(self@ =~= old(self)@);
        }
        match self.fronts[rank] {
            Some(queued) => Some(queued.arrival),
            None => None,
        }
    }

    /// Source of a task for rate limiting.
    fn identify_source(&self, task: &SlowTask) -> (source: u64)
        ensures
            source == source_of(task.task_id),
    {
        task.task_id.0 / 0x1_0000_0000
    }

    /// Takes a task that left off the count of its source.
    fn decrement_source_count(&mut self, task: &SlowTask)
        ensures
            final(self)@ == (SlowQueueModel {
                sources: old(self)@.sources_without(*task),
                ..old(self)@
            }),
    {
        let source: u64 = self.identify_source(task);
        match source_in_map(&self.source_counts, source) {
            Some(count) => {
                insert_source(&mut self.source_counts, source, count.saturating_sub(1));
            },
            None => {},
        }
    }

    /// Takes the next task of a priority, and closes its accounts.
    pub(crate) fn take_next(&mut self, rank: usize) -> (task: Option<SlowTask>)
        requires
            old(self)@.wf(),
            rank < 4,
        ensures
            final(self)@.wf(),
            match task {
                Some(task) => {
                    &&& old(self)@.levels[rank as int].len() > 0
                    &&& task == old(self)@.levels[rank as int][0].task
                    &&& final(self)@ == old(self)@.without_next(rank as int)
                },
                None => old(self)@.levels[rank as int].len() == 0 && final(self)@ == old(self)@,
            },
    {
        match self.pop_level(rank) {
            Some(queued) => {
                self.decrement_source_count(&queued.task);
                self.metrics.total_queued = self.metrics.total_queued - 1;
                if rank == 0 {
                    self.metrics.critical_processed =
                        self.metrics.critical_processed.wrapping_add(1);
                }
                proof {
                    assert(self@ =~= old(self)@.without_next(rank as int));
                    lemma_departure_keeps_wf(old(self)@, rank as int);
                }
                Some(queued.task)
            },
            None => {
                assert(self@.levels =~= old(self)@.levels);
                assert(self@ =~= old(self)@);
                None
            },
        }
    }

    /// Takes the task that arrived first, critical ones left aside.
    pub(crate) fn take_first_come(&mut self) -> (task: Option<SlowTask>)
        requires
            old(self)@.wf(),
        ensures
            final(self)@.wf(),
            match old(self)@.first_come() {
                Some(rank) => {
                    &&& task == Some(old(self)@.levels[rank][0].task)
                    &&& final(self)@ == old(self)@.without_next(rank)
                },
                None => task is None && final(self)@ == old(self)@,
            },
    {
        let high = self.next_arrival_of(1);
        let normal = self.next_arrival_of(2);
        let low = self.next_arrival_of(3);
        if Self::came_first(high, normal) && Self::came_first(high, low) {
            return self.take_next(1);
        }
        if Self::came_first(normal, low) {
            return self.take_next(2);
        }
        self.take_next(3)
    }

    /// Whether a task is there and arrived no later than another one, if that is
    /// there.
    fn came_first(arrival: Option<u64>, other: Option<u64>) -> (first: bool)
        ensures
            first == (match (arrival, other) {
                (Some(arrival), Some(other)) => arrival <= other,
                (Some(_), None) => true,
                (None, _) => false,
            }),
    {
        match (arrival, other) {
            (Some(arrival), Some(other)) => arrival <= other,
            (Some(_), None) => true,
            (None, _) => false,
        }
    }

    /// Closes the books of a batch.
    pub(crate) fn close_batch(&mut self, size: usize)
        requires
            old(self)@.wf(),
        ensures
            final(self)@.wf(),
            final(self)@ == old(self)@.batch_closed(size),
    {
        self.metrics.total_processed = self.metrics.total_processed.wrapping_add(size as u64);
    }

    pub(crate) fn total_tickets(&self) -> (total: u32)
        requires
            ticket_total(self@.config) <= u32::MAX,
        ensures
            total == ticket_total(self@.config),
    {
        self.config.lottery_tickets[0] + self.config.lottery_tickets[1]
            + self.config.lottery_tickets[2] + self.config.lottery_tickets[3]
    }

    /// Whether no task of a priority waits.
    pub(crate) fn is_queue_empty(&self, rank: usize) -> (empty: bool)
        requires
            rank < 4,
        ensures
            empty == (self@.levels[rank as int].len() == 0),
    {
        proof {
            reveal(level);
        }
        self.fronts[rank].is_none() && count_slow_tasks(&self.priority_queues[rank]) == 0
    }

    /// How many tasks of a priority wait.
    pub(crate) fn level_len(&self, rank: usize) -> (len: usize)
        requires
            self@.wf(),
            rank < 4,
        ensures
            len == self@.levels[rank as int].len(),
    {
        proof {
            reveal(level);
        }
        let behind: usize = count_slow_tasks(&self.priority_queues[rank]);
        assert(self@.levels[rank as int].len() <= self@.waiting_len());
        match self.fronts[rank] {
            Some(_) => behind + 1,
            None => behind,
        }
    }

    /// Looks at the priority whose turn it is: hands out its next task, or passes
    /// the turn on.
    pub(crate) fn take_turn(&mut self) -> (task: Option<SlowTask>)
        requires
            old(self)@.wf(),
        ensures
            final(self)@.wf(),
            ({
                let begun = Batch::begun(old(self)@);
                &&& final(self)@ == begun.turn_taken().queue
                &&& match task {
                    Some(task) => begun.served_in_turn() && task
                        == old(self)@.levels[begun.rank_in_turn()][0].task,
                    None => !begun.served_in_turn(),
                }
            }),
    {
        let rank: usize = self.current_turn + 1;
        let ghost begun = Batch::begun(self@);
        let entitlement: u32 = if self.turn_begun {
            self.drr_deficit
        } else {
            self.config.drr_quantum[rank]
        };
        if entitlement > 0 {
            match self.take_next(rank) {
                Some(task) => {
                    self.turn_begun = true;
                    self.drr_deficit = entitlement - 1;
                    assert(self@ =~= begun.turn_taken().queue);
                    return Some(task);
                },
                None => {},
            }
        }
        self.current_turn = if self.current_turn == 2 {
            0
        } else {
            self.current_turn + 1
        };
        self.turn_begun = false;
        self.drr_deficit = 0;
        assert(self@ =~= begun.turn_taken().queue);
        None
    }

    /// How many tasks are queued, by the queue's own count.
    #[must_use]
    pub fn size(&self) -> (size: usize)
        ensures
            size == self@.metrics.total_queued,
    {
        self.metrics.total_queued
    }

    pub(crate) fn count_rescued(&mut self, rescued: usize)
        requires
            old(self)@.wf(),
        ensures
            final(self)@.wf(),
            final(self)@ == (SlowQueueModel {
                metrics: SlowQueueMetrics {
                    starvation_prevented: old(self)@.metrics.starvation_prevented.wrapping_add(
                        rescued as u64,
                    ),
                    priority_promotions: old(self)@.metrics.priority_promotions.wrapping_add(
                        rescued as u64,
                    ),
                    ..old(self)@.metrics
                },
                ..old(self)@
            }),
    {
        self.metrics.starvation_prevented =
            self.metrics.starvation_prevented.wrapping_add(rescued as u64);
        self.metrics.priority_promotions =
            self.metrics.priority_promotions.wrapping_add(rescued as u64);
    }

    /// Keeps a task out for `duration_ns` nanoseconds.
    pub fn apply_backoff(&mut self, task_id: TaskId, duration_ns: u128)
        requires
            old(self)@.wf(),
        ensures
            final(self)@.wf(),
            exists|now: u128| #[trigger]
                old(self).clock_shows(now) && final(self)@ == (SlowQueueModel {
                    backoffs: old(self)@.backoffs.insert(
                        task_id.0,
                        now.saturating_add(duration_ns),
                    ),
                    ..old(self)@
                }),
    {
        let now: u128 = self.now_ns();
        self.apply_backoff_at(task_id, duration_ns, now);
    }

    /// [`apply_backoff`](Self::apply_backoff) at a given time.
    pub fn apply_backoff_at(&mut self, task_id: TaskId, duration_ns: u128, now: u128)
        requires
            old(self)@.wf(),
        ensures
            final(self)@.wf(),
            final(self)@ == (SlowQueueModel {
                backoffs: old(self)@.backoffs.insert(
                    task_id.0,
                    now.saturating_add(duration_ns),
                ),
                ..old(self)@
            }),
            final(self)@ == old(self)@.backed_off(task_id, duration_ns, now),
    {
        insert_backoff(&mut self.backoff_map, task_id.0, now.saturating_add(duration_ns));
    }

    /// Drops all tasks, and forgets sources and backoffs.
    pub fn clear(&mut self)
        requires
            old(self)@.wf(),
        ensures
            final(self)@.wf(),
            final(self)@ == old(self)@.cleared(),
    {
        self.drain_level(0);
        self.drain_level(1);
        self.drain_level(2);
        self.drain_level(3);
        let ghost drained = self@;
        clear_sources(&mut self.source_counts);
        clear_backoffs(&mut self.backoff_map);
        self.metrics.total_queued = 0;
        assert(self@.levels == drained.levels);
        assert(self@.levels =~= old(self)@.cleared().levels);
        assert(self@ =~= old(self)@.cleared());
    }

    /// Takes a snapshot of the counters.
    #[must_use]
    pub fn metrics(&self) -> (snapshot: SlowQueueMetricsSnapshot)
        ensures
            snapshot == self@.metrics.snapshot_spec(),
    {
        self.metrics.snapshot()
    }

    /// Batch size for the current queue size, its limit and the memory pressure.
    #[must_use]
    pub fn calculate_batch_size(&self) -> (batch: usize)
        requires
            self@.config.adaptive_enabled ==> self@.config.max_batch_size >= 1,
            !self@.config.adaptive_enabled && self@.metrics.total_queued > 1000
                ==> self@.config.default_batch_size * 2 <= usize::MAX,
            !self@.config.adaptive_enabled && 500 < self@.metrics.total_queued <= 1000
                ==> self@.config.default_batch_size * 3 <= usize::MAX,
        ensures
            batch == self@.batch_size(),
    {
        let queue_size: usize = self.size();
        let base: usize = self.config.default_batch_size;
        let most: usize = self.config.max_batch_size;
        if !self.config.adaptive_enabled {
            return if queue_size > 1000 {
                if base * 2 <= most {
                    base * 2
                } else {
                    most
                }
            } else if queue_size > 500 {
                if base * 3 / 2 <= most {
                    base * 3 / 2
                } else {
                    most
                }
            } else {
                base
            };
        }
        adaptive_batch_size(
            base,
            queue_size,
            self.adaptive_controller.current_max_size(),
            self.adaptive_controller.memory_pressure_bits(),
            self.config.memory_pressure_threshold_bits,
            most,
        )
    }

    /// Samples the throughput and the queue depth for adaptive sizing, both
    /// double-precision bit patterns.
    pub fn record_load(&mut self, rate_bits: u64, depth_bits: u64, now: u128)
        requires
            old(self)@.wf(),
        ensures
            final(self)@.wf(),
            final(self)@ == (if old(self)@.config.adaptive_enabled {
                SlowQueueModel {
                    controller: old(self)@.controller.sampled(rate_bits, depth_bits, now),
                    ..old(self)@
                }
            } else {
                old(self)@
            }),
    {
        if self.config.adaptive_enabled {
            self.adaptive_controller.update_metrics(rate_bits, depth_bits, now);
        }
    }

    /// Changes the limit of the queue size if the load calls for it.
    pub fn update_adaptive_metrics(&mut self, load: &LoadReading, now: u128)
        requires
            old(self)@.wf(),
        ensures
            final(self)@.wf(),
            final(self)@ == (match old(self)@.controller.resize_target(
                old(self)@.config,
                *load,
                now,
            ) {
                Some(new_size) => SlowQueueModel {
                    controller: old(self)@.controller.resized(new_size, now),
                    metrics: SlowQueueMetrics {
                        resize_count: old(self)@.metrics.resize_count.wrapping_add(1),
                        ..old(self)@.metrics
                    },
                    ..old(self)@
                },
                None => old(self)@,
            }),
    {
        match self.adaptive_controller.should_resize(&self.config, load, now) {
            Some(new_size) => {
                self.adaptive_controller.resize_queue(new_size, now);
                self.metrics.resize_count = self.metrics.resize_count.wrapping_add(1);
            },
            None => {},
        }
    }

    /// Nanoseconds since the throughput was last sampled.
    pub fn throughput_idle_ns(&self, now: u128) -> (ns: u128)
        ensures
            ns == now.saturating_sub(self@.controller.throughput_window.last_timestamp),
    {
        self.adaptive_controller.throughput_idle_ns(now)
    }

    /// The throughput samples in the window.
    pub fn throughput_samples(&self) -> (samples: Vec<u64>)
        requires
            self@.wf(),
        ensures
            samples@ == self@.controller.throughput_window.samples.take(
                self@.controller.throughput_window.count as int,
            ),
    {
        self.adaptive_controller.throughput_samples()
    }

    /// The two latest queue depths, the latest first, once there are two.
    pub fn latest_depths(&self) -> (samples: Option<(u64, u64)>)
        requires
            self@.wf(),
        ensures
            samples == self@.controller.queue_depth_window.latest_two(),
    {
        self.adaptive_controller.latest_depths()
    }

    /// Notes the memory pressure, a single-precision bit pattern.
    pub fn update_memory_pressure(&mut self, pressure_bits: u32)
        requires
            old(self)@.wf(),
        ensures
            final(self)@.wf(),
            final(self)@ == (SlowQueueModel {
                controller: AdaptiveModel {
                    memory_pressure_bits: unit_range(pressure_bits),
                    ..old(self)@.controller
                },
                ..old(self)@
            }),
    {
        self.adaptive_controller.update_memory_pressure(pressure_bits);
    }

    /// Current limit of the queue size.
    #[must_use]
    pub fn current_max_queue_size(&self) -> (size: usize)
        ensures
            size == self@.controller.current_max_size,
    {
        self.adaptive_controller.current_max_size()
    }

    /// Current limit of the queue size, how often it changed, and the memory
    /// pressure as a single-precision bit pattern.
    #[must_use]
    pub fn adaptive_metrics(&self) -> (metrics: (usize, u64, u32))
        ensures
            metrics == (
                self@.controller.current_max_size,
                self@.controller.resize_count,
                self@.controller.memory_pressure_bits,
            ),
    {
        (
            self.adaptive_controller.current_max_size(),
            self.adaptive_controller.resize_count(),
            self.adaptive_controller.memory_pressure_bits(),
        )
    }
}

/// A task that leaves is one task less, and the others stay among their equals.
proof fn lemma_departure_keeps_wf(queue: SlowQueueModel, rank: int)
    requires
        queue.wf(),
        0 <= rank < 4,
        queue.levels[rank].len() > 0,
    ensures
        queue.without_next(rank).wf(),
{
    let after = queue.without_next(rank);
    assert forall|r: int, i: int| 0 <= r < 4 && 0 <= i < after.levels[r].len() implies (
    #[trigger] after.levels[r][i]).task.priority.rank() == r by {
        if r == rank {
            assert(after.levels[r][i] == queue.levels[r][i + 1]);
        } else {
            assert(after.levels[r][i] == queue.levels[r][i]);
        }
    }
}

} // verus!
