//! The slow queue as a mathematical value, and what each of its operations does
//! to that value.
//!
//! A task waits in one place, the queue of its priority. Where no priority is
//! entitled to be served, the order of arrival decides.

use crate::slow_queue::adaptive::{adaptive_batch, AdaptiveModel};
use crate::slow_queue::types::{
    QueueError, QueuedTask, SlowQueueConfig, SlowQueueMetrics, SlowTask,
};
use crate::stopwatch::Stopwatch;
use crate::tier_manager::context::TaskId;
use vstd::prelude::*;

verus! {

/// Source of a task for rate limiting: the upper half of its identifier.
pub open spec fn source_of(task_id: TaskId) -> u64 {
    task_id.0 / 0x1_0000_0000
}

/// What a slow queue holds.
#[verifier::ext_equal]
pub struct SlowQueueModel {
    /// Tasks of each priority, the next one first: critical, high, normal, low.
    pub levels: Seq<Seq<QueuedTask>>,
    /// Number in the order of arrival for the next task.
    pub next_arrival: u64,
    /// Counters.
    pub metrics: SlowQueueMetrics,
    /// Settings.
    pub config: SlowQueueConfig,
    /// How many tasks each source has.
    pub sources: Map<u64, usize>,
    /// When the backoff of each task ends (ns).
    pub backoffs: Map<u64, u128>,
    /// Controller of the queue size.
    pub controller: AdaptiveModel,
    /// Whose turn it is: 0 for high, 1 for normal, 2 for low.
    pub turn: nat,
    /// Whether the priority whose turn it is has been given its quantum.
    pub turn_begun: bool,
    /// How many tasks of that priority may still be served in this turn.
    pub deficit: u32,
    /// The clock.
    pub clock: Stopwatch,
}

impl SlowQueueModel {
    /// There are four priorities, each task waits among those of its priority, the
    /// counter agrees with the number of tasks, and three priorities take turns.
    pub open spec fn wf(self) -> bool {
        &&& self.levels.len() == 4
        &&& forall|rank: int, i: int|
            0 <= rank < 4 && 0 <= i < self.levels[rank].len() ==> (
            #[trigger] self.levels[rank][i]).task.priority.rank() == rank
        &&& self.metrics.total_queued == self.waiting_len()
        &&& self.turn < 3
        &&& self.controller.wf()
    }

    /// How many tasks wait.
    pub open spec fn waiting_len(self) -> nat {
        self.levels[0].len() + self.levels[1].len() + self.levels[2].len() + self.levels[3].len()
    }

    /// A queue that holds nothing.
    pub open spec fn fresh(config: SlowQueueConfig, now: u128, clock: Stopwatch) -> SlowQueueModel {
        SlowQueueModel {
            levels: Seq::new(4, |i: int| Seq::<QueuedTask>::empty()),
            next_arrival: 0,
            metrics: SlowQueueMetrics::zero(),
            config,
            sources: Map::empty(),
            backoffs: Map::empty(),
            controller: AdaptiveModel::fresh(config.max_queue_size, now),
            turn: 0,
            turn_begun: false,
            deficit: 0,
            clock,
        }
    }

    /// How many tasks a source has.
    pub open spec fn source_count(self, source: u64) -> usize {
        if self.sources.contains_key(source) {
            self.sources[source]
        } else {
            0
        }
    }

    /// The queue with a task kept out for a time from now on.
    pub open spec fn backed_off(
        self,
        task_id: TaskId,
        duration_ns: u128,
        now: u128,
    ) -> SlowQueueModel {
        SlowQueueModel {
            backoffs: self.backoffs.insert(task_id.0, now.saturating_add(duration_ns)),
            ..self
        }
    }

    /// Whether the task is kept out for now.
    pub open spec fn in_backoff(self, task_id: TaskId, now: u128) -> bool {
        self.backoffs.contains_key(task_id.0) && now < self.backoffs[task_id.0]
    }

    /// Why a task is not taken in, or `None` if it is.
    pub open spec fn refusal(self, task: SlowTask, now: u128) -> Option<QueueError> {
        if self.metrics.total_queued >= self.controller.current_max_size {
            Some(QueueError::QueueFull)
        } else if self.in_backoff(task.task_id, now) {
            Some(QueueError::BackoffActive)
        } else if self.source_count(source_of(task.task_id)) >= self.config.max_tasks_per_source {
            Some(QueueError::SourceThrottled)
        } else {
            None
        }
    }

    /// The queue after a task was put in. A backoff that is over is forgotten as
    /// soon as it is looked at.
    pub open spec fn enqueued(self, task: SlowTask, now: u128) -> SlowQueueModel {
        match self.refusal(task, now) {
            Some(QueueError::QueueFull) => self,
            Some(QueueError::BackoffActive) => self,
            Some(_) => SlowQueueModel { backoffs: self.backoffs.remove(task.task_id.0), ..self },
            None => {
                let source = source_of(task.task_id);
                let rank = task.priority.rank();
                SlowQueueModel {
                    levels: self.levels.update(
                        rank,
                        self.levels[rank].push(QueuedTask { arrival: self.next_arrival, task }),
                    ),
                    next_arrival: self.next_arrival.wrapping_add(1),
                    metrics: SlowQueueMetrics {
                        critical_enqueued: if rank == 0 {
                            self.metrics.critical_enqueued.wrapping_add(1)
                        } else {
                            self.metrics.critical_enqueued
                        },
                        ..self.metrics.at_depth((self.metrics.total_queued + 1) as usize)
                    },
                    sources: self.sources.insert(
                        source,
                        (self.source_count(source) + 1) as usize,
                    ),
                    backoffs: self.backoffs.remove(task.task_id.0),
                    ..self
                }
            },
        }
    }

    /// The counts of the sources after a task left.
    pub open spec fn sources_without(self, task: SlowTask) -> Map<u64, usize> {
        let source = source_of(task.task_id);
        if self.sources.contains_key(source) {
            self.sources.insert(source, self.sources[source].saturating_sub(1))
        } else {
            self.sources
        }
    }

    /// The queue after the next task of a priority left.
    pub open spec fn without_next(self, rank: int) -> SlowQueueModel {
        SlowQueueModel {
            levels: self.levels.update(rank, self.levels[rank].skip(1)),
            sources: self.sources_without(self.levels[rank][0].task),
            metrics: SlowQueueMetrics {
                total_queued: (self.metrics.total_queued - 1) as usize,
                critical_processed: if rank == 0 {
                    self.metrics.critical_processed.wrapping_add(1)
                } else {
                    self.metrics.critical_processed
                },
                ..self.metrics
            },
            ..self
        }
    }

    /// Whether the next task of `rank` arrived no later than the next one of
    /// `other`, if there is one.
    pub open spec fn arrived_first(self, rank: int, other: int) -> bool {
        self.levels[other].len() == 0 || self.levels[rank][0].arrival
            <= self.levels[other][0].arrival
    }

    /// Of the priorities other than critical, the one whose next task arrived
    /// first.
    pub open spec fn first_come(self) -> Option<int> {
        if self.levels[1].len() > 0 && self.arrived_first(1, 2) && self.arrived_first(1, 3) {
            Some(1)
        } else if self.levels[2].len() > 0 && self.arrived_first(2, 3) {
            Some(2)
        } else if self.levels[3].len() > 0 {
            Some(3)
        } else {
            None
        }
    }

    /// The queue after the books of a batch of `size` tasks were closed.
    pub open spec fn batch_closed(self, size: usize) -> SlowQueueModel {
        SlowQueueModel { metrics: self.metrics.after_batch(size), ..self }
    }

    /// The queue with nothing in it. Settings and the other counters stay.
    pub open spec fn cleared(self) -> SlowQueueModel {
        SlowQueueModel {
            levels: Seq::new(4, |i: int| Seq::<QueuedTask>::empty()),
            metrics: SlowQueueMetrics { total_queued: 0, ..self.metrics },
            sources: Map::empty(),
            backoffs: Map::empty(),
            ..self
        }
    }

    /// Whether a task has waited too long.
    pub open spec fn starving(self, queued: QueuedTask, now: u128) -> bool {
        now.saturating_sub(queued.task.enqueue_time) > self.config.starvation_threshold_ms * 1_000_000
    }

    /// The starving tasks among `tasks`, one priority more urgent.
    pub open spec fn rescued(self, tasks: Seq<QueuedTask>, now: u128) -> Seq<QueuedTask> {
        tasks.filter(|queued: QueuedTask| self.starving(queued, now)).map_values(
            |queued: QueuedTask| boosted(queued),
        )
    }

    /// The tasks among `tasks` that can wait.
    pub open spec fn patient(self, tasks: Seq<QueuedTask>, now: u128) -> Seq<QueuedTask> {
        tasks.filter(|queued: QueuedTask| !self.starving(queued, now))
    }

    /// The queue after starving tasks moved up: each task of the high, normal and
    /// low priority is looked at once. A high task that starves moves to the front
    /// of its own queue.
    pub open spec fn relieved(self, now: u128) -> SlowQueueModel {
        let high = self.rescued(self.levels[1], now);
        let normal = self.rescued(self.levels[2], now);
        let low = self.rescued(self.levels[3], now);
        SlowQueueModel {
            levels: seq![
                self.levels[0],
                high + self.patient(self.levels[1], now) + normal,
                self.patient(self.levels[2], now) + low,
                self.patient(self.levels[3], now),
            ],
            metrics: SlowQueueMetrics {
                starvation_prevented: self.metrics.starvation_prevented.wrapping_add(
                    high.len() as u64,
                ).wrapping_add(normal.len() as u64).wrapping_add(low.len() as u64),
                priority_promotions: self.metrics.priority_promotions.wrapping_add(
                    high.len() as u64,
                ).wrapping_add(normal.len() as u64).wrapping_add(low.len() as u64),
                ..self.metrics
            },
            ..self
        }
    }

    /// The batch size for the current load.
    pub open spec fn batch_size(self) -> usize {
        let base = self.config.default_batch_size;
        let most = self.config.max_batch_size;
        let queued = self.metrics.total_queued;
        if self.config.adaptive_enabled {
            adaptive_batch(
                base,
                queued,
                self.controller.current_max_size,
                self.controller.memory_pressure_bits,
                self.config.memory_pressure_threshold_bits,
                most,
            )
        } else if queued > 1000 {
            if base * 2 <= most {
                (base * 2) as usize
            } else {
                most
            }
        } else if queued > 500 {
            if base * 3 / 2 <= most {
                (base * 3 / 2) as usize
            } else {
                most
            }
        } else {
            base
        }
    }
}

/// The task one priority more urgent.
pub open spec fn boosted(queued: QueuedTask) -> QueuedTask {
    QueuedTask {
        task: SlowTask { priority: queued.task.priority.boosted(), ..queued.task },
        ..queued
    }
}

/// A batch in the making.
#[verifier::ext_equal]
pub struct Batch {
    /// The queue that is left.
    pub queue: SlowQueueModel,
    /// The tasks handed out so far.
    pub tasks: Seq<SlowTask>,
    /// Credits left for each priority.
    pub credits: Seq<nat>,
    /// No task was found; the batch ends early.
    pub ended: bool,
}

impl Batch {
    /// A batch without tasks. Each priority has a number of credits that lasts for
    /// the batch.
    pub open spec fn begun(queue: SlowQueueModel) -> Batch {
        Batch { queue, tasks: Seq::empty(), credits: seq![4, 3, 2, 1], ended: false }
    }

    /// The batch with the next task of a priority.
    pub open spec fn with_next(self, rank: int) -> Batch {
        Batch {
            queue: self.queue.without_next(rank),
            tasks: self.tasks.push(self.queue.levels[rank][0].task),
            ..self
        }
    }

    /// The batch with the task that arrived first, or ended if there is none.
    pub open spec fn with_first_come(self) -> Batch {
        match self.queue.first_come() {
            Some(rank) => self.with_next(rank),
            None => Batch { ended: true, ..self },
        }
    }

    /// Whether a task of this priority is there and paid for.
    pub open spec fn affordable(self, rank: int) -> bool {
        self.credits[rank] > 0 && self.queue.levels[rank].len() > 0
    }

    /// One step of credit-based scheduling: a critical task if there is one, else
    /// the most urgent one whose priority has credits left, else the one that
    /// arrived first.
    pub open spec fn credit_step(self) -> Batch {
        if self.ended {
            self
        } else if self.queue.levels[0].len() > 0 {
            self.with_next(0)
        } else if self.affordable(1) {
            self.with_credit(1)
        } else if self.affordable(2) {
            self.with_credit(2)
        } else if self.affordable(3) {
            self.with_credit(3)
        } else {
            self.with_first_come()
        }
    }

    /// The batch with the next task of a priority, paid with a credit.
    pub open spec fn with_credit(self, rank: int) -> Batch {
        Batch {
            credits: self.credits.update(rank, (self.credits[rank] - 1) as nat),
            ..self.with_next(rank)
        }
    }

    /// `n` steps of credit-based scheduling.
    pub open spec fn credit_steps(self, n: nat) -> Batch
        decreases n,
    {
        if n == 0 {
            self
        } else {
            self.credit_steps((n - 1) as nat).credit_step()
        }
    }

    /// The first priority from high downwards that is not empty and whose tickets,
    /// together with those of the more urgent ones, include the winning one.
    pub open spec fn lottery_winner(self, ticket: u32) -> Option<int> {
        let tickets = self.queue.config.lottery_tickets;
        if ticket < tickets[1] && self.queue.levels[1].len() > 0 {
            Some(1)
        } else if ticket < tickets[1] + tickets[2] && self.queue.levels[2].len() > 0 {
            Some(2)
        } else if ticket < tickets[1] + tickets[2] + tickets[3] && self.queue.levels[3].len() > 0 {
            Some(3)
        } else {
            None
        }
    }

    /// One step of lottery scheduling: a critical task if there is one, else one
    /// of the priority that wins, else the one that arrived first. Without tickets
    /// nobody wins.
    pub open spec fn lottery_step(self, ticket: u32) -> Batch {
        if self.ended {
            self
        } else if self.queue.levels[0].len() > 0 {
            self.with_next(0)
        } else if ticket_total(self.queue.config) == 0 {
            self.with_first_come()
        } else {
            match self.lottery_winner(ticket) {
                Some(rank) => self.with_next(rank),
                None => self.with_first_come(),
            }
        }
    }

    /// Whether the next step of lottery scheduling depends on a ticket.
    pub open spec fn draws(self) -> bool {
        !self.ended && self.queue.levels[0].len() == 0 && ticket_total(self.queue.config) > 0
    }

    /// Lottery scheduling with these winning tickets, one for each step.
    pub open spec fn lottery_steps(self, tickets: Seq<u32>) -> Batch
        decreases tickets.len(),
    {
        if tickets.len() == 0 {
            self
        } else {
            self.lottery_steps(tickets.drop_last()).lottery_step(tickets.last())
        }
    }

    /// The priority whose turn it is: high, normal, low.
    pub open spec fn rank_in_turn(self) -> int {
        self.queue.turn as int + 1
    }

    /// How many tasks the priority whose turn it is may still be served: its
    /// quantum at the beginning of the turn.
    pub open spec fn entitlement(self) -> u32 {
        if self.queue.turn_begun {
            self.queue.deficit
        } else {
            self.queue.config.drr_quantum[self.rank_in_turn()]
        }
    }

    /// Whether the priority whose turn it is gets served: it is entitled to it and
    /// has tasks.
    pub open spec fn served_in_turn(self) -> bool {
        self.entitlement() > 0 && self.queue.levels[self.rank_in_turn()].len() > 0
    }

    /// The batch after the priority whose turn it is was looked at: with its next
    /// task, or with the turn passed on.
    pub open spec fn turn_taken(self) -> Batch {
        if self.served_in_turn() {
            let served = self.with_next(self.rank_in_turn());
            Batch {
                queue: SlowQueueModel {
                    turn_begun: true,
                    deficit: (self.entitlement() - 1) as u32,
                    ..served.queue
                },
                ..served
            }
        } else {
            Batch {
                queue: SlowQueueModel {
                    turn: (self.queue.turn + 1) % 3,
                    turn_begun: false,
                    deficit: 0,
                    ..self.queue
                },
                ..self
            }
        }
    }

    /// Up to `n` turns, until one priority gets served; the task that arrived
    /// first if none is.
    pub open spec fn turns(self, n: nat) -> Batch
        decreases n,
    {
        if n == 0 {
            self.with_first_come()
        } else if self.served_in_turn() {
            self.turn_taken()
        } else {
            self.turn_taken().turns((n - 1) as nat)
        }
    }

    /// One step of deficit round robin: a critical task if there is one, else one
    /// of the priority whose turn it is, passing the turn on at most four times,
    /// else the one that arrived first. Four turns are enough to come back to a
    /// priority that has used up its quantum.
    pub open spec fn drr_step(self) -> Batch {
        if self.ended {
            self
        } else if self.queue.levels[0].len() > 0 {
            self.with_next(0)
        } else {
            self.turns(4)
        }
    }

    /// `n` steps of deficit round robin.
    pub open spec fn drr_steps(self, n: nat) -> Batch
        decreases n,
    {
        if n == 0 {
            self
        } else {
            self.drr_steps((n - 1) as nat).drr_step()
        }
    }

    /// The queue after the batch was handed out.
    pub open spec fn closed(self) -> SlowQueueModel {
        self.queue.batch_closed(self.tasks.len() as usize)
    }
}

/// All lottery tickets.
pub open spec fn ticket_total(config: SlowQueueConfig) -> int {
    config.lottery_tickets[0] + config.lottery_tickets[1] + config.lottery_tickets[2]
        + config.lottery_tickets[3]
}

} // verus!
