//! How tasks that have waited too long are boosted.

use crate::slow_queue::model::{boosted, SlowQueueModel};
use crate::slow_queue::queue::SlowQueue;
use crate::slow_queue::types::{QueuedTask, SlowTask};
use vstd::prelude::*;

verus! {

impl SlowQueue {
    /// Looks at each task of one priority once: starving ones move to the queue of
    /// their boosted priority, the others stay in order. Returns how many starved.
    fn relieve_level(&mut self, rank: usize, now: u128) -> (rescued: usize)
        requires
            old(self)@.wf(),
            1 <= rank < 4,
        ensures
            final(self)@.wf(),
            rescued == old(self)@.rescued(old(self)@.levels[rank as int], now).len(),
            final(self)@ == (SlowQueueModel {
                levels: level_relieved(old(self)@, rank as int, now),
                ..old(self)@
            }),
    {
        let waiting: usize = self.level_len(rank);
        let ghost tasks = self@.levels[rank as int];
        let ghost target = boosted_rank(rank as int);
        let ghost starving = |queued: QueuedTask| old(self)@.starving(queued, now);
        let ghost waits = |queued: QueuedTask| !old(self)@.starving(queued, now);
        let mut patient: Vec<QueuedTask> = Vec::new();
        let mut rescued: usize = 0;
        let mut seen: usize = 0;
        proof {
            assert(tasks.take(0) =~= Seq::empty());
            reveal(Seq::filter);
            assert(tasks.skip(0) =~= tasks);
            assert(self@.levels =~~= draining(old(self)@, rank as int, now, 0));
        }
        while seen < waiting
            invariant
                seen <= waiting,
                waiting == tasks.len(),
                1 <= rank < 4,
                old(self)@.wf(),
                tasks == old(self)@.levels[rank as int],
                starving == (|queued: QueuedTask| old(self)@.starving(queued, now)),
                waits == (|queued: QueuedTask| !old(self)@.starving(queued, now)),
                target == boosted_rank(rank as int),
                patient@ == tasks.take(seen as int).filter(waits),
                rescued == old(self)@.rescued(tasks.take(seen as int), now).len(),
                rescued <= seen,
                self@ == (SlowQueueModel {
                    levels: draining(old(self)@, rank as int, now, seen as int),
                    ..old(self)@
                }),
            decreases waiting - seen,
        {
            let ghost before = self@;
            proof {
                let done = tasks.take(seen as int);
                assert(tasks.take(seen + 1) =~= done.push(tasks[seen as int]));
                lemma_filter_push(done, tasks[seen as int], waits);
                lemma_filter_push(done, tasks[seen as int], starving);
                assert(tasks[seen as int].task.priority.rank() == rank);
                assert(before.levels[rank as int][0] == tasks[seen as int]);
            }
            match self.pop_level(rank) {
                Some(queued) => {
                    let ghost popped = self@;
                    assert(popped.levels[rank as int] == before.levels[rank as int].skip(1));
                    if now.saturating_sub(queued.task.enqueue_time)
                        > self.config().starvation_threshold_ms as u128 * 1_000_000 {
                        let task = SlowTask {
                            priority: queued.task.priority.boost(),
                            ..queued.task
                        };
                        let moved = QueuedTask { task, ..queued };
                        let new_rank: usize = task.priority.index();
                        self.push_level(new_rank, moved);
                        assert(self@.levels[target] == popped.levels[target].push(moved));
                        rescued += 1;
                        assert(old(self)@.rescued(tasks.take(seen + 1), now)
                            =~= old(self)@.rescued(tasks.take(seen as int), now).push(moved));
                    } else {
                        patient.push(queued);
                        assert(old(self)@.rescued(tasks.take(seen + 1), now)
                            =~= old(self)@.rescued(tasks.take(seen as int), now));
                    }
                },
                None => {},
            }
            proof {
                let moved = old(self)@.rescued(tasks.take(seen as int), now);
                let moved_more = old(self)@.rescued(tasks.take(seen + 1), now);
                let expected = draining(old(self)@, rank as int, now, seen + 1);
                assert(tasks.skip(seen as int).skip(1) =~= tasks.skip(seen + 1));
                assert((tasks.skip(seen as int) + moved).skip(1) =~= tasks.skip(seen + 1) + moved);
                if starving(tasks[seen as int]) {
                    let task = boosted(tasks[seen as int]);
                    assert(moved_more =~= moved.push(task));
                    assert((tasks.skip(seen + 1) + moved).push(task) =~= tasks.skip(seen + 1)
                        + moved_more);
                    assert((old(self)@.levels[target] + moved).push(task)
                        =~= old(self)@.levels[target] + moved_more);
                }
                assert forall|r: int| 0 <= r < 4 implies self@.levels[r] == expected[r] by {
                    if r == rank {
                    } else if r == target {
                    } else {
                        assert(self@.levels[r] == before.levels[r]);
                    }
                }
                assert(self@.levels =~= expected);
                assert(self@ =~= (SlowQueueModel {
                    levels: draining(old(self)@, rank as int, now, seen + 1),
                    ..old(self)@
                }));
            }
            seen += 1;
        }
        proof {
            assert(tasks.take(seen as int) =~= tasks);
            assert(tasks.skip(seen as int) =~= Seq::<QueuedTask>::empty());
        }
        let ghost drained = self@;
        let mut kept: usize = 0;
        while kept < patient.len()
            invariant
                kept <= patient.len(),
                1 <= rank < 4,
                drained.levels.len() == 4,
                self@ == (SlowQueueModel {
                    levels: drained.levels.update(
                        rank as int,
                        drained.levels[rank as int] + patient@.take(kept as int),
                    ),
                    ..drained
                }),
            decreases patient.len() - kept,
        {
            let ghost before = self@;
            let task = patient[kept];
            self.push_level(rank, task);
            assert(self@.levels[rank as int] == before.levels[rank as int].push(task));
            proof {
                assert(patient@.take(kept + 1) =~= patient@.take(kept as int).push(task));
                let expected = drained.levels.update(
                    rank as int,
                    drained.levels[rank as int] + patient@.take(kept + 1),
                );
                assert((drained.levels[rank as int] + patient@.take(kept as int)).push(task)
                    =~= drained.levels[rank as int] + patient@.take(kept + 1));
                assert forall|r: int| 0 <= r < 4 implies self@.levels[r] == expected[r] by {
                    if r != rank {
                        assert(self@.levels[r] == before.levels[r]);
                    }
                }
                assert(self@.levels =~= expected);
            }
            kept += 1;
        }
        proof {
            assert(patient@.take(kept as int) =~= patient@);
            assert(self@.levels =~~= level_relieved(old(self)@, rank as int, now));
            lemma_relieved_level_wf(old(self)@, rank as int, now);
        }
        rescued
    }

    /// Boosts tasks that have waited too long.
    pub fn prevent_starvation(&mut self)
        requires
            old(self)@.wf(),
        ensures
            final(self)@.wf(),
            exists|now: u128|
                old(self).clock_shows(now) && final(self)@ == #[trigger] old(self)@.relieved(now),
    {
        let now: u128 = self.now_ns();
        self.prevent_starvation_at(now);
    }

    /// [`prevent_starvation`](Self::prevent_starvation) at a given time.
    pub fn prevent_starvation_at(&mut self, now: u128)
        requires
            old(self)@.wf(),
        ensures
            final(self)@.wf(),
            final(self)@ == old(self)@.relieved(now),
    {
        let ghost start = self@;
        let high: usize = self.relieve_level(1, now);
        self.count_rescued(high);
        let ghost first = self@;
        assert(first.levels[2] == start.levels[2]);
        let normal: usize = self.relieve_level(2, now);
        self.count_rescued(normal);
        let ghost second = self@;
        assert(second.levels[3] == start.levels[3]);
        let low: usize = self.relieve_level(3, now);
        self.count_rescued(low);
        proof {
            lemma_same_rescue(start, first, now);
            lemma_same_rescue(start, second, now);
            assert(self@.levels =~~= start.relieved(now).levels);
            assert(self@ =~= start.relieved(now));
        }
    }
}

/// Rank of the priority that a task of this rank is boosted to.
spec fn boosted_rank(rank: int) -> int {
    if rank > 1 {
        rank - 1
    } else {
        rank
    }
}

/// The queues of the priorities while one of them is drained: the first `seen`
/// tasks are out, the starving ones among them went to their new queue.
spec fn draining(queue: SlowQueueModel, rank: int, now: u128, seen: int) -> Seq<Seq<QueuedTask>> {
    let tasks = queue.levels[rank];
    let moved = queue.rescued(tasks.take(seen), now);
    if boosted_rank(rank) == rank {
        queue.levels.update(rank, tasks.skip(seen) + moved)
    } else {
        queue.levels.update(rank, tasks.skip(seen)).update(
            boosted_rank(rank),
            queue.levels[boosted_rank(rank)] + moved,
        )
    }
}

/// The queues of the priorities after one of them was relieved.
spec fn level_relieved(queue: SlowQueueModel, rank: int, now: u128) -> Seq<Seq<QueuedTask>> {
    let tasks = queue.levels[rank];
    let moved = queue.rescued(tasks, now);
    let kept = queue.patient(tasks, now);
    if boosted_rank(rank) == rank {
        queue.levels.update(rank, moved + kept)
    } else {
        queue.levels.update(rank, kept).update(
            boosted_rank(rank),
            queue.levels[boosted_rank(rank)] + moved,
        )
    }
}

proof fn lemma_filter_push(s: Seq<QueuedTask>, x: QueuedTask, pred: spec_fn(QueuedTask) -> bool)
    ensures
        s.push(x).filter(pred) == (if pred(x) {
            s.filter(pred).push(x)
        } else {
            s.filter(pred)
        }),
{
    reveal(Seq::filter);
    assert(s.push(x).drop_last() =~= s);
}

/// Which tasks starve depends on the settings and the time alone.
proof fn lemma_same_rescue(a: SlowQueueModel, b: SlowQueueModel, now: u128)
    requires
        a.config == b.config,
    ensures
        forall|tasks: Seq<QueuedTask>|
            #![trigger b.rescued(tasks, now)]
            b.rescued(tasks, now) == a.rescued(tasks, now),
        forall|tasks: Seq<QueuedTask>|
            #![trigger b.patient(tasks, now)]
            b.patient(tasks, now) == a.patient(tasks, now),
{
    assert((|task: QueuedTask| b.starving(task, now)) =~= (|task: QueuedTask| a.starving(task, now)));
    assert((|task: QueuedTask| !b.starving(task, now)) =~= (|task: QueuedTask| !a.starving(
        task,
        now,
    )));
}

pub(crate) proof fn lemma_filter_members(s: Seq<QueuedTask>, pred: spec_fn(QueuedTask) -> bool, rank: int)
    requires
        forall|i: int| 0 <= i < s.len() ==> (#[trigger] s[i]).task.priority.rank() == rank,
    ensures
        forall|i: int|
            0 <= i < s.filter(pred).len() ==> (#[trigger] s.filter(pred)[i]).task.priority.rank()
                == rank,
    decreases s.len(),
{
    reveal(Seq::filter);
    if s.len() > 0 {
        lemma_filter_members(s.drop_last(), pred, rank);
    }
}

proof fn lemma_nobody_is_lost(queue: SlowQueueModel, tasks: Seq<QueuedTask>, now: u128)
    ensures
        queue.rescued(tasks, now).len() + queue.patient(tasks, now).len() == tasks.len(),
    decreases tasks.len(),
{
    reveal(Seq::filter);
    if tasks.len() > 0 {
        lemma_nobody_is_lost(queue, tasks.drop_last(), now);
    }
}

proof fn lemma_relieved_level_wf(queue: SlowQueueModel, rank: int, now: u128)
    requires
        queue.wf(),
        1 <= rank < 4,
    ensures
        (SlowQueueModel { levels: level_relieved(queue, rank, now), ..queue }).wf(),
{
    let tasks = queue.levels[rank];
    lemma_filter_members(tasks, |task: QueuedTask| queue.starving(task, now), rank);
    lemma_filter_members(tasks, |task: QueuedTask| !queue.starving(task, now), rank);
    let moved = queue.rescued(tasks, now);
    let kept = queue.patient(tasks, now);
    assert(forall|i: int|
        0 <= i < moved.len() ==> (#[trigger] moved[i]).task.priority.rank() == boosted_rank(rank));
    let levels = level_relieved(queue, rank, now);
    lemma_nobody_is_lost(queue, tasks, now);
    assert((SlowQueueModel { levels, ..queue }).waiting_len() == queue.waiting_len());
    assert forall|r: int, i: int| 0 <= r < 4 && 0 <= i < levels[r].len() implies (
    #[trigger] levels[r][i]).task.priority.rank() == r by {
        if boosted_rank(rank) == rank && r == rank {
            if i < moved.len() {
                assert(levels[r][i] == moved[i]);
            } else {
                assert(levels[r][i] == kept[i - moved.len()]);
            }
        } else if r == boosted_rank(rank) {
            if i < queue.levels[r].len() {
                assert(levels[r][i] == queue.levels[r][i]);
            } else {
                assert(levels[r][i] == moved[i - queue.levels[r].len()]);
            }
        } else if r == rank {
            assert(levels[r][i] == kept[i]);
        } else {
            assert(levels[r][i] == queue.levels[r][i]);
        }
    }
}

} // verus!
