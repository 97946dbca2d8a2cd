//! What holds of the slow queue over several operations.

use crate::slow_queue::model::{boosted, source_of, ticket_total, Batch, SlowQueueModel};
use crate::slow_queue::relief::lemma_filter_members;
use crate::slow_queue::types::{QueueError, QueuedTask, SlowQueueConfig, SlowTask};
use crate::stopwatch::Stopwatch;
use crate::tier_manager::context::TaskId;
use vstd::multiset::Multiset;
use vstd::prelude::*;
use vstd::seq_lib::lemma_multiset_commutative;

verus! {

/// The tasks in the queue of a priority.
pub open spec fn tasks_of(level: Seq<QueuedTask>) -> Seq<SlowTask> {
    level.map_values(|queued: QueuedTask| queued.task)
}

/// The numbers in the identifiers of tasks.
pub open spec fn ids_of(tasks: Seq<SlowTask>) -> Seq<u64> {
    tasks.map_values(|task: SlowTask| task.task_id.0)
}

/// All tasks that wait.
pub open spec fn waiting(queue: SlowQueueModel) -> Multiset<SlowTask> {
    tasks_of(queue.levels[0]).to_multiset().add(tasks_of(queue.levels[1]).to_multiset()).add(
        tasks_of(queue.levels[2]).to_multiset(),
    ).add(tasks_of(queue.levels[3]).to_multiset())
}

/// The identifiers of all tasks that wait.
pub open spec fn waiting_ids(queue: SlowQueueModel) -> Multiset<u64> {
    ids_of(tasks_of(queue.levels[0])).to_multiset().add(
        ids_of(tasks_of(queue.levels[1])).to_multiset(),
    ).add(ids_of(tasks_of(queue.levels[2])).to_multiset()).add(
        ids_of(tasks_of(queue.levels[3])).to_multiset(),
    )
}

/// How many of these tasks are from `source`.
pub open spec fn from_source(level: Seq<QueuedTask>, source: u64) -> nat {
    level.filter(|queued: QueuedTask| source_of(queued.task.task_id) == source).len()
}

/// How many tasks from `source` wait.
pub open spec fn waiting_from(queue: SlowQueueModel, source: u64) -> nat {
    from_source(queue.levels[0], source) + from_source(queue.levels[1], source) + from_source(
        queue.levels[2],
        source,
    ) + from_source(queue.levels[3], source)
}

/// Whether the account of each source is the number of its tasks that wait.
pub open spec fn sources_counted(queue: SlowQueueModel) -> bool {
    forall|source: u64| #[trigger] queue.source_count(source) == waiting_from(queue, source)
}

/// `after` is what is left of `before` when tasks were taken from the front.
pub open spec fn served_from_front(before: Seq<QueuedTask>, after: Seq<QueuedTask>) -> bool {
    after.len() <= before.len() && after == before.skip(before.len() - after.len())
}

/// What every batch keeps: each task handed out waits no more, and nothing else
/// happened to the tasks; every priority was served from the front; the counter
/// and the accounts of the sources follow; and there are no more tasks than steps.
pub open spec fn batch_is_sound(start: SlowQueueModel, batch: Batch, steps: nat) -> bool {
    &&& batch.queue.wf()
    &&& batch.tasks.len() <= steps
    &&& waiting(start) =~= batch.tasks.to_multiset().add(waiting(batch.queue))
    &&& waiting_ids(start) =~= ids_of(batch.tasks).to_multiset().add(waiting_ids(batch.queue))
    &&& forall|rank: int|
        0 <= rank < 4 ==> served_from_front(
            #[trigger] start.levels[rank],
            batch.queue.levels[rank],
        )
    &&& batch.queue.config == start.config
    &&& batch.queue.clock == start.clock
    &&& batch.queue.metrics.total_queued == start.metrics.total_queued - batch.tasks.len()
    &&& sources_counted(start) ==> sources_counted(batch.queue)
}

proof fn lemma_front_place<A>(items: Seq<A>)
    requires
        items.len() > 0,
    ensures
        items.to_multiset() =~= items.skip(1).to_multiset().insert(items[0]),
{
    items.to_multiset_ensures();
    assert(items =~= seq![items[0]] + items.skip(1));
    lemma_multiset_commutative(seq![items[0]], items.skip(1));
    let one = seq![items[0]];
    one.to_multiset_ensures();
    assert(one =~= Seq::<A>::empty().push(items[0]));
    Seq::<A>::empty().to_multiset_ensures();
    assert(one.to_multiset() =~= Multiset::empty().insert(items[0]));
}

proof fn lemma_push_place<A>(items: Seq<A>, item: A)
    ensures
        items.push(item).to_multiset() =~= items.to_multiset().insert(item),
{
    items.to_multiset_ensures();
}

proof fn lemma_served_further(before: Seq<QueuedTask>, after: Seq<QueuedTask>)
    requires
        served_from_front(before, after),
        after.len() > 0,
    ensures
        served_from_front(before, after.skip(1)),
{
    assert(after.skip(1) =~= before.skip(before.len() - after.len() + 1));
}

proof fn lemma_from_source_add(a: Seq<QueuedTask>, b: Seq<QueuedTask>, source: u64)
    ensures
        from_source(a + b, source) == from_source(a, source) + from_source(b, source),
{
    Seq::filter_distributes_over_add(
        a,
        b,
        |queued: QueuedTask| source_of(queued.task.task_id) == source,
    );
}

proof fn lemma_from_source_one(queued: QueuedTask, source: u64)
    ensures
        from_source(seq![queued], source) == (if source_of(queued.task.task_id) == source {
            1nat
        } else {
            0
        }),
{
    let nothing = Seq::<QueuedTask>::empty();
    let own = |queued: QueuedTask| source_of(queued.task.task_id) == source;
    reveal(Seq::filter);
    assert(nothing.filter(own).len() == 0);
    nothing.lemma_filter_push(queued, own);
    assert(seq![queued] =~= nothing.push(queued));
}

/// A task that leaves is taken off the account of its source.
proof fn lemma_departure_keeps_accounts(queue: SlowQueueModel, rank: int)
    requires
        queue.wf(),
        sources_counted(queue),
        0 <= rank < 4,
        queue.levels[rank].len() > 0,
    ensures
        sources_counted(queue.without_next(rank)),
{
    let level = queue.levels[rank];
    let after = queue.without_next(rank);
    let own = source_of(level[0].task.task_id);
    assert forall|source: u64| #[trigger]
        after.source_count(source) == waiting_from(after, source) by {
        assert(queue.source_count(source) == waiting_from(queue, source));
        assert(queue.source_count(own) == waiting_from(queue, own));
        assert(level =~= seq![level[0]] + level.skip(1));
        lemma_from_source_add(seq![level[0]], level.skip(1), source);
        lemma_from_source_one(level[0], source);
        lemma_from_source_add(seq![level[0]], level.skip(1), own);
        lemma_from_source_one(level[0], own);
    }
}

proof fn lemma_next_is_sound(start: SlowQueueModel, batch: Batch, rank: int, steps: nat)
    requires
        batch_is_sound(start, batch, steps),
        0 <= rank < 4,
        batch.queue.levels[rank].len() > 0,
    ensures
        batch_is_sound(start, batch.with_next(rank), steps + 1),
{
    let level = batch.queue.levels[rank];
    let task = level[0].task;
    let after = batch.with_next(rank);
    let tasks = tasks_of(level);
    assert(tasks.skip(1) =~= tasks_of(level.skip(1)));
    assert(ids_of(tasks).skip(1) =~= ids_of(tasks_of(level.skip(1))));
    assert(ids_of(batch.tasks.push(task)) =~= ids_of(batch.tasks).push(task.task_id.0));
    lemma_front_place(tasks);
    lemma_front_place(ids_of(tasks));
    lemma_push_place(batch.tasks, task);
    lemma_push_place(ids_of(batch.tasks), task.task_id.0);
    lemma_served_further(start.levels[rank], level);
    assert(waiting(start) =~= after.tasks.to_multiset().add(waiting(after.queue)));
    assert(waiting_ids(start) =~= ids_of(after.tasks).to_multiset().add(waiting_ids(after.queue)));
    assert forall|r: int, i: int|
        0 <= r < 4 && 0 <= i < after.queue.levels[r].len() implies (
    #[trigger] after.queue.levels[r][i]).task.priority.rank() == r by {
        if r == rank {
            assert(after.queue.levels[r][i] == level[i + 1]);
        } else {
            assert(after.queue.levels[r][i] == batch.queue.levels[r][i]);
        }
    }
    if sources_counted(start) {
        lemma_departure_keeps_accounts(batch.queue, rank);
    }
}

proof fn lemma_first_come_is_sound(start: SlowQueueModel, batch: Batch, steps: nat)
    requires
        batch_is_sound(start, batch, steps),
    ensures
        batch_is_sound(start, batch.with_first_come(), steps + 1),
{
    match batch.queue.first_come() {
        Some(rank) => lemma_next_is_sound(start, batch, rank, steps),
        None => {},
    }
}

proof fn lemma_begun_is_sound(start: SlowQueueModel)
    requires
        start.wf(),
    ensures
        batch_is_sound(start, Batch::begun(start), 0),
{
    let nothing = Seq::<SlowTask>::empty();
    nothing.to_multiset_ensures();
    assert(nothing.to_multiset() =~= Multiset::empty());
    assert(ids_of(nothing) =~= Seq::<u64>::empty());
    Seq::<u64>::empty().to_multiset_ensures();
    assert(Seq::<u64>::empty().to_multiset() =~= Multiset::empty());
    assert forall|rank: int| 0 <= rank < 4 implies served_from_front(
        #[trigger] start.levels[rank],
        start.levels[rank],
    ) by {
        assert(start.levels[rank].skip(0) =~= start.levels[rank]);
    }
}

/// A batch by credits hands out at most as many tasks as asked for, invents and
/// loses none, and serves every priority from the front. As long as some priority
/// has a task and a credit for it, no priority was served beyond its credits: three
/// tasks of high, two of normal, one of low.
pub proof fn credit_batch_is_sound(start: SlowQueueModel, n: nat)
    requires
        start.wf(),
    ensures
        batch_is_sound(start, Batch::begun(start).credit_steps(n), n),
        ({
            let batch = Batch::begun(start).credit_steps(n);
            &&& batch.credits.len() == 4
            &&& (batch.affordable(1) || batch.affordable(2) || batch.affordable(3)) ==> forall|
                rank: int,
            |
                1 <= rank < 4 ==> (#[trigger] start.levels[rank]).len()
                    - batch.queue.levels[rank].len() + batch.credits[rank] == 4 - rank
        }),
    decreases n,
{
    lemma_begun_is_sound(start);
    if n > 0 {
        credit_batch_is_sound(start, (n - 1) as nat);
        let batch = Batch::begun(start).credit_steps((n - 1) as nat);
        if batch.ended {
        } else if batch.queue.levels[0].len() > 0 {
            lemma_next_is_sound(start, batch, 0, (n - 1) as nat);
        } else if batch.affordable(1) {
            lemma_next_is_sound(start, batch, 1, (n - 1) as nat);
        } else if batch.affordable(2) {
            lemma_next_is_sound(start, batch, 2, (n - 1) as nat);
        } else if batch.affordable(3) {
            lemma_next_is_sound(start, batch, 3, (n - 1) as nat);
        } else {
            lemma_first_come_is_sound(start, batch, (n - 1) as nat);
        }
    }
}

/// A batch by lottery hands out at most as many tasks as asked for, invents and
/// loses none, and serves every priority from the front, whichever tickets win.
pub proof fn lottery_batch_is_sound(start: SlowQueueModel, tickets: Seq<u32>)
    requires
        start.wf(),
    ensures
        batch_is_sound(start, Batch::begun(start).lottery_steps(tickets), tickets.len()),
    decreases tickets.len(),
{
    lemma_begun_is_sound(start);
    if tickets.len() > 0 {
        let shorter = tickets.drop_last();
        lottery_batch_is_sound(start, shorter);
        let batch = Batch::begun(start).lottery_steps(shorter);
        if batch.ended {
        } else if batch.queue.levels[0].len() > 0 {
            lemma_next_is_sound(start, batch, 0, shorter.len());
        } else if ticket_total(batch.queue.config) == 0 {
            lemma_first_come_is_sound(start, batch, shorter.len());
        } else {
            match batch.lottery_winner(tickets.last()) {
                Some(rank) => lemma_next_is_sound(start, batch, rank, shorter.len()),
                None => lemma_first_come_is_sound(start, batch, shorter.len()),
            }
        }
    }
}

/// Whose turn it is does not matter to the tasks that wait.
proof fn lemma_same_tasks(start: SlowQueueModel, batch: Batch, other: Batch, steps: nat)
    requires
        batch_is_sound(start, batch, steps),
        other.tasks == batch.tasks,
        other.queue == (SlowQueueModel {
            turn: other.queue.turn,
            turn_begun: other.queue.turn_begun,
            deficit: other.queue.deficit,
            ..batch.queue
        }),
        other.queue.turn < 3,
    ensures
        batch_is_sound(start, other, steps),
{
    assert(waiting(other.queue) == waiting(batch.queue));
    assert(waiting_ids(other.queue) == waiting_ids(batch.queue));
    if sources_counted(start) {
        assert forall|source: u64| #[trigger]
            other.queue.source_count(source) == waiting_from(other.queue, source) by {
            assert(batch.queue.source_count(source) == waiting_from(batch.queue, source));
        }
    }
}

proof fn lemma_turns_are_sound(start: SlowQueueModel, batch: Batch, turns: nat, steps: nat)
    requires
        batch_is_sound(start, batch, steps),
    ensures
        batch_is_sound(start, batch.turns(turns), steps + 1),
    decreases turns,
{
    if turns == 0 {
        lemma_first_come_is_sound(start, batch, steps);
    } else if batch.served_in_turn() {
        let rank = batch.rank_in_turn();
        lemma_next_is_sound(start, batch, rank, steps);
        lemma_same_tasks(start, batch.with_next(rank), batch.turn_taken(), steps + 1);
    } else {
        lemma_same_tasks(start, batch, batch.turn_taken(), steps);
        lemma_turns_are_sound(start, batch.turn_taken(), (turns - 1) as nat, steps);
    }
}

/// A batch by deficit round robin hands out at most as many tasks as asked for,
/// invents and loses none, and serves every priority from the front.
pub proof fn drr_batch_is_sound(start: SlowQueueModel, n: nat)
    requires
        start.wf(),
    ensures
        batch_is_sound(start, Batch::begun(start).drr_steps(n), n),
    decreases n,
{
    lemma_begun_is_sound(start);
    if n > 0 {
        drr_batch_is_sound(start, (n - 1) as nat);
        let batch = Batch::begun(start).drr_steps((n - 1) as nat);
        if batch.ended {
        } else if batch.queue.levels[0].len() > 0 {
            lemma_next_is_sound(start, batch, 0, (n - 1) as nat);
        } else {
            lemma_turns_are_sound(start, batch, 4, (n - 1) as nat);
        }
    }
}

/// The tasks of a turn: a priority whose turn begins is served as many tasks in a
/// row as its quantum says, if it has that many.
pub proof fn turn_serves_the_quantum(start: SlowQueueModel, n: nat)
    requires
        start.wf(),
        start.levels[0].len() == 0,
        !start.turn_begun,
        n <= start.config.drr_quantum[start.turn as int + 1],
        n <= start.levels[start.turn as int + 1].len(),
    ensures
        ({
            let rank = start.turn as int + 1;
            let batch = Batch::begun(start).drr_steps(n);
            &&& batch.tasks == tasks_of(start.levels[rank]).take(n as int)
            &&& batch.queue.levels == start.levels.update(rank, start.levels[rank].skip(n as int))
            &&& batch.queue.turn == start.turn
            &&& n > 0 ==> batch.queue.turn_begun && batch.queue.deficit
                == start.config.drr_quantum[rank] - n
        }),
{
    lemma_turn_serves(start, n);
}

proof fn lemma_turn_serves(start: SlowQueueModel, n: nat)
    requires
        start.wf(),
        start.levels[0].len() == 0,
        !start.turn_begun,
        n <= start.config.drr_quantum[start.turn as int + 1],
        n <= start.levels[start.turn as int + 1].len(),
    ensures
        ({
            let rank = start.turn as int + 1;
            let batch = Batch::begun(start).drr_steps(n);
            &&& batch.tasks == tasks_of(start.levels[rank]).take(n as int)
            &&& batch.queue.levels == start.levels.update(rank, start.levels[rank].skip(n as int))
            &&& batch.queue.turn == start.turn
            &&& batch.queue.config == start.config
            &&& !batch.ended
            &&& n == 0 ==> batch.queue == start
            &&& n > 0 ==> batch.queue.turn_begun && batch.queue.deficit
                == start.config.drr_quantum[rank] - n
        }),
    decreases n,
{
    let rank = start.turn as int + 1;
    let level = start.levels[rank];
    if n == 0 {
        assert(tasks_of(level).take(0) =~= Seq::<SlowTask>::empty());
        assert(level.skip(0) =~= level);
        assert(start.levels.update(rank, level.skip(0)) =~= start.levels);
    } else {
        lemma_turn_serves(start, (n - 1) as nat);
        let batch = Batch::begun(start).drr_steps((n - 1) as nat);
        assert(batch.queue.levels[rank] == level.skip(n - 1));
        assert(batch.queue.levels[0] == start.levels[0]);
        assert(batch.served_in_turn());
        assert(batch.turns(4) == batch.turn_taken());
        assert(tasks_of(level).take(n as int) =~= tasks_of(level).take(n - 1).push(
            level[n - 1].task,
        ));
        assert(level.skip(n - 1).skip(1) =~= level.skip(n as int));
        assert(batch.turn_taken().queue.levels =~= start.levels.update(
            rank,
            level.skip(n as int),
        ));
    }
}

/// A priority that has used up its quantum, or has no task, passes the turn on to
/// the next one, which begins with its own quantum.
pub proof fn turn_is_passed_on(batch: Batch)
    requires
        batch.queue.wf(),
        batch.entitlement() == 0 || batch.queue.levels[batch.rank_in_turn()].len() == 0,
    ensures
        ({
            let next = batch.turn_taken();
            &&& next.tasks == batch.tasks
            &&& next.queue.levels == batch.queue.levels
            &&& next.rank_in_turn() == (if batch.rank_in_turn() == 3 {
                1
            } else {
                batch.rank_in_turn() + 1
            })
            &&& next.entitlement() == batch.queue.config.drr_quantum[next.rank_in_turn()]
            &&& forall|n: nat|
                n > 0 ==> #[trigger] batch.turns(n) == next.turns((n - 1) as nat)
        }),
{
}

/// Critical tasks come first, in order, whatever the algorithm: while there are
/// at least as many of them as asked for, a batch consists of them alone.
pub proof fn critical_tasks_come_first(start: SlowQueueModel, n: nat, tickets: Seq<u32>)
    requires
        start.wf(),
        n <= start.levels[0].len(),
        tickets.len() == n,
    ensures
        Batch::begun(start).credit_steps(n).tasks == tasks_of(start.levels[0]).take(n as int),
        Batch::begun(start).lottery_steps(tickets).tasks == tasks_of(start.levels[0]).take(
            n as int,
        ),
        Batch::begun(start).drr_steps(n).tasks == tasks_of(start.levels[0]).take(n as int),
{
    lemma_critical_prefix(start, n, tickets);
}

proof fn lemma_critical_prefix(start: SlowQueueModel, n: nat, tickets: Seq<u32>)
    requires
        start.wf(),
        n <= start.levels[0].len(),
        tickets.len() == n,
    ensures
        ({
            let taken = tasks_of(start.levels[0]).take(n as int);
            let left = start.levels[0].skip(n as int);
            let credit = Batch::begun(start).credit_steps(n);
            let lottery = Batch::begun(start).lottery_steps(tickets);
            let drr = Batch::begun(start).drr_steps(n);
            &&& credit.tasks == taken && credit.queue.levels[0] == left && !credit.ended
            &&& lottery.tasks == taken && lottery.queue.levels[0] == left && !lottery.ended
            &&& drr.tasks == taken && drr.queue.levels[0] == left && !drr.ended
            &&& credit.queue.levels.len() == 4 && lottery.queue.levels.len() == 4
                && drr.queue.levels.len() == 4
        }),
    decreases n,
{
    let queued = start.levels[0];
    let tasks = tasks_of(queued);
    if n == 0 {
        assert(tasks.take(0) =~= Seq::<SlowTask>::empty());
        assert(queued.skip(0) =~= queued);
    } else {
        lemma_critical_prefix(start, (n - 1) as nat, tickets.drop_last());
        assert(tasks.take(n as int) =~= tasks.take(n - 1).push(tasks[n - 1]));
        assert(queued.skip(n - 1).skip(1) =~= queued.skip(n as int));
    }
}

/// A batch from a queue with nothing in it is empty.
pub proof fn empty_queue_gives_empty_batch(start: SlowQueueModel, n: nat, tickets: Seq<u32>)
    requires
        start.wf(),
        start.metrics.total_queued == 0,
    ensures
        Batch::begun(start).credit_steps(n).tasks.len() == 0,
        Batch::begun(start).lottery_steps(tickets).tasks.len() == 0,
        Batch::begun(start).drr_steps(n).tasks.len() == 0,
{
    credit_batch_is_sound(start, n);
    lottery_batch_is_sound(start, tickets);
    drr_batch_is_sound(start, n);
}

/// While tasks wait, a batch does not end early: it holds as many tasks as asked
/// for, or all there are.
pub proof fn batches_are_filled(start: SlowQueueModel, n: nat, tickets: Seq<u32>)
    requires
        start.wf(),
        tickets.len() == n,
    ensures
        Batch::begun(start).credit_steps(n).tasks.len() == (if n <= start.metrics.total_queued {
            n
        } else {
            start.metrics.total_queued as nat
        }),
        Batch::begun(start).lottery_steps(tickets).tasks.len() == (if n
            <= start.metrics.total_queued {
            n
        } else {
            start.metrics.total_queued as nat
        }),
        Batch::begun(start).drr_steps(n).tasks.len() == (if n <= start.metrics.total_queued {
            n
        } else {
            start.metrics.total_queued as nat
        }),
{
    lemma_filled(start, n, tickets);
}

proof fn lemma_filled(start: SlowQueueModel, n: nat, tickets: Seq<u32>)
    requires
        start.wf(),
        tickets.len() == n,
    ensures
        ({
            let credit = Batch::begun(start).credit_steps(n);
            let lottery = Batch::begun(start).lottery_steps(tickets);
            let drr = Batch::begun(start).drr_steps(n);
            &&& credit.ended ==> credit.queue.waiting_len() == 0
            &&& !credit.ended ==> credit.tasks.len() == n
            &&& lottery.ended ==> lottery.queue.waiting_len() == 0
            &&& !lottery.ended ==> lottery.tasks.len() == n
            &&& drr.ended ==> drr.queue.waiting_len() == 0
            &&& !drr.ended ==> drr.tasks.len() == n
            &&& batch_is_sound(start, credit, n)
            &&& batch_is_sound(start, lottery, n)
            &&& batch_is_sound(start, drr, n)
        }),
    decreases n,
{
    credit_batch_is_sound(start, n);
    lottery_batch_is_sound(start, tickets);
    drr_batch_is_sound(start, n);
    if n > 0 {
        lemma_filled(start, (n - 1) as nat, tickets.drop_last());
        let drr = Batch::begun(start).drr_steps((n - 1) as nat);
        if !drr.ended && drr.queue.levels[0].len() == 0 {
            lemma_turns_fill(drr, 4);
        }
    }
}

proof fn lemma_turns_fill(batch: Batch, turns: nat)
    requires
        batch.queue.levels[0].len() == 0,
        !batch.ended,
    ensures
        batch.turns(turns).ended ==> batch.turns(turns).queue.waiting_len() == 0,
        !batch.turns(turns).ended ==> batch.turns(turns).tasks.len() == batch.tasks.len() + 1,
    decreases turns,
{
    if turns > 0 && !batch.served_in_turn() {
        lemma_turns_fill(batch.turn_taken(), (turns - 1) as nat);
    }
}

/// Without relief, the order of arrival holds within each priority; then the task
/// that is served for want of an entitled priority arrived before all others that
/// wait, critical ones left aside.
pub proof fn first_come_is_first_served(queue: SlowQueueModel, rank: int, i: int)
    requires
        queue.wf(),
        forall|r: int, j: int|
            1 <= r < 4 && 0 <= j < queue.levels[r].len() ==> queue.levels[r][0].arrival <= (
            #[trigger] queue.levels[r][j]).arrival,
        1 <= rank < 4,
        0 <= i < queue.levels[rank].len(),
    ensures
        queue.first_come() matches Some(first) && 1 <= first < 4 && queue.levels[first].len() > 0
            && queue.levels[first][0].arrival <= queue.levels[rank][i].arrival,
{
    assert(queue.levels[rank][0].arrival <= queue.levels[rank][i].arrival);
}

/// A task that is taken in gets one place; a refused task changes nothing that
/// waits or is counted.
pub proof fn enqueue_adds_or_refuses(queue: SlowQueueModel, task: SlowTask, now: u128)
    requires
        queue.wf(),
    ensures
        ({
            let after = queue.enqueued(task, now);
            &&& queue.refusal(task, now) is Some ==> {
                &&& after.levels == queue.levels
                &&& after.metrics == queue.metrics
                &&& after.sources == queue.sources
            }
            &&& queue.refusal(task, now) is None ==> {
                &&& after.metrics.total_queued == queue.metrics.total_queued + 1
                &&& waiting(after) =~= waiting(queue).insert(task)
                &&& waiting_ids(after) =~= waiting_ids(queue).insert(task.task_id.0)
            }
            &&& after.wf()
            &&& sources_counted(queue) ==> sources_counted(after)
        }),
{
    let rank = task.priority.rank();
    let level = queue.levels[rank];
    let queued = QueuedTask { arrival: queue.next_arrival, task };
    let after = queue.enqueued(task, now);
    if queue.refusal(task, now) is None {
        assert(tasks_of(level.push(queued)) =~= tasks_of(level).push(task));
        assert(ids_of(tasks_of(level).push(task)) =~= ids_of(tasks_of(level)).push(
            task.task_id.0,
        ));
        lemma_push_place(tasks_of(level), task);
        lemma_push_place(ids_of(tasks_of(level)), task.task_id.0);
        assert(waiting(after) =~= waiting(queue).insert(task));
        assert(waiting_ids(after) =~= waiting_ids(queue).insert(task.task_id.0));
        assert forall|r: int, i: int| 0 <= r < 4 && 0 <= i < after.levels[r].len() implies (
        #[trigger] after.levels[r][i]).task.priority.rank() == r by {
            if r == rank && i == level.len() {
            } else {
                assert(after.levels[r][i] == queue.levels[r][i]);
            }
        }
    }
    if sources_counted(queue) {
        assert forall|source: u64| #[trigger]
            after.source_count(source) == waiting_from(after, source) by {
            assert(queue.source_count(source) == waiting_from(queue, source));
            if queue.refusal(task, now) is None {
                assert(level.push(queued) =~= level + seq![queued]);
                lemma_from_source_add(level, seq![queued], source);
                lemma_from_source_one(queued, source);
            }
        }
    }
}

/// A source is throttled exactly while as many of its tasks wait as allowed: what
/// was handed out, critical or not, no longer counts.
pub proof fn only_waiting_tasks_throttle(queue: SlowQueueModel, task: SlowTask, now: u128)
    requires
        queue.wf(),
        sources_counted(queue),
        queue.metrics.total_queued < queue.controller.current_max_size,
        !queue.in_backoff(task.task_id, now),
    ensures
        queue.refusal(task, now) == Some(QueueError::SourceThrottled) <==> waiting_from(
            queue,
            source_of(task.task_id),
        ) >= queue.config.max_tasks_per_source,
{
    assert(queue.source_count(source_of(task.task_id)) == waiting_from(
        queue,
        source_of(task.task_id),
    ));
}

/// The count of queued tasks never rises above the limit in force.
pub proof fn queue_size_stays_bounded(queue: SlowQueueModel, task: SlowTask, now: u128)
    ensures
        queue.enqueued(task, now).metrics.total_queued <= queue.controller.current_max_size
            || queue.enqueued(task, now).metrics.total_queued <= queue.metrics.total_queued,
        queue.metrics.total_queued >= queue.controller.current_max_size ==> queue.refusal(
            task,
            now,
        ) == Some(QueueError::QueueFull),
{
}

/// The high water mark is at least the count of queued tasks after every
/// accepted task, and never falls.
pub proof fn high_water_mark_only_rises(queue: SlowQueueModel, task: SlowTask, now: u128)
    ensures
        queue.enqueued(task, now).metrics.queue_depth_high_water
            >= queue.metrics.queue_depth_high_water,
        queue.refusal(task, now) is None ==> queue.enqueued(
            task,
            now,
        ).metrics.queue_depth_high_water >= queue.enqueued(task, now).metrics.total_queued,
{
}

/// Whether no source has more tasks than allowed.
pub open spec fn sources_within_limit(queue: SlowQueueModel) -> bool {
    forall|source: u64| #[trigger]
        queue.source_count(source) <= queue.config.max_tasks_per_source
}

/// No source ever has more tasks on its account than allowed.
pub proof fn sources_stay_within_limit(
    queue: SlowQueueModel,
    task: SlowTask,
    rank: int,
    now: u128,
)
    requires
        sources_within_limit(queue),
        0 <= rank < 4,
    ensures
        sources_within_limit(queue.enqueued(task, now)),
        queue.levels[rank].len() > 0 ==> sources_within_limit(queue.without_next(rank)),
        sources_within_limit(queue.cleared()),
{
    let source = source_of(task.task_id);
    assert forall|s: u64| #[trigger]
        queue.enqueued(task, now).source_count(s) <= queue.config.max_tasks_per_source by {
        assert(queue.source_count(s) <= queue.config.max_tasks_per_source);
        assert(queue.source_count(source) <= queue.config.max_tasks_per_source);
    }
    if queue.levels[rank].len() > 0 {
        lemma_departure_keeps_limit(queue, queue.levels[rank][0].task);
        assert forall|s: u64| #[trigger]
            queue.without_next(rank).source_count(s) <= queue.config.max_tasks_per_source by {
            assert((SlowQueueModel {
                sources: queue.sources_without(queue.levels[rank][0].task),
                ..queue
            }).source_count(s) <= queue.config.max_tasks_per_source);
        }
    }
}

proof fn lemma_departure_keeps_limit(queue: SlowQueueModel, task: SlowTask)
    requires
        sources_within_limit(queue),
    ensures
        sources_within_limit(
            SlowQueueModel { sources: queue.sources_without(task), ..queue },
        ),
{
    let after = SlowQueueModel { sources: queue.sources_without(task), ..queue };
    assert forall|s: u64| #[trigger]
        after.source_count(s) <= queue.config.max_tasks_per_source by {
        assert(queue.source_count(s) <= queue.config.max_tasks_per_source);
    }
}

/// A task with a backoff is kept out until the backoff is over, and no longer.
pub proof fn backoff_keeps_task_out(
    queue: SlowQueueModel,
    task: SlowTask,
    duration_ns: u128,
    now: u128,
    later: u128,
)
    requires
        now <= later,
        now + duration_ns <= u128::MAX,
        queue.metrics.total_queued < queue.controller.current_max_size,
    ensures
        ({
            let held = SlowQueueModel {
                backoffs: queue.backoffs.insert(
                    task.task_id.0,
                    now.saturating_add(duration_ns),
                ),
                ..queue
            };
            held.refusal(task, later) == Some(QueueError::BackoffActive) <==> later < now
                + duration_ns
        }),
{
}

/// After clearing, nothing is queued, and no source or backoff is remembered.
pub proof fn cleared_queue_is_empty(queue: SlowQueueModel, task_id: TaskId, now: u128)
    requires
        queue.wf(),
    ensures
        queue.cleared().wf(),
        queue.cleared().metrics.total_queued == 0,
        forall|rank: int| 0 <= rank < 4 ==> (#[trigger] queue.cleared().levels[rank]).len() == 0,
        queue.cleared().source_count(source_of(task_id)) == 0,
        !queue.cleared().in_backoff(task_id, now),
        queue.cleared().cleared() == queue.cleared(),
{
    assert(queue.cleared().cleared() =~~= queue.cleared());
}

/// Relief from starvation loses no task: the same ones wait as before, some of them
/// at a more urgent priority. Critical tasks are left alone, high tasks only gain,
/// low ones only lose.
pub proof fn relief_keeps_every_task(queue: SlowQueueModel, now: u128)
    requires
        queue.wf(),
    ensures
        ({
            let after = queue.relieved(now);
            &&& after.wf()
            &&& after.levels[0] == queue.levels[0]
            &&& after.metrics.total_queued == queue.metrics.total_queued
            &&& waiting_ids(after) =~= waiting_ids(queue)
            &&& after.levels[1].len() >= queue.levels[1].len()
            &&& after.levels[3].len() <= queue.levels[3].len()
            &&& sources_counted(queue) ==> sources_counted(after)
        }),
{
    let after = queue.relieved(now);
    let (high, normal, low) = (queue.levels[1], queue.levels[2], queue.levels[3]);
    lemma_partition(queue, high, now);
    lemma_partition(queue, normal, now);
    lemma_partition(queue, low, now);
    let saved_high = queue.rescued(high, now);
    let saved_normal = queue.rescued(normal, now);
    let saved_low = queue.rescued(low, now);
    let kept_high = queue.patient(high, now);
    let kept_normal = queue.patient(normal, now);
    lemma_ids_add(saved_high + kept_high, saved_normal);
    lemma_ids_add(saved_high, kept_high);
    lemma_ids_add(kept_normal, saved_low);
    assert(waiting_ids(after) =~= waiting_ids(queue));
    lemma_relieved_ranks(queue, now);
    if sources_counted(queue) {
        assert forall|source: u64| #[trigger]
            after.source_count(source) == waiting_from(after, source) by {
            assert(queue.source_count(source) == waiting_from(queue, source));
            lemma_sources_partition(queue, high, source, now);
            lemma_sources_partition(queue, normal, source, now);
            lemma_sources_partition(queue, low, source, now);
            lemma_from_source_add(saved_high + kept_high, saved_normal, source);
            lemma_from_source_add(saved_high, kept_high, source);
            lemma_from_source_add(kept_normal, saved_low, source);
        }
    }
}

proof fn lemma_ids_add(a: Seq<QueuedTask>, b: Seq<QueuedTask>)
    ensures
        ids_of(tasks_of(a + b)).to_multiset() =~= ids_of(tasks_of(a)).to_multiset().add(
            ids_of(tasks_of(b)).to_multiset(),
        ),
{
    assert(ids_of(tasks_of(a + b)) =~= ids_of(tasks_of(a)) + ids_of(tasks_of(b)));
    lemma_multiset_commutative(ids_of(tasks_of(a)), ids_of(tasks_of(b)));
}

proof fn lemma_partition(queue: SlowQueueModel, tasks: Seq<QueuedTask>, now: u128)
    ensures
        queue.rescued(tasks, now).len() + queue.patient(tasks, now).len() == tasks.len(),
        ids_of(tasks_of(tasks)).to_multiset() =~= ids_of(
            tasks_of(queue.rescued(tasks, now)),
        ).to_multiset().add(ids_of(tasks_of(queue.patient(tasks, now))).to_multiset()),
    decreases tasks.len(),
{
    reveal(Seq::filter);
    if tasks.len() > 0 {
        let earlier = tasks.drop_last();
        let last = tasks.last();
        let id = last.task.task_id.0;
        lemma_partition(queue, earlier, now);
        assert(ids_of(tasks_of(tasks)) =~= ids_of(tasks_of(earlier)).push(id));
        lemma_push_place(ids_of(tasks_of(earlier)), id);
        let saved = queue.rescued(earlier, now);
        let kept = queue.patient(earlier, now);
        if queue.starving(last, now) {
            assert(queue.rescued(tasks, now) =~= saved.push(boosted(last)));
            assert(queue.patient(tasks, now) =~= kept);
            assert(ids_of(tasks_of(saved.push(boosted(last)))) =~= ids_of(tasks_of(saved)).push(
                id,
            ));
            lemma_push_place(ids_of(tasks_of(saved)), id);
        } else {
            assert(queue.rescued(tasks, now) =~= saved);
            assert(queue.patient(tasks, now) =~= kept.push(last));
            assert(ids_of(tasks_of(kept.push(last))) =~= ids_of(tasks_of(kept)).push(id));
            lemma_push_place(ids_of(tasks_of(kept)), id);
        }
    } else {
        assert(queue.rescued(tasks, now) =~= Seq::<QueuedTask>::empty());
        assert(queue.patient(tasks, now) =~= Seq::<QueuedTask>::empty());
        let nothing = Seq::<u64>::empty();
        nothing.to_multiset_ensures();
        assert(ids_of(tasks_of(Seq::<QueuedTask>::empty())) =~= nothing);
        assert(ids_of(tasks_of(tasks)) =~= nothing);
    }
}

proof fn lemma_sources_partition(
    queue: SlowQueueModel,
    tasks: Seq<QueuedTask>,
    source: u64,
    now: u128,
)
    ensures
        from_source(tasks, source) == from_source(queue.rescued(tasks, now), source) + from_source(
            queue.patient(tasks, now),
            source,
        ),
    decreases tasks.len(),
{
    reveal(Seq::filter);
    if tasks.len() > 0 {
        let earlier = tasks.drop_last();
        let last = tasks.last();
        lemma_sources_partition(queue, earlier, source, now);
        let saved = queue.rescued(earlier, now);
        let kept = queue.patient(earlier, now);
        assert(tasks =~= earlier + seq![last]);
        lemma_from_source_add(earlier, seq![last], source);
        lemma_from_source_one(last, source);
        if queue.starving(last, now) {
            assert(queue.rescued(tasks, now) =~= saved + seq![boosted(last)]);
            assert(queue.patient(tasks, now) =~= kept);
            lemma_from_source_add(saved, seq![boosted(last)], source);
            lemma_from_source_one(boosted(last), source);
        } else {
            assert(queue.rescued(tasks, now) =~= saved);
            assert(queue.patient(tasks, now) =~= kept + seq![last]);
            lemma_from_source_add(kept, seq![last], source);
        }
    } else {
        assert(queue.rescued(tasks, now) =~= Seq::<QueuedTask>::empty());
    }
}

proof fn lemma_relieved_ranks(queue: SlowQueueModel, now: u128)
    requires
        queue.wf(),
    ensures
        forall|r: int, i: int|
            0 <= r < 4 && 0 <= i < queue.relieved(now).levels[r].len() ==> (
            #[trigger] queue.relieved(now).levels[r][i]).task.priority.rank() == r,
{
    let after = queue.relieved(now);
    let starving = |queued: QueuedTask| queue.starving(queued, now);
    let waits = |queued: QueuedTask| !queue.starving(queued, now);
    lemma_filter_members(queue.levels[1], starving, 1);
    lemma_filter_members(queue.levels[1], waits, 1);
    lemma_filter_members(queue.levels[2], starving, 2);
    lemma_filter_members(queue.levels[2], waits, 2);
    lemma_filter_members(queue.levels[3], starving, 3);
    lemma_filter_members(queue.levels[3], waits, 3);
    let high = queue.rescued(queue.levels[1], now);
    let normal = queue.rescued(queue.levels[2], now);
    let low = queue.rescued(queue.levels[3], now);
    let kept_high = queue.patient(queue.levels[1], now);
    let kept_normal = queue.patient(queue.levels[2], now);
    assert forall|r: int, i: int| 0 <= r < 4 && 0 <= i < after.levels[r].len() implies (
    #[trigger] after.levels[r][i]).task.priority.rank() == r by {
        if r == 0 {
            assert(after.levels[0][i] == queue.levels[0][i]);
        } else if r == 1 {
            if i < high.len() {
                assert(after.levels[1][i] == high[i]);
                assert(queue.levels[1].filter(starving)[i].task.priority.rank() == 1);
            } else if i < high.len() + kept_high.len() {
                assert(after.levels[1][i] == kept_high[i - high.len()]);
            } else {
                let j = i - high.len() - kept_high.len();
                assert(after.levels[1][i] == normal[j]);
                assert(queue.levels[2].filter(starving)[j].task.priority.rank() == 2);
            }
        } else if r == 2 {
            if i < kept_normal.len() {
                assert(after.levels[2][i] == kept_normal[i]);
            } else {
                let j = i - kept_normal.len();
                assert(after.levels[2][i] == low[j]);
                assert(queue.levels[3].filter(starving)[j].task.priority.rank() == 3);
            }
        }
    }
}

/// Without starving tasks, relief changes nothing.
pub proof fn relief_without_starvation_changes_nothing(queue: SlowQueueModel, now: u128)
    requires
        queue.wf(),
        forall|rank: int, i: int|
            1 <= rank < 4 && 0 <= i < queue.levels[rank].len() ==> !queue.starving(
                #[trigger] queue.levels[rank][i],
                now,
            ),
    ensures
        queue.relieved(now) == queue,
{
    assert forall|rank: int| 1 <= rank < 4 implies queue.patient(
        #[trigger] queue.levels[rank],
        now,
    ) == queue.levels[rank] && queue.rescued(queue.levels[rank], now).len() == 0 by {
        lemma_all_patient(queue, queue.levels[rank], now);
    }
    assert(queue.relieved(now).levels[1] =~= queue.levels[1]);
    assert(queue.relieved(now).levels[2] =~= queue.levels[2]);
    assert(queue.relieved(now).levels[3] =~= queue.levels[3]);
    assert(queue.relieved(now).levels =~= queue.levels);
    assert(queue.relieved(now) =~= queue);
}

proof fn lemma_all_patient(queue: SlowQueueModel, tasks: Seq<QueuedTask>, now: u128)
    requires
        forall|i: int| 0 <= i < tasks.len() ==> !queue.starving(#[trigger] tasks[i], now),
    ensures
        queue.patient(tasks, now) == tasks,
        queue.rescued(tasks, now).len() == 0,
    decreases tasks.len(),
{
    reveal(Seq::filter);
    if tasks.len() > 0 {
        lemma_all_patient(queue, tasks.drop_last(), now);
        assert(tasks.drop_last().push(tasks.last()) =~= tasks);
    }
}

/// What is done to a queue.
pub enum QueueStep {
    /// A task is put in.
    Enqueue { task: SlowTask, now: u128 },
    /// A batch by credits is taken out.
    Credits { n: nat },
    /// A batch by lottery is taken out.
    Lottery { tickets: Seq<u32> },
    /// A batch by deficit round robin is taken out.
    RoundRobin { n: nat },
    /// Starving tasks are boosted.
    Relieve { now: u128 },
    /// A task is kept out until a time.
    Backoff { task_id: TaskId, until: u128 },
}

/// A queue and its past: the identifiers of the tasks that were taken in and of
/// those that were handed out, in order.
pub struct History {
    pub queue: SlowQueueModel,
    pub taken_in: Seq<u64>,
    pub handed_out: Seq<u64>,
}

impl History {
    /// The history of a new queue.
    pub open spec fn fresh(config: SlowQueueConfig, now: u128, clock: Stopwatch) -> History {
        History {
            queue: SlowQueueModel::fresh(config, now, clock),
            taken_in: Seq::empty(),
            handed_out: Seq::empty(),
        }
    }

    /// The history with a batch handed out.
    pub open spec fn with_batch(self, batch: Batch) -> History {
        History {
            queue: batch.closed(),
            handed_out: self.handed_out + ids_of(batch.tasks),
            ..self
        }
    }

    /// The history with one more step.
    pub open spec fn with_step(self, step: QueueStep) -> History {
        match step {
            QueueStep::Enqueue { task, now } => History {
                queue: self.queue.enqueued(task, now),
                taken_in: if self.queue.refusal(task, now) is None {
                    self.taken_in.push(task.task_id.0)
                } else {
                    self.taken_in
                },
                ..self
            },
            QueueStep::Credits { n } => self.with_batch(Batch::begun(self.queue).credit_steps(n)),
            QueueStep::Lottery { tickets } => self.with_batch(
                Batch::begun(self.queue).lottery_steps(tickets),
            ),
            QueueStep::RoundRobin { n } => self.with_batch(Batch::begun(self.queue).drr_steps(n)),
            QueueStep::Relieve { now } => History { queue: self.queue.relieved(now), ..self },
            QueueStep::Backoff { task_id, until } => History {
                queue: SlowQueueModel {
                    backoffs: self.queue.backoffs.insert(task_id.0, until),
                    ..self.queue
                },
                ..self
            },
        }
    }

    /// The history after all these steps.
    pub open spec fn after(self, steps: Seq<QueueStep>) -> History
        decreases steps.len(),
    {
        if steps.len() == 0 {
            self
        } else {
            self.after(steps.drop_last()).with_step(steps.last())
        }
    }

    /// What was taken in is what was handed out and what waits, and the counter and
    /// the accounts of the sources agree with it.
    pub open spec fn adds_up(self) -> bool {
        &&& self.queue.wf()
        &&& self.taken_in.to_multiset() =~= self.handed_out.to_multiset().add(
            waiting_ids(self.queue),
        )
        &&& self.queue.metrics.total_queued == self.taken_in.len() - self.handed_out.len()
        &&& sources_counted(self.queue)
    }
}

proof fn lemma_batch_adds_up(history: History, batch: Batch, steps: nat)
    requires
        history.adds_up(),
        batch_is_sound(history.queue, batch, steps),
    ensures
        history.with_batch(batch).adds_up(),
{
    let after = history.with_batch(batch);
    lemma_multiset_commutative(history.handed_out, ids_of(batch.tasks));
    assert(waiting_ids(after.queue) == waiting_ids(batch.queue));
    assert(after.taken_in.to_multiset() =~= after.handed_out.to_multiset().add(
        waiting_ids(after.queue),
    ));
    assert forall|source: u64| #[trigger]
        after.queue.source_count(source) == waiting_from(after.queue, source) by {
        assert(batch.queue.source_count(source) == waiting_from(batch.queue, source));
    }
}

proof fn lemma_step_adds_up(history: History, step: QueueStep)
    requires
        history.adds_up(),
    ensures
        history.with_step(step).adds_up(),
{
    let queue = history.queue;
    match step {
        QueueStep::Enqueue { task, now } => {
            enqueue_adds_or_refuses(queue, task, now);
            lemma_push_place(history.taken_in, task.task_id.0);
            let after = history.with_step(step);
            assert(waiting_ids(after.queue) =~= (if queue.refusal(task, now) is None {
                waiting_ids(queue).insert(task.task_id.0)
            } else {
                waiting_ids(queue)
            }));
            assert(after.taken_in.to_multiset() =~= after.handed_out.to_multiset().add(
                waiting_ids(after.queue),
            ));
        },
        QueueStep::Credits { n } => {
            credit_batch_is_sound(queue, n);
            lemma_batch_adds_up(history, Batch::begun(queue).credit_steps(n), n);
        },
        QueueStep::Lottery { tickets } => {
            lottery_batch_is_sound(queue, tickets);
            lemma_batch_adds_up(
                history,
                Batch::begun(queue).lottery_steps(tickets),
                tickets.len(),
            );
        },
        QueueStep::RoundRobin { n } => {
            drr_batch_is_sound(queue, n);
            lemma_batch_adds_up(history, Batch::begun(queue).drr_steps(n), n);
        },
        QueueStep::Relieve { now } => {
            relief_keeps_every_task(queue, now);
        },
        QueueStep::Backoff { task_id, until } => {
            let after = history.with_step(step).queue;
            assert(waiting_ids(after) == waiting_ids(queue));
            assert forall|source: u64| #[trigger]
                after.source_count(source) == waiting_from(after, source) by {
                assert(queue.source_count(source) == waiting_from(queue, source));
            }
        },
    }
}

/// Whatever is done to a queue, what was taken in is what was handed out and what
/// still waits, and the size is the number taken in less the number handed out.
pub proof fn every_task_is_accounted_for(
    config: SlowQueueConfig,
    now: u128,
    clock: Stopwatch,
    steps: Seq<QueueStep>,
)
    ensures
        History::fresh(config, now, clock).after(steps).adds_up(),
    decreases steps.len(),
{
    let start = History::fresh(config, now, clock);
    if steps.len() == 0 {
        let nothing = Seq::<u64>::empty();
        nothing.to_multiset_ensures();
        let level = Seq::<QueuedTask>::empty();
        assert(ids_of(tasks_of(level)) =~= nothing);
        assert(waiting_ids(start.queue) =~= Multiset::empty());
        assert(start.taken_in.to_multiset() =~= start.handed_out.to_multiset().add(
            waiting_ids(start.queue),
        ));
        reveal(Seq::filter);
        assert(sources_counted(start.queue));
    } else {
        every_task_is_accounted_for(config, now, clock, steps.drop_last());
        lemma_step_adds_up(start.after(steps.drop_last()), steps.last());
    }
}

/// Of tasks that were each taken in once, none is handed out twice, over any number
/// of batches by any algorithm, and none is handed out that was not taken in.
pub proof fn no_task_is_handed_out_twice(
    config: SlowQueueConfig,
    now: u128,
    clock: Stopwatch,
    steps: Seq<QueueStep>,
)
    requires
        History::fresh(config, now, clock).after(steps).taken_in.no_duplicates(),
    ensures
        ({
            let history = History::fresh(config, now, clock).after(steps);
            &&& history.handed_out.no_duplicates()
            &&& forall|id: u64|
                history.handed_out.contains(id) ==> #[trigger] history.taken_in.contains(id)
            &&& forall|id: u64|
                history.handed_out.contains(id) ==> !(#[trigger] waiting_ids(
                    history.queue,
                ).contains(id))
        }),
{
    let history = History::fresh(config, now, clock).after(steps);
    every_task_is_accounted_for(config, now, clock, steps);
    let taken = history.taken_in.to_multiset();
    let handed = history.handed_out.to_multiset();
    let left = waiting_ids(history.queue);
    history.taken_in.lemma_multiset_has_no_duplicates();
    history.taken_in.to_multiset_ensures();
    history.handed_out.to_multiset_ensures();
    assert forall|id: u64| handed.contains(id) implies handed.count(id) == 1 && left.count(id)
        == 0 by {
        assert(taken.count(id) == handed.count(id) + left.count(id));
        assert(taken.contains(id));
    }
    history.handed_out.lemma_multiset_has_no_duplicates_conv();
    assert forall|id: u64| history.handed_out.contains(id) implies
        #[trigger] history.taken_in.contains(id) by {
        assert(handed.contains(id));
        assert(taken.count(id) == handed.count(id) + left.count(id));
        assert(taken.contains(id));
    }
    assert forall|id: u64| history.handed_out.contains(id) implies !(
    #[trigger] left.contains(id)) by {
        assert(handed.contains(id));
    }
}

/// A batch adds its size to the number of tasks processed, as long as that number
/// does not wrap.
pub proof fn batch_size_is_counted(queue: SlowQueueModel, size: usize)
    requires
        queue.metrics.total_processed + size <= u64::MAX,
    ensures
        queue.batch_closed(size).metrics.total_processed == queue.metrics.total_processed + size,
        queue.batch_closed(size).metrics.total_queued == queue.metrics.total_queued,
{
}

} // verus!
