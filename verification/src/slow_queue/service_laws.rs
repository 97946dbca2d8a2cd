//! Which task the slow queue hands out next, takes in, refuses or boosts, in terms of
//! what waits and of the settings.

use crate::slow_queue::batches::{batch_handed_out, tickets_drawn};
use crate::slow_queue::laws::tasks_of;
use crate::slow_queue::model::{source_of, ticket_total, Batch, SlowQueueModel};
use crate::slow_queue::priority::TaskPriority;
use crate::slow_queue::types::{QueueError, QueuedTask, SlowQueueConfig, SlowTask};
use crate::stopwatch::Stopwatch;
use vstd::prelude::*;

verus! {

/// How many tasks are on the account of the source whose number is `key`.
pub open spec fn account(queue: SlowQueueModel, key: u64) -> int {
    if queue.sources.contains_key(key) {
        queue.sources[key] as int
    } else {
        0
    }
}

/// Whether what does not depend on the tasks is the same.
pub open spec fn same_surroundings(a: SlowQueueModel, b: SlowQueueModel) -> bool {
    &&& a.next_arrival == b.next_arrival
    &&& a.config == b.config
    &&& a.backoffs == b.backoffs
    &&& a.controller == b.controller
    &&& a.clock == b.clock
}

/// Whether it is the same priority's turn, with as many tasks left to serve.
pub open spec fn same_turn(a: SlowQueueModel, b: SlowQueueModel) -> bool {
    a.turn == b.turn && a.turn_begun == b.turn_begun && a.deficit == b.deficit
}

/// `after` is `before` with one more task: the one at the front of the queue of this
/// priority. It is gone from there, from the count, and from the account of its source,
/// which is the upper half of its identifier; nothing else waits differently.
pub open spec fn hands_out(before: Batch, after: Batch, rank: int) -> bool {
    let level = before.queue.levels[rank];
    let task = level[0].task;
    let key = task.task_id.0 / 0x1_0000_0000;
    let (old_metrics, new_metrics) = (before.queue.metrics, after.queue.metrics);
    &&& level.len() > 0
    &&& after.tasks == before.tasks.push(task)
    &&& after.queue.levels == before.queue.levels.update(rank, level.skip(1))
    &&& after.ended == before.ended
    &&& same_surroundings(before.queue, after.queue)
    &&& new_metrics.total_queued == old_metrics.total_queued - 1
    &&& new_metrics.total_processed == old_metrics.total_processed
    &&& new_metrics.queue_depth_high_water == old_metrics.queue_depth_high_water
    &&& rank != 0 ==> new_metrics.critical_processed == old_metrics.critical_processed
    &&& rank == 0 && old_metrics.critical_processed < u64::MAX ==> new_metrics.critical_processed
        == old_metrics.critical_processed + 1
    &&& account(after.queue, key) == (if account(before.queue, key) > 0 {
        account(before.queue, key) - 1
    } else {
        0
    })
    &&& forall|other: u64|
        other != key ==> #[trigger] account(after.queue, other) == account(before.queue, other)
}

/// Whether the task at the front of this priority came before those at the front of the
/// other priorities but critical; of equals the more urgent one counts.
pub open spec fn comes_first(queue: SlowQueueModel, rank: int) -> bool {
    &&& 1 <= rank < 4
    &&& queue.levels[rank].len() > 0
    &&& forall|other: int|
        1 <= other < 4 && other != rank && (#[trigger] queue.levels[other]).len() > 0 ==> {
            ||| queue.levels[rank][0].arrival < queue.levels[other][0].arrival
            ||| queue.levels[rank][0].arrival == queue.levels[other][0].arrival && rank < other
        }
}

/// `after` is `before` with the task that came first, or ended because none waits.
pub open spec fn hands_out_first_come(before: Batch, after: Batch) -> bool {
    let levels = before.queue.levels;
    &&& levels[1].len() == 0 && levels[2].len() == 0 && levels[3].len() == 0 ==> after.ended
        && after.tasks == before.tasks && after.queue.levels == levels && same_surroundings(
        before.queue,
        after.queue,
    ) && after.queue.metrics == before.queue.metrics && after.queue.sources
        == before.queue.sources
    &&& levels[1].len() > 0 || levels[2].len() > 0 || levels[3].len() > 0 ==> exists|rank: int|
        #[trigger] comes_first(before.queue, rank) && hands_out(before, after, rank)
}

proof fn lemma_hands_out(batch: Batch, rank: int)
    requires
        batch.queue.wf(),
        0 <= rank < 4,
        batch.queue.levels[rank].len() > 0,
    ensures
        hands_out(batch, batch.with_next(rank), rank),
        same_turn(batch.queue, batch.with_next(rank).queue),
{
    let key = batch.queue.levels[rank][0].task.task_id.0 / 0x1_0000_0000;
    let after = batch.with_next(rank);
    assert forall|other: u64| other != key implies #[trigger] account(after.queue, other)
        == account(batch.queue, other) by {}
}

proof fn lemma_first_come(batch: Batch)
    requires
        batch.queue.wf(),
        !batch.ended,
    ensures
        hands_out_first_come(batch, batch.with_first_come()),
        same_turn(batch.queue, batch.with_first_come().queue),
{
    match batch.queue.first_come() {
        Some(rank) => {
            lemma_hands_out(batch, rank);
            assert(comes_first(batch.queue, rank));
        },
        None => {},
    }
}

/// Whether a ticket falls to the high priority: it is one of the first, as many as the
/// high priority has.
pub open spec fn falls_to_high(queue: SlowQueueModel, ticket: u32) -> bool {
    ticket < queue.config.lottery_tickets[1]
}

/// Whether a ticket falls to the normal priority: it is one of those behind the tickets
/// of the high priority, as many as the normal priority has.
pub open spec fn falls_to_normal(queue: SlowQueueModel, ticket: u32) -> bool {
    let tickets = queue.config.lottery_tickets;
    tickets[1] <= ticket < tickets[1] + tickets[2]
}

/// Whether a ticket falls to the low priority: it is one of those behind the tickets of
/// the high and the normal priority, as many as the low priority has.
pub open spec fn falls_to_low(queue: SlowQueueModel, ticket: u32) -> bool {
    let tickets = queue.config.lottery_tickets;
    tickets[1] + tickets[2] <= ticket < tickets[1] + tickets[2] + tickets[3]
}

/// A critical task is handed out before all others, whatever the ticket. Without one,
/// each priority wins with as many tickets as it has. A priority that wins but has no
/// task passes the win down to the next less urgent one that has. A ticket that no
/// priority wins with goes to the task that came first.
pub proof fn tickets_win_by_their_share(batch: Batch, ticket: u32)
    requires
        batch.queue.wf(),
        !batch.ended,
    ensures
        ({
            let queue = batch.queue;
            let after = batch.lottery_step(ticket);
            let (high, normal, low) = (
                queue.levels[1].len() > 0,
                queue.levels[2].len() > 0,
                queue.levels[3].len() > 0,
            );
            &&& same_turn(queue, after.queue)
            &&& queue.levels[0].len() > 0 ==> hands_out(batch, after, 0)
            &&& queue.levels[0].len() == 0 ==> {
                &&& falls_to_high(queue, ticket) && high ==> hands_out(batch, after, 1)
                &&& falls_to_normal(queue, ticket) && normal ==> hands_out(batch, after, 2)
                &&& falls_to_low(queue, ticket) && low ==> hands_out(batch, after, 3)
                &&& falls_to_high(queue, ticket) && !high && normal ==> hands_out(batch, after, 2)
                &&& falls_to_high(queue, ticket) && !high && !normal ==> if low {
                    hands_out(batch, after, 3)
                } else {
                    hands_out_first_come(batch, after)
                }
                &&& falls_to_normal(queue, ticket) && !normal && low ==> hands_out(batch, after, 3)
                &&& falls_to_normal(queue, ticket) && !normal && !low ==> hands_out_first_come(
                    batch,
                    after,
                )
                &&& falls_to_low(queue, ticket) && !low ==> hands_out_first_come(batch, after)
                &&& !falls_to_high(queue, ticket) && !falls_to_normal(queue, ticket)
                    && !falls_to_low(queue, ticket) ==> hands_out_first_come(batch, after)
            }
        }),
{
    let queue = batch.queue;
    lemma_first_come(batch);
    if queue.levels[0].len() > 0 {
        lemma_hands_out(batch, 0);
    }
    if queue.levels[1].len() > 0 {
        lemma_hands_out(batch, 1);
    }
    if queue.levels[2].len() > 0 {
        lemma_hands_out(batch, 2);
    }
    if queue.levels[3].len() > 0 {
        lemma_hands_out(batch, 3);
    }
}

/// A ticket that a step depends on is one of all tickets, those of the critical priority
/// included. A step depends on it while no critical task waits and there are tickets.
pub proof fn drawn_tickets_exist(start: Batch, tickets: Seq<u32>, i: int)
    requires
        tickets_drawn(start, tickets),
        0 <= i < tickets.len(),
    ensures
        ({
            let batch = start.lottery_steps(tickets.take(i));
            let own = batch.queue.config.lottery_tickets;
            let shares = start.queue.config.lottery_tickets;
            !batch.ended && batch.queue.levels[0].len() == 0 && own[0] + own[1] + own[2] + own[3]
                > 0 ==> tickets[i] < shares[0] + shares[1] + shares[2] + shares[3]
        }),
{
    reveal(tickets_drawn);
    let batch = start.lottery_steps(tickets.take(i));
    if batch.draws() {
        assert(tickets[i] < ticket_total(start.queue.config));
    }
}

/// A critical task is handed out before all others. Without one, the most urgent
/// priority that has a task and a credit is served, for one credit. Where none has both,
/// the task that came first is handed out, for no credit.
pub proof fn credits_pay_for_the_most_urgent(batch: Batch)
    requires
        batch.queue.wf(),
        !batch.ended,
        batch.credits.len() == 4,
    ensures
        ({
            let queue = batch.queue;
            let after = batch.credit_step();
            let credits = batch.credits;
            let high = queue.levels[1].len() > 0 && credits[1] > 0;
            let normal = queue.levels[2].len() > 0 && credits[2] > 0;
            let low = queue.levels[3].len() > 0 && credits[3] > 0;
            &&& same_turn(queue, after.queue)
            &&& after.credits.len() == 4
            &&& if queue.levels[0].len() > 0 {
                hands_out(batch, after, 0) && after.credits == credits
            } else if high {
                &&& hands_out(batch, after, 1)
                &&& after.credits[1] == credits[1] - 1
                &&& after.credits[2] == credits[2] && after.credits[3] == credits[3]
            } else if normal {
                &&& hands_out(batch, after, 2)
                &&& after.credits[2] == credits[2] - 1
                &&& after.credits[1] == credits[1] && after.credits[3] == credits[3]
            } else if low {
                &&& hands_out(batch, after, 3)
                &&& after.credits[3] == credits[3] - 1
                &&& after.credits[1] == credits[1] && after.credits[2] == credits[2]
            } else {
                hands_out_first_come(batch, after) && after.credits == credits
            }
        }),
{
    let queue = batch.queue;
    lemma_first_come(batch);
    if queue.levels[0].len() > 0 {
        lemma_hands_out(batch, 0);
    }
    if queue.levels[1].len() > 0 {
        lemma_hands_out(batch, 1);
    }
    if queue.levels[2].len() > 0 {
        lemma_hands_out(batch, 2);
    }
    if queue.levels[3].len() > 0 {
        lemma_hands_out(batch, 3);
    }
}

/// A batch by credits without critical tasks begins with up to three tasks of high
/// priority, then up to two of normal and one of low, each in order.
pub proof fn credits_are_three_two_and_one(start: SlowQueueModel, n: nat)
    requires
        start.wf(),
        start.levels[0].len() == 0,
        n <= at_most(start.levels[1].len(), 3) + at_most(start.levels[2].len(), 2) + at_most(
            start.levels[3].len(),
            1,
        ),
    ensures
        Batch::begun(start).credit_steps(n).tasks == shares(start, 3, 2, 1).take(n as int),
{
    lemma_credit_order(start, n);
}

/// `n`, but at most `limit`.
pub open spec fn at_most(n: nat, limit: nat) -> nat {
    if n < limit {
        n
    } else {
        limit
    }
}

/// The first tasks of the high, normal and low priority, up to so many of each.
pub open spec fn shares(queue: SlowQueueModel, high: nat, normal: nat, low: nat) -> Seq<SlowTask> {
    tasks_of(queue.levels[1]).take(at_most(queue.levels[1].len(), high) as int) + tasks_of(
        queue.levels[2],
    ).take(at_most(queue.levels[2].len(), normal) as int) + tasks_of(queue.levels[3]).take(
        at_most(queue.levels[3].len(), low) as int,
    )
}

/// How many of the first `n` tasks of such shares are of high, normal and low priority.
spec fn split(queue: SlowQueueModel, high: nat, normal: nat, n: nat) -> (nat, nat, nat) {
    let a = at_most(queue.levels[1].len(), high);
    let b = at_most(queue.levels[2].len(), normal);
    if n <= a {
        (n, 0, 0)
    } else if n <= a + b {
        (a, (n - a) as nat, 0)
    } else {
        (a, b, (n - a - b) as nat)
    }
}

proof fn lemma_next_share(queue: SlowQueueModel, high: nat, normal: nat, low: nat, n: nat)
    requires
        n < at_most(queue.levels[1].len(), high) + at_most(queue.levels[2].len(), normal)
            + at_most(queue.levels[3].len(), low),
    ensures
        ({
            let all = shares(queue, high, normal, low);
            let (i, j, k) = split(queue, high, normal, n);
            let next = if i < at_most(queue.levels[1].len(), high) {
                queue.levels[1][i as int].task
            } else if j < at_most(queue.levels[2].len(), normal) {
                queue.levels[2][j as int].task
            } else {
                queue.levels[3][k as int].task
            };
            all.take(n as int + 1) == all.take(n as int).push(next)
        }),
{
    let all = shares(queue, high, normal, low);
    assert(all.take(n as int + 1) =~= all.take(n as int).push(all[n as int]));
}

proof fn lemma_credit_order(start: SlowQueueModel, n: nat)
    requires
        start.wf(),
        start.levels[0].len() == 0,
        n <= at_most(start.levels[1].len(), 3) + at_most(start.levels[2].len(), 2) + at_most(
            start.levels[3].len(),
            1,
        ),
    ensures
        ({
            let batch = Batch::begun(start).credit_steps(n);
            let (i, j, k) = split(start, 3, 2, n);
            &&& batch.tasks == shares(start, 3, 2, 1).take(n as int)
            &&& !batch.ended
            &&& batch.credits.len() == 4
            &&& batch.credits[1] == 3 - i
            &&& batch.credits[2] == 2 - j
            &&& batch.credits[3] == 1 - k
            &&& batch.queue.levels.len() == 4
            &&& batch.queue.levels[0] == start.levels[0]
            &&& batch.queue.levels[1] == start.levels[1].skip(i as int)
            &&& batch.queue.levels[2] == start.levels[2].skip(j as int)
            &&& batch.queue.levels[3] == start.levels[3].skip(k as int)
        }),
    decreases n,
{
    if n == 0 {
        assert(start.levels[1].skip(0) =~= start.levels[1]);
        assert(start.levels[2].skip(0) =~= start.levels[2]);
        assert(start.levels[3].skip(0) =~= start.levels[3]);
        assert(shares(start, 3, 2, 1).take(0) =~= Seq::<SlowTask>::empty());
    } else {
        let m = (n - 1) as nat;
        lemma_credit_order(start, m);
        lemma_next_share(start, 3, 2, 1, m);
        let (i, j, k) = split(start, 3, 2, m);
        lemma_skip_more(start.levels[1], i as int);
        lemma_skip_more(start.levels[2], j as int);
        lemma_skip_more(start.levels[3], k as int);
    }
}

proof fn lemma_skip_more(level: Seq<QueuedTask>, n: int)
    requires
        0 <= n <= level.len(),
    ensures
        n < level.len() ==> level.skip(n).skip(1) == level.skip(n + 1) && level.skip(n)[0]
            == level[n] && level.skip(n).len() > 0,
        n == level.len() ==> level.skip(n).len() == 0,
{
    if n < level.len() {
        assert(level.skip(n).skip(1) =~= level.skip(n + 1));
    }
}

/// A critical task is handed out before all others. Without one, the priority whose
/// turn it is goes on while its quantum lasts and it has tasks; else the turn goes to
/// the next priority in the circle of high, normal and low that has tasks and a
/// quantum, which begins with that quantum, at last to the same priority again. Where
/// none has both, the task that came first is handed out.
#[verifier::spinoff_prover]
#[verifier::rlimit(60)]
pub proof fn turns_go_round(batch: Batch)
    requires
        batch.queue.wf(),
        !batch.ended,
    ensures
        ({
            let queue = batch.queue;
            let after = batch.drr_step();
            let quantum = queue.config.drr_quantum;
            let own = queue.turn as int;
            let second = (own + 1) % 3;
            let third = (own + 2) % 3;
            let left = if queue.turn_begun {
                queue.deficit
            } else {
                quantum[own + 1]
            };
            if queue.levels[0].len() > 0 {
                hands_out(batch, after, 0) && same_turn(queue, after.queue)
            } else if left > 0 && queue.levels[own + 1].len() > 0 {
                hands_out(batch, after, own + 1) && turn_is(after.queue, own, left - 1)
            } else if quantum[second + 1] > 0 && queue.levels[second + 1].len() > 0 {
                hands_out(batch, after, second + 1) && turn_is(
                    after.queue,
                    second,
                    quantum[second + 1] - 1,
                )
            } else if quantum[third + 1] > 0 && queue.levels[third + 1].len() > 0 {
                hands_out(batch, after, third + 1) && turn_is(
                    after.queue,
                    third,
                    quantum[third + 1] - 1,
                )
            } else if quantum[own + 1] > 0 && queue.levels[own + 1].len() > 0 {
                hands_out(batch, after, own + 1) && turn_is(
                    after.queue,
                    own,
                    quantum[own + 1] - 1,
                )
            } else {
                hands_out_first_come(batch, after) && after.queue.turn == second
                    && !after.queue.turn_begun
            }
        }),
{
    let queue = batch.queue;
    if queue.levels[0].len() > 0 {
        lemma_hands_out(batch, 0);
    } else {
        lemma_turn(batch, 4);
        let b1 = batch.turn_taken();
        if !batch.served_in_turn() {
            lemma_turn(b1, 3);
            let b2 = b1.turn_taken();
            if !b1.served_in_turn() {
                lemma_turn(b2, 2);
                let b3 = b2.turn_taken();
                if !b2.served_in_turn() {
                    lemma_turn(b3, 1);
                    let b4 = b3.turn_taken();
                    if !b3.served_in_turn() {
                        assert(b4.turns(0) == b4.with_first_come());
                        lemma_first_come(b4);
                        lemma_only_the_turn_differs(batch, b4, b4.with_first_come());
                    } else {
                        lemma_only_the_turn_hands(batch, b3, b3.turn_taken(), b3.rank_in_turn());
                    }
                } else {
                    lemma_only_the_turn_hands(batch, b2, b2.turn_taken(), b2.rank_in_turn());
                }
            } else {
                lemma_only_the_turn_hands(batch, b1, b1.turn_taken(), b1.rank_in_turn());
            }
        }
    }
}

/// Whether it is this priority's turn, under way, with so many tasks left to serve.
pub open spec fn turn_is(queue: SlowQueueModel, turn: int, left: int) -> bool {
    queue.turn == turn && queue.turn_begun && queue.deficit == left
}

proof fn lemma_turn(batch: Batch, turns: nat)
    requires
        batch.queue.wf(),
        turns > 0,
    ensures
        batch.turns(turns) == (if batch.served_in_turn() {
            batch.turn_taken()
        } else {
            batch.turn_taken().turns((turns - 1) as nat)
        }),
        batch.served_in_turn() ==> hands_out(batch, batch.turn_taken(), batch.rank_in_turn()),
        !batch.served_in_turn() ==> batch.turn_taken().queue.wf(),
{
    if batch.served_in_turn() {
        lemma_hands_out(batch, batch.rank_in_turn());
        let next = batch.with_next(batch.rank_in_turn());
        let after = batch.turn_taken();
        assert forall|key: u64| #[trigger]
            account(after.queue, key) == account(next.queue, key) by {}
    }
}

proof fn lemma_only_the_turn_hands(batch: Batch, other: Batch, after: Batch, rank: int)
    requires
        other.tasks == batch.tasks,
        other.ended == batch.ended,
        other.queue == (SlowQueueModel {
            turn: other.queue.turn,
            turn_begun: other.queue.turn_begun,
            deficit: other.queue.deficit,
            ..batch.queue
        }),
        hands_out(other, after, rank),
    ensures
        hands_out(batch, after, rank),
{
    assert forall|key: u64| #[trigger] account(other.queue, key) == account(batch.queue, key) by {}
    let own = batch.queue.levels[rank][0].task.task_id.0 / 0x1_0000_0000;
    assert(account(other.queue, own) == account(batch.queue, own));
    assert forall|key: u64| key != own implies #[trigger] account(after.queue, key) == account(
        batch.queue,
        key,
    ) by {
        assert(account(other.queue, key) == account(batch.queue, key));
    }
}

proof fn lemma_only_the_turn_differs(batch: Batch, other: Batch, after: Batch)
    requires
        other.tasks == batch.tasks,
        other.ended == batch.ended,
        other.queue == (SlowQueueModel {
            turn: other.queue.turn,
            turn_begun: other.queue.turn_begun,
            deficit: other.queue.deficit,
            ..batch.queue
        }),
        hands_out_first_come(other, after),
    ensures
        hands_out_first_come(batch, after),
{
    let levels = batch.queue.levels;
    if levels[1].len() > 0 || levels[2].len() > 0 || levels[3].len() > 0 {
        let rank = choose|rank: int|
            #[trigger] comes_first(other.queue, rank) && hands_out(other, after, rank);
        assert(comes_first(batch.queue, rank));
        lemma_only_the_turn_hands(batch, other, after, rank);
    }
}

/// One round: from the beginning of the turn of the high priority on, while each
/// priority has at least as many tasks as its quantum, a batch holds the quantum of
/// high tasks, then that of normal ones, then that of low ones, each in order.
pub proof fn one_round_serves_each_quantum(start: SlowQueueModel, n: nat)
    requires
        start.wf(),
        start.levels[0].len() == 0,
        start.turn == 0,
        !start.turn_begun,
        forall|rank: int|
            1 <= rank < 4 ==> 0 < (#[trigger] start.config.drr_quantum[rank])
                <= start.levels[rank].len(),
        n <= start.config.drr_quantum[1] + start.config.drr_quantum[2]
            + start.config.drr_quantum[3],
    ensures
        Batch::begun(start).drr_steps(n).tasks == shares(
            start,
            start.config.drr_quantum[1] as nat,
            start.config.drr_quantum[2] as nat,
            start.config.drr_quantum[3] as nat,
        ).take(n as int),
{
    lemma_round(start, n);
}

#[verifier::spinoff_prover]
#[verifier::rlimit(60)]
proof fn lemma_round(start: SlowQueueModel, n: nat)
    requires
        start.wf(),
        start.levels[0].len() == 0,
        start.turn == 0,
        !start.turn_begun,
        forall|rank: int|
            1 <= rank < 4 ==> 0 < (#[trigger] start.config.drr_quantum[rank])
                <= start.levels[rank].len(),
        n <= start.config.drr_quantum[1] + start.config.drr_quantum[2]
            + start.config.drr_quantum[3],
    ensures
        ({
            let quantum = start.config.drr_quantum;
            let batch = Batch::begun(start).drr_steps(n);
            let (i, j, k) = split(start, quantum[1] as nat, quantum[2] as nat, n);
            &&& batch.tasks == shares(
                start,
                quantum[1] as nat,
                quantum[2] as nat,
                quantum[3] as nat,
            ).take(n as int)
            &&& !batch.ended
            &&& batch.queue.wf()
            &&& batch.queue.config == start.config
            &&& batch.queue.levels.len() == 4
            &&& batch.queue.levels[0] == start.levels[0]
            &&& batch.queue.levels[1] == start.levels[1].skip(i as int)
            &&& batch.queue.levels[2] == start.levels[2].skip(j as int)
            &&& batch.queue.levels[3] == start.levels[3].skip(k as int)
            &&& n == 0 ==> batch.queue.turn == 0 && !batch.queue.turn_begun
            &&& n > 0 && j == 0 ==> turn_is(batch.queue, 0, quantum[1] - i)
            &&& j > 0 && k == 0 ==> turn_is(batch.queue, 1, quantum[2] - j)
            &&& k > 0 ==> turn_is(batch.queue, 2, quantum[3] - k)
        }),
    decreases n,
{
    let quantum = start.config.drr_quantum;
    let (q1, q2, q3) = (quantum[1] as nat, quantum[2] as nat, quantum[3] as nat);
    crate::slow_queue::laws::drr_batch_is_sound(start, n);
    assert(start.config.drr_quantum[1] > 0 && start.config.drr_quantum[2] > 0
        && start.config.drr_quantum[3] > 0);
    if n == 0 {
        assert(start.levels[1].skip(0) =~= start.levels[1]);
        assert(start.levels[2].skip(0) =~= start.levels[2]);
        assert(start.levels[3].skip(0) =~= start.levels[3]);
        assert(shares(start, q1, q2, q3).take(0) =~= Seq::<SlowTask>::empty());
    } else {
        let m = (n - 1) as nat;
        lemma_round(start, m);
        lemma_next_share(start, q1, q2, q3, m);
        let (i, j, k) = split(start, q1, q2, m);
        lemma_skip_more(start.levels[1], i as int);
        lemma_skip_more(start.levels[2], j as int);
        lemma_skip_more(start.levels[3], k as int);
        let before = Batch::begun(start).drr_steps(m);
        let after = Batch::begun(start).drr_steps(n);
        turns_go_round(before);
        if i < q1 {
            assert(hands_out(before, after, 1));
        } else if j < q2 {
            assert(hands_out(before, after, 2));
        } else {
            assert(hands_out(before, after, 3));
        }
    }
}

/// A batch is made step by step, beginning with no tasks and with three credits for the
/// high priority, two for the normal and one for the low one. Once a step finds no task,
/// nothing more happens. At the end the number of tasks processed grows by the size of
/// the batch.
pub proof fn batches_are_made_step_by_step(
    start: SlowQueueModel,
    n: nat,
    tickets: Seq<u32>,
    ticket: u32,
)
    ensures
        Batch::begun(start).tasks.len() == 0,
        Batch::begun(start).queue == start,
        !Batch::begun(start).ended,
        Batch::begun(start).credits.len() == 4,
        Batch::begun(start).credits[1] == 3,
        Batch::begun(start).credits[2] == 2,
        Batch::begun(start).credits[3] == 1,
        Batch::begun(start).credit_steps(0) == Batch::begun(start),
        Batch::begun(start).drr_steps(0) == Batch::begun(start),
        Batch::begun(start).lottery_steps(Seq::empty()) == Batch::begun(start),
        Batch::begun(start).credit_steps(n + 1) == Batch::begun(start).credit_steps(
            n,
        ).credit_step(),
        Batch::begun(start).drr_steps(n + 1) == Batch::begun(start).drr_steps(n).drr_step(),
        Batch::begun(start).lottery_steps(tickets.push(ticket)) == Batch::begun(
            start,
        ).lottery_steps(tickets).lottery_step(ticket),
        forall|batch: Batch|
            #![trigger batch.credit_step()]
            batch.ended ==> batch.credit_step() == batch,
        forall|batch: Batch|
            #![trigger batch.drr_step()]
            batch.ended ==> batch.drr_step() == batch,
        forall|batch: Batch|
            #![trigger batch.lottery_step(ticket)]
            batch.ended ==> batch.lottery_step(ticket) == batch,
        forall|batch: Batch|
            #![trigger batch.closed()]
            batch.queue.metrics.total_processed + batch.tasks.len() <= u64::MAX
                && batch.tasks.len() <= usize::MAX ==> {
                &&& batch.closed().metrics.total_processed == batch.queue.metrics.total_processed
                    + batch.tasks.len()
                &&& batch.closed().metrics.total_queued == batch.queue.metrics.total_queued
                &&& batch.closed().levels == batch.queue.levels
                &&& batch.closed().sources == batch.queue.sources
                &&& same_surroundings(batch.closed(), batch.queue)
                &&& same_turn(batch.closed(), batch.queue)
            },
{
    assert(tickets.push(ticket).drop_last() =~= tickets);
}

/// A task is refused because the queue holds as many as it may, else because it is kept
/// out until a time that has not come, else because its source, the upper half of its
/// identifier, has as many tasks as it may. Otherwise it is taken in.
pub proof fn tasks_are_refused_for_a_reason(queue: SlowQueueModel, task: SlowTask, now: u128)
    ensures
        ({
            let id = task.task_id.0;
            let full = queue.metrics.total_queued >= queue.controller.current_max_size;
            let kept_out = queue.backoffs.contains_key(id) && now < queue.backoffs[id];
            let throttled = account(queue, id / 0x1_0000_0000)
                >= queue.config.max_tasks_per_source;
            let refusal = queue.refusal(task, now);
            &&& refusal == Some(QueueError::QueueFull) <==> full
            &&& refusal == Some(QueueError::BackoffActive) <==> !full && kept_out
            &&& refusal == Some(QueueError::SourceThrottled) <==> !full && !kept_out && throttled
            &&& refusal is None <==> !full && !kept_out && !throttled
        }),
{
}

/// A task that is taken in waits behind the others of its priority, with the next number
/// in the order of arrival; it is counted, and put on the account of its source. A
/// backoff of a refused task that still lasts is kept.
pub proof fn tasks_wait_behind_their_equals(queue: SlowQueueModel, task: SlowTask, now: u128)
    requires
        queue.wf(),
    ensures
        ({
            let after = queue.enqueued(task, now);
            let key = task.task_id.0 / 0x1_0000_0000;
            let rank = match task.priority {
                TaskPriority::Critical => 0int,
                TaskPriority::High => 1,
                TaskPriority::Normal => 2,
                TaskPriority::Low => 3,
            };
            let depth = queue.metrics.total_queued + 1;
            &&& queue.refusal(task, now) is None ==> {
                &&& after.levels == queue.levels.update(
                    rank,
                    queue.levels[rank].push(QueuedTask { arrival: queue.next_arrival, task }),
                )
                &&& queue.next_arrival < u64::MAX ==> after.next_arrival == queue.next_arrival + 1
                &&& after.metrics.total_queued == depth
                &&& after.metrics.queue_depth_high_water == (if depth
                    > queue.metrics.queue_depth_high_water {
                    depth
                } else {
                    queue.metrics.queue_depth_high_water as int
                })
                &&& rank != 0 ==> after.metrics.critical_enqueued
                    == queue.metrics.critical_enqueued
                &&& rank == 0 && queue.metrics.critical_enqueued < u64::MAX
                    ==> after.metrics.critical_enqueued == queue.metrics.critical_enqueued + 1
                &&& account(after, key) == account(queue, key) + 1
                &&& forall|other: u64|
                    other != key ==> #[trigger] account(after, other) == account(queue, other)
            }
            &&& queue.refusal(task, now) is Some ==> after.levels == queue.levels
                && after.sources == queue.sources && after.metrics == queue.metrics
            &&& queue.refusal(task, now) == Some(QueueError::BackoffActive) ==> after == queue
            &&& after.metrics.total_processed == queue.metrics.total_processed
            &&& after.config == queue.config && after.controller == queue.controller
            &&& after.clock == queue.clock && same_turn(after, queue)
            &&& forall|id: u64|
                id != task.task_id.0 ==> (#[trigger] after.backoffs.contains_key(id)
                    == queue.backoffs.contains_key(id) && (queue.backoffs.contains_key(id)
                    ==> after.backoffs[id] == queue.backoffs[id]))
        }),
{
    let after = queue.enqueued(task, now);
    let key = task.task_id.0 / 0x1_0000_0000;
    assert forall|other: u64| other != key implies #[trigger] account(after, other) == account(
        queue,
        other,
    ) by {}
}

/// Tasks are of one source exactly when the upper halves of their identifiers agree.
pub proof fn sources_are_upper_halves(a: SlowTask, b: SlowTask)
    ensures
        source_of(a.task_id) == source_of(b.task_id) <==> a.task_id.0 / 0x1_0000_0000
            == b.task_id.0 / 0x1_0000_0000,
{
}

/// Whether a task has waited longer than the starvation threshold: more than so many
/// milliseconds lie between the time at which it was enqueued and now.
pub open spec fn has_starved(queue: SlowQueueModel, queued: QueuedTask, now: u128) -> bool {
    now - queued.task.enqueue_time > queue.config.starvation_threshold_ms * 1_000_000
}

/// The tasks that have starved, in order, or those that have not.
pub open spec fn by_starvation(
    queue: SlowQueueModel,
    level: Seq<QueuedTask>,
    starved: bool,
    now: u128,
) -> Seq<QueuedTask> {
    level.filter(|queued: QueuedTask| has_starved(queue, queued, now) == starved)
}

/// These tasks with another priority.
pub open spec fn at_priority(level: Seq<QueuedTask>, priority: TaskPriority) -> Seq<QueuedTask> {
    level.map_values(
        |queued: QueuedTask|
            QueuedTask { task: SlowTask { priority, ..queued.task }, ..queued },
    )
}

proof fn lemma_starvation(
    queue: SlowQueueModel,
    level: Seq<QueuedTask>,
    rank: int,
    higher: TaskPriority,
    now: u128,
)
    requires
        forall|i: int| 0 <= i < level.len() ==> (#[trigger] level[i]).task.priority.rank() == rank,
        1 <= rank < 4,
        higher == (if rank == 3 {
            TaskPriority::Normal
        } else {
            TaskPriority::High
        }),
    ensures
        queue.patient(level, now) == by_starvation(queue, level, false, now),
        queue.rescued(level, now) == at_priority(by_starvation(queue, level, true, now), higher),
{
    assert((|queued: QueuedTask| !queue.starving(queued, now)) =~= (|queued: QueuedTask|
        has_starved(queue, queued, now) == false));
    let starved = |queued: QueuedTask| has_starved(queue, queued, now) == true;
    assert((|queued: QueuedTask| queue.starving(queued, now)) =~= starved);
    crate::slow_queue::relief::lemma_filter_members(level, starved, rank);
    assert(queue.rescued(level, now) =~= at_priority(
        by_starvation(queue, level, true, now),
        higher,
    ));
}

/// Relief boosts exactly the tasks that have starved, each by one priority: low ones go
/// behind the normal ones, normal ones behind the high ones, and high ones to the front
/// of their own. All others, and the critical ones, stay as they are, in their order,
/// whatever the clock reads. Each boost is counted.
pub proof fn relief_boosts_what_has_starved(queue: SlowQueueModel, now: u128)
    requires
        queue.wf(),
    ensures
        ({
            let after = queue.relieved(now);
            let (high, normal, low) = (queue.levels[1], queue.levels[2], queue.levels[3]);
            let boosts = by_starvation(queue, high, true, now).len() + by_starvation(
                queue,
                normal,
                true,
                now,
            ).len() + by_starvation(queue, low, true, now).len();
            &&& after.levels.len() == 4
            &&& after.levels[0] == queue.levels[0]
            &&& after.levels[1] == by_starvation(queue, high, true, now) + by_starvation(
                queue,
                high,
                false,
                now,
            ) + at_priority(by_starvation(queue, normal, true, now), TaskPriority::High)
            &&& after.levels[2] == by_starvation(queue, normal, false, now) + at_priority(
                by_starvation(queue, low, true, now),
                TaskPriority::Normal,
            )
            &&& after.levels[3] == by_starvation(queue, low, false, now)
            &&& queue.metrics.starvation_prevented + boosts <= u64::MAX
                ==> after.metrics.starvation_prevented == queue.metrics.starvation_prevented
                + boosts
            &&& queue.metrics.priority_promotions + boosts <= u64::MAX
                ==> after.metrics.priority_promotions == queue.metrics.priority_promotions + boosts
            &&& after.metrics.total_queued == queue.metrics.total_queued
            &&& after.metrics.total_processed == queue.metrics.total_processed
            &&& after.sources == queue.sources
            &&& same_surroundings(after, queue)
            &&& same_turn(after, queue)
        }),
{
    let (high, normal, low) = (queue.levels[1], queue.levels[2], queue.levels[3]);
    lemma_starvation(queue, high, 1, TaskPriority::High, now);
    lemma_starvation(queue, normal, 2, TaskPriority::High, now);
    lemma_starvation(queue, low, 3, TaskPriority::Normal, now);
    let starved = |queued: QueuedTask| has_starved(queue, queued, now) == true;
    crate::slow_queue::relief::lemma_filter_members(high, starved, 1);
    let saved = by_starvation(queue, high, true, now);
    assert forall|i: int| 0 <= i < saved.len() implies #[trigger] at_priority(
        saved,
        TaskPriority::High,
    )[i] == saved[i] by {
        assert(saved[i].task.priority.rank() == 1);
    }
    assert(at_priority(saved, TaskPriority::High) =~= saved);
}

/// A task that was enqueued no longer ago than the threshold keeps its priority, and one
/// that was is boosted, whatever else waits.
pub proof fn each_task_is_boosted_by_its_own_wait(
    queue: SlowQueueModel,
    rank: int,
    i: int,
    now: u128,
)
    requires
        queue.wf(),
        2 <= rank < 4,
        0 <= i < queue.levels[rank].len(),
    ensures
        ({
            let queued = queue.levels[rank][i];
            let boosted = QueuedTask {
                task: SlowTask {
                    priority: if rank == 3 {
                        TaskPriority::Normal
                    } else {
                        TaskPriority::High
                    },
                    ..queued.task
                },
                ..queued
            };
            let limit = queue.config.starvation_threshold_ms * 1_000_000;
            &&& now <= queued.task.enqueue_time + limit ==> queue.relieved(
                now,
            ).levels[rank].contains(queued)
            &&& now > queued.task.enqueue_time + limit ==> queue.relieved(now).levels[rank
                - 1].contains(boosted)
        }),
{
    relief_boosts_what_has_starved(queue, now);
    let level = queue.levels[rank];
    let queued = level[i];
    let after = queue.relieved(now);
    let starved = has_starved(queue, queued, now);
    let kept = by_starvation(queue, level, starved, now);
    let own = |other: QueuedTask| has_starved(queue, other, now) == starved;
    lemma_filter_keeps(level, own, i);
    let at = choose|at: int| 0 <= at < kept.len() && kept[at] == queued;
    if starved {
        if rank == 3 {
            let moved = at_priority(kept, TaskPriority::Normal);
            let before = by_starvation(queue, queue.levels[2], false, now);
            assert(after.levels[2][before.len() + at] == moved[at]);
        } else {
            let moved = at_priority(kept, TaskPriority::High);
            let before = by_starvation(queue, queue.levels[1], true, now) + by_starvation(
                queue,
                queue.levels[1],
                false,
                now,
            );
            assert(after.levels[1][before.len() + at] == moved[at]);
        }
    } else {
        assert(after.levels[rank][at] == kept[at]);
    }
}

proof fn lemma_filter_keeps(
    level: Seq<QueuedTask>,
    own: spec_fn(QueuedTask) -> bool,
    i: int,
)
    requires
        0 <= i < level.len(),
        own(level[i]),
    ensures
        exists|at: int|
            0 <= at < level.filter(own).len() && #[trigger] level.filter(own)[at] == level[i],
    decreases level.len(),
{
    reveal(Seq::filter);
    let earlier = level.drop_last();
    if i < earlier.len() {
        lemma_filter_keeps(earlier, own, i);
        let at = choose|at: int|
            0 <= at < earlier.filter(own).len() && #[trigger] earlier.filter(own)[at]
                == earlier[i];
        assert(level.filter(own)[at] == level[i]);
    } else {
        let at = level.filter(own).len() - 1;
        assert(level.filter(own)[at] == level[i]);
    }
}

/// A queue that was cleared holds nothing, keeps nobody out and has no accounts; its
/// settings, its turn and the counters of the past stay.
pub proof fn clearing_keeps_the_past(queue: SlowQueueModel)
    ensures
        ({
            let after = queue.cleared();
            &&& after.levels.len() == 4
            &&& after.levels[0].len() == 0 && after.levels[1].len() == 0 && after.levels[2].len()
                == 0 && after.levels[3].len() == 0
            &&& after.metrics.total_queued == 0
            &&& forall|key: u64| #[trigger] account(after, key) == 0
            &&& forall|id: u64| !(#[trigger] after.backoffs.contains_key(id))
            &&& after.metrics.total_processed == queue.metrics.total_processed
            &&& after.metrics.queue_depth_high_water == queue.metrics.queue_depth_high_water
            &&& after.metrics.starvation_prevented == queue.metrics.starvation_prevented
            &&& after.config == queue.config
            &&& after.controller == queue.controller
            &&& after.clock == queue.clock
            &&& after.next_arrival == queue.next_arrival
        }),
{
}

/// What was handed out is the batch, in order, and the queue is what it left with the
/// books closed.
pub proof fn batches_are_handed_out_whole(
    after: SlowQueueModel,
    tasks: Seq<SlowTask>,
    batch: Batch,
)
    requires
        batch_handed_out(after, tasks, batch),
    ensures
        tasks == batch.tasks,
        after.levels == batch.queue.levels,
        after.sources == batch.queue.sources,
        after.metrics.total_queued == batch.queue.metrics.total_queued,
        same_surroundings(after, batch.queue),
        same_turn(after, batch.queue),
{
}

/// A new queue holds nothing, has counted nothing, keeps nobody out, and begins with the
/// turn of the high priority.
pub proof fn new_queues_are_empty(
    config: SlowQueueConfig,
    now: u128,
    clock: Stopwatch,
    key: u64,
)
    ensures
        ({
            let queue = SlowQueueModel::fresh(config, now, clock);
            &&& queue.levels.len() == 4
            &&& queue.levels[0].len() == 0 && queue.levels[1].len() == 0 && queue.levels[2].len()
                == 0 && queue.levels[3].len() == 0
            &&& account(queue, key) == 0
            &&& !queue.backoffs.contains_key(key)
            &&& queue.config == config && queue.clock == clock
            &&& queue.controller.current_max_size == config.max_queue_size
            &&& queue.metrics.total_queued == 0 && queue.metrics.total_processed == 0
            &&& queue.metrics.critical_enqueued == 0 && queue.metrics.critical_processed == 0
            &&& queue.metrics.starvation_prevented == 0 && queue.metrics.priority_promotions == 0
            &&& queue.metrics.queue_depth_high_water == 0 && queue.metrics.resize_count == 0
            &&& queue.turn == 0 && !queue.turn_begun
        }),
{
}

/// A task that is kept out is refused until the time is over, to the nanosecond, and can
/// be taken in from then on. Other tasks are not kept out by it.
pub proof fn backoffs_end_in_time(
    queue: SlowQueueModel,
    task: SlowTask,
    other: SlowTask,
    duration_ns: u128,
    now: u128,
    later: u128,
)
    requires
        now + duration_ns <= u128::MAX,
        queue.metrics.total_queued < queue.controller.current_max_size,
        other.task_id != task.task_id,
    ensures
        ({
            let after = queue.backed_off(task.task_id, duration_ns, now);
            &&& after.refusal(task, later) == Some(QueueError::BackoffActive) <==> later < now
                + duration_ns
            &&& after.refusal(other, later) == queue.refusal(other, later)
            &&& after.levels == queue.levels
            &&& after.metrics == queue.metrics
            &&& after.sources == queue.sources
        }),
{
}

} // verus!
