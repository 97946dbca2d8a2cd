//! How the slow queue hands out tasks.

use crate::slow_queue::model::{ticket_total, Batch, SlowQueueModel};
use crate::slow_queue::queue::SlowQueue;
use crate::slow_queue::types::{SchedulingAlgorithm, SlowTask};
use vstd::prelude::*;

verus! {

/// `fastrand::u32` draws a number below `total`. Which one is left to chance.
#[verifier::external_body]
fn draw_ticket(total: u32) -> (ticket: u32)
    requires
        total > 0,
    ensures
        ticket < total,
{
    fastrand::u32(0..total)
}

impl SlowQueue {
    /// Hands out up to `batch_size` tasks by the configured algorithm.
    #[must_use]
    pub fn process_batch(&mut self, batch_size: usize) -> (batch: Vec<SlowTask>)
        requires
            old(self)@.wf(),
            old(self)@.config.scheduling_algorithm == SchedulingAlgorithm::Lottery ==> ticket_total(
                old(self)@.config,
            ) <= u32::MAX,
        ensures
            final(self)@.wf(),
            match old(self)@.config.scheduling_algorithm {
                SchedulingAlgorithm::CreditBased => batch_handed_out(
                    final(self)@,
                    batch@,
                    Batch::begun(old(self)@).credit_steps(batch_size as nat),
                ),
                SchedulingAlgorithm::Lottery => exists|tickets: Seq<u32>|
                    {
                        &&& tickets.len() == batch_size
                        &&& tickets_drawn(Batch::begun(old(self)@), tickets)
                        &&& batch_handed_out(
                            final(self)@,
                            batch@,
                            #[trigger] Batch::begun(old(self)@).lottery_steps(tickets),
                        )
                    },
                SchedulingAlgorithm::DeficitRoundRobin => batch_handed_out(
                    final(self)@,
                    batch@,
                    Batch::begun(old(self)@).drr_steps(batch_size as nat),
                ),
            },
    {
        match self.config().scheduling_algorithm {
            SchedulingAlgorithm::CreditBased => self.process_batch_credit_based(batch_size),
            SchedulingAlgorithm::Lottery => self.process_batch_lottery(batch_size),
            SchedulingAlgorithm::DeficitRoundRobin => self.process_batch_drr(batch_size),
        }
    }

    /// Hands out up to `batch_size` tasks by credits.
    #[must_use]
    pub fn process_batch_credit_based(&mut self, batch_size: usize) -> (batch: Vec<SlowTask>)
        requires
            old(self)@.wf(),
        ensures
            final(self)@.wf(),
            batch_handed_out(
                final(self)@,
                batch@,
                Batch::begun(old(self)@).credit_steps(batch_size as nat),
            ),
    {
        let mut batch: Vec<SlowTask> = Vec::new();
        let mut credits: [u32; 4] = [4, 3, 2, 1];
        let mut steps: usize = 0;
        let ghost start = Batch::begun(self@);
        while steps < batch_size
            invariant_except_break
                steps <= batch_size,
                batch.len() <= steps,
                self@.wf(),
                start == Batch::begun(old(self)@),
                start.credit_steps(steps as nat) =~= (Batch {
                    queue: self@,
                    tasks: batch@,
                    credits: credits@.map_values(|c: u32| c as nat),
                    ended: false,
                }),
            ensures
                batch.len() <= batch_size,
                self@.wf(),
                batch@ == start.credit_steps(batch_size as nat).tasks,
                self@ == start.credit_steps(batch_size as nat).queue,
            decreases batch_size - steps,
        {
            let ghost before = start.credit_steps(steps as nat);
            let ghost old_credits = credits@;
            steps += 1;
            match self.take_next(0) {
                Some(task) => {
                    batch.push(task);
                    continue ;
                },
                None => {},
            }
            let mut found: bool = false;
            let mut rank: usize = 1;
            while rank < 4 && !found
                invariant
                    1 <= rank <= 4,
                    1 <= steps <= batch_size,
                    batch.len() <= steps,
                    found ==> rank < 4,
                    before == start.credit_steps((steps - 1) as nat),
                    before.credits == old_credits.map_values(|c: u32| c as nat),
                    old_credits.len() == 4,
                    !before.ended,
                    before.queue.wf(),
                    before.queue.levels[0].len() == 0,
                    self@.wf(),
                    !found ==> {
                        &&& self@ == before.queue
                        &&& batch@ == before.tasks
                        &&& credits@ == old_credits
                        &&& batch.len() < steps
                        &&& forall|r: int| 1 <= r < rank ==> !before.affordable(r)
                    },
                    found ==> {
                        &&& forall|r: int| 1 <= r < rank ==> !before.affordable(r)
                        &&& before.affordable(rank as int)
                        &&& before.with_credit(rank as int) =~= (Batch {
                            queue: self@,
                            tasks: batch@,
                            credits: credits@.map_values(|c: u32| c as nat),
                            ended: false,
                        })
                    },
                decreases 4 - rank, if found { 0int } else { 1 },
            {
                if credits[rank] > 0 {
                    match self.take_next(rank) {
                        Some(task) => {
                            batch.push(task);
                            credits[rank] = credits[rank] - 1;
                            found = true;
                        },
                        None => {},
                    }
                }
                if !found {
                    rank += 1;
                }
            }
            if !found {
                assert(before.credit_step() == before.with_first_come());
                match self.take_first_come() {
                    Some(task) => {
                        batch.push(task);
                    },
                    None => {
                        proof {
                            lemma_credit_ended(start, steps as nat, batch_size as nat);
                        }
                        break ;
                    },
                }
            } else {
                assert(before.credit_step() == before.with_credit(rank as int));
            }
        }
        self.close_batch(batch.len());
        batch
    }

    /// Takes the task that `ticket` wins, if a priority wins and has one.
    fn take_winner(&mut self, ticket: u32) -> (task: Option<SlowTask>)
        requires
            old(self)@.wf(),
            ticket_total(old(self)@.config) <= u32::MAX,
        ensures
            final(self)@.wf(),
            match Batch::begun(old(self)@).lottery_winner(ticket) {
                Some(rank) => {
                    &&& task == Some(old(self)@.levels[rank][0].task)
                    &&& final(self)@ == old(self)@.without_next(rank)
                },
                None => task is None && final(self)@ == old(self)@,
            },
    {
        let high: u32 = self.config().lottery_tickets[1];
        if ticket < high {
            match self.take_next(1) {
                Some(task) => {
                    return Some(task);
                },
                None => {},
            }
        }
        let normal: u32 = high + self.config().lottery_tickets[2];
        if ticket < normal {
            match self.take_next(2) {
                Some(task) => {
                    return Some(task);
                },
                None => {},
            }
        }
        let low: u32 = normal + self.config().lottery_tickets[3];
        if ticket < low {
            match self.take_next(3) {
                Some(task) => {
                    return Some(task);
                },
                None => {},
            }
        }
        None
    }

    /// One step of lottery scheduling in which `ticket` wins: hands out the next
    /// task, or `None` if nothing is left.
    pub fn lottery_step(&mut self, ticket: u32) -> (task: Option<SlowTask>)
        requires
            old(self)@.wf(),
            ticket_total(old(self)@.config) <= u32::MAX,
        ensures
            final(self)@.wf(),
            ({
                let after = Batch::begun(old(self)@).lottery_step(ticket);
                &&& final(self)@ == after.queue
                &&& match task {
                    Some(task) => !after.ended && after.tasks == seq![task],
                    None => after.ended && after.tasks.len() == 0,
                }
            }),
    {
        let ghost begun = Batch::begun(self@);
        match self.take_next(0) {
            Some(task) => {
                assert(begun.with_next(0).tasks =~= seq![task]);
                return Some(task);
            },
            None => {},
        }
        if self.total_tickets() > 0 {
            match self.take_winner(ticket) {
                Some(task) => {
                    let ghost rank = begun.lottery_winner(ticket)->0;
                    assert(begun.with_next(rank).tasks =~= seq![task]);
                    return Some(task);
                },
                None => {},
            }
        }
        match self.take_first_come() {
            Some(task) => {
                assert(begun.with_first_come().tasks =~= seq![task]);
                Some(task)
            },
            None => None,
        }
    }

    /// Hands out up to `batch_size` tasks by lottery. Which tickets win is left to
    /// chance; for each sequence of tickets,
    /// [`lottery_step`](Self::lottery_step) says what follows.
    #[must_use]
    pub fn process_batch_lottery(&mut self, batch_size: usize) -> (batch: Vec<SlowTask>)
        requires
            old(self)@.wf(),
            ticket_total(old(self)@.config) <= u32::MAX,
        ensures
            final(self)@.wf(),
            exists|tickets: Seq<u32>|
                {
                    &&& tickets.len() == batch_size
                    &&& tickets_drawn(Batch::begun(old(self)@), tickets)
                    &&& batch_handed_out(
                        final(self)@,
                        batch@,
                        #[trigger] Batch::begun(old(self)@).lottery_steps(tickets),
                    )
                },
    {
        let mut batch: Vec<SlowTask> = Vec::new();
        let total: u32 = self.total_tickets();
        let mut steps: usize = 0;
        let ghost start = Batch::begun(self@);
        let ghost mut tickets: Seq<u32> = Seq::empty();
        assert(tickets_drawn(start, tickets)) by {
            reveal(tickets_drawn);
        }
        while steps < batch_size
            invariant_except_break
                steps <= batch_size,
                batch.len() <= steps,
                tickets.len() == steps,
                self@.wf(),
                self@.config == old(self)@.config,
                total == ticket_total(old(self)@.config),
                tickets_drawn(start, tickets),
                start == Batch::begun(old(self)@),
                start.lottery_steps(tickets).queue == self@,
                start.lottery_steps(tickets).tasks == batch@,
                !start.lottery_steps(tickets).ended,
            ensures
                batch.len() <= batch_size,
                self@.wf(),
                tickets.len() == batch_size,
                tickets_drawn(start, tickets),
                batch@ == start.lottery_steps(tickets).tasks,
                self@ == start.lottery_steps(tickets).queue,
            decreases batch_size - steps,
        {
            let ghost before = start.lottery_steps(tickets);
            let ticket: u32 = if total > 0 && self.is_queue_empty(0) {
                draw_ticket(total)
            } else {
                0
            };
            proof {
                lemma_lottery_step_extends(before, ticket);
                let longer = tickets.push(ticket);
                assert(longer.drop_last() =~= tickets);
                assert(before.draws() ==> was_drawn(ticket_total(start.queue.config), ticket));
                lemma_one_more_ticket(start, tickets, ticket);
                assert(start.lottery_steps(longer) == before.lottery_step(ticket));
                tickets = longer;
            }
            steps += 1;
            match self.lottery_step(ticket) {
                Some(task) => {
                    batch.push(task);
                    assert(batch@ =~= before.tasks + seq![task]);
                },
                None => {
                    proof {
                        assert(batch@ =~= start.lottery_steps(tickets).tasks);
                        let padded = tickets + Seq::new(
                            (batch_size - steps) as nat,
                            |i: int| 0u32,
                        );
                        assert(padded.take(tickets.len() as int) =~= tickets);
                        lemma_lottery_ended(start, tickets, padded);
                        lemma_no_more_tickets(start, tickets, padded);
                        tickets = padded;
                    }
                    break ;
                },
            }
        }
        self.close_batch(batch.len());
        batch
    }

    /// Hands out the next task by deficit round robin.
    fn drr_step(&mut self) -> (task: Option<SlowTask>)
        requires
            old(self)@.wf(),
        ensures
            final(self)@.wf(),
            ({
                let after = Batch::begun(old(self)@).drr_step();
                &&& final(self)@ == after.queue
                &&& match task {
                    Some(task) => !after.ended && after.tasks == seq![task],
                    None => after.ended && after.tasks.len() == 0,
                }
            }),
    {
        let ghost begun = Batch::begun(self@);
        match self.take_next(0) {
            Some(task) => {
                assert(begun.with_next(0).tasks =~= seq![task]);
                return Some(task);
            },
            None => {},
        }
        let mut iterations: u32 = 0;
        let ghost mut current = begun;
        while iterations < 4
            invariant
                iterations <= 4,
                self@.wf(),
                begun == Batch::begun(old(self)@),
                begun.drr_step() == current.turns((4 - iterations) as nat),
                current.queue == self@,
                current.tasks.len() == 0,
                !current.ended,
            decreases 4 - iterations,
        {
            proof {
                lemma_turn_extends(current);
            }
            match self.take_turn() {
                Some(task) => {
                    assert(current.turn_taken().tasks =~= seq![task]);
                    return Some(task);
                },
                None => {
                    proof {
                        current = current.turn_taken();
                    }
                    iterations += 1;
                },
            }
        }
        assert(begun.drr_step() == current.with_first_come());
        match self.take_first_come() {
            Some(task) => {
                assert(current.with_first_come().tasks =~= seq![task]);
                Some(task)
            },
            None => None,
        }
    }

    /// Hands out up to `batch_size` tasks by deficit round robin.
    #[must_use]
    pub fn process_batch_drr(&mut self, batch_size: usize) -> (batch: Vec<SlowTask>)
        requires
            old(self)@.wf(),
        ensures
            final(self)@.wf(),
            batch_handed_out(
                final(self)@,
                batch@,
                Batch::begun(old(self)@).drr_steps(batch_size as nat),
            ),
    {
        let mut batch: Vec<SlowTask> = Vec::new();
        let mut steps: usize = 0;
        let ghost start = Batch::begun(self@);
        while steps < batch_size
            invariant_except_break
                steps <= batch_size,
                batch.len() <= steps,
                self@.wf(),
                start == Batch::begun(old(self)@),
                start.drr_steps(steps as nat).queue == self@,
                start.drr_steps(steps as nat).tasks == batch@,
                !start.drr_steps(steps as nat).ended,
            ensures
                batch.len() <= batch_size,
                self@.wf(),
                batch@ == start.drr_steps(batch_size as nat).tasks,
                self@ == start.drr_steps(batch_size as nat).queue,
            decreases batch_size - steps,
        {
            let ghost before = start.drr_steps(steps as nat);
            proof {
                lemma_drr_step_extends(before);
            }
            steps += 1;
            match self.drr_step() {
                Some(task) => {
                    batch.push(task);
                    assert(batch@ =~= before.tasks + seq![task]);
                },
                None => {
                    proof {
                        assert(batch@ =~= start.drr_steps(steps as nat).tasks);
                        lemma_drr_ended(start, steps as nat, batch_size as nat);
                    }
                    break ;
                },
            }
        }
        self.close_batch(batch.len());
        batch
    }
}

/// The tasks of a batch were handed out, and the queue is what the batch left.
pub open spec fn batch_handed_out(after: SlowQueueModel, tasks: Seq<SlowTask>, batch: Batch) -> bool {
    tasks == batch.tasks && after == batch.closed()
}

/// Whether `ticket` came out of a draw among `total` tickets.
pub closed spec fn was_drawn(total: int, ticket: u32) -> bool {
    call_ensures(draw_ticket, (total as u32,), ticket)
}

/// Whether each ticket on which a step depends was drawn, and exists.
#[verifier::opaque]
pub open spec fn tickets_drawn(start: Batch, tickets: Seq<u32>) -> bool {
    forall|i: int|
        0 <= i < tickets.len() && start.lottery_steps(tickets.take(i)).draws() ==> was_drawn(
            ticket_total(start.queue.config),
            #[trigger] tickets[i],
        ) && tickets[i] < ticket_total(start.queue.config)
}

proof fn lemma_one_more_ticket(start: Batch, tickets: Seq<u32>, ticket: u32)
    requires
        tickets_drawn(start, tickets),
        start.lottery_steps(tickets).draws() ==> was_drawn(
            ticket_total(start.queue.config),
            ticket,
        ) && ticket < ticket_total(start.queue.config),
    ensures
        tickets_drawn(start, tickets.push(ticket)),
{
    reveal(tickets_drawn);
    let longer = tickets.push(ticket);
    assert forall|i: int|
        0 <= i < longer.len() && start.lottery_steps(longer.take(i)).draws() implies was_drawn(
        ticket_total(start.queue.config),
        #[trigger] longer[i],
    ) && longer[i] < ticket_total(start.queue.config) by {
        if i == tickets.len() {
            assert(longer.take(i) =~= tickets);
        } else {
            assert(longer.take(i) =~= tickets.take(i));
            assert(longer[i] == tickets[i]);
        }
    }
}

proof fn lemma_no_more_tickets(start: Batch, tickets: Seq<u32>, longer: Seq<u32>)
    requires
        tickets_drawn(start, tickets),
        start.lottery_steps(tickets).ended,
        tickets.len() <= longer.len(),
        longer.take(tickets.len() as int) == tickets,
    ensures
        tickets_drawn(start, longer),
{
    reveal(tickets_drawn);
    assert forall|i: int|
        0 <= i < longer.len() && start.lottery_steps(longer.take(i)).draws() implies was_drawn(
        ticket_total(start.queue.config),
        #[trigger] longer[i],
    ) && longer[i] < ticket_total(start.queue.config) by {
        if i < tickets.len() {
            assert(longer.take(i) =~= tickets.take(i));
            assert(longer[i] == tickets[i]);
        } else {
            assert(longer.take(i).take(tickets.len() as int) =~= tickets);
            lemma_lottery_ended(start, tickets, longer.take(i));
        }
    }
}

proof fn lemma_credit_ended(start: Batch, steps: nat, more: nat)
    requires
        start.credit_steps(steps).ended,
        steps <= more,
    ensures
        start.credit_steps(more) == start.credit_steps(steps),
    decreases more,
{
    if steps < more {
        lemma_credit_ended(start, steps, (more - 1) as nat);
    }
}

proof fn lemma_drr_ended(start: Batch, steps: nat, more: nat)
    requires
        start.drr_steps(steps).ended,
        steps <= more,
    ensures
        start.drr_steps(more) == start.drr_steps(steps),
    decreases more,
{
    if steps < more {
        lemma_drr_ended(start, steps, (more - 1) as nat);
    }
}

proof fn lemma_lottery_ended(start: Batch, tickets: Seq<u32>, longer: Seq<u32>)
    requires
        start.lottery_steps(tickets).ended,
        tickets.len() <= longer.len(),
        longer.take(tickets.len() as int) == tickets,
    ensures
        start.lottery_steps(longer) == start.lottery_steps(tickets),
    decreases longer.len(),
{
    if tickets.len() < longer.len() {
        assert(longer.drop_last().take(tickets.len() as int) =~= tickets);
        lemma_lottery_ended(start, tickets, longer.drop_last());
    } else {
        assert(longer =~= tickets);
    }
}

/// A step depends on the queue alone; the tasks handed out before stay in front.
proof fn lemma_lottery_step_extends(before: Batch, ticket: u32)
    requires
        !before.ended,
    ensures
        ({
            let alone = Batch::begun(before.queue).lottery_step(ticket);
            let after = before.lottery_step(ticket);
            &&& after.queue == alone.queue
            &&& after.ended == alone.ended
            &&& after.credits == before.credits
            &&& after.tasks == before.tasks + alone.tasks
        }),
{
    let alone = Batch::begun(before.queue).lottery_step(ticket);
    let after = before.lottery_step(ticket);
    assert(after.tasks =~= before.tasks + alone.tasks);
}

/// A turn depends on the queue alone.
proof fn lemma_turn_extends(before: Batch)
    ensures
        ({
            let alone = Batch::begun(before.queue);
            &&& before.served_in_turn() == alone.served_in_turn()
            &&& before.rank_in_turn() == alone.rank_in_turn()
            &&& before.turn_taken().queue == alone.turn_taken().queue
            &&& before.turn_taken().ended == before.ended
            &&& before.turn_taken().credits == before.credits
            &&& before.turn_taken().tasks == before.tasks + alone.turn_taken().tasks
        }),
{
    assert(before.turn_taken().tasks =~= before.tasks + Batch::begun(
        before.queue,
    ).turn_taken().tasks);
}

proof fn lemma_turns_extend(before: Batch, other: Batch, turns: nat)
    requires
        !before.ended,
        !other.ended,
        other.tasks.len() == 0,
        other.queue == before.queue,
    ensures
        ({
            let alone = other.turns(turns);
            let after = before.turns(turns);
            &&& after.queue == alone.queue
            &&& after.ended == alone.ended
            &&& after.tasks == before.tasks + alone.tasks
        }),
    decreases turns,
{
    lemma_turn_extends(before);
    lemma_turn_extends(other);
    if turns == 0 {
        assert(before.with_first_come().tasks =~= before.tasks + other.with_first_come().tasks);
    } else if before.served_in_turn() {
        assert(before.turn_taken().tasks =~= before.tasks + other.turn_taken().tasks);
    } else {
        assert(before.turn_taken().tasks =~= before.tasks);
        assert(other.turn_taken().tasks =~= other.tasks);
        lemma_turns_extend(before.turn_taken(), other.turn_taken(), (turns - 1) as nat);
    }
}

/// A step depends on the queue alone; the tasks handed out before stay in front.
proof fn lemma_drr_step_extends(before: Batch)
    requires
        !before.ended,
    ensures
        ({
            let alone = Batch::begun(before.queue).drr_step();
            let after = before.drr_step();
            &&& after.queue == alone.queue
            &&& after.ended == alone.ended
            &&& after.tasks == before.tasks + alone.tasks
        }),
{
    let begun = Batch::begun(before.queue);
    if before.queue.levels[0].len() > 0 {
        assert(before.with_next(0).tasks =~= before.tasks + begun.with_next(0).tasks);
    } else {
        lemma_turns_extend(before, begun, 4);
    }
}

} // verus!
