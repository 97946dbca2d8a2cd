//! Concurrent queues and maps of other crates, as the library uses them.
//!
//! The library always holds such a collection exclusively, so each call acts on
//! one definite contents: a sequence for a queue, a map for a hash map.

use crate::budget::TaskBudget;
use crate::slow_queue::types::QueuedTask;
use crate::tier_manager::context::TaskId;
use crate::tier_manager::task::TaskState;
use crate::tier_manager::worker::WorkerStats;
use crossbeam::queue::SegQueue;
use dashmap::DashMap;
use vstd::prelude::*;

verus! {

/// `crossbeam`'s unbounded first-in first-out queue.
#[verifier::external_type_specification]
#[verifier::external_body]
#[verifier::reject_recursive_types(T)]
pub struct ExSegQueue<T>(crossbeam::queue::SegQueue<T>);

/// What a taker gets from a queue with this contents.
pub open spec fn front<T>(contents: Seq<T>) -> Option<T> {
    if contents.len() == 0 {
        None
    } else {
        Some(contents[0])
    }
}

/// What stays in a queue with this contents when one item is taken.
pub open spec fn rest<T>(contents: Seq<T>) -> Seq<T> {
    if contents.len() == 0 {
        contents
    } else {
        contents.skip(1)
    }
}

/// The budgets that wait in a queue, in the order in which they were pushed.
pub uninterp spec fn queued_budgets(queue: SegQueue<TaskBudget>) -> Seq<TaskBudget>;

/// `SegQueue::new` makes a queue that holds nothing.
#[verifier::external_body]
pub(crate) fn new_budget_queue() -> (queue: SegQueue<TaskBudget>)
    ensures
        queued_budgets(queue) == Seq::<TaskBudget>::empty(),
{
    SegQueue::new()
}

/// `SegQueue::push` puts the budget behind all the others.
#[verifier::external_body]
pub(crate) fn push_budget(queue: &mut SegQueue<TaskBudget>, budget: TaskBudget)
    ensures
        queued_budgets(*final(queue)) == queued_budgets(*old(queue)).push(budget),
{
    queue.push(budget)
}

/// `SegQueue::pop` takes the budget that was pushed first, or `None` when the
/// queue is empty.
#[verifier::external_body]
pub(crate) fn pop_budget(queue: &mut SegQueue<TaskBudget>) -> (budget: Option<TaskBudget>)
    ensures
        budget == front(queued_budgets(*old(queue))),
        queued_budgets(*final(queue)) == rest(queued_budgets(*old(queue))),
{
    queue.pop()
}

/// The tasks that wait in a queue, in the order in which they were pushed.
pub uninterp spec fn queued_task_ids(queue: SegQueue<TaskId>) -> Seq<TaskId>;

/// `SegQueue::new` makes a queue that holds nothing.
#[verifier::external_body]
pub(crate) fn new_task_id_queue() -> (queue: SegQueue<TaskId>)
    ensures
        queued_task_ids(queue) == Seq::<TaskId>::empty(),
{
    SegQueue::new()
}

/// `SegQueue::push` puts the task behind all the others.
#[verifier::external_body]
pub(crate) fn push_task_id(queue: &mut SegQueue<TaskId>, task_id: TaskId)
    ensures
        queued_task_ids(*final(queue)) == queued_task_ids(*old(queue)).push(task_id),
{
    queue.push(task_id)
}

/// `SegQueue::pop` takes the task that was pushed first, or `None` when the queue
/// is empty.
#[verifier::external_body]
pub(crate) fn pop_task_id(queue: &mut SegQueue<TaskId>) -> (task_id: Option<TaskId>)
    ensures
        task_id == front(queued_task_ids(*old(queue))),
        queued_task_ids(*final(queue)) == rest(queued_task_ids(*old(queue))),
{
    queue.pop()
}

/// `dashmap`'s concurrent hash map.
#[verifier::external_type_specification]
#[verifier::external_body]
#[verifier::reject_recursive_types(K)]
#[verifier::reject_recursive_types(V)]
#[verifier::reject_recursive_types(S)]
pub struct ExDashMap<K, V, S>(dashmap::DashMap<K, V, S>);

/// The tasks in a map, by the number in their identifier.
pub uninterp spec fn task_entries(map: DashMap<u64, TaskState>) -> Map<u64, TaskState>;

/// `DashMap::new` makes a map without entries.
#[verifier::external_body]
pub(crate) fn new_task_map() -> (map: DashMap<u64, TaskState>)
    ensures
        task_entries(map) == (Map::<u64, TaskState>::empty()),
{
    DashMap::new()
}

/// `DashMap::insert` sets the entry of `key` and keeps the others.
#[verifier::external_body]
pub(crate) fn insert_task(map: &mut DashMap<u64, TaskState>, key: u64, state: TaskState)
    ensures
        task_entries(*final(map)) == task_entries(*old(map)).insert(key, state),
{
    map.insert(key, state);
}

/// `DashMap::remove` takes the entry of `key` out, if there is one, and keeps the
/// others.
#[verifier::external_body]
pub(crate) fn remove_task(map: &mut DashMap<u64, TaskState>, key: u64) -> (state: Option<
    TaskState,
>)
    ensures
        state == (if task_entries(*old(map)).contains_key(key) {
            Some(task_entries(*old(map))[key])
        } else {
            None
        }),
        task_entries(*final(map)) == task_entries(*old(map)).remove(key),
{
    map.remove(&key).map(|entry| entry.1)
}

/// `DashMap::get` finds the entry of `key`; of its value the tier and the pending tier
/// change are returned.
#[verifier::external_body]
pub(crate) fn tiers_in_map(map: &DashMap<u64, TaskState>, key: u64) -> (tiers: Option<(u32, u32)>)
    ensures
        tiers == (if task_entries(*map).contains_key(key) {
            Some(
                (
                    task_entries(*map)[key].current_tier,
                    task_entries(*map)[key].pending_tier_change,
                ),
            )
        } else {
            None
        }),
{
    map.get(&key).map(|state| (state.current_tier, state.pending_tier_change))
}

/// `DashMap::get` finds the entry of `key`; of its value the operations left in
/// the budget are returned.
#[verifier::external_body]
pub(crate) fn budget_in_map(map: &DashMap<u64, TaskState>, key: u64) -> (remaining: Option<u32>)
    ensures
        remaining == (if task_entries(*map).contains_key(key) {
            Some(task_entries(*map)[key]@.budget.remaining)
        } else {
            None
        }),
{
    map.get(&key).map(|state| state.budget.remaining())
}

/// `DashMap::len` counts the entries.
#[verifier::external_body]
pub(crate) fn count_tasks(map: &DashMap<u64, TaskState>) -> (count: usize)
    ensures
        count == task_entries(*map).dom().len(),
{
    map.len()
}

/// The workers in a map, by their number.
pub uninterp spec fn worker_entries(map: DashMap<usize, WorkerStats>) -> Map<usize, WorkerStats>;

/// `DashMap::new` makes a map without entries.
#[verifier::external_body]
pub(crate) fn new_worker_map() -> (map: DashMap<usize, WorkerStats>)
    ensures
        worker_entries(map) == (Map::<usize, WorkerStats>::empty()),
{
    DashMap::new()
}

/// `DashMap::insert` sets the entry of `key` and keeps the others.
#[verifier::external_body]
pub(crate) fn insert_worker(map: &mut DashMap<usize, WorkerStats>, key: usize, stats: WorkerStats)
    ensures
        worker_entries(*final(map)) == worker_entries(*old(map)).insert(key, stats),
{
    map.insert(key, stats);
}

/// `DashMap::get` finds the entry of `key`; its value is copied out.
#[verifier::external_body]
pub(crate) fn worker_in_map(map: &DashMap<usize, WorkerStats>, key: usize) -> (stats: Option<
    WorkerStats,
>)
    ensures
        stats == (if worker_entries(*map).contains_key(key) {
            Some(worker_entries(*map)[key])
        } else {
            None
        }),
{
    map.get(&key).map(|stats| *stats)
}

/// `DashMap::iter` walks over the entries, each once, in no particular order; key
/// and value are copied out.
#[verifier::external_body]
pub(crate) fn list_workers(map: &DashMap<usize, WorkerStats>) -> (entries: Vec<
    (usize, WorkerStats),
>)
    ensures
        forall|i: int|
            0 <= i < entries.len() ==> worker_entries(*map).contains_key(
                (#[trigger] entries[i]).0,
            ) && worker_entries(*map)[entries[i].0] == entries[i].1,
        forall|i: int, j: int|
            0 <= i < j < entries.len() ==> (#[trigger] entries[i]).0 != (
            #[trigger] entries[j]).0,
        forall|key: usize| #[trigger]
            worker_entries(*map).contains_key(key) ==> exists|i: int|
                0 <= i < entries.len() && (#[trigger] entries[i]).0 == key,
{
    map.iter().map(|entry| (*entry.key(), *entry.value())).collect()
}

/// The tasks that wait in a queue, in the order in which they were pushed.
pub uninterp spec fn queued_slow_tasks(queue: SegQueue<QueuedTask>) -> Seq<QueuedTask>;

/// `SegQueue::new` makes a queue that holds nothing.
#[verifier::external_body]
pub(crate) fn new_slow_task_queue() -> (queue: SegQueue<QueuedTask>)
    ensures
        queued_slow_tasks(queue) == Seq::<QueuedTask>::empty(),
{
    SegQueue::new()
}

/// `SegQueue::push` puts the task behind all the others.
#[verifier::external_body]
pub(crate) fn push_slow_task(queue: &mut SegQueue<QueuedTask>, task: QueuedTask)
    ensures
        queued_slow_tasks(*final(queue)) == queued_slow_tasks(*old(queue)).push(task),
{
    queue.push(task)
}

/// `SegQueue::pop` takes the task that was pushed first, or `None` when the queue
/// is empty.
#[verifier::external_body]
pub(crate) fn pop_slow_task(queue: &mut SegQueue<QueuedTask>) -> (task: Option<QueuedTask>)
    ensures
        task == front(queued_slow_tasks(*old(queue))),
        queued_slow_tasks(*final(queue)) == rest(queued_slow_tasks(*old(queue))),
{
    queue.pop()
}

/// `SegQueue::len` counts the tasks.
#[verifier::external_body]
pub(crate) fn count_slow_tasks(queue: &SegQueue<QueuedTask>) -> (count: usize)
    ensures
        count == queued_slow_tasks(*queue).len(),
{
    queue.len()
}

/// How many tasks each source has in a queue, by the number of the source.
pub uninterp spec fn source_entries(map: DashMap<u64, usize>) -> Map<u64, usize>;

/// `DashMap::new` makes a map without entries.
#[verifier::external_body]
pub(crate) fn new_source_map() -> (map: DashMap<u64, usize>)
    ensures
        source_entries(map) == (Map::<u64, usize>::empty()),
{
    DashMap::new()
}

/// `DashMap::insert` sets the entry of `key` and keeps the others.
#[verifier::external_body]
pub(crate) fn insert_source(map: &mut DashMap<u64, usize>, key: u64, count: usize)
    ensures
        source_entries(*final(map)) == source_entries(*old(map)).insert(key, count),
{
    map.insert(key, count);
}

/// `DashMap::get` finds the entry of `key`; its value is copied out.
#[verifier::external_body]
pub(crate) fn source_in_map(map: &DashMap<u64, usize>, key: u64) -> (count: Option<usize>)
    ensures
        count == (if source_entries(*map).contains_key(key) {
            Some(source_entries(*map)[key])
        } else {
            None
        }),
{
    map.get(&key).map(|count| *count)
}

/// `DashMap::clear` takes all entries out.
#[verifier::external_body]
pub(crate) fn clear_sources(map: &mut DashMap<u64, usize>)
    ensures
        source_entries(*final(map)) == (Map::<u64, usize>::empty()),
{
    map.clear()
}

/// When the backoff of each task ends, by the number in its identifier.
pub uninterp spec fn backoff_entries(map: DashMap<u64, u128>) -> Map<u64, u128>;

/// `DashMap::new` makes a map without entries.
#[verifier::external_body]
pub(crate) fn new_backoff_map() -> (map: DashMap<u64, u128>)
    ensures
        backoff_entries(map) == (Map::<u64, u128>::empty()),
{
    DashMap::new()
}

/// `DashMap::insert` sets the entry of `key` and keeps the others.
#[verifier::external_body]
pub(crate) fn insert_backoff(map: &mut DashMap<u64, u128>, key: u64, until: u128)
    ensures
        backoff_entries(*final(map)) == backoff_entries(*old(map)).insert(key, until),
{
    map.insert(key, until);
}

/// `DashMap::get` finds the entry of `key`; its value is copied out.
#[verifier::external_body]
pub(crate) fn backoff_in_map(map: &DashMap<u64, u128>, key: u64) -> (until: Option<u128>)
    ensures
        until == (if backoff_entries(*map).contains_key(key) {
            Some(backoff_entries(*map)[key])
        } else {
            None
        }),
{
    map.get(&key).map(|until| *until)
}

/// `DashMap::remove` takes the entry of `key` out, if there is one, and keeps the
/// others.
#[verifier::external_body]
pub(crate) fn remove_backoff(map: &mut DashMap<u64, u128>, key: u64)
    ensures
        backoff_entries(*final(map)) == backoff_entries(*old(map)).remove(key),
{
    map.remove(&key);
}

/// `DashMap::clear` takes all entries out.
#[verifier::external_body]
pub(crate) fn clear_backoffs(map: &mut DashMap<u64, u128>)
    ensures
        backoff_entries(*final(map)) == (Map::<u64, u128>::empty()),
{
    map.clear()
}

} // verus!
