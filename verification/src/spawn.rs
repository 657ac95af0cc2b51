//! The queue through which any thread hands work to the event loop.
//!
//! The queue itself is plain data: whoever shares it between threads guards
//! it with a lock, so the enqueues reach it one after the other, and the loop
//! thread alone drains it.

use vstd::prelude::*;

verus! {

/// Tasks in the order in which they were enqueued, and whether the loop has
/// been signalled since it last drained them.
pub struct SpawnQueue<T> {
    pub tasks: Vec<T>,
    pub signalled: bool,
}

impl<T> SpawnQueue<T> {
    /// An empty queue.
    pub fn new() -> (queue: SpawnQueue<T>)
        ensures
            queue.tasks@ == Seq::<T>::empty(),
            !queue.signalled,
    {
        SpawnQueue { tasks: Vec::new(), signalled: false }
    }

    /// Appends a task. The result says whether the loop has to be woken:
    /// one signal serves every task enqueued before the next drain.
    pub fn enqueue(&mut self, task: T) -> (wake: bool)
        ensures
            final(self).tasks@ == old(self).tasks@.push(task),
            final(self).signalled,
            wake == !old(self).signalled,
    {
        self.tasks.push(task);
        let wake = !self.signalled;
        self.signalled = true;
        wake
    }

    /// Whether no task waits.
    pub fn is_empty(&self) -> (empty: bool)
        ensures
            empty == (self.tasks@.len() == 0),
    {
        self.tasks.len() == 0
    }

    /// Takes out every task that is in the queue, oldest first, for the loop
    /// to execute; the loop has executed something if the result is not
    /// empty. The drain does not depend on a signal having been seen.
    pub fn run(&mut self) -> (tasks: Vec<T>)
        ensures
            tasks@ == old(self).tasks@,
            final(self).tasks@ == Seq::<T>::empty(),
            !final(self).signalled,
    {
        let mut tasks: Vec<T> = Vec::new();
        tasks.append(&mut self.tasks);
        self.signalled = false;
        tasks
    }
}

/// What an empty queue holds after `tasks` were enqueued in this order.
pub open spec fn enqueued<T>(tasks: Seq<T>) -> Seq<T>
    decreases tasks.len(),
{
    if tasks.len() == 0 {
        Seq::<T>::empty()
    } else {
        enqueued(tasks.drop_last()).push(tasks.last())
    }
}

/// A drain hands out every task that was enqueued exactly once and in the
/// order of the enqueues. So, in whatever way the enqueues of several
/// producers interleave, the tasks of any one producer, picked out by
/// `mine`, are executed in the order in which that producer enqueued them.
pub proof fn lemma_drain_keeps_every_task<T>(tasks: Seq<T>, mine: spec_fn(T) -> bool)
    ensures
        enqueued(tasks) == tasks,
        enqueued(tasks).len() == tasks.len(),
        enqueued(tasks).to_multiset() == tasks.to_multiset(),
        enqueued(tasks).filter(mine) == tasks.filter(mine),
    decreases tasks.len(),
{
    if tasks.len() > 0 {
        lemma_drain_keeps_every_task(tasks.drop_last(), mine);
        assert(tasks.drop_last().push(tasks.last()) == tasks);
    }
}

} // verus!
