//! The per-core cooperative scheduler: a run queue of ready tasks, executed
//! until each yields, plus the record of tasks run to completion.
//!
//! A task is an opaque unit of suspendable work. Here its behaviour is its
//! budget: the number of times it yields back to the scheduler before it
//! completes. Polling a task with no budget left completes it; polling any
//! other task consumes one unit and re-queues it.

use vstd::prelude::*;

verus! {

/// One unit of suspendable work, owned by exactly one run queue at a time.
#[derive(Clone, Copy, PartialEq, Eq, Structural, Debug)]
pub struct Task {
    /// Identity of the task, unique per runtime.
    pub id: u64,
    /// How many more times the task suspends before completing.
    pub steps: u64,
}

impl Task {
    pub fn new(id: u64, steps: u64) -> (r: Task)
        ensures
            r == (Task { id, steps }),
    {
        Task { id, steps }
    }
}

/// A reference to a spawned task's eventual completion.
#[derive(Clone, Copy, PartialEq, Eq, Structural, Debug)]
pub struct JoinHandle {
    /// The identity of the task the handle joins on.
    pub id: u64,
}

/// What one scheduler pass reports.
#[derive(Clone, Copy, PartialEq, Eq, Structural, Debug)]
pub struct TickResult {
    /// How many tasks ran to completion during the pass.
    pub completed: usize,
    /// Whether any task is still queued after the pass.
    pub has_remaining: bool,
}

/// The tasks still pending after one pass over `q`: every task with budget
/// left, one unit consumed, in their original order.
pub open spec fn tick_survivors(q: Seq<Task>) -> Seq<Task>
    decreases q.len(),
{
    if q.len() == 0 {
        Seq::empty()
    } else {
        let rest = tick_survivors(q.drop_last());
        let t = q.last();
        if t.steps > 0 {
            rest.push(Task { id: t.id, steps: (t.steps - 1) as u64 })
        } else {
            rest
        }
    }
}

/// The tasks that complete during one pass over `q`, in running order.
pub open spec fn tick_completions(q: Seq<Task>) -> Seq<u64>
    decreases q.len(),
{
    if q.len() == 0 {
        Seq::empty()
    } else {
        let rest = tick_completions(q.drop_last());
        let t = q.last();
        if t.steps == 0 {
            rest.push(t.id)
        } else {
            rest
        }
    }
}

/// A cooperative run queue bound to one core. Tasks enter through
/// [`Scheduler::spawn`] or a steal, run in queue order when the core ticks,
/// and leave only by completing.
pub struct Scheduler {
    run_queue: Vec<Task>,
    completed: Vec<u64>,
}

impl Scheduler {
    /// The queued tasks, oldest first.
    pub closed spec fn queue(&self) -> Seq<Task> {
        self.run_queue@
    }

    /// Identities of the tasks this scheduler ran to completion, in order.
    pub closed spec fn completions(&self) -> Seq<u64> {
        self.completed@
    }

    pub fn new() -> (r: Scheduler)
        ensures
            r.queue() == Seq::<Task>::empty(),
            r.completions() == Seq::<u64>::empty(),
    {
        Scheduler { run_queue: Vec::new(), completed: Vec::new() }
    }

    /// How many tasks are queued right now.
    pub fn task_count(&self) -> (r: usize)
        ensures
            r == self.queue().len(),
    {
        self.run_queue.len()
    }

    /// Enqueues a new task and hands back the handle that joins on it.
    /// Safe to call both from inside a running task and from outside the
    /// scheduler loop.
    pub fn spawn(&mut self, task: Task) -> (handle: JoinHandle)
        ensures
            final(self).queue() == old(self).queue().push(task),
            final(self).completions() == old(self).completions(),
            handle.id == task.id,
    {
        self.run_queue.push(task);
        JoinHandle { id: task.id }
    }

    /// Runs every task that was queued at the start of the pass exactly
    /// once. Tasks that suspend again go to the back of the queue; tasks
    /// whose budget is spent complete. Reports whether work remains.
    pub fn tick(&mut self) -> (r: TickResult)
        ensures
            final(self).queue() == tick_survivors(old(self).queue()),
            final(self).completions() == old(self).completions() + tick_completions(
                old(self).queue(),
            ),
            r.completed == tick_completions(old(self).queue()).len(),
            r.has_remaining == (tick_survivors(old(self).queue()).len() > 0),
    {
        let round = self.run_queue.len();
        let completed_before = self.completed.len();
        let mut i: usize = 0;
        while i < round
            invariant
                round == old(self).queue().len(),
                completed_before == old(self).completions().len(),
                i <= round,
                self.run_queue@ == old(self).queue().skip(i as int) + tick_survivors(
                    old(self).queue().take(i as int),
                ),
                self.completed@ == old(self).completions() + tick_completions(
                    old(self).queue().take(i as int),
                ),
            decreases round - i,
        {
            proof {
                assert(old(self).queue().skip(i as int).len() > 0);
                assert(self.run_queue@[0] == old(self).queue()[i as int]);
            }
            let task = self.run_queue.remove(0);
            if task.steps == 0 {
                self.completed.push(task.id);
            } else {
                self.run_queue.push(Task { id: task.id, steps: task.steps - 1 });
            }
            proof {
                let prefix = old(self).queue().take(i + 1);
                assert(prefix.drop_last() =~= old(self).queue().take(i as int));
                assert(prefix.last() == task);
                assert(old(self).queue().skip(i as int).drop_first() =~= old(
                    self,
                ).queue().skip(i + 1));
                assert(self.run_queue@ =~= old(self).queue().skip(i + 1) + tick_survivors(
                    prefix,
                ));
                assert(self.completed@ =~= old(self).completions() + tick_completions(prefix));
            }
            i = i + 1;
        }
        proof {
            assert(old(self).queue().take(round as int) =~= old(self).queue());
            assert(old(self).queue().skip(round as int) =~= Seq::<Task>::empty());
            assert(self.run_queue@ =~= tick_survivors(old(self).queue()));
        }
        TickResult {
            completed: self.completed.len() - completed_before,
            has_remaining: self.run_queue.len() > 0,
        }
    }

    /// Removes the first `count` queued tasks, oldest first, handing their
    /// ownership to the caller.
    pub fn take_batch(&mut self, count: usize) -> (batch: Vec<Task>)
        requires
            count <= old(self).queue().len(),
        ensures
            batch@ == old(self).queue().take(count as int),
            final(self).queue() == old(self).queue().skip(count as int),
            final(self).completions() == old(self).completions(),
    {
        let mut batch: Vec<Task> = Vec::new();
        let mut i: usize = 0;
        while i < count
            invariant
                count <= old(self).queue().len(),
                i <= count,
                batch@ == old(self).queue().take(i as int),
                self.run_queue@ == old(self).queue().skip(i as int),
                self.completed@ == old(self).completions(),
            decreases count - i,
        {
            proof {
                assert(self.run_queue@[0] == old(self).queue()[i as int]);
            }
            let task = self.run_queue.remove(0);
            batch.push(task);
            proof {
                assert(batch@ =~= old(self).queue().take(i + 1));
                assert(self.run_queue@ =~= old(self).queue().skip(i + 1));
            }
            i = i + 1;
        }
        batch
    }

    /// Queues a batch of tasks taken from elsewhere, keeping their order.
    pub fn give_batch(&mut self, batch: Vec<Task>)
        ensures
            final(self).queue() == old(self).queue() + batch@,
            final(self).completions() == old(self).completions(),
    {
        let mut i: usize = 0;
        let count = batch.len();
        while i < count
            invariant
                count == batch@.len(),
                i <= count,
                self.run_queue@ == old(self).queue() + batch@.take(i as int),
                self.completed@ == old(self).completions(),
            decreases count - i,
        {
            self.run_queue.push(batch[i]);
            proof {
                assert(self.run_queue@ =~= old(self).queue() + batch@.take(i + 1));
            }
            i = i + 1;
        }
        proof {
            assert(batch@.take(count as int) =~= batch@);
        }
    }

    /// Whether the task behind `handle` has completed on this scheduler.
    pub fn is_complete(&self, handle: &JoinHandle) -> (r: bool)
        ensures
            r == self.completions().contains(handle.id),
    {
        let mut i: usize = 0;
        let n = self.completed.len();
        while i < n
            invariant
                n == self.completions().len(),
                i <= n,
                forall|j: int| 0 <= j < i ==> self.completions()[j] != handle.id,
            decreases n - i,
        {
            if self.completed[i] == handle.id {
                return true;
            }
            i = i + 1;
        }
        false
    }
}

} // verus!
