//! The executor: spawns tasks and hands them out, in queue order, to be polled.

use vstd::prelude::*;
use crate::runtime::queue::{TaskId, TaskQueue, queue_after_push};
use crate::task::Task;
use crate::runtime::context::{ContextSlot, leave_context};

verus! {

/// Whether the task `id` holds a future that can be polled.
pub open spec fn pollable(stored: Seq<bool>, id: TaskId) -> bool {
    id < stored.len() && stored[id as int]
}

/// The task that the next drain step gives out from queue `q`, and the queue
/// that is left: entries are popped from the front until one names a task whose
/// future is stored; the others (unknown or completed tasks) are dropped.
pub open spec fn next_pollable(q: Seq<TaskId>, stored: Seq<bool>) -> (Option<TaskId>, Seq<TaskId>)
    decreases q.len(),
{
    if q.len() == 0 {
        (None, q)
    } else if pollable(stored, q[0]) {
        (Some(q[0]), q.drop_first())
    } else {
        next_pollable(q.drop_first(), stored)
    }
}

/// Abstract state of an executor: the runtime it belongs to, its ready queue,
/// and for each task (indexed by its identifier) whether its future is
/// stored.
pub struct ExecutorView {
    pub runtime: u64,
    pub queue: Seq<TaskId>,
    pub stored: Seq<bool>,
}

/// Executes tasks from its task queue. The drain loop lives with the caller,
/// which polls the futures: `run` gives out the next task to poll and
/// `finish_poll` records the outcome.
pub struct Executor {
    queue: TaskQueue,
    tasks: Vec<Task>,
}

impl View for Executor {
    type V = ExecutorView;

    closed spec fn view(&self) -> ExecutorView {
        ExecutorView {
            runtime: self.queue.runtime(),
            queue: self.queue@,
            stored: Seq::new(self.tasks@.len(), |i: int| self.tasks@[i].future_stored),
        }
    }
}

impl Executor {
    /// Internal consistency: task `i` of the table has identifier `i` and
    /// belongs to the executor's runtime.
    pub closed spec fn wf(&self) -> bool {
        forall|i: int| 0 <= i < self.tasks@.len() ==> #[trigger] self.tasks@[i].id == i
            && self.tasks@[i].runtime == self.queue.runtime()
    }

    /// Creates a new executor that drains the given queue. Its task table is
    /// empty, so entries already in the queue name no task and are skipped.
    pub fn new(queue: TaskQueue) -> (e: Self)
        ensures
            e.wf(),
            e@.runtime == queue.runtime(),
            e@.queue == queue@,
            e@.stored == Seq::<bool>::empty(),
    {
        Executor { queue, tasks: Vec::new() }
    }

    /// The runtime this executor belongs to.
    pub fn runtime_id(&self) -> (id: u64)
        ensures
            id == self@.runtime,
    {
        self.queue.runtime_id()
    }

    /// Number of tasks spawned so far.
    pub fn task_count(&self) -> (n: usize)
        ensures
            n == self@.stored.len(),
    {
        self.tasks.len()
    }

    /// Whether the ready queue is empty.
    pub fn queue_is_empty(&self) -> (b: bool)
        ensures
            b == (self@.queue.len() == 0),
    {
        self.queue.is_empty()
    }

    /// Spawns a new task: it gets the next identifier, its future is stored,
    /// and it is pushed at the back of the ready queue.
    pub fn spawn(&mut self) -> (id: TaskId)
        requires
            old(self).wf(),
            old(self)@.stored.len() < u64::MAX,
        ensures
            final(self).wf(),
            final(self)@.runtime == old(self)@.runtime,
            id == old(self)@.stored.len(),
            final(self)@.stored == old(self)@.stored.push(true),
            final(self)@.queue == queue_after_push(old(self)@.queue, id),
    {
        let id = self.tasks.len() as u64;
        self.tasks.push(Task::new(id, self.queue.runtime_id()));
        self.queue.push(id);
        proof {
            assert(self@.stored =~= old(self)@.stored.push(true));
        }
        id
    }

    /// Re-enqueues task `id` so that it is polled again (what waking it does).
    pub fn wake(&mut self, id: TaskId)
        requires
            old(self).wf(),
        ensures
            final(self).wf(),
            final(self)@.runtime == old(self)@.runtime,
            final(self)@.stored == old(self)@.stored,
            final(self)@.queue == queue_after_push(old(self)@.queue, id),
    {
        self.queue.push(id);
    }

    /// One step of draining the queue: pops entries until one names a task
    /// whose future is stored, and starts polling that task (entering the
    /// context of the executor's runtime and taking its future out); `None`
    /// once the queue is empty.
    pub fn run(&mut self, slot: &mut ContextSlot) -> (next: Option<Task>)
        requires
            old(self).wf(),
        ensures
            final(self).wf(),
            final(self)@.runtime == old(self)@.runtime,
            final(self)@.queue == next_pollable(old(self)@.queue, old(self)@.stored).1,
            match next_pollable(old(self)@.queue, old(self)@.stored).0 {
                Some(id) => {
                    &&& next == Some(Task { id, runtime: old(self)@.runtime, future_stored: false })
                    &&& final(self)@.stored == old(self)@.stored.update(id as int, false)
                    &&& final(slot)@ == old(slot)@.push(old(self)@.runtime)
                },
                None => {
                    &&& next is None
                    &&& final(self)@.stored == old(self)@.stored
                    &&& final(slot)@ == old(slot)@
                },
            },
    {
        let ghost stored0 = self@.stored;
        let ghost queue0 = self@.queue;
        loop
            invariant
                self.wf(),
                self@.stored == stored0,
                self@.runtime == old(self)@.runtime,
                stored0 == old(self)@.stored,
                queue0 == old(self)@.queue,
                slot@ == old(slot)@,
                next_pollable(self@.queue, stored0) == next_pollable(queue0, stored0),
            decreases self@.queue.len(),
        {
            let ghost before = self@.queue;
            match self.queue.pop() {
                None => {
                    assert(next_pollable(before, stored0) == (None::<TaskId>, before));
                    return None;
                },
                Some(id) => {
                    assert(before.len() > 0 && before[0] == id);
                    if id < self.tasks.len() as u64 {
                        let idx = id as usize;
                        let mut task = self.tasks[idx];
                        assert(stored0[id as int] == task.future_stored);
                        if task.future_stored {
                            assert(next_pollable(before, stored0) == (Some(id), before.drop_first()));
                            task.poll(slot);
                            self.tasks.set(idx, task);
                            proof {
                                assert(self@.stored =~= stored0.update(id as int, false));
                            }
                            return Some(task);
                        }
                    }
                },
            }
        }
    }

    /// Finishes polling task `id`, which `run` gave out: a pending future is
    /// stored again, a completed one is dropped, and the context that `run`
    /// entered is left.
    pub fn finish_poll(&mut self, id: TaskId, pending: bool, slot: &mut ContextSlot)
        requires
            old(self).wf(),
            old(slot).current() == Some(old(self)@.runtime),
        ensures
            final(self).wf(),
            final(self)@.runtime == old(self)@.runtime,
            final(self)@.queue == old(self)@.queue,
            final(self)@.stored == if pending && id < old(self)@.stored.len() {
                old(self)@.stored.update(id as int, true)
            } else {
                old(self)@.stored
            },
            final(slot)@ == old(slot)@.drop_last(),
    {
        if id < self.tasks.len() as u64 {
            let idx = id as usize;
            let mut task = self.tasks[idx];
            assert(self.tasks@[idx as int].id == idx);
            task.finish_poll(pending, slot);
            self.tasks.set(idx, task);
            proof {
                if pending {
                    assert(self@.stored =~= old(self)@.stored.update(id as int, true));
                } else {
                    assert(self@.stored =~= old(self)@.stored);
                }
            }
        } else {
            leave_context(slot);
        }
    }
}

/// A drain step gives out the first queued task whose future is stored, and
/// removes from the queue exactly the entries up to and including it: the
/// entries before it could not be polled, and every entry after it stays
/// queued in order. When it gives out nothing, no queued task could be
/// polled and the queue is left empty.
pub proof fn lemma_next_pollable(q: Seq<TaskId>, stored: Seq<bool>)
    ensures
        match next_pollable(q, stored).0 {
            Some(id) => exists|j: int| {
                &&& 0 <= j < q.len()
                &&& q[j] == id
                &&& pollable(stored, id)
                &&& (forall|i: int| 0 <= i < j ==> !pollable(stored, #[trigger] q[i]))
                &&& next_pollable(q, stored).1 == q.subrange(j + 1, q.len() as int)
            },
            None => next_pollable(q, stored).1.len() == 0
                && forall|i: int| 0 <= i < q.len() ==> !pollable(stored, #[trigger] q[i]),
        },
    decreases q.len(),
{
    if q.len() == 0 {
    } else if pollable(stored, q[0]) {
        assert(next_pollable(q, stored).1 =~= q.subrange(1, q.len() as int));
        assert(forall|i: int| 0 <= i < 0 ==> !pollable(stored, #[trigger] q[i]));
    } else {
        let rest = q.drop_first();
        lemma_next_pollable(rest, stored);
        match next_pollable(rest, stored).0 {
            Some(id) => {
                let j = choose|j: int| {
                    &&& 0 <= j < rest.len()
                    &&& rest[j] == id
                    &&& pollable(stored, id)
                    &&& (forall|i: int| 0 <= i < j ==> !pollable(stored, #[trigger] rest[i]))
                    &&& next_pollable(rest, stored).1 == rest.subrange(j + 1, rest.len() as int)
                };
                assert(q[j + 1] == id);
                assert forall|i: int| 0 <= i < j + 1 implies !pollable(stored, #[trigger] q[i]) by {
                    if i > 0 {
                        assert(q[i] == rest[i - 1]);
                    }
                }
                assert(next_pollable(q, stored).1 =~= q.subrange(j + 2, q.len() as int));
            },
            None => {
                assert forall|i: int| 0 <= i < q.len() implies !pollable(stored, #[trigger] q[i]) by {
                    if i > 0 {
                        assert(q[i] == rest[i - 1]);
                    }
                }
            },
        }
    }
}

/// A drain step never drops a task that could be polled: every entry that
/// leaves the queue either is the task given out or could not be polled, and
/// the queue left keeps the order of the entries that stay.
pub proof fn lemma_run_drops_no_pollable_task(q: Seq<TaskId>, stored: Seq<bool>)
    ensures
        ({
            let (next, rest) = next_pollable(q, stored);
            &&& rest.len() <= q.len()
            &&& rest == q.subrange(q.len() - rest.len(), q.len() as int)
            &&& forall|i: int| 0 <= i < q.len() - rest.len() && pollable(stored, #[trigger] q[i])
                ==> next == Some(q[i]) && i == q.len() - rest.len() - 1
        }),
{
    lemma_next_pollable(q, stored);
    let (next, rest) = next_pollable(q, stored);
    match next {
        Some(id) => {
            let j = choose|j: int| {
                &&& 0 <= j < q.len()
                &&& q[j] == id
                &&& pollable(stored, id)
                &&& (forall|i: int| 0 <= i < j ==> !pollable(stored, #[trigger] q[i]))
                &&& rest == q.subrange(j + 1, q.len() as int)
            };
            assert(rest.len() == q.len() - j - 1);
        },
        None => {
            assert(rest =~= q.subrange(q.len() as int, q.len() as int));
        },
    }
}

/// A task whose future has completed (is not stored) is never given out to
/// be polled again.
pub proof fn lemma_completed_task_not_polled(q: Seq<TaskId>, stored: Seq<bool>, id: TaskId)
    requires
        !pollable(stored, id),
    ensures
        next_pollable(q, stored).0 != Some(id),
{
    lemma_next_pollable(q, stored);
}

/// When no queued task can be polled (and none of the queued entries names
/// the next identifier), a task just spawned is the next one given out.
pub proof fn lemma_spawned_task_runs_next(q: Seq<TaskId>, stored: Seq<bool>)
    requires
        forall|i: int| 0 <= i < q.len() ==> !pollable(stored, #[trigger] q[i]),
        forall|i: int| 0 <= i < q.len() ==> #[trigger] q[i] != stored.len(),
        stored.len() < u64::MAX,
    ensures
        next_pollable(queue_after_push(q, stored.len() as TaskId), stored.push(true)).0
            == Some(stored.len() as TaskId),
    decreases q.len(),
{
    let id = stored.len() as TaskId;
    let s2 = stored.push(true);
    let q2 = queue_after_push(q, id);
    if q.len() == 0 {
        assert(q2[0] == id);
    } else {
        assert(q2[0] == q[0]);
        assert(!pollable(stored, q[0]));
        assert(!pollable(s2, q[0]));
        assert(q2.drop_first() =~= queue_after_push(q.drop_first(), id));
        assert forall|i: int| 0 <= i < q.drop_first().len() implies !pollable(stored, #[trigger] q.drop_first()[i])
            && q.drop_first()[i] != stored.len() by {
            assert(q.drop_first()[i] == q[i + 1]);
        }
        lemma_spawned_task_runs_next(q.drop_first(), stored);
    }
}

} // verus!
