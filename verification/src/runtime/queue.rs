//! FIFO queue of ready tasks.

use vstd::prelude::*;
use std::collections::VecDeque;

verus! {

/// Identifier of a spawned task.
pub type TaskId = u64;

/// A FIFO queue holding the identifiers of the tasks that are ready to be
/// polled. Tasks are pushed when spawned or woken and popped by the executor.
/// The queue belongs to one runtime, named by `runtime`.
pub struct TaskQueue {
    runtime: u64,
    queue: VecDeque<TaskId>,
}

impl View for TaskQueue {
    type V = Seq<TaskId>;

    closed spec fn view(&self) -> Seq<TaskId> {
        self.queue@
    }
}

/// The queue after `task` is pushed at its back.
pub open spec fn queue_after_push(q: Seq<TaskId>, task: TaskId) -> Seq<TaskId> {
    q.push(task)
}

/// What a pop gives back from `q`: its front, if any.
pub open spec fn queue_front(q: Seq<TaskId>) -> Option<TaskId> {
    if q.len() == 0 { None } else { Some(q[0]) }
}

/// The queue after a pop: its front removed, if any.
pub open spec fn queue_after_pop(q: Seq<TaskId>) -> Seq<TaskId> {
    if q.len() == 0 { q } else { q.drop_first() }
}

impl TaskQueue {
    /// Creates a new empty task queue for runtime `runtime`.
    pub fn new(runtime: u64) -> (q: Self)
        ensures
            q@ == Seq::<TaskId>::empty(),
            q.runtime() == runtime,
    {
        TaskQueue { runtime, queue: VecDeque::new() }
    }

    /// The runtime this queue belongs to.
    pub closed spec fn runtime(&self) -> u64 {
        self.runtime
    }

    /// The runtime this queue belongs to.
    pub fn runtime_id(&self) -> (r: u64)
        ensures
            r == self.runtime(),
    {
        self.runtime
    }

    /// Enqueues a task at the back of the queue.
    pub fn push(&mut self, task: TaskId)
        ensures
            final(self)@ == queue_after_push(old(self)@, task),
            final(self).runtime() == old(self).runtime(),
    {
        self.queue.push_back(task);
    }

    /// Dequeues the task at the front of the queue; `None` when it is empty.
    pub fn pop(&mut self) -> (task: Option<TaskId>)
        ensures
            task == queue_front(old(self)@),
            final(self)@ == queue_after_pop(old(self)@),
            final(self).runtime() == old(self).runtime(),
    {
        self.queue.pop_front()
    }

    /// Whether the queue holds no task.
    pub fn is_empty(&self) -> (b: bool)
        ensures
            b == (self@.len() == 0),
    {
        self.queue.len() == 0
    }
}

/// The queue is first in, first out: pushing onto a non-empty queue leaves
/// its front in place and pops go on from it, while a task pushed onto an
/// empty queue is the next one popped.
pub proof fn lemma_fifo(q: Seq<TaskId>, task: TaskId)
    ensures
        queue_front(queue_after_push(q, task)) == if q.len() == 0 { Some(task) } else { queue_front(q) },
        q.len() > 0 ==> queue_after_pop(queue_after_push(q, task)) == queue_after_push(queue_after_pop(q), task),
        q.len() == 0 ==> queue_after_pop(queue_after_push(q, task)) == q,
{
    if q.len() > 0 {
        assert(queue_after_pop(queue_after_push(q, task)) =~= queue_after_push(queue_after_pop(q), task));
    } else {
        assert(queue_after_pop(queue_after_push(q, task)) =~= q);
    }
}

} // verus!
