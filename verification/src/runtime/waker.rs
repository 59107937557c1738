//! Task wakers: waking a task pushes it back on its runtime's queue.

use vstd::prelude::*;
use crate::runtime::executor::Executor;
use crate::runtime::queue::{TaskId, queue_after_push};
use crate::task::Task;

verus! {

/// Waker of a task: waking it re-queues the task on its runtime's executor.
#[derive(Clone, Copy)]
pub struct TaskWaker {
    pub task: TaskId,
    pub runtime: u64,
}

impl TaskWaker {
    /// Creates a new waker for the given task.
    pub fn new(task: Task) -> (w: Self)
        ensures
            w.task == task.id,
            w.runtime == task.runtime,
    {
        TaskWaker { task: task.id, runtime: task.runtime }
    }

    /// Wakes the task by pushing it at the back of its runtime's queue.
    pub fn wake(&self, executor: &mut Executor)
        requires
            old(executor).wf(),
            old(executor)@.runtime == self.runtime,
        ensures
            final(executor).wf(),
            final(executor)@.runtime == old(executor)@.runtime,
            final(executor)@.stored == old(executor)@.stored,
            final(executor)@.queue == queue_after_push(old(executor)@.queue, self.task),
    {
        executor.wake(self.task);
    }
}

} // verus!
