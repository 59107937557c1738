//! Spawned tasks: the slot that holds a task's future between polls, and the
//! runtime the task belongs to.

use vstd::prelude::*;
use crate::runtime::context::{ContextSlot, enter_context, leave_context};
use crate::runtime::queue::{TaskId, queue_after_push};
use crate::runtime::executor::Executor;

verus! {

/// A spawned task of runtime `runtime`. Its future is kept outside the
/// library; the task records whether the future is stored in its slot (it is
/// taken out while it is being polled and is not put back once it has
/// completed).
#[derive(Clone, Copy)]
pub struct Task {
    pub id: TaskId,
    pub runtime: u64,
    pub future_stored: bool,
}

impl Task {
    /// Creates a new task of runtime `runtime` whose future is stored and
    /// ready to be polled.
    pub fn new(id: TaskId, runtime: u64) -> (t: Self)
        ensures
            t.id == id,
            t.runtime == runtime,
            t.future_stored,
    {
        Task { id, runtime, future_stored: true }
    }

    /// Starts polling the task: enters the context of its runtime (so that
    /// what the future spawns goes to that runtime) and takes the future out
    /// of the slot. Returns whether there was a future to poll; a task whose
    /// future has completed is not polled again.
    pub fn poll(&mut self, slot: &mut ContextSlot) -> (must_poll: bool)
        ensures
            must_poll == old(self).future_stored,
            final(self).id == old(self).id,
            final(self).runtime == old(self).runtime,
            !final(self).future_stored,
            final(slot)@ == old(slot)@.push(old(self).runtime),
    {
        enter_context(slot, self.runtime);
        let stored = self.future_stored;
        self.future_stored = false;
        stored
    }

    /// Finishes polling the task: a pending future goes back into the slot, a
    /// ready one is dropped, and the context entered by `poll` is left.
    pub fn finish_poll(&mut self, pending: bool, slot: &mut ContextSlot)
        requires
            old(slot).current() == Some(old(self).runtime),
        ensures
            final(self).id == old(self).id,
            final(self).runtime == old(self).runtime,
            final(self).future_stored == (old(self).future_stored || pending),
            final(slot)@ == old(slot)@.drop_last(),
    {
        if pending {
            self.future_stored = true;
        }
        leave_context(slot);
    }

    /// Spawns another task on the executor that runs this one (the one of
    /// its runtime); the new task gets the next identifier and joins the queue.
    pub fn spawn(&self, executor: &mut Executor) -> (id: TaskId)
        requires
            old(executor).wf(),
            old(executor)@.runtime == self.runtime,
            old(executor)@.stored.len() < u64::MAX,
        ensures
            final(executor).wf(),
            final(executor)@.runtime == old(executor)@.runtime,
            id == old(executor)@.stored.len(),
            final(executor)@.stored == old(executor)@.stored.push(true),
            final(executor)@.queue == queue_after_push(old(executor)@.queue, id),
    {
        executor.spawn()
    }
}

} // verus!
