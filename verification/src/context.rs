//! Spawning on the runtime of the current context.

use vstd::prelude::*;
use crate::runtime::context::ContextSlot;
use crate::runtime::executor::Executor;
use crate::runtime::queue::{TaskId, queue_after_push};

verus! {

/// Spawns a task on the runtime of the current context, whose executor is
/// `executor`. Outside of any runtime context there is nowhere to spawn.
pub fn spawn(slot: &ContextSlot, executor: &mut Executor) -> (id: TaskId)
    requires
        slot.current() == Some(old(executor)@.runtime),
        old(executor).wf(),
        old(executor)@.stored.len() < u64::MAX,
    ensures
        final(executor).wf(),
        final(executor)@.runtime == old(executor)@.runtime,
        id == old(executor)@.stored.len(),
        final(executor)@.stored == old(executor)@.stored.push(true),
        final(executor)@.queue == queue_after_push(old(executor)@.queue, id),
{
    executor.spawn()
}

} // verus!
