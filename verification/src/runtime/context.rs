//! The runtime context of a thread: which runtime's queue spawned tasks go
//! to. Contexts nest: entering one makes it current, and leaving it makes the
//! one that was current before current again.

use vstd::prelude::*;

verus! {

/// The runtime contexts a thread has entered and not yet left, innermost
/// last, each named by its runtime's identifier.
pub struct ContextSlot {
    entered: Vec<u64>,
}

impl View for ContextSlot {
    type V = Seq<u64>;

    closed spec fn view(&self) -> Seq<u64> {
        self.entered@
    }
}

/// The current runtime of a stack of entered contexts: the innermost one.
pub open spec fn current_of(entered: Seq<u64>) -> Option<u64> {
    if entered.len() == 0 { None } else { Some(entered.last()) }
}

impl ContextSlot {
    /// A thread's context before any runtime is entered.
    pub fn new() -> (s: Self)
        ensures
            s@ == Seq::<u64>::empty(),
    {
        ContextSlot { entered: Vec::new() }
    }

    /// The runtime currently entered, if any.
    pub open spec fn current(&self) -> Option<u64> {
        current_of(self@)
    }

    /// The runtime currently entered, if any.
    pub fn current_runtime(&self) -> (c: Option<u64>)
        ensures
            c == self.current(),
    {
        let n = self.entered.len();
        if n == 0 {
            None
        } else {
            Some(self.entered[n - 1])
        }
    }
}

/// Enters the context of runtime `runtime`: it becomes current until the
/// matching `leave_context`.
pub fn enter_context(slot: &mut ContextSlot, runtime: u64)
    ensures
        final(slot)@ == old(slot)@.push(runtime),
        final(slot).current() == Some(runtime),
{
    slot.entered.push(runtime);
}

/// Leaves the innermost context, making current again the one that was
/// current when it was entered.
pub fn leave_context(slot: &mut ContextSlot)
    requires
        old(slot)@.len() > 0,
    ensures
        final(slot)@ == old(slot)@.drop_last(),
{
    slot.entered.pop();
    proof {
        assert(slot@ =~= old(slot)@.drop_last());
    }
}

/// Contexts nest: after entering `outer` then `inner`, leaving the inner one
/// makes `outer` current again, and leaving the outer one restores what was
/// current at first.
pub proof fn lemma_nested_contexts_restore(entered: Seq<u64>, outer: u64, inner: u64)
    ensures
        current_of(entered.push(outer).push(inner)) == Some(inner),
        entered.push(outer).push(inner).drop_last() == entered.push(outer),
        current_of(entered.push(outer)) == Some(outer),
        entered.push(outer).drop_last() == entered,
{
    assert(entered.push(outer).push(inner).drop_last() =~= entered.push(outer));
    assert(entered.push(outer).drop_last() =~= entered);
}

} // verus!
