//! Builder for Runtime construction.

use vstd::prelude::*;
use crate::runtime::runtime::Runtime;
use crate::runtime::queue::TaskId;
use crate::reactor::reactor::empty_reactor_view;

verus! {

/// Builder for constructing Runtime instances.
pub struct RuntimeBuilder {
    /// The identifier that names the runtime in runtime contexts.
    pub runtime_id: u64,
}

impl RuntimeBuilder {
    /// Creates a new runtime builder, for a runtime named `0` unless
    /// configured otherwise.
    pub fn new() -> (b: Self)
        ensures
            b.runtime_id == 0,
    {
        RuntimeBuilder { runtime_id: 0 }
    }

    /// Configures the identifier that names the runtime in runtime contexts.
    pub fn runtime_id(self, id: u64) -> (b: Self)
        ensures
            b.runtime_id == id,
    {
        RuntimeBuilder { runtime_id: id, ..self }
    }

    /// Builds a runtime, with the configured identifier, an empty task queue,
    /// no task and a reactor with nothing registered.
    pub fn build(self) -> (rt: Runtime)
        ensures
            rt.wf(),
            rt.executor().runtime == self.runtime_id,
            rt.executor().queue == Seq::<TaskId>::empty(),
            rt.executor().stored == Seq::<bool>::empty(),
            rt.reactor()@ == empty_reactor_view(self.runtime_id),
    {
        Runtime::new(self.runtime_id)
    }
}

} // verus!
