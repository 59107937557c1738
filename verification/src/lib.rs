//! A small single-threaded asynchronous runtime, expressed as verified state
//! machines: the FIFO of ready tasks, the executor that drains it, the task
//! slots, the reactor's registry of I/O interests and the handling of its
//! events, the futures' poll decisions and the `block_on` event loop.
//!
//! The futures themselves, the wakers and the system calls stay with the
//! caller, which reports to these state machines what happened and carries out
//! what they decide.

pub mod builder;
pub mod context;
pub mod net;
pub mod reactor;
pub mod runtime;
pub mod task;
