pub mod context;
pub mod executor;
pub mod queue;
pub mod runtime;
pub mod waker;
