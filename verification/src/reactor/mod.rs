pub mod future;
pub mod io;
pub mod reactor;
pub mod sleep;
