pub mod future;
pub mod tcp_stream;
