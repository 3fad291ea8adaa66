//! A byte-stream transport over WebSocket connections.
//!
//! The transport carries a byte stream as a series of binary WebSocket
//! messages. This crate holds its logic: the read buffer that turns received
//! messages back into a byte stream, the write path that turns each write into
//! one message, the decisions of the two relay tasks, and the endpoint, URL and
//! error rules of connecting and accepting.

pub mod read_buffer;
mod sender;
pub mod channel;
pub mod endpoint;
pub mod relay;
