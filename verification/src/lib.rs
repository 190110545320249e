//! A protocol-parametric TCP inter-process communication endpoint: the
//! framing engine that turns a byte stream into `(command, payload)` messages,
//! and the decisions of the background reader and of the endpoint handle.

pub mod protocol;
pub mod framing;
pub mod protocol_buffer;
pub mod protocol_example;
pub mod tcp_ipc;
pub mod read_worker;
pub mod connect;
