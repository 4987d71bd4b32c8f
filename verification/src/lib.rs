//! Runtime-scoped packet tunnels between a host and an in-process network stack.
//!
//! A tunnel holds two bounded queues of raw IP packets: the host writes into the
//! input queue and reads from the output queue, while the network stack owns a
//! transport that does the opposite. The library holds the state of all tunnels
//! and decides every transition. What has to happen outside (waking a task,
//! calling back into the host, waiting for callbacks to return) is handed to the
//! caller as a list of effects.

pub mod errno;
pub mod error;
pub mod ffi;
pub mod inbound;
pub mod packet_io;
pub mod text;
