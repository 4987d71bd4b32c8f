//! The functions that the host calls, on plain values in place of pointers.
//!
//! A pointer is given as an `Option`, which is `None` where the host passed null.

pub mod runtime;
pub mod runtime_laws;
pub mod tunnel;
pub mod tunnel_laws;
