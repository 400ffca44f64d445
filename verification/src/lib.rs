//! A call bridge between a native engine and a dynamically typed host runtime.
//!
//! The engine never looks inside a host object. It holds opaque handles, asks
//! the host to act on them through a fixed table of operations, and takes
//! variable-length answers back as buffers that change owner exactly once.
//! The only state of the bridge is a memo of the host's subclass relation.

pub mod text;
pub mod handles;
pub mod buffer;
pub mod cache;
pub mod host;
pub mod bridge;
