//! The worker side of a shared-memory processing harness: control-channel
//! frames, shared segments, compute backends and the session state machine.
pub mod frame;
pub mod buffer;
pub mod selector;
pub mod compute;
pub mod reth;
pub mod session;
