//! A process-isolated bridge to an embedded scripting runtime.
//!
//! A host process talks to a worker process over two byte channels with a
//! small framed protocol. This crate holds the protocol itself: the frame
//! codec, the host session and the worker loop as state machines that are
//! driven by whoever owns the channels, and the records of the runtime
//! session that the worker keeps.

pub mod error;
pub mod codec;
pub mod runtime;
pub mod worker;
pub mod host;
pub mod laws;
