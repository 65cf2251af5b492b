//! Verified core of a WebRTC client wrapper: the media delivery pipeline
//! (jitter buffering and sample reconstruction, sinks, track read/write
//! gating) and the connection event bridge (engine state translation,
//! session description handling).
//!
//! Network I/O, asynchronous plumbing and the engine objects themselves live
//! outside this crate; the functions here take and return plain values and
//! carry contracts for everything they decide.

pub mod connection;
pub mod datachannel;
pub mod media;
pub mod reconstructor;
pub mod rtc;
pub mod senders;
pub mod sink;
pub mod track;
pub mod writer;
