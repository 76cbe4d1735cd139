//! Host-call layer of a capability-based sandbox runtime.
//!
//! A guest program reaches the host through a small set of numbered calls, each
//! of which answers with one numeric status. This crate holds the rules behind
//! three of them, the two clock calls and the readiness poll, together with the
//! boundary that turns every outcome into a status and a trace record.

pub mod clock;
pub mod dispatch;
pub mod error;
pub mod host_time;
pub mod poll;
pub mod subscription;
pub mod wait;
