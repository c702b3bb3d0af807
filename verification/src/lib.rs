//! Core of a bulk file-transfer engine: a bounded-concurrency admission
//! scheduler, a resumable per-task execution state machine with a
//! time-windowed retry policy, a completion tracker, and the header and
//! path computations those components rely on.
//!
//! The components here are pure state machines: every network, filesystem
//! and timing effect is represented by an action handed to the caller and
//! an event handed back, so the decision logic is verified for every
//! possible outcome of the outside world.

pub mod digits;
pub mod engine;
pub mod headers;
pub mod log;
pub mod paths;
pub mod scheduler;
pub mod task;
pub mod waitgroup;
