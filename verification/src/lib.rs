//! Diagnostic library for observing and provoking virtual-memory behavior:
//! a model of lockable memory regions, a session that manages locked and
//! unlocked heaps of such regions, telemetry that parses kernel memory
//! counters and derives swap-activity deltas, and the key-to-action decoding
//! of the interactive controller.

pub mod controller;
pub mod region;
pub mod session;
pub mod telemetry;
pub mod term;
