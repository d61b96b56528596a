//! A verified core for streaming a child process.
//!
//! The crate does no input or output. It holds what is decided while a
//! child runs: how the bytes of a pipe become lines ([`lines`]), what the
//! consumer sees for each thing that happens and when the run is over
//! ([`lifecycle`], [`trace`]), how a request to cancel is delivered once
//! ([`cancel`]), and the state of one process from its settings to its end
//! ([`process`], [`conduct`]). The driver of a run spawns the child, reads,
//! waits and kills; it hands what happened to this crate and does what it is
//! told.
pub mod cancel;
pub mod conduct;
pub mod item;
pub mod lifecycle;
pub mod lines;
pub mod process;
pub mod text;
pub mod trace;
pub mod update;
