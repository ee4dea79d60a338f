//! A task supervisor: an in-memory registry of launched child processes.
//!
//! The registry assigns each launched command a unique, strictly increasing
//! id, tracks its lifecycle (running until a terminal status is observed),
//! and reconciles registry state against the real OS process state on
//! demand, through a non-blocking poll.

pub mod os;
pub mod status;
pub mod task_manager;
