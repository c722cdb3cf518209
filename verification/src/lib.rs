//! The process-launch bridge of a desktop launcher.
//!
//! A dispatcher maps command names to handlers. Handlers that compute run
//! in-line; handlers that launch a child process are handed to a worker, and
//! the worker is driven by a state machine that says which operating-system
//! call comes next and what each answer of the operating system leads to.
//! The library performs no I/O itself: callers make the calls and report the
//! outcomes.

pub mod error;
pub mod greeting;
pub mod process;
pub mod command;
pub mod executor;
pub mod dispatcher;
