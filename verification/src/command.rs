//! Commands: what handles them, how they are invoked, what they answer.

use vstd::prelude::*;
use crate::error::CommandError;
use crate::process::ChildProcessSpec;

verus! {

/// Whether invoking a command may block its caller.
#[derive(Clone, Copy, Debug, PartialEq, Eq, Structural)]
pub enum InvocationMode {
    /// The handler runs in the caller's own context.
    Sync,
    /// The handler is handed to a worker; the caller gets a pending call.
    Async,
}

/// The handlers that a command name can be bound to.
#[derive(Clone, Debug)]
pub enum Handler {
    /// Answers with a greeting for the name given as first argument.
    Greet,
    /// Launches the process described and waits for its end.
    Launch(ChildProcessSpec),
}

/// What a command answers with when it succeeds.
#[derive(Clone, Debug, PartialEq, Eq)]
pub enum Payload {
    /// A text, such as a greeting.
    Text(String),
    /// Nothing but the fact that the command is done.
    Unit,
}

/// The answer to one command: its payload, or a structured failure.
pub type CommandResult = Result<Payload, CommandError>;

/// A handler together with the mode fixed for it at registration.
#[derive(Clone, Debug)]
pub struct Binding {
    pub handler: Handler,
    pub mode: InvocationMode,
}

/// A request as the user interface sends it. The mode is no part of it: it
/// was fixed when the name was registered.
#[derive(Clone, Debug)]
pub struct CommandRequest {
    pub name: String,
    pub arguments: Vec<String>,
}

} // verus!
