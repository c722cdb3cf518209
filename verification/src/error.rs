//! The failures that commands and child processes can end in.

use vstd::prelude::*;

verus! {

/// Why the operating system refused to create a process.
#[derive(Clone, Copy, Debug, PartialEq, Eq, Structural)]
pub enum SpawnCause {
    /// No executable exists at the given path.
    ExecutableMissing,
    /// The executable exists but may not be run by this user.
    PermissionDenied,
    /// The working directory does not exist or is no directory.
    InvalidWorkingDirectory,
    /// Any other refusal.
    Other,
}

/// Why the termination of a process could not be reported.
#[derive(Clone, Copy, Debug, PartialEq, Eq, Structural)]
pub enum WaitCause {
    /// The process was waited for before: nothing is left to report.
    AlreadyReaped,
    /// Any other failure of the wait.
    Other,
}

/// A structured failure, as it is returned to the caller of a command.
#[allow(inconsistent_fields)]
#[derive(Clone, Copy, Debug, PartialEq, Eq, Structural)]
pub enum CommandError {
    /// No handler is bound to the name.
    CommandNotFound,
    /// A handler is already bound to the name.
    DuplicateCommand,
    /// The handler did not get the arguments it needs.
    InvalidArguments,
    /// The operating system refused to create the process.
    SpawnError { cause: SpawnCause },
    /// The operating system could not report the termination.
    WaitError { cause: WaitCause },
    /// No worker could take the blocking work.
    SchedulingError,
}

} // verus!
