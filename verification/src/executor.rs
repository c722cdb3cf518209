//! Blocking work, as a worker carries it out step by step.
//!
//! A [`Job`] says what is to be done next: ask the operating system to create
//! a process, wait for the process, or deliver a result. The worker makes
//! the call and reports the outcome; the job decides what follows. A failure
//! of a call becomes the result of the job and never ends the worker.
//!
//! Each job is meant for a worker of its own. The library sets no limit on
//! the number of jobs under way at one time; a caller that needs one has to
//! queue its submissions itself.

use vstd::prelude::*;
use crate::command::{CommandResult, Handler, Payload};
use crate::error::{CommandError, SpawnCause, WaitCause};
use crate::greeting::{greet, greeting_text};
use crate::process::{await_exit, launch, ChildProcessHandle, ChildProcessSpec, Failure, State};

verus! {

/// The work of one handler invocation, at one point of its course.
#[derive(Debug)]
pub enum Job<'a> {
    /// Next the process described is to be created.
    Spawning(&'a ChildProcessSpec),
    /// Next the process of the handle is to be waited for.
    Waiting(ChildProcessHandle),
    /// The work is over: `result` goes to the caller. `handle` is the
    /// process that was created for it, if one was.
    Done { result: CommandResult, handle: Option<ChildProcessHandle> },
}

/// What a job is at its start, given the handler and the arguments.
///
/// A greeting needs no process and is done at once: with the greeting for
/// the first argument, or with `InvalidArguments` where there is none. A
/// launch begins with the creation of the process.
pub open spec fn begins_as(handler: &Handler, arguments: Seq<String>, job: Job) -> bool {
    match handler {
        Handler::Greet => if arguments.len() >= 1 {
            &&& job matches Job::Done { result: Ok(Payload::Text(text)), handle: None }
            &&& text@ == greeting_text(arguments[0]@)
        } else {
            job == (Job::Done { result: Err(CommandError::InvalidArguments), handle: None })
        },
        Handler::Launch(spec) => job == Job::Spawning(spec),
    }
}

/// What a job becomes when the operating system has answered the request
/// to create its process.
///
/// A job that was to create a process now waits for it, or is done with
/// `SpawnError` and without a process. Any other job stays as it is.
pub open spec fn spawned_to(job: Job, outcome: Result<u32, SpawnCause>, next: Job) -> bool {
    match job {
        Job::Spawning(_) => match outcome {
            Ok(pid) => {
                &&& next matches Job::Waiting(handle)
                &&& handle.id() == pid
                &&& handle.status() == State::Running
            },
            Err(cause) => next == (Job::Done {
                result: Err(CommandError::SpawnError { cause }),
                handle: None,
            }),
        },
        _ => next == job,
    }
}

/// What a job becomes when the wait for its process has returned.
///
/// A job that waited is done. With an exit code, whatever it is, the result
/// is the unit payload and the process is in state `Exited` with that code.
/// With a failed wait the result is `WaitError` and the process is in state
/// `Failed`. Any other job stays as it is.
pub open spec fn waited_to(job: Job, outcome: Result<i32, WaitCause>, next: Job) -> bool {
    match job {
        Job::Waiting(before) => {
            &&& next matches Job::Done { result, handle: Some(after) }
            &&& after.id() == before.id()
            &&& match outcome {
                Ok(code) => result == Ok::<Payload, CommandError>(Payload::Unit)
                    && after.status() == State::Exited(code),
                Err(cause) => result == Err::<Payload, CommandError>(
                    CommandError::WaitError { cause },
                ) && after.status() == State::Failed(Failure::Wait(cause)),
            }
        },
        _ => next == job,
    }
}

impl<'a> Job<'a> {
    /// A waiting job holds a running process, and a finished job that holds
    /// a process holds one in a terminal state.
    pub open spec fn wf(self) -> bool {
        match self {
            Job::Spawning(_) => true,
            Job::Waiting(handle) => handle.wf() && handle.status() == State::Running,
            Job::Done { result: _, handle: Some(handle) } => handle.wf()
                && handle.status().terminal(),
            Job::Done { result: _, handle: None } => true,
        }
    }

    /// Whether the work is over.
    pub open spec fn done(self) -> bool {
        self is Done
    }

    /// Starts the work of `handler` on `arguments`.
    pub fn begin(handler: &'a Handler, arguments: &Vec<String>) -> (job: Job<'a>)
        ensures
            begins_as(handler, arguments@, job),
            job.wf(),
    {
        match handler {
            Handler::Greet => {
                if arguments.len() >= 1 {
                    let text = greet(arguments[0].as_str());
                    Job::Done { result: Ok(Payload::Text(text)), handle: None }
                } else {
                    Job::Done { result: Err(CommandError::InvalidArguments), handle: None }
                }
            },
            Handler::Launch(spec) => Job::Spawning(spec),
        }
    }

    /// Whether the work is over.
    pub fn is_done(&self) -> (done: bool)
        ensures
            done == self.done(),
    {
        match self {
            Job::Done { .. } => true,
            _ => false,
        }
    }

    /// Takes the operating system's answer to the request to create the
    /// process: its identifier, or the cause of the refusal.
    pub fn spawned(self, outcome: Result<u32, SpawnCause>) -> (next: Job<'a>)
        requires
            self.wf(),
        ensures
            next.wf(),
            spawned_to(self, outcome, next),
    {
        match self {
            Job::Spawning(_) => match launch(outcome) {
                Ok(handle) => Job::Waiting(handle),
                Err(error) => Job::Done { result: Err(error), handle: None },
            },
            other => other,
        }
    }

    /// Takes the outcome of the wait for the process: its raw exit code, or
    /// the cause for which the wait failed.
    pub fn waited(self, outcome: Result<i32, WaitCause>) -> (next: Job<'a>)
        requires
            self.wf(),
        ensures
            next.wf(),
            waited_to(self, outcome, next),
    {
        match self {
            Job::Waiting(handle) => {
                let mut handle = handle;
                match await_exit(&mut handle, outcome) {
                    Ok(_) => Job::Done { result: Ok(Payload::Unit), handle: Some(handle) },
                    Err(error) => Job::Done { result: Err(error), handle: Some(handle) },
                }
            },
            other => other,
        }
    }
}

/// What the caller of a pending call gets once the worker is joined: the
/// result that the work delivered, or `SchedulingError` where no worker
/// delivered one.
pub fn resolve(joined: Option<CommandResult>) -> (result: CommandResult)
    ensures
        result == match joined {
            Some(delivered) => delivered,
            None => Err(CommandError::SchedulingError),
        },
{
    match joined {
        Some(delivered) => delivered,
        None => Err(CommandError::SchedulingError),
    }
}

/// A job comes to its end in at most two answers of the operating system,
/// one to the creation of the process and one to the wait. Where the
/// creation was refused, the job never waits and never holds a process.
pub proof fn lemma_job_ends(
    job: Job,
    spawn: Result<u32, SpawnCause>,
    wait: Result<i32, WaitCause>,
    mid: Job,
    end: Job,
)
    requires
        spawned_to(job, spawn, mid),
        waited_to(mid, wait, end),
    ensures
        end.done(),
        job is Spawning && spawn is Err ==> !(mid is Waiting) && end == mid
            && end->Done_handle.is_none(),
{
}

/// The process of a finished job is in state `Exited` with code `code`
/// exactly when the wait reported that code.
pub proof fn lemma_exit_code_is_reported(job: Job, wait: Result<i32, WaitCause>, end: Job, code: i32)
    requires
        job is Waiting,
        waited_to(job, wait, end),
    ensures
        end is Done,
        end->Done_handle.is_some(),
        end->Done_handle.unwrap().status() == State::Exited(code) <==> wait == Ok::<
            i32,
            WaitCause,
        >(code),
{
}

} // verus!
