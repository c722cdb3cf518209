//! The supervision of one child process: what is launched, and the states
//! it passes through.
//!
//! The operating system creates the process and reports its end; the caller
//! makes those calls from a worker and hands their outcomes to [`launch`] and
//! [`await_exit`], which decide what state the handle is in afterwards. A
//! handle is made by one launch and brought to its end by one wait. A
//! process that runs cannot be ended early: there is no cancellation.

use vstd::prelude::*;
use crate::error::{CommandError, SpawnCause, WaitCause};

verus! {

/// What a [`ChildProcessSpec`] holds, as plain values.
pub struct ChildProcessSpecView {
    pub executable: Seq<char>,
    pub arguments: Seq<Seq<char>>,
    pub working_directory: Option<Seq<char>>,
}

/// The description of a process to launch. It cannot change once made.
#[derive(Clone, Debug)]
pub struct ChildProcessSpec {
    executable: String,
    arguments: Vec<String>,
    working_directory: Option<String>,
}

impl View for ChildProcessSpec {
    type V = ChildProcessSpecView;

    closed spec fn view(&self) -> ChildProcessSpecView {
        ChildProcessSpecView {
            executable: self.executable@,
            arguments: self.arguments.deep_view(),
            working_directory: match self.working_directory {
                Some(dir) => Some(dir@),
                None => None,
            },
        }
    }
}

impl ChildProcessSpec {
    /// Describes the launch of `executable` with `arguments`, in
    /// `working_directory` where one is given.
    pub fn new(
        executable: String,
        arguments: Vec<String>,
        working_directory: Option<String>,
    ) -> (spec: ChildProcessSpec)
        ensures
            spec@.executable == executable@,
            spec@.arguments == arguments.deep_view(),
            spec@.working_directory == match working_directory {
                Some(dir) => Some(dir@),
                None => None::<Seq<char>>,
            },
    {
        ChildProcessSpec { executable, arguments, working_directory }
    }

    /// The path of the executable.
    pub fn executable(&self) -> (path: &String)
        ensures
            path@ == self@.executable,
    {
        &self.executable
    }

    /// The arguments, in the order in which the process gets them.
    pub fn arguments(&self) -> (arguments: &Vec<String>)
        ensures
            arguments.deep_view() == self@.arguments,
    {
        &self.arguments
    }

    /// The directory to start the process in, if one was given.
    pub fn working_directory(&self) -> (dir: Option<&String>)
        ensures
            match dir {
                Some(d) => self@.working_directory == Some(d@),
                None => self@.working_directory.is_none(),
            },
    {
        match &self.working_directory {
            Some(d) => Some(d),
            None => None,
        }
    }
}

/// Why a process is in state `Failed`.
#[derive(Clone, Copy, Debug, PartialEq, Eq, Structural)]
pub enum Failure {
    /// It was never created.
    Spawn(SpawnCause),
    /// It ran, and its termination could not be reported.
    Wait(WaitCause),
}

/// The state of one child process.
#[derive(Clone, Copy, Debug, PartialEq, Eq, Structural)]
pub enum State {
    /// The operating system has been asked to create the process.
    Spawning,
    /// The process exists and has not been waited for.
    Running,
    /// The process ended with this raw exit code.
    Exited(i32),
    /// The process was not created, or its end could not be reported.
    Failed(Failure),
}

/// What the operating system can answer.
#[derive(Clone, Copy, Debug, PartialEq, Eq, Structural)]
pub enum Event {
    /// The process was created.
    SpawnAccepted,
    /// The process was not created.
    SpawnRejected(SpawnCause),
    /// The process ended with this raw exit code.
    Terminated(i32),
    /// The wait for the process failed.
    WaitFailed(WaitCause),
}

/// The state that `event` leads to from `state`, or `None` where the event
/// cannot occur in that state.
pub open spec fn transition(state: State, event: Event) -> Option<State> {
    match (state, event) {
        (State::Spawning, Event::SpawnAccepted) => Some(State::Running),
        (State::Spawning, Event::SpawnRejected(cause)) => Some(
            State::Failed(Failure::Spawn(cause)),
        ),
        (State::Running, Event::Terminated(code)) => Some(State::Exited(code)),
        (State::Running, Event::WaitFailed(cause)) => Some(State::Failed(Failure::Wait(cause))),
        _ => None,
    }
}

/// The state reached from `state` by `events` in turn, or `None` as soon as
/// one of them cannot occur.
pub open spec fn run(state: State, events: Seq<Event>) -> Option<State>
    decreases events.len(),
{
    if events.len() == 0 {
        Some(state)
    } else {
        match transition(state, events[0]) {
            Some(next) => run(next, events.skip(1)),
            None => None,
        }
    }
}

impl State {
    /// How far a state is along the life of a process.
    pub open spec fn rank(self) -> nat {
        match self {
            State::Spawning => 0,
            State::Running => 1,
            State::Exited(_) => 2,
            State::Failed(_) => 2,
        }
    }

    /// Whether nothing can follow the state.
    pub open spec fn terminal(self) -> bool {
        self is Exited || self is Failed
    }

    /// Whether nothing can follow the state.
    pub fn is_terminal(self) -> (terminal: bool)
        ensures
            terminal == self.terminal(),
    {
        match self {
            State::Exited(_) => true,
            State::Failed(_) => true,
            _ => false,
        }
    }

    /// The state that `event` leads to, or `None` where it cannot occur now.
    pub fn step(self, event: Event) -> (next: Option<State>)
        ensures
            next == transition(self, event),
    {
        match self {
            State::Spawning => match event {
                Event::SpawnAccepted => Some(State::Running),
                Event::SpawnRejected(cause) => Some(State::Failed(Failure::Spawn(cause))),
                _ => None,
            },
            State::Running => match event {
                Event::Terminated(code) => Some(State::Exited(code)),
                Event::WaitFailed(cause) => Some(State::Failed(Failure::Wait(cause))),
                _ => None,
            },
            _ => None,
        }
    }
}

/// Every transition leads to a state of higher rank: the states are passed
/// through in one direction.
pub proof fn lemma_transition_advances(state: State, event: Event)
    requires
        transition(state, event).is_some(),
    ensures
        transition(state, event).unwrap().rank() > state.rank(),
{
}

/// Nothing follows a terminal state, whatever the operating system reports.
pub proof fn lemma_terminal_is_final(state: State, event: Event)
    requires
        state.terminal(),
    ensures
        transition(state, event).is_none(),
{
}

/// A run of one event or more never comes back to the state it began in:
/// each event raises the rank, so a run has at most two events.
pub proof fn lemma_run_never_returns(state: State, events: Seq<Event>)
    requires
        events.len() > 0,
        run(state, events).is_some(),
    ensures
        state.rank() + events.len() <= run(state, events).unwrap().rank(),
        run(state, events).unwrap() != state,
        events.len() <= 2,
    decreases events.len(),
{
    let next = transition(state, events[0]).unwrap();
    let rest = events.skip(1);
    if rest.len() > 0 {
        lemma_run_never_returns(next, rest);
    } else {
        assert(run(next, rest) == Some(next));
    }
}

/// One child process that the operating system has created.
#[derive(Debug)]
pub struct ChildProcessHandle {
    pid: u32,
    state: State,
}

impl ChildProcessHandle {
    /// The identifier that the operating system gave the process.
    pub closed spec fn id(&self) -> u32 {
        self.pid
    }

    /// The state of the process.
    pub closed spec fn status(&self) -> State {
        self.state
    }

    /// A handle exists only for a process that was created: it is never in
    /// state `Spawning`, and where it failed, it was the wait that failed.
    pub open spec fn wf(&self) -> bool {
        match self.status() {
            State::Spawning => false,
            State::Failed(Failure::Spawn(_)) => false,
            _ => true,
        }
    }

    /// The identifier that the operating system gave the process.
    pub fn pid(&self) -> (pid: u32)
        ensures
            pid == self.id(),
    {
        self.pid
    }

    /// The state of the process.
    pub fn state(&self) -> (state: State)
        ensures
            state == self.status(),
    {
        self.state
    }
}

/// Takes the operating system's answer to the request to create a process:
/// the identifier of the new process, or the cause of the refusal.
///
/// A created process gets a handle in state `Running`. A refusal gives
/// `SpawnError` with its cause, and no handle.
pub fn launch(outcome: Result<u32, SpawnCause>) -> (launched: Result<
    ChildProcessHandle,
    CommandError,
>)
    ensures
        match outcome {
            Ok(pid) => {
                &&& launched matches Ok(handle)
                &&& handle.id() == pid
                &&& handle.status() == State::Running
                &&& handle.wf()
            },
            Err(cause) => launched == Err::<ChildProcessHandle, CommandError>(
                CommandError::SpawnError { cause },
            ),
        },
{
    match outcome {
        Ok(pid) => Ok(ChildProcessHandle { pid, state: State::Running }),
        Err(cause) => Err(CommandError::SpawnError { cause }),
    }
}

/// The event that the outcome of a wait stands for.
pub open spec fn wait_event(outcome: Result<i32, WaitCause>) -> Event {
    match outcome {
        Ok(code) => Event::Terminated(code),
        Err(cause) => Event::WaitFailed(cause),
    }
}

/// Takes the outcome of the wait for the process of `handle`: its raw exit
/// code, or the cause for which the wait failed.
///
/// A running process goes to `Exited` with that code, which is returned, or
/// to `Failed` with that cause, which is returned as `WaitError`. A handle
/// that is terminal already stays as it is, and the call fails with
/// `WaitError` for a process already reaped, whatever `outcome` holds.
pub fn await_exit(handle: &mut ChildProcessHandle, outcome: Result<i32, WaitCause>) -> (exit: Result<
    i32,
    CommandError,
>)
    requires
        old(handle).wf(),
    ensures
        final(handle).wf(),
        final(handle).id() == old(handle).id(),
        final(handle).status().terminal(),
        old(handle).status() == State::Running ==> Some(final(handle).status()) == transition(
            State::Running,
            wait_event(outcome),
        ) && exit == match outcome {
            Ok(code) => Ok::<i32, CommandError>(code),
            Err(cause) => Err(CommandError::WaitError { cause }),
        },
        old(handle).status() != State::Running ==> final(handle).status() == old(handle).status()
            && exit == Err::<i32, CommandError>(
            CommandError::WaitError { cause: WaitCause::AlreadyReaped },
        ),
{
    match handle.state {
        State::Running => match outcome {
            Ok(code) => {
                handle.state = State::Exited(code);
                Ok(code)
            },
            Err(cause) => {
                handle.state = State::Failed(Failure::Wait(cause));
                Err(CommandError::WaitError { cause })
            },
        },
        _ => Err(CommandError::WaitError { cause: WaitCause::AlreadyReaped }),
    }
}

} // verus!
