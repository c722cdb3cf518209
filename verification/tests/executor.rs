use launcher::command::{Handler, InvocationMode, Payload};
use launcher::dispatcher::{CommandDispatcher, Dispatched};
use launcher::error::{CommandError, SpawnCause, WaitCause};
use launcher::executor::{resolve, Job};
use launcher::greeting::greet;
use launcher::process::{ChildProcessSpec, Failure, State};

fn background_table(executable: &str) -> CommandDispatcher {
    let mut dispatcher = CommandDispatcher::new();
    let spec = ChildProcessSpec::new(String::from(executable), Vec::new(), None);
    assert_eq!(
        dispatcher.register("run_background", Handler::Launch(spec), InvocationMode::Async),
        Ok(())
    );
    dispatcher
}

#[test]
fn greeting_follows_the_template() {
    assert_eq!(greet("Ada"), "Hello, Ada! You've been greeted from Rust!");
    assert_eq!(greet(""), "Hello, ! You've been greeted from Rust!");
    assert_eq!(greet("Zoë"), "Hello, Zoë! You've been greeted from Rust!");
    let greeting = greet("Ada");
    assert_eq!(greeting.chars().count(), 7 + 3 + 32);
    assert_eq!(greeting.chars().skip(7).take(3).collect::<String>(), "Ada");
}

#[test]
fn background_run_ends_in_unit_and_exited_zero() {
    let dispatcher = background_table("ls");
    let arguments: Vec<String> = Vec::new();
    let call = match dispatcher.dispatch("run_background", &arguments) {
        Ok(Dispatched::Pending(call)) => call,
        other => panic!("not pending: {:?}", other),
    };
    let job = Job::begin(call.handler, call.arguments);
    match &job {
        Job::Spawning(spec) => assert_eq!(spec.executable(), "ls"),
        other => panic!("the job does not begin with a spawn: {:?}", other),
    }
    assert!(!job.is_done());
    let job = job.spawned(Ok(4242));
    match &job {
        Job::Waiting(handle) => {
            assert_eq!(handle.pid(), 4242);
            assert_eq!(handle.state(), State::Running);
        }
        other => panic!("the job does not wait: {:?}", other),
    }
    assert!(!job.is_done());
    let job = job.waited(Ok(0));
    assert!(job.is_done());
    match job {
        Job::Done { result, handle: Some(handle) } => {
            assert_eq!(handle.state(), State::Exited(0));
            assert_eq!(handle.pid(), 4242);
            assert_eq!(resolve(Some(result)), Ok(Payload::Unit));
        }
        other => panic!("the job is not done: {:?}", other),
    }
}

#[test]
fn background_run_with_invalid_executable_ends_in_spawn_error() {
    let dispatcher = background_table("/no/such/program");
    let arguments: Vec<String> = Vec::new();
    let call = match dispatcher.dispatch("run_background", &arguments) {
        Ok(Dispatched::Pending(call)) => call,
        other => panic!("not pending: {:?}", other),
    };
    let job = Job::begin(call.handler, call.arguments).spawned(Err(SpawnCause::ExecutableMissing));
    assert!(job.is_done());
    match job {
        Job::Done { result, handle } => {
            assert!(handle.is_none());
            assert_eq!(
                resolve(Some(result)),
                Err(CommandError::SpawnError { cause: SpawnCause::ExecutableMissing })
            );
        }
        other => panic!("the job is not done: {:?}", other),
    }
}

#[test]
fn exit_code_is_not_interpreted() {
    let handler = Handler::Launch(ChildProcessSpec::new(String::from("false"), Vec::new(), None));
    let arguments: Vec<String> = Vec::new();
    match Job::begin(&handler, &arguments).spawned(Ok(1)).waited(Ok(3)) {
        Job::Done { result, handle: Some(handle) } => {
            assert_eq!(result, Ok(Payload::Unit));
            assert_eq!(handle.state(), State::Exited(3));
        }
        other => panic!("the job is not done: {:?}", other),
    }
}

#[test]
fn failed_wait_is_delivered_as_wait_error() {
    let handler = Handler::Launch(ChildProcessSpec::new(String::from("ls"), Vec::new(), None));
    let arguments: Vec<String> = Vec::new();
    match Job::begin(&handler, &arguments).spawned(Ok(77)).waited(Err(WaitCause::Other)) {
        Job::Done { result, handle: Some(handle) } => {
            assert_eq!(result, Err(CommandError::WaitError { cause: WaitCause::Other }));
            assert_eq!(handle.state(), State::Failed(Failure::Wait(WaitCause::Other)));
            assert_eq!(handle.pid(), 77);
        }
        other => panic!("the job is not done: {:?}", other),
    }
}

#[test]
fn answers_out_of_turn_change_nothing() {
    let handler = Handler::Launch(ChildProcessSpec::new(String::from("ls"), Vec::new(), None));
    let arguments: Vec<String> = Vec::new();
    match Job::begin(&handler, &arguments).waited(Ok(0)) {
        Job::Spawning(spec) => assert_eq!(spec.executable(), "ls"),
        other => panic!("the job moved: {:?}", other),
    }
    match Job::begin(&handler, &arguments).spawned(Ok(5)).spawned(Ok(6)) {
        Job::Waiting(handle) => assert_eq!(handle.pid(), 5),
        other => panic!("the job moved: {:?}", other),
    }
    let done = Job::begin(&handler, &arguments).spawned(Ok(5)).waited(Ok(2));
    match done.spawned(Ok(8)).waited(Ok(0)) {
        Job::Done { result, handle: Some(handle) } => {
            assert_eq!(result, Ok(Payload::Unit));
            assert_eq!(handle.state(), State::Exited(2));
            assert_eq!(handle.pid(), 5);
        }
        other => panic!("the job moved: {:?}", other),
    }
}

#[test]
fn greeting_job_is_done_at_once() {
    let arguments = vec![String::from("Ada")];
    let job = Job::begin(&Handler::Greet, &arguments);
    assert!(job.is_done());
    match job {
        Job::Done { result, handle: None } => assert_eq!(
            result,
            Ok(Payload::Text(String::from("Hello, Ada! You've been greeted from Rust!")))
        ),
        other => panic!("a process was involved: {:?}", other),
    }
    let nothing: Vec<String> = Vec::new();
    match Job::begin(&Handler::Greet, &nothing) {
        Job::Done { result, handle: None } => {
            assert_eq!(result, Err(CommandError::InvalidArguments))
        }
        other => panic!("a process was involved: {:?}", other),
    }
}

#[test]
fn lost_worker_resolves_to_scheduling_error() {
    assert_eq!(resolve(None), Err(CommandError::SchedulingError));
    assert_eq!(resolve(Some(Ok(Payload::Unit))), Ok(Payload::Unit));
    assert_eq!(
        resolve(Some(Ok(Payload::Text(String::from("kept"))))),
        Ok(Payload::Text(String::from("kept")))
    );
    assert_eq!(
        resolve(Some(Err(CommandError::WaitError { cause: WaitCause::AlreadyReaped }))),
        Err(CommandError::WaitError { cause: WaitCause::AlreadyReaped })
    );
}
