use yuubox_core::config::SandboxConfig;
use yuubox_core::container::ContainerManager;
use yuubox_core::error::{ErrorKind, SandboxError};
use yuubox_core::lifecycle::{
    Action, ActionKind, ContainerResult, Event, Lifecycle, Outcome, Phase, WaitCondition,
};
use yuubox_core::limits::ResourceLimits;
use yuubox_core::output::{LogFrame, StreamKind};

/// How the fake daemon answers each request. `None` stands for a request
/// that outlives the deadline.
struct Script {
    create: Result<String, String>,
    start: Option<Result<(), String>>,
    wait: Option<Vec<Result<i64, String>>>,
    logs: Option<Vec<Result<LogFrame, String>>>,
    remove: Result<(), String>,
}

struct FakeDaemon {
    script: Script,
    calls: Vec<ActionKind>,
    created: Option<(String, SandboxConfig)>,
    targets: Vec<String>,
    forced: Vec<bool>,
}

impl FakeDaemon {
    fn new(script: Script) -> FakeDaemon {
        FakeDaemon { script, calls: Vec::new(), created: None, targets: Vec::new(), forced: Vec::new() }
    }

    fn count(&self, kind: ActionKind) -> usize {
        self.calls.iter().filter(|k| **k == kind).count()
    }

    fn daemon_calls(&self) -> usize {
        self.calls.len()
    }

    fn perform(&mut self, action: Action) -> Result<Event, Outcome> {
        let kind = action.kind();
        let event = match action {
            Action::Create { name, config } => {
                self.created = Some((name, config));
                match &self.script.create {
                    Ok(id) => Event::Created { id: id.to_string() },
                    Err(detail) => Event::CreateFailed { detail: detail.to_string() },
                }
            }
            Action::Start { id } => {
                self.targets.push(id);
                match self.script.start.take() {
                    Some(Ok(())) => Event::Started,
                    Some(Err(detail)) => Event::StartFailed { detail },
                    None => Event::DeadlineElapsed,
                }
            }
            Action::Wait { id, until } => {
                assert_eq!(until, WaitCondition::NotRunning);
                self.targets.push(id);
                match self.script.wait.take() {
                    Some(items) => Event::Waited { items },
                    None => Event::DeadlineElapsed,
                }
            }
            Action::ReadLogs { id } => {
                self.targets.push(id);
                match self.script.logs.take() {
                    Some(frames) => Event::LogsRead { frames },
                    None => Event::DeadlineElapsed,
                }
            }
            Action::Kill { id } => {
                self.targets.push(id);
                Event::Killed
            }
            Action::Remove { id, force } => {
                self.targets.push(id);
                self.forced.push(force);
                match &self.script.remove {
                    Ok(()) => Event::Removed,
                    Err(detail) => Event::RemoveFailed { detail: detail.to_string() },
                }
            }
            Action::Finish { outcome } => return Err(outcome),
            Action::Idle => panic!("the lifecycle asked for nothing"),
        };
        self.calls.push(kind);
        Ok(event)
    }
}

fn run(daemon: &mut FakeDaemon, code: &str, language: &str, limits: &ResourceLimits) -> Outcome {
    let manager = ContainerManager::new();
    let (mut state, mut action) = match manager.execute(code, language, limits) {
        Ok(opened) => opened,
        Err(error) => return Outcome { result: Err(error), cleanup_failure: None },
    };
    loop {
        match daemon.perform(action) {
            Ok(event) => {
                let (next_state, next_action) = state.step(event);
                state = next_state;
                action = next_action;
            }
            Err(outcome) => {
                assert!(state.is_cleaned());
                assert!(!state.owns_sandbox());
                return outcome;
            }
        }
    }
}

fn out(text: &str) -> Result<LogFrame, String> {
    Ok(LogFrame { stream: StreamKind::StdOut, message: text.as_bytes().to_vec() })
}

fn err(text: &str) -> Result<LogFrame, String> {
    Ok(LogFrame { stream: StreamKind::StdErr, message: text.as_bytes().to_vec() })
}

fn healthy() -> Script {
    Script {
        create: Ok("c0ffee".to_string()),
        start: Some(Ok(())),
        wait: Some(vec![Ok(0)]),
        logs: Some(vec![out("2\n")]),
        remove: Ok(()),
    }
}

fn assert_one_create_one_destroy(daemon: &FakeDaemon) {
    assert_eq!(daemon.count(ActionKind::Create), 1);
    assert_eq!(daemon.count(ActionKind::Remove), 1);
    assert!(daemon.count(ActionKind::Start) <= 1);
    assert!(daemon.count(ActionKind::Wait) <= 1);
    assert!(daemon.count(ActionKind::ReadLogs) <= 1);
    assert!(daemon.count(ActionKind::Kill) <= 1);
    assert_eq!(daemon.calls.first(), Some(&ActionKind::Create));
    assert_eq!(daemon.calls.last(), Some(&ActionKind::Remove));
    assert_eq!(daemon.forced, vec![true]);
    for target in &daemon.targets {
        assert_eq!(target, "c0ffee");
    }
}

#[test]
fn happy_path() {
    let mut daemon = FakeDaemon::new(healthy());
    let outcome = run(&mut daemon, "print(1+1)", "python", &ResourceLimits::default());
    let result = outcome.result.unwrap();
    assert_eq!(result.exit_code, 0);
    assert!(result.stdout.contains("2"));
    assert_eq!(result.stderr, "");
    assert_eq!(result.memory_used, 0);
    assert_eq!(result.cpu_time_nanos, 0);
    assert_eq!(outcome.cleanup_failure, None);
    assert_eq!(
        daemon.calls,
        vec![
            ActionKind::Create,
            ActionKind::Start,
            ActionKind::Wait,
            ActionKind::ReadLogs,
            ActionKind::Remove,
        ]
    );
    assert_one_create_one_destroy(&daemon);
}

#[test]
fn create_request_carries_the_resolved_input() {
    let mut daemon = FakeDaemon::new(healthy());
    let limits = ResourceLimits::from_request(Some(128), Some(500_000_000), Some(7));
    run(&mut daemon, "print(1+1)", "Python", &limits);
    let (name, config) = daemon.created.unwrap();
    assert!(name.starts_with("yuubox-"));
    assert_eq!(name.len(), 43);
    assert_eq!(config.image, "python:3.11-slim");
    assert_eq!(config.command, vec!["python", "-c", "print(1+1)"]);
    assert_eq!(config.working_dir, "/workspace");
    assert_eq!(config.user, "1000:1000");
    assert_eq!(config.isolation.memory_bytes, 134_217_728);
    assert_eq!(config.isolation.nano_cpus, 500_000_000);
    assert_eq!(config.isolation.network_mode, "none");
    assert!(config.isolation.read_only_root_fs);
    assert_eq!(config.isolation.cap_drop, vec!["ALL"]);
}

#[test]
fn non_zero_exit_is_a_result() {
    let mut daemon = FakeDaemon::new(Script {
        wait: Some(vec![Ok(1)]),
        logs: Some(vec![out("partial"), err("Traceback"), err(" (most recent call last)")]),
        ..healthy()
    });
    let outcome = run(&mut daemon, "raise SystemExit(1)", "python", &ResourceLimits::default());
    assert_eq!(
        outcome.result,
        Ok(ContainerResult {
            stdout: "partial".to_string(),
            stderr: "Traceback (most recent call last)".to_string(),
            exit_code: 1,
            memory_used: 0,
            cpu_time_nanos: 0,
        })
    );
    assert_one_create_one_destroy(&daemon);
}

#[test]
fn unsupported_language_makes_no_daemon_call() {
    let mut daemon = FakeDaemon::new(healthy());
    let outcome = run(&mut daemon, "DISPLAY 'HI'.", "cobol", &ResourceLimits::default());
    assert_eq!(
        outcome.result,
        Err(SandboxError::UnsupportedLanguage { language: "cobol".to_string() })
    );
    assert_eq!(daemon.daemon_calls(), 0);
    assert!(daemon.created.is_none());
}

#[test]
fn rejected_create_leaves_nothing_behind() {
    let mut daemon =
        FakeDaemon::new(Script { create: Err("no such image".to_string()), ..healthy() });
    let outcome = run(&mut daemon, "print(1)", "python", &ResourceLimits::default());
    assert_eq!(
        outcome.result,
        Err(SandboxError::SandboxCreateError { detail: "no such image".to_string() })
    );
    assert_eq!(outcome.cleanup_failure, None);
    assert_eq!(daemon.calls, vec![ActionKind::Create]);
    assert_eq!(daemon.count(ActionKind::Start), 0);
    assert_eq!(daemon.count(ActionKind::Wait), 0);
    assert_eq!(daemon.count(ActionKind::ReadLogs), 0);
    assert_eq!(daemon.count(ActionKind::Remove), 0);
}

#[test]
fn rejected_start_destroys_the_sandbox() {
    let mut daemon =
        FakeDaemon::new(Script { start: Some(Err("oci runtime error".to_string())), ..healthy() });
    let outcome = run(&mut daemon, "print(1)", "python", &ResourceLimits::default());
    assert_eq!(
        outcome.result,
        Err(SandboxError::SandboxStartError { detail: "oci runtime error".to_string() })
    );
    assert_eq!(daemon.calls, vec![ActionKind::Create, ActionKind::Start, ActionKind::Remove]);
    assert_one_create_one_destroy(&daemon);
}

#[test]
fn failed_wait_destroys_the_sandbox() {
    let mut daemon =
        FakeDaemon::new(Script { wait: Some(vec![Err("eof".to_string())]), ..healthy() });
    let outcome = run(&mut daemon, "print(1)", "python", &ResourceLimits::default());
    assert_eq!(outcome.result, Err(SandboxError::ExecutionFailed { detail: "eof".to_string() }));
    assert_eq!(
        daemon.calls,
        vec![ActionKind::Create, ActionKind::Start, ActionKind::Wait, ActionKind::Remove]
    );
    assert_one_create_one_destroy(&daemon);
}

#[test]
fn failed_logs_destroy_the_sandbox() {
    let mut daemon = FakeDaemon::new(Script {
        logs: Some(vec![out("half"), Err("broken pipe".to_string())]),
        ..healthy()
    });
    let outcome = run(&mut daemon, "print(1)", "python", &ResourceLimits::default());
    assert_eq!(
        outcome.result,
        Err(SandboxError::ExecutionFailed { detail: "broken pipe".to_string() })
    );
    assert_eq!(daemon.count(ActionKind::ReadLogs), 1);
    assert_one_create_one_destroy(&daemon);
}

#[test]
fn timeout_while_waiting_kills_then_destroys() {
    let mut daemon = FakeDaemon::new(Script { wait: None, ..healthy() });
    let limits = ResourceLimits::from_request(None, None, Some(3));
    let outcome = run(&mut daemon, "while True: pass", "python", &limits);
    assert_eq!(outcome.result, Err(SandboxError::ExecutionTimeout { seconds: 3 }));
    assert_eq!(outcome.cleanup_failure, None);
    assert_eq!(
        daemon.calls,
        vec![
            ActionKind::Create,
            ActionKind::Start,
            ActionKind::Wait,
            ActionKind::Kill,
            ActionKind::Remove,
        ]
    );
    assert_eq!(daemon.count(ActionKind::ReadLogs), 0);
    assert_one_create_one_destroy(&daemon);
}

#[test]
fn timeout_while_starting_or_reading() {
    let mut daemon = FakeDaemon::new(Script { start: None, ..healthy() });
    let outcome = run(&mut daemon, "x", "go", &ResourceLimits::default());
    assert_eq!(outcome.result, Err(SandboxError::ExecutionTimeout { seconds: 60 }));
    assert_eq!(
        daemon.calls,
        vec![ActionKind::Create, ActionKind::Start, ActionKind::Kill, ActionKind::Remove]
    );

    let mut daemon = FakeDaemon::new(Script { logs: None, ..healthy() });
    let outcome = run(&mut daemon, "x", "java", &ResourceLimits::default());
    assert_eq!(outcome.result, Err(SandboxError::ExecutionTimeout { seconds: 60 }));
    assert_eq!(
        daemon.calls,
        vec![
            ActionKind::Create,
            ActionKind::Start,
            ActionKind::Wait,
            ActionKind::ReadLogs,
            ActionKind::Kill,
            ActionKind::Remove,
        ]
    );
    assert_one_create_one_destroy(&daemon);
}

#[test]
fn failed_destroy_after_success_is_surfaced() {
    let mut daemon = FakeDaemon::new(Script { remove: Err("busy".to_string()), ..healthy() });
    let outcome = run(&mut daemon, "print(1)", "python", &ResourceLimits::default());
    assert_eq!(
        outcome.result,
        Err(SandboxError::SandboxRemoveError { detail: "busy".to_string() })
    );
    assert_eq!(outcome.cleanup_failure, None);
    assert_one_create_one_destroy(&daemon);
}

#[test]
fn failed_destroy_never_replaces_the_primary_error() {
    let mut daemon = FakeDaemon::new(Script {
        start: Some(Err("denied".to_string())),
        remove: Err("busy".to_string()),
        ..healthy()
    });
    let outcome = run(&mut daemon, "print(1)", "python", &ResourceLimits::default());
    assert_eq!(
        outcome.result,
        Err(SandboxError::SandboxStartError { detail: "denied".to_string() })
    );
    assert_eq!(outcome.cleanup_failure, Some("busy".to_string()));

    let mut daemon =
        FakeDaemon::new(Script { wait: None, remove: Err("busy".to_string()), ..healthy() });
    let outcome = run(&mut daemon, "print(1)", "python", &ResourceLimits::default());
    assert_eq!(outcome.result, Err(SandboxError::ExecutionTimeout { seconds: 60 }));
    assert_eq!(outcome.cleanup_failure, Some("busy".to_string()));
    assert_one_create_one_destroy(&daemon);
}

#[test]
fn single_steps() {
    let state = Lifecycle::requested(9);
    assert_eq!(state, Lifecycle { phase: Phase::Requested, timeout_seconds: 9 });
    assert!(!state.owns_sandbox());
    let (state, action) = state.step(Event::Created { id: "abc".to_string() });
    assert_eq!(
        state,
        Lifecycle { phase: Phase::Created { id: "abc".to_string() }, timeout_seconds: 9 }
    );
    assert!(state.owns_sandbox());
    assert_eq!(action, Action::Start { id: "abc".to_string() });
    let (state, action) = state.step(Event::Started);
    assert_eq!(state.phase, Phase::Started { id: "abc".to_string() });
    assert_eq!(
        action,
        Action::Wait { id: "abc".to_string(), until: WaitCondition::NotRunning }
    );
    let (state, action) = state.step(Event::Waited { items: vec![Ok(42)] });
    assert_eq!(state.phase, Phase::Exited { id: "abc".to_string(), exit_code: 42 });
    assert_eq!(action, Action::ReadLogs { id: "abc".to_string() });
    let (state, action) = state.step(Event::LogsRead { frames: vec![out("o"), err("e")] });
    let result = || ContainerResult {
        stdout: "o".to_string(),
        stderr: "e".to_string(),
        exit_code: 42,
        memory_used: 0,
        cpu_time_nanos: 0,
    };
    assert_eq!(state.phase, Phase::Completed { id: "abc".to_string(), result: result() });
    assert_eq!(action, Action::Remove { id: "abc".to_string(), force: true });
    let (state, action) = state.step(Event::Removed);
    assert_eq!(state, Lifecycle { phase: Phase::Cleaned, timeout_seconds: 9 });
    assert_eq!(
        action,
        Action::Finish { outcome: Outcome { result: Ok(result()), cleanup_failure: None } }
    );
    assert!(state.is_cleaned());
}

#[test]
fn kill_answer_is_taken_either_way() {
    let state = Lifecycle { phase: Phase::Started { id: "abc".to_string() }, timeout_seconds: 2 };
    let (state, action) = state.step(Event::DeadlineElapsed);
    assert_eq!(state.phase, Phase::Killing { id: "abc".to_string() });
    assert_eq!(action, Action::Kill { id: "abc".to_string() });
    let (state, action) = state.step(Event::Killed);
    assert_eq!(state.phase, Phase::TimedOut { id: "abc".to_string() });
    assert_eq!(action, Action::Remove { id: "abc".to_string(), force: true });
    let (state, action) = state.step(Event::RemoveFailed { detail: "gone".to_string() });
    assert_eq!(state.phase, Phase::Cleaned);
    assert_eq!(
        action,
        Action::Finish {
            outcome: Outcome {
                result: Err(SandboxError::ExecutionTimeout { seconds: 2 }),
                cleanup_failure: Some("gone".to_string()),
            },
        }
    );
}

#[test]
fn stray_events_change_nothing() {
    let (state, action) = Lifecycle::requested(1).step(Event::Started);
    assert_eq!(state, Lifecycle::requested(1));
    assert_eq!(action, Action::Idle);
    let (state, action) = state.step(Event::DeadlineElapsed);
    assert_eq!(state, Lifecycle::requested(1));
    assert_eq!(action, Action::Idle);
    let (state, action) = state.step(Event::Removed);
    assert_eq!(state, Lifecycle::requested(1));
    assert_eq!(action, Action::Idle);

    let removing = || Lifecycle { phase: Phase::TimedOut { id: "x".to_string() }, timeout_seconds: 1 };
    let (state, action) = removing().step(Event::DeadlineElapsed);
    assert_eq!(state, removing());
    assert_eq!(action, Action::Idle);
    let (state, action) = state.step(Event::Created { id: "y".to_string() });
    assert_eq!(state, removing());
    assert_eq!(action, Action::Idle);

    let cleaned = || Lifecycle { phase: Phase::Cleaned, timeout_seconds: 1 };
    let (state, action) = cleaned().step(Event::Created { id: "z".to_string() });
    assert_eq!(state, cleaned());
    assert_eq!(action, Action::Idle);
}

/// Every kind of event, with fixed contents.
fn event(k: usize) -> Event {
    match k {
        0 => Event::Created { id: "id".to_string() },
        1 => Event::CreateFailed { detail: "d".to_string() },
        2 => Event::Started,
        3 => Event::StartFailed { detail: "d".to_string() },
        4 => Event::Waited { items: vec![Ok(5)] },
        5 => Event::Waited { items: vec![Err("d".to_string())] },
        6 => Event::LogsRead { frames: vec![out("o")] },
        7 => Event::LogsRead { frames: vec![Err("d".to_string())] },
        8 => Event::DeadlineElapsed,
        9 => Event::Killed,
        10 => Event::Removed,
        _ => Event::RemoveFailed { detail: "d".to_string() },
    }
}

/// Feeds every sequence of `len` events to a fresh lifecycle and checks what
/// holds of every execution.
fn explore(len: usize) {
    let kinds = 12usize;
    let mut digits = vec![0usize; len];
    loop {
        let mut state = Lifecycle::requested(4);
        let mut counts = [0usize; 8];
        let index = |k: ActionKind| match k {
            ActionKind::Create => 0,
            ActionKind::Start => 1,
            ActionKind::Wait => 2,
            ActionKind::ReadLogs => 3,
            ActionKind::Kill => 4,
            ActionKind::Remove => 5,
            ActionKind::Finish => 6,
            ActionKind::Idle => 7,
        };
        let mut answer: Option<Outcome> = None;
        for d in &digits {
            let (next, action) = state.step(event(*d));
            let kind = action.kind();
            if kind == ActionKind::Remove {
                assert_eq!(counts[1], 1);
                assert_eq!(counts[5], 0);
                assert_eq!(counts[6], 0);
            }
            if kind == ActionKind::Kill {
                assert_eq!(counts[1], 1);
                assert_eq!(counts[5], 0);
            }
            if counts[5] == 1 {
                assert!(kind == ActionKind::Finish || kind == ActionKind::Idle);
            }
            if let Action::Finish { outcome } = action {
                let failure = outcome.result.as_ref().err().map(|e| e.kind());
                assert_eq!(counts[5], counts[1]);
                assert_eq!(failure == Some(ErrorKind::ExecutionTimeout), counts[4] == 1);
                assert_eq!(failure == Some(ErrorKind::SandboxCreateError), counts[1] == 0);
                if outcome.result.is_ok() {
                    assert_eq!(counts[3], 1);
                    assert_eq!(outcome.cleanup_failure, None);
                }
                answer = Some(outcome);
            }
            counts[index(kind)] += 1;
            state = next;
        }
        assert_eq!(counts[0], 0);
        assert!(counts[1] <= 1 && counts[2] <= 1 && counts[3] <= 1 && counts[4] <= 1);
        assert!(counts[5] <= counts[1]);
        assert_eq!(state.timeout_seconds, 4);
        if state.is_cleaned() {
            assert_eq!(counts[6], 1);
            assert_eq!(counts[5], counts[1]);
            assert!(answer.is_some());
        } else {
            assert_eq!(counts[6], 0);
            assert!(answer.is_none());
        }
        let mut i = 0;
        while i < len {
            digits[i] += 1;
            if digits[i] < kinds {
                break;
            }
            digits[i] = 0;
            i += 1;
        }
        if i == len {
            break;
        }
    }
}

#[test]
fn every_short_execution_is_consistent() {
    for len in 0..5 {
        explore(len);
    }
}
