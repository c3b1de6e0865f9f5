use crate::config::{SandboxConfig, SandboxConfigView};
use crate::error::{SandboxError, SandboxErrorView};
use crate::output::{collect_output, exit_status, log_outcome, wait_outcome, LogFrame};
use vstd::prelude::*;

verus! {

/// What a finished sandbox produced. The two telemetry fields are not
/// measured and are always zero.
#[derive(Debug, PartialEq, Eq)]
pub struct ContainerResult {
    pub stdout: String,
    pub stderr: String,
    pub exit_code: i64,
    pub memory_used: u64,
    pub cpu_time_nanos: u64,
}

/// Mathematical model of a [`ContainerResult`].
pub ghost struct ContainerResultView {
    pub stdout: Seq<char>,
    pub stderr: Seq<char>,
    pub exit_code: i64,
    pub memory_used: u64,
    pub cpu_time_nanos: u64,
}

impl View for ContainerResult {
    type V = ContainerResultView;

    open spec fn view(&self) -> ContainerResultView {
        ContainerResultView {
            stdout: self.stdout@,
            stderr: self.stderr@,
            exit_code: self.exit_code,
            memory_used: self.memory_used,
            cpu_time_nanos: self.cpu_time_nanos,
        }
    }
}

/// How one execution ended. `result` is what the caller is answered.
/// `cleanup_failure` holds the daemon's message where the destroy failed
/// after the execution had already failed: that failure is reported beside
/// the primary one and never in its place.
#[derive(Debug, PartialEq, Eq)]
pub struct Outcome {
    pub result: Result<ContainerResult, SandboxError>,
    pub cleanup_failure: Option<String>,
}

/// Mathematical model of an [`Outcome`].
pub ghost struct OutcomeView {
    pub result: Result<ContainerResultView, SandboxErrorView>,
    pub cleanup_failure: Option<Seq<char>>,
}

impl View for Outcome {
    type V = OutcomeView;

    open spec fn view(&self) -> OutcomeView {
        OutcomeView {
            result: match self.result {
                Ok(r) => Ok(r@),
                Err(e) => Err(e@),
            },
            cleanup_failure: match self.cleanup_failure {
                Some(d) => Some(d@),
                None => None,
            },
        }
    }
}

/// The state a wait request waits for.
#[derive(Clone, Copy, Debug, PartialEq, Eq, Structural)]
pub enum WaitCondition {
    NotRunning,
    NextExit,
    Removed,
}

/// A request the caller performs against the daemon, or the end of the
/// execution.
#[derive(Debug, PartialEq, Eq)]
pub enum Action {
    /// Create the sandbox under `name` with `config`.
    Create { name: String, config: SandboxConfig },
    /// Start the sandbox. Raced against the deadline.
    Start { id: String },
    /// Wait until the sandbox has reached `until`. Raced against the deadline.
    Wait { id: String, until: WaitCondition },
    /// Read the combined output of the sandbox. Raced against the deadline.
    ReadLogs { id: String },
    /// Kill the sandbox's process.
    Kill { id: String },
    /// Destroy the sandbox.
    Remove { id: String, force: bool },
    /// Answer the caller: the execution is over.
    Finish { outcome: Outcome },
    /// Nothing to do: the event answered no pending request.
    Idle,
}

/// The sort of an [`Action`], without what it carries.
#[derive(Clone, Copy, Debug, PartialEq, Eq, Structural)]
pub enum ActionKind {
    Create,
    Start,
    Wait,
    ReadLogs,
    Kill,
    Remove,
    Finish,
    Idle,
}

/// Mathematical model of an [`Action`].
pub ghost enum ActionView {
    Create { name: Seq<char>, config: SandboxConfigView },
    Start { id: Seq<char> },
    Wait { id: Seq<char>, until: WaitCondition },
    ReadLogs { id: Seq<char> },
    Kill { id: Seq<char> },
    Remove { id: Seq<char>, force: bool },
    Finish { outcome: OutcomeView },
    Idle,
}

impl ActionView {
    pub open spec fn kind(self) -> ActionKind {
        match self {
            ActionView::Create { .. } => ActionKind::Create,
            ActionView::Start { .. } => ActionKind::Start,
            ActionView::Wait { .. } => ActionKind::Wait,
            ActionView::ReadLogs { .. } => ActionKind::ReadLogs,
            ActionView::Kill { .. } => ActionKind::Kill,
            ActionView::Remove { .. } => ActionKind::Remove,
            ActionView::Finish { .. } => ActionKind::Finish,
            ActionView::Idle => ActionKind::Idle,
        }
    }

    /// The sandbox a request is addressed to, for the requests that are
    /// addressed to one.
    pub open spec fn target(self) -> Option<Seq<char>> {
        match self {
            ActionView::Start { id } => Some(id),
            ActionView::Wait { id, .. } => Some(id),
            ActionView::ReadLogs { id } => Some(id),
            ActionView::Kill { id } => Some(id),
            ActionView::Remove { id, .. } => Some(id),
            _ => None,
        }
    }
}

impl Action {
    /// The sort of this action.
    pub fn kind(&self) -> (k: ActionKind)
        ensures
            k == self@.kind(),
    {
        match self {
            Action::Create { .. } => ActionKind::Create,
            Action::Start { .. } => ActionKind::Start,
            Action::Wait { .. } => ActionKind::Wait,
            Action::ReadLogs { .. } => ActionKind::ReadLogs,
            Action::Kill { .. } => ActionKind::Kill,
            Action::Remove { .. } => ActionKind::Remove,
            Action::Finish { .. } => ActionKind::Finish,
            Action::Idle => ActionKind::Idle,
        }
    }
}

impl View for Action {
    type V = ActionView;

    open spec fn view(&self) -> ActionView {
        match self {
            Action::Create { name, config } => ActionView::Create { name: name@, config: config@ },
            Action::Start { id } => ActionView::Start { id: id@ },
            Action::Wait { id, until } => ActionView::Wait { id: id@, until: *until },
            Action::ReadLogs { id } => ActionView::ReadLogs { id: id@ },
            Action::Kill { id } => ActionView::Kill { id: id@ },
            Action::Remove { id, force } => ActionView::Remove { id: id@, force: *force },
            Action::Finish { outcome } => ActionView::Finish { outcome: outcome@ },
            Action::Idle => ActionView::Idle,
        }
    }
}

/// What the caller reports back after performing an action.
#[derive(Debug, PartialEq, Eq)]
pub enum Event {
    /// The daemon created the sandbox and named it `id`.
    Created { id: String },
    /// The daemon rejected the create request.
    CreateFailed { detail: String },
    /// The daemon started the sandbox.
    Started,
    /// The daemon rejected the start request.
    StartFailed { detail: String },
    /// The wait request was answered with these items, in order.
    Waited { items: Vec<Result<i64, String>> },
    /// The log request was answered with these items, in order.
    LogsRead { frames: Vec<Result<LogFrame, String>> },
    /// The deadline passed before the pending request was answered.
    DeadlineElapsed,
    /// The kill request was answered, successfully or not.
    Killed,
    /// The daemon destroyed the sandbox.
    Removed,
    /// The daemon failed to destroy the sandbox.
    RemoveFailed { detail: String },
}

/// Mathematical model of an [`Event`]. An answer stream is modelled by what
/// it amounts to.
pub ghost enum EventView {
    Created { id: Seq<char> },
    CreateFailed { detail: Seq<char> },
    Started,
    StartFailed { detail: Seq<char> },
    Waited { status: Result<i64, Seq<char>> },
    LogsRead { output: Result<(Seq<char>, Seq<char>), Seq<char>> },
    DeadlineElapsed,
    Killed,
    Removed,
    RemoveFailed { detail: Seq<char> },
}

impl View for Event {
    type V = EventView;

    open spec fn view(&self) -> EventView {
        match self {
            Event::Created { id } => EventView::Created { id: id@ },
            Event::CreateFailed { detail } => EventView::CreateFailed { detail: detail@ },
            Event::Started => EventView::Started,
            Event::StartFailed { detail } => EventView::StartFailed { detail: detail@ },
            Event::Waited { items } => EventView::Waited { status: wait_outcome(items@) },
            Event::LogsRead { frames } => EventView::LogsRead { output: log_outcome(frames@) },
            Event::DeadlineElapsed => EventView::DeadlineElapsed,
            Event::Killed => EventView::Killed,
            Event::Removed => EventView::Removed,
            Event::RemoveFailed { detail } => EventView::RemoveFailed { detail: detail@ },
        }
    }
}

/// Where one sandbox stands. In every phase but the last exactly one
/// request is pending.
#[derive(Debug, PartialEq, Eq)]
pub enum Phase {
    /// The create request is pending; no sandbox exists yet.
    Requested,
    /// The sandbox exists; the start request is pending.
    Created { id: String },
    /// The sandbox runs; the wait request is pending.
    Started { id: String },
    /// The sandbox has exited; the log request is pending.
    Exited { id: String, exit_code: i64 },
    /// The deadline has passed; the kill request is pending.
    Killing { id: String },
    /// The execution succeeded; the destroy request is pending.
    Completed { id: String, result: ContainerResult },
    /// The sandbox was killed; the destroy request is pending.
    TimedOut { id: String },
    /// The execution failed; the destroy request is pending.
    Failed { id: String, error: SandboxError },
    /// Nothing is pending and no sandbox is left.
    Cleaned,
}

/// Mathematical model of a [`Phase`].
pub ghost enum PhaseView {
    Requested,
    Created { id: Seq<char> },
    Started { id: Seq<char> },
    Exited { id: Seq<char>, exit_code: i64 },
    Killing { id: Seq<char> },
    Completed { id: Seq<char>, result: ContainerResultView },
    TimedOut { id: Seq<char> },
    Failed { id: Seq<char>, error: SandboxErrorView },
    Cleaned,
}

impl PhaseView {
    /// The sandbox that exists in this phase, if one does.
    pub open spec fn sandbox(self) -> Option<Seq<char>> {
        match self {
            PhaseView::Requested => None,
            PhaseView::Created { id } => Some(id),
            PhaseView::Started { id } => Some(id),
            PhaseView::Exited { id, .. } => Some(id),
            PhaseView::Killing { id } => Some(id),
            PhaseView::Completed { id, .. } => Some(id),
            PhaseView::TimedOut { id } => Some(id),
            PhaseView::Failed { id, .. } => Some(id),
            PhaseView::Cleaned => None,
        }
    }
}

impl View for Phase {
    type V = PhaseView;

    open spec fn view(&self) -> PhaseView {
        match self {
            Phase::Requested => PhaseView::Requested,
            Phase::Created { id } => PhaseView::Created { id: id@ },
            Phase::Started { id } => PhaseView::Started { id: id@ },
            Phase::Exited { id, exit_code } => PhaseView::Exited { id: id@, exit_code: *exit_code },
            Phase::Killing { id } => PhaseView::Killing { id: id@ },
            Phase::Completed { id, result } => PhaseView::Completed { id: id@, result: result@ },
            Phase::TimedOut { id } => PhaseView::TimedOut { id: id@ },
            Phase::Failed { id, error } => PhaseView::Failed { id: id@, error: error@ },
            Phase::Cleaned => PhaseView::Cleaned,
        }
    }
}

/// The lifecycle of one sandbox: its phase, and the deadline of the
/// execution it serves.
#[derive(Debug, PartialEq, Eq)]
pub struct Lifecycle {
    pub phase: Phase,
    pub timeout_seconds: u64,
}

/// Mathematical model of a [`Lifecycle`].
pub ghost struct LifecycleView {
    pub phase: PhaseView,
    pub timeout_seconds: u64,
}

impl View for Lifecycle {
    type V = LifecycleView;

    open spec fn view(&self) -> LifecycleView {
        LifecycleView { phase: self.phase@, timeout_seconds: self.timeout_seconds }
    }
}

/// The answer of an execution that ran to its end.
pub open spec fn success(stdout: Seq<char>, stderr: Seq<char>, exit_code: i64) -> ContainerResultView {
    ContainerResultView { stdout, stderr, exit_code, memory_used: 0, cpu_time_nanos: 0 }
}

/// The phase in which a failed execution waits for its sandbox to be
/// destroyed, and the forced destroy request.
pub open spec fn fail(state: LifecycleView, id: Seq<char>, error: SandboxErrorView) -> (
    LifecycleView,
    ActionView,
) {
    (
        LifecycleView { phase: PhaseView::Failed { id, error }, ..state },
        ActionView::Remove { id, force: true },
    )
}

/// The phase in which the sandbox is being killed, and the kill request.
pub open spec fn kill(state: LifecycleView, id: Seq<char>) -> (LifecycleView, ActionView) {
    (LifecycleView { phase: PhaseView::Killing { id }, ..state }, ActionView::Kill { id })
}

/// The terminal phase, and the answer to the caller.
pub open spec fn finish(
    state: LifecycleView,
    result: Result<ContainerResultView, SandboxErrorView>,
    cleanup_failure: Option<Seq<char>>,
) -> (LifecycleView, ActionView) {
    (
        LifecycleView { phase: PhaseView::Cleaned, ..state },
        ActionView::Finish { outcome: OutcomeView { result, cleanup_failure } },
    )
}

/// The transition relation of the lifecycle, as a function: the state and
/// the action that follow `state` on `event`. An event that does not answer
/// the pending request changes nothing and asks for nothing.
pub open spec fn next(state: LifecycleView, event: EventView) -> (LifecycleView, ActionView) {
    match state.phase {
        PhaseView::Requested => match event {
            EventView::Created { id } => (
                LifecycleView { phase: PhaseView::Created { id }, ..state },
                ActionView::Start { id },
            ),
            EventView::CreateFailed { detail } => finish(
                state,
                Err(SandboxErrorView::SandboxCreateError { detail }),
                None,
            ),
            _ => (state, ActionView::Idle),
        },
        PhaseView::Created { id } => match event {
            EventView::Started => (
                LifecycleView { phase: PhaseView::Started { id }, ..state },
                ActionView::Wait { id, until: WaitCondition::NotRunning },
            ),
            EventView::StartFailed { detail } => fail(
                state,
                id,
                SandboxErrorView::SandboxStartError { detail },
            ),
            EventView::DeadlineElapsed => kill(state, id),
            _ => (state, ActionView::Idle),
        },
        PhaseView::Started { id } => match event {
            EventView::Waited { status: Ok(exit_code) } => (
                LifecycleView { phase: PhaseView::Exited { id, exit_code }, ..state },
                ActionView::ReadLogs { id },
            ),
            EventView::Waited { status: Err(detail) } => fail(
                state,
                id,
                SandboxErrorView::ExecutionFailed { detail },
            ),
            EventView::DeadlineElapsed => kill(state, id),
            _ => (state, ActionView::Idle),
        },
        PhaseView::Exited { id, exit_code } => match event {
            EventView::LogsRead { output: Ok((stdout, stderr)) } => (
                LifecycleView {
                    phase: PhaseView::Completed { id, result: success(stdout, stderr, exit_code) },
                    ..state
                },
                ActionView::Remove { id, force: true },
            ),
            EventView::LogsRead { output: Err(detail) } => fail(
                state,
                id,
                SandboxErrorView::ExecutionFailed { detail },
            ),
            EventView::DeadlineElapsed => kill(state, id),
            _ => (state, ActionView::Idle),
        },
        PhaseView::Killing { id } => match event {
            EventView::Killed => (
                LifecycleView { phase: PhaseView::TimedOut { id }, ..state },
                ActionView::Remove { id, force: true },
            ),
            _ => (state, ActionView::Idle),
        },
        PhaseView::Completed { id, result } => match event {
            EventView::Removed => finish(state, Ok(result), None),
            EventView::RemoveFailed { detail } => finish(
                state,
                Err(SandboxErrorView::SandboxRemoveError { detail }),
                None,
            ),
            _ => (state, ActionView::Idle),
        },
        PhaseView::TimedOut { id } => match event {
            EventView::Removed => finish(
                state,
                Err(SandboxErrorView::ExecutionTimeout { seconds: state.timeout_seconds }),
                None,
            ),
            EventView::RemoveFailed { detail } => finish(
                state,
                Err(SandboxErrorView::ExecutionTimeout { seconds: state.timeout_seconds }),
                Some(detail),
            ),
            _ => (state, ActionView::Idle),
        },
        PhaseView::Failed { id, error } => match event {
            EventView::Removed => finish(state, Err(error), None),
            EventView::RemoveFailed { detail } => finish(state, Err(error), Some(detail)),
            _ => (state, ActionView::Idle),
        },
        PhaseView::Cleaned => (state, ActionView::Idle),
    }
}

impl Lifecycle {
    /// The lifecycle of an execution whose create request has just been
    /// issued.
    pub fn requested(timeout_seconds: u64) -> (state: Lifecycle)
        ensures
            state@ == (LifecycleView { phase: PhaseView::Requested, timeout_seconds }),
    {
        Lifecycle { phase: Phase::Requested, timeout_seconds }
    }

    /// Whether the execution is over.
    pub fn is_cleaned(&self) -> (b: bool)
        ensures
            b == (self@.phase is Cleaned),
    {
        match self.phase {
            Phase::Cleaned => true,
            _ => false,
        }
    }

    /// Whether a sandbox exists that has not been destroyed yet.
    pub fn owns_sandbox(&self) -> (b: bool)
        ensures
            b == self@.phase.sandbox().is_some(),
    {
        match self.phase {
            Phase::Requested => false,
            Phase::Cleaned => false,
            _ => true,
        }
    }

    /// Takes one event and answers with the next state and the next action.
    pub fn step(self, event: Event) -> (r: (Lifecycle, Action))
        ensures
            (r.0@, r.1@) == next(self@, event@),
    {
        let timeout_seconds = self.timeout_seconds;
        match self.phase {
            Phase::Requested => match event {
                Event::Created { id } => {
                    let action = Action::Start { id: id.clone() };
                    (Lifecycle { phase: Phase::Created { id }, timeout_seconds }, action)
                },
                Event::CreateFailed { detail } => finish_with(
                    timeout_seconds,
                    Err(SandboxError::SandboxCreateError { detail }),
                    None,
                ),
                _ => (Lifecycle { phase: Phase::Requested, timeout_seconds }, Action::Idle),
            },
            Phase::Created { id } => match event {
                Event::Started => {
                    let action = Action::Wait { id: id.clone(), until: WaitCondition::NotRunning };
                    (Lifecycle { phase: Phase::Started { id }, timeout_seconds }, action)
                },
                Event::StartFailed { detail } => fail_with(
                    timeout_seconds,
                    id,
                    SandboxError::SandboxStartError { detail },
                ),
                Event::DeadlineElapsed => kill_with(timeout_seconds, id),
                _ => (Lifecycle { phase: Phase::Created { id }, timeout_seconds }, Action::Idle),
            },
            Phase::Started { id } => match event {
                Event::Waited { items } => match exit_status(&items) {
                    Ok(exit_code) => {
                        let action = Action::ReadLogs { id: id.clone() };
                        (Lifecycle { phase: Phase::Exited { id, exit_code }, timeout_seconds }, action)
                    },
                    Err(error) => fail_with(timeout_seconds, id, error),
                },
                Event::DeadlineElapsed => kill_with(timeout_seconds, id),
                _ => (Lifecycle { phase: Phase::Started { id }, timeout_seconds }, Action::Idle),
            },
            Phase::Exited { id, exit_code } => match event {
                Event::LogsRead { frames } => match collect_output(&frames) {
                    Ok(output) => {
                        let result = ContainerResult {
                            stdout: output.stdout,
                            stderr: output.stderr,
                            exit_code,
                            memory_used: 0,
                            cpu_time_nanos: 0,
                        };
                        let action = Action::Remove { id: id.clone(), force: true };
                        (
                            Lifecycle { phase: Phase::Completed { id, result }, timeout_seconds },
                            action,
                        )
                    },
                    Err(error) => fail_with(timeout_seconds, id, error),
                },
                Event::DeadlineElapsed => kill_with(timeout_seconds, id),
                _ => (
                    Lifecycle { phase: Phase::Exited { id, exit_code }, timeout_seconds },
                    Action::Idle,
                ),
            },
            Phase::Killing { id } => match event {
                Event::Killed => {
                    let action = Action::Remove { id: id.clone(), force: true };
                    (Lifecycle { phase: Phase::TimedOut { id }, timeout_seconds }, action)
                },
                _ => (Lifecycle { phase: Phase::Killing { id }, timeout_seconds }, Action::Idle),
            },
            Phase::Completed { id, result } => match event {
                Event::Removed => finish_with(timeout_seconds, Ok(result), None),
                Event::RemoveFailed { detail } => finish_with(
                    timeout_seconds,
                    Err(SandboxError::SandboxRemoveError { detail }),
                    None,
                ),
                _ => (
                    Lifecycle { phase: Phase::Completed { id, result }, timeout_seconds },
                    Action::Idle,
                ),
            },
            Phase::TimedOut { id } => match event {
                Event::Removed => finish_with(
                    timeout_seconds,
                    Err(SandboxError::ExecutionTimeout { seconds: timeout_seconds }),
                    None,
                ),
                Event::RemoveFailed { detail } => finish_with(
                    timeout_seconds,
                    Err(SandboxError::ExecutionTimeout { seconds: timeout_seconds }),
                    Some(detail),
                ),
                _ => (Lifecycle { phase: Phase::TimedOut { id }, timeout_seconds }, Action::Idle),
            },
            Phase::Failed { id, error } => match event {
                Event::Removed => finish_with(timeout_seconds, Err(error), None),
                Event::RemoveFailed { detail } => finish_with(
                    timeout_seconds,
                    Err(error),
                    Some(detail),
                ),
                _ => (Lifecycle { phase: Phase::Failed { id, error }, timeout_seconds }, Action::Idle),
            },
            Phase::Cleaned => (Lifecycle { phase: Phase::Cleaned, timeout_seconds }, Action::Idle),
        }
    }
}

fn finish_with(
    timeout_seconds: u64,
    result: Result<ContainerResult, SandboxError>,
    cleanup_failure: Option<String>,
) -> (r: (Lifecycle, Action))
    ensures
        r.0@ == (LifecycleView { phase: PhaseView::Cleaned, timeout_seconds }),
        r.1@ == (ActionView::Finish {
            outcome: (Outcome { result, cleanup_failure })@,
        }),
{
    (
        Lifecycle { phase: Phase::Cleaned, timeout_seconds },
        Action::Finish { outcome: Outcome { result, cleanup_failure } },
    )
}

fn fail_with(timeout_seconds: u64, id: String, error: SandboxError) -> (r: (Lifecycle, Action))
    ensures
        r.0@ == (LifecycleView {
            phase: PhaseView::Failed { id: id@, error: error@ },
            timeout_seconds,
        }),
        r.1@ == (ActionView::Remove { id: id@, force: true }),
{
    let action = Action::Remove { id: id.clone(), force: true };
    (Lifecycle { phase: Phase::Failed { id, error }, timeout_seconds }, action)
}

fn kill_with(timeout_seconds: u64, id: String) -> (r: (Lifecycle, Action))
    ensures
        r.0@ == (LifecycleView { phase: PhaseView::Killing { id: id@ }, timeout_seconds }),
        r.1@ == (ActionView::Kill { id: id@ }),
{
    let action = Action::Kill { id: id.clone() };
    (Lifecycle { phase: Phase::Killing { id }, timeout_seconds }, action)
}

} // verus!
