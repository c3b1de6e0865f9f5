use crate::error::{kind_follows_create, ErrorKind, SandboxErrorView};
use crate::lifecycle::{
    next, success, ActionKind, ActionView, ContainerResultView, EventView, LifecycleView,
    OutcomeView, PhaseView, WaitCondition,
};
use vstd::prelude::*;

verus! {

/// The state in which an execution waits for the answer to its create
/// request.
pub open spec fn requested(timeout_seconds: u64) -> LifecycleView {
    LifecycleView { phase: PhaseView::Requested, timeout_seconds }
}

/// Feeds a sequence of events to the lifecycle, one after the other. The
/// result is the state reached and the actions answered, one per event.
pub open spec fn run(state: LifecycleView, events: Seq<EventView>) -> (
    LifecycleView,
    Seq<ActionView>,
)
    decreases events.len(),
{
    if events.len() == 0 {
        (state, Seq::empty())
    } else {
        let (mid, actions) = run(state, events.drop_last());
        let (end, action) = next(mid, events.last());
        (end, actions.push(action))
    }
}

/// How many actions of one sort a sequence holds.
pub open spec fn occurrences(actions: Seq<ActionView>, kind: ActionKind) -> nat
    decreases actions.len(),
{
    if actions.len() == 0 {
        0
    } else if actions.last().kind() == kind {
        occurrences(actions.drop_last(), kind) + 1
    } else {
        occurrences(actions.drop_last(), kind)
    }
}

/// Every request of the sequence that is addressed to a sandbox is
/// addressed to `id`.
pub open spec fn addressed_to(actions: Seq<ActionView>, id: Seq<char>) -> bool {
    forall|i: int|
        0 <= i < actions.len() ==> (#[trigger] actions[i]).target() is None || actions[i].target()
            == Some(id)
}

/// No two requests of the sequence are addressed to different sandboxes.
pub open spec fn one_sandbox(actions: Seq<ActionView>) -> bool {
    forall|i: int, j: int|
        0 <= i < actions.len() && 0 <= j < actions.len() && (#[trigger] actions[i]).target() is Some
            && (#[trigger] actions[j]).target() is Some ==> actions[i].target()
            == actions[j].target()
}

/// What holds of a state and of the actions that led to it, in every
/// execution: which requests have been issued, and how often, is fixed by
/// the phase.
pub open spec fn consistent(state: LifecycleView, actions: Seq<ActionView>) -> bool {
    let starts = occurrences(actions, ActionKind::Start);
    let waits = occurrences(actions, ActionKind::Wait);
    let reads = occurrences(actions, ActionKind::ReadLogs);
    let kills = occurrences(actions, ActionKind::Kill);
    let removes = occurrences(actions, ActionKind::Remove);
    let finishes = occurrences(actions, ActionKind::Finish);
    &&& occurrences(actions, ActionKind::Create) == 0
    &&& one_sandbox(actions)
    &&& state.phase.sandbox() matches Some(id) ==> addressed_to(actions, id)
    &&& reads <= waits <= starts <= 1
    &&& kills <= starts
    &&& match state.phase {
        PhaseView::Requested => starts == 0 && removes == 0 && finishes == 0,
        PhaseView::Created { .. } => starts == 1 && waits == 0 && kills == 0 && removes == 0
            && finishes == 0,
        PhaseView::Started { .. } => waits == 1 && reads == 0 && kills == 0 && removes == 0
            && finishes == 0,
        PhaseView::Exited { .. } => reads == 1 && kills == 0 && removes == 0 && finishes == 0,
        PhaseView::Killing { .. } => kills == 1 && removes == 0 && finishes == 0,
        PhaseView::Completed { .. } => reads == 1 && kills == 0 && removes == 1 && finishes == 0,
        PhaseView::TimedOut { .. } => kills == 1 && removes == 1 && finishes == 0,
        PhaseView::Failed { error, .. } => starts == 1 && kills == 0 && removes == 1 && finishes
            == 0 && (error is SandboxStartError || error is ExecutionFailed),
        PhaseView::Cleaned => removes == starts && finishes == 1,
    }
}

/// Appending one action raises the count of its own sort by one and leaves
/// the other counts as they were.
pub proof fn lemma_occurrences_push(actions: Seq<ActionView>, action: ActionView, kind: ActionKind)
    ensures
        occurrences(actions.push(action), kind) == occurrences(actions, kind) + (if action.kind()
            == kind {
            1nat
        } else {
            0nat
        }),
{
    assert(actions.push(action).drop_last() =~= actions);
}

/// One step keeps a consistent pair consistent.
pub proof fn lemma_step_consistent(state: LifecycleView, actions: Seq<ActionView>, event: EventView)
    requires
        consistent(state, actions),
    ensures
        consistent(next(state, event).0, actions.push(next(state, event).1)),
{
    let (end, action) = next(state, event);
    let after = actions.push(action);
    lemma_occurrences_push(actions, action, ActionKind::Create);
    lemma_occurrences_push(actions, action, ActionKind::Start);
    lemma_occurrences_push(actions, action, ActionKind::Wait);
    lemma_occurrences_push(actions, action, ActionKind::ReadLogs);
    lemma_occurrences_push(actions, action, ActionKind::Kill);
    lemma_occurrences_push(actions, action, ActionKind::Remove);
    lemma_occurrences_push(actions, action, ActionKind::Finish);
    if action.target() is None {
        assert(one_sandbox(after));
        if end.phase.sandbox() is Some {
            assert(end.phase.sandbox() == state.phase.sandbox());
            assert(addressed_to(after, end.phase.sandbox()->Some_0));
        }
    } else {
        let id = action.target()->Some_0;
        if state.phase is Requested {
            assert(occurrences(actions, ActionKind::Start) == 0);
            lemma_nothing_addressed(actions);
            assert(addressed_to(actions, id));
        } else {
            assert(state.phase.sandbox() == Some(id));
        }
        assert(addressed_to(after, id));
        assert(one_sandbox(after));
        assert(end.phase.sandbox() == Some(id));
    }
}

/// Where nothing was started, killed or removed, no request is addressed to
/// a sandbox.
pub proof fn lemma_nothing_addressed(actions: Seq<ActionView>)
    requires
        occurrences(actions, ActionKind::Start) == 0,
        occurrences(actions, ActionKind::Wait) == 0,
        occurrences(actions, ActionKind::ReadLogs) == 0,
        occurrences(actions, ActionKind::Kill) == 0,
        occurrences(actions, ActionKind::Remove) == 0,
    ensures
        forall|i: int| 0 <= i < actions.len() ==> (#[trigger] actions[i]).target() is None,
    decreases actions.len(),
{
    if actions.len() > 0 {
        lemma_nothing_addressed(actions.drop_last());
        assert forall|i: int| 0 <= i < actions.len() implies (#[trigger] actions[i]).target()
            is None by {
            if i < actions.len() - 1 {
                assert(actions[i] == actions.drop_last()[i]);
            }
        }
    }
}

/// Every execution is consistent at every moment: whatever events arrive,
/// in whatever order, the state reached and the actions answered satisfy
/// [`consistent`].
pub proof fn lemma_run_consistent(timeout_seconds: u64, events: Seq<EventView>)
    ensures
        consistent(run(requested(timeout_seconds), events).0, run(requested(timeout_seconds), events).1),
    decreases events.len(),
{
    let start = requested(timeout_seconds);
    if events.len() == 0 {
        assert(one_sandbox(Seq::<ActionView>::empty()));
    } else {
        lemma_run_consistent(timeout_seconds, events.drop_last());
        let (mid, actions) = run(start, events.drop_last());
        lemma_step_consistent(mid, actions, events.last());
    }
}

/// One action is answered per event.
pub proof fn lemma_run_len(state: LifecycleView, events: Seq<EventView>)
    ensures
        run(state, events).1.len() == events.len(),
    decreases events.len(),
{
    if events.len() > 0 {
        lemma_run_len(state, events.drop_last());
    }
}

/// The actions answered to the first `k` events do not depend on the events
/// that follow, and the action answered to event `k` is the step taken from
/// the state reached on the events before it.
pub proof fn lemma_run_prefix(state: LifecycleView, events: Seq<EventView>, k: int)
    requires
        0 <= k <= events.len(),
    ensures
        run(state, events.take(k)).1 == run(state, events).1.take(k),
        k < events.len() ==> run(state, events).1[k] == next(
            run(state, events.take(k)).0,
            events[k],
        ).1,
    decreases events.len(),
{
    lemma_run_len(state, events);
    if k == events.len() {
        assert(events.take(k) =~= events);
        assert(run(state, events).1.take(k) =~= run(state, events).1);
    } else {
        let front = events.drop_last();
        lemma_run_len(state, front);
        lemma_run_prefix(state, front, k);
        assert(front.take(k) =~= events.take(k));
        assert(run(state, events).1.take(k) =~= run(state, front).1.take(k));
        if k == events.len() - 1 {
            assert(events.take(k) =~= front);
        }
    }
}

/// A sequence that holds an action of some sort at some place holds at
/// least one action of that sort.
pub proof fn lemma_occurs(actions: Seq<ActionView>, k: int)
    requires
        0 <= k < actions.len(),
    ensures
        occurrences(actions, actions[k].kind()) >= 1,
    decreases actions.len(),
{
    if k < actions.len() - 1 {
        lemma_occurs(actions.drop_last(), k);
    }
}

/// Putting one action in front raises the count of its own sort by one and
/// leaves the other counts as they were.
pub proof fn lemma_occurrences_prepend(first: ActionView, actions: Seq<ActionView>, kind: ActionKind)
    ensures
        occurrences(seq![first] + actions, kind) == occurrences(actions, kind) + (if first.kind()
            == kind {
            1nat
        } else {
            0nat
        }),
    decreases actions.len(),
{
    let all = seq![first] + actions;
    if actions.len() == 0 {
        assert(all =~= Seq::<ActionView>::empty().push(first));
        lemma_occurrences_push(Seq::empty(), first, kind);
    } else {
        lemma_occurrences_prepend(first, actions.drop_last(), kind);
        assert(all.drop_last() =~= seq![first] + actions.drop_last());
        assert(all.last() == actions.last());
    }
}

/// Everything an execution asks of the daemon: the create request, then
/// the actions answered to the events.
pub open spec fn transcript(create: ActionView, timeout_seconds: u64, events: Seq<EventView>) -> Seq<
    ActionView,
> {
    seq![create] + run(requested(timeout_seconds), events).1
}

/// In every execution, whatever the daemon answers and whenever the
/// deadline passes: one create request is issued; every other request is
/// issued at most once, and all of them are addressed to one sandbox; and
/// once the execution is over the caller has been answered once, and a
/// destroy request was issued exactly if the sandbox had come to exist.
/// While the execution is not over, the caller has not been answered.
pub proof fn lemma_one_create_one_destroy(
    create: ActionView,
    timeout_seconds: u64,
    events: Seq<EventView>,
)
    requires
        create is Create,
    ensures
        ({
            let end = run(requested(timeout_seconds), events).0;
            let all = transcript(create, timeout_seconds, events);
            &&& occurrences(all, ActionKind::Create) == 1
            &&& occurrences(all, ActionKind::Start) <= 1
            &&& occurrences(all, ActionKind::Wait) <= 1
            &&& occurrences(all, ActionKind::ReadLogs) <= 1
            &&& occurrences(all, ActionKind::Kill) <= 1
            &&& occurrences(all, ActionKind::Remove) <= occurrences(all, ActionKind::Start)
            &&& one_sandbox(run(requested(timeout_seconds), events).1)
            &&& end.phase is Cleaned ==> occurrences(all, ActionKind::Remove) == occurrences(
                all,
                ActionKind::Start,
            ) && occurrences(all, ActionKind::Finish) == 1
            &&& !(end.phase is Cleaned) ==> occurrences(all, ActionKind::Finish) == 0
            &&& end.phase.sandbox() is Some ==> occurrences(all, ActionKind::Start) == 1
            &&& end.timeout_seconds == timeout_seconds
        }),
{
    let actions = run(requested(timeout_seconds), events).1;
    lemma_run_consistent(timeout_seconds, events);
    lemma_timeout_kept(requested(timeout_seconds), events);
    lemma_occurrences_prepend(create, actions, ActionKind::Create);
    lemma_occurrences_prepend(create, actions, ActionKind::Start);
    lemma_occurrences_prepend(create, actions, ActionKind::Wait);
    lemma_occurrences_prepend(create, actions, ActionKind::ReadLogs);
    lemma_occurrences_prepend(create, actions, ActionKind::Kill);
    lemma_occurrences_prepend(create, actions, ActionKind::Remove);
    lemma_occurrences_prepend(create, actions, ActionKind::Finish);
}

/// The deadline of an execution never changes.
pub proof fn lemma_timeout_kept(state: LifecycleView, events: Seq<EventView>)
    ensures
        run(state, events).0.timeout_seconds == state.timeout_seconds,
    decreases events.len(),
{
    if events.len() > 0 {
        lemma_timeout_kept(state, events.drop_last());
    }
}

/// A destroy request is forced, is addressed to the sandbox that exists,
/// and is issued at one of four moments only: the start was rejected, the
/// wait was answered with a failure, the logs were answered, or the kill
/// was answered. A kill request is issued exactly when the deadline passes
/// while the start, the wait or the logs are pending.
pub proof fn lemma_when_destroyed(state: LifecycleView, event: EventView)
    ensures
        next(state, event).1 is Remove ==> {
            &&& next(state, event).1 == (ActionView::Remove {
                id: state.phase.sandbox()->Some_0,
                force: true,
            })
            &&& state.phase.sandbox() is Some
            &&& (state.phase is Created && event is StartFailed) || (state.phase is Started && event
                matches EventView::Waited { status: Err(_) }) || (state.phase is Exited && event
                is LogsRead) || (state.phase is Killing && event is Killed)
        },
        next(state, event).1 is Kill <==> event is DeadlineElapsed && (state.phase is Created
            || state.phase is Started || state.phase is Exited),
        next(state, event).1 is Kill ==> next(state, event).1 == (ActionView::Kill {
            id: state.phase.sandbox()->Some_0,
        }) && next(state, event).0.phase is Killing,
        next(state, event).1 is Idle ==> next(state, event).0 == state,
        next(state, event).1 is Finish <==> next(state, event).0.phase is Cleaned && !(state.phase
            is Cleaned),
        !(next(state, event).1 is Create),
{
}

/// When the destroy request is issued, the sandbox has been started once,
/// nothing was destroyed before and the caller has not been answered; and
/// nothing is asked of the daemon afterwards: what follows is the answer to
/// the caller, or nothing.
pub proof fn lemma_destroy_comes_last(timeout_seconds: u64, events: Seq<EventView>, k: int, j: int)
    requires
        0 <= k < j < events.len(),
        run(requested(timeout_seconds), events).1[k] is Remove,
    ensures
        ({
            let actions = run(requested(timeout_seconds), events).1;
            &&& occurrences(actions.take(k), ActionKind::Start) == 1
            &&& occurrences(actions.take(k), ActionKind::Remove) == 0
            &&& occurrences(actions.take(k), ActionKind::Finish) == 0
            &&& actions[j] is Finish || actions[j] is Idle
        }),
{
    let start = requested(timeout_seconds);
    let actions = run(start, events);
    lemma_run_len(start, events);
    // Before the destroy request.
    lemma_run_prefix(start, events, k);
    lemma_run_consistent(timeout_seconds, events.take(k));
    lemma_when_destroyed(run(start, events.take(k)).0, events[k]);
    // Before the later action.
    lemma_run_prefix(start, events, j);
    lemma_run_consistent(timeout_seconds, events.take(j));
    assert(actions.1.take(j)[k] == actions.1[k]);
    lemma_occurs(actions.1.take(j), k);
}

/// The class of the failure an outcome answers with, if it answers with one.
pub open spec fn failure_kind(outcome: OutcomeView) -> Option<ErrorKind> {
    match outcome.result {
        Ok(_) => None,
        Err(error) => Some(error.kind()),
    }
}

/// When the caller is answered, the answer tells what happened: a timeout
/// exactly if the sandbox was killed, and then with the deadline of the
/// execution; a rejected create exactly if nothing was ever started, and
/// then nothing was waited for, read, killed or destroyed either; a failure
/// of a class that follows the create exactly if the sandbox was started;
/// a result only if the logs were read and nothing was killed. A destroy that failed
/// is the answer only where the execution itself had succeeded.
pub proof fn lemma_answer_tells(timeout_seconds: u64, events: Seq<EventView>, k: int)
    requires
        0 <= k < events.len(),
        run(requested(timeout_seconds), events).1[k] is Finish,
    ensures
        ({
            let before = run(requested(timeout_seconds), events).1.take(k);
            let outcome = run(requested(timeout_seconds), events).1[k]->outcome;
            &&& failure_kind(outcome) == Some(ErrorKind::ExecutionTimeout) ==> outcome.result
                == Err::<ContainerResultView, SandboxErrorView>(
                SandboxErrorView::ExecutionTimeout { seconds: timeout_seconds },
            )
            &&& failure_kind(outcome) == Some(ErrorKind::ExecutionTimeout) <==> occurrences(
                before,
                ActionKind::Kill,
            ) == 1
            &&& failure_kind(outcome) == Some(ErrorKind::SandboxCreateError) <==> occurrences(
                before,
                ActionKind::Start,
            ) == 0
            &&& occurrences(before, ActionKind::Start) == 0 ==> occurrences(
                before,
                ActionKind::Wait,
            ) == 0 && occurrences(before, ActionKind::ReadLogs) == 0 && occurrences(
                before,
                ActionKind::Kill,
            ) == 0 && occurrences(before, ActionKind::Remove) == 0
            &&& occurrences(before, ActionKind::Start) == 1 ==> occurrences(
                before,
                ActionKind::Remove,
            ) == 1
            &&& outcome.result is Ok ==> occurrences(before, ActionKind::ReadLogs) == 1
                && occurrences(before, ActionKind::Kill) == 0 && outcome.cleanup_failure is None
            &&& outcome.cleanup_failure is Some ==> outcome.result is Err && failure_kind(outcome)
                != Some(ErrorKind::SandboxRemoveError) && events[k] is RemoveFailed
            &&& failure_kind(outcome) matches Some(kind) ==> (kind_follows_create(kind)
                <==> occurrences(before, ActionKind::Start) == 1)
            &&& failure_kind(outcome) != Some(ErrorKind::UnsupportedLanguage)
            &&& failure_kind(outcome) != Some(ErrorKind::DaemonConnectionError)
        }),
{
    let start = requested(timeout_seconds);
    lemma_run_len(start, events);
    lemma_run_prefix(start, events, k);
    lemma_run_consistent(timeout_seconds, events.take(k));
    lemma_timeout_kept(start, events.take(k));
}

/// Once over, an execution stays over: no event asks anything more.
pub proof fn lemma_cleaned_is_final(state: LifecycleView, events: Seq<EventView>, k: int)
    requires
        state.phase is Cleaned,
        0 <= k < events.len(),
    ensures
        run(state, events).0 == state,
        run(state, events).1[k] is Idle,
    decreases events.len(),
{
    lemma_run_len(state, events);
    lemma_cleaned_stays(state, events.drop_last());
    if k < events.len() - 1 {
        lemma_run_len(state, events.drop_last());
        lemma_cleaned_is_final(state, events.drop_last(), k);
    }
}

/// A finished execution is in the same state after any events.
pub proof fn lemma_cleaned_stays(state: LifecycleView, events: Seq<EventView>)
    requires
        state.phase is Cleaned,
    ensures
        run(state, events).0 == state,
    decreases events.len(),
{
    if events.len() > 0 {
        lemma_cleaned_stays(state, events.drop_last());
    }
}

/// The execution that runs to its end: the sandbox is started, waited for,
/// read and destroyed, in this order, and the caller is answered with the
/// exit status and the two streams.
pub proof fn lemma_completed_execution(
    timeout_seconds: u64,
    id: Seq<char>,
    exit_code: i64,
    stdout: Seq<char>,
    stderr: Seq<char>,
)
    ensures
        run(
            requested(timeout_seconds),
            seq![
                EventView::Created { id },
                EventView::Started,
                EventView::Waited { status: Ok(exit_code) },
                EventView::LogsRead { output: Ok((stdout, stderr)) },
                EventView::Removed,
            ],
        ) == (
            LifecycleView { phase: PhaseView::Cleaned, timeout_seconds },
            seq![
                ActionView::Start { id },
                ActionView::Wait { id, until: WaitCondition::NotRunning },
                ActionView::ReadLogs { id },
                ActionView::Remove { id, force: true },
                ActionView::Finish {
                    outcome: OutcomeView {
                        result: Ok(success(stdout, stderr, exit_code)),
                        cleanup_failure: None,
                    },
                },
            ],
        ),
{
    let e0 = EventView::Created { id };
    let e1 = EventView::Started;
    let e2 = EventView::Waited { status: Ok(exit_code) };
    let e3 = EventView::LogsRead { output: Ok((stdout, stderr)) };
    let e4 = EventView::Removed;
    let start = requested(timeout_seconds);
    lemma_run_one(start, Seq::empty(), e0);
    lemma_run_one(start, seq![e0], e1);
    lemma_run_one(start, seq![e0, e1], e2);
    lemma_run_one(start, seq![e0, e1, e2], e3);
    lemma_run_one(start, seq![e0, e1, e2, e3], e4);
    assert(seq![e0] =~= Seq::empty().push(e0));
    assert(seq![e0, e1] =~= seq![e0].push(e1));
    assert(seq![e0, e1, e2] =~= seq![e0, e1].push(e2));
    assert(seq![e0, e1, e2, e3] =~= seq![e0, e1, e2].push(e3));
    assert(seq![e0, e1, e2, e3, e4] =~= seq![e0, e1, e2, e3].push(e4));
    assert(run(start, seq![e0, e1, e2, e3, e4]).1 =~= seq![
        ActionView::Start { id },
        ActionView::Wait { id, until: WaitCondition::NotRunning },
        ActionView::ReadLogs { id },
        ActionView::Remove { id, force: true },
        ActionView::Finish {
            outcome: OutcomeView {
                result: Ok(success(stdout, stderr, exit_code)),
                cleanup_failure: None,
            },
        },
    ]);
}

/// Running on one more event is one more step.
pub proof fn lemma_run_one(state: LifecycleView, events: Seq<EventView>, event: EventView)
    ensures
        run(state, events.push(event)) == (
            next(run(state, events).0, event).0,
            run(state, events).1.push(next(run(state, events).0, event).1),
        ),
{
    assert(events.push(event).drop_last() =~= events);
}

/// The execution whose deadline passes while the start, the wait or the
/// logs are pending: the sandbox is killed, then destroyed, and the caller
/// is answered with the timeout and with no output, whether or not the
/// destroy succeeds.
pub proof fn lemma_timed_out_execution(state: LifecycleView, destroyed: EventView)
    requires
        state.phase is Created || state.phase is Started || state.phase is Exited,
        destroyed is Removed || destroyed is RemoveFailed,
    ensures
        ({
            let id = state.phase.sandbox()->Some_0;
            let (end, actions) = run(state, seq![EventView::DeadlineElapsed, EventView::Killed, destroyed]);
            &&& end == (LifecycleView { phase: PhaseView::Cleaned, ..state })
            &&& actions.len() == 3
            &&& actions[0] == (ActionView::Kill { id })
            &&& actions[1] == (ActionView::Remove { id, force: true })
            &&& actions[2] == (ActionView::Finish {
                outcome: OutcomeView {
                    result: Err(
                        SandboxErrorView::ExecutionTimeout { seconds: state.timeout_seconds },
                    ),
                    cleanup_failure: match destroyed {
                        EventView::RemoveFailed { detail } => Some(detail),
                        _ => None,
                    },
                },
            })
        }),
{
    let e0 = EventView::DeadlineElapsed;
    let e1 = EventView::Killed;
    lemma_run_one(state, Seq::empty(), e0);
    lemma_run_one(state, seq![e0], e1);
    lemma_run_one(state, seq![e0, e1], destroyed);
    assert(seq![e0] =~= Seq::empty().push(e0));
    assert(seq![e0, e1] =~= seq![e0].push(e1));
    assert(seq![e0, e1, destroyed] =~= seq![e0, e1].push(destroyed));
}

/// The execution whose create request is rejected: the caller is answered
/// at once with that failure, and nothing else is asked of the daemon,
/// whatever events follow.
pub proof fn lemma_rejected_create(
    timeout_seconds: u64,
    detail: Seq<char>,
    later: Seq<EventView>,
    k: int,
)
    requires
        0 <= k < later.len(),
    ensures
        ({
            let (end, actions) = run(
                requested(timeout_seconds),
                seq![EventView::CreateFailed { detail }] + later,
            );
            &&& end.phase is Cleaned
            &&& actions[0] == (ActionView::Finish {
                outcome: OutcomeView {
                    result: Err(SandboxErrorView::SandboxCreateError { detail }),
                    cleanup_failure: None,
                },
            })
            &&& actions[k + 1] is Idle
        }),
{
    let start = requested(timeout_seconds);
    let first = EventView::CreateFailed { detail };
    let events = seq![first] + later;
    lemma_run_len(start, events);
    lemma_run_prefix(start, events, 1);
    assert(events.take(1) =~= Seq::empty().push(first));
    lemma_run_one(start, Seq::empty(), first);
    let cleaned = LifecycleView { phase: PhaseView::Cleaned, timeout_seconds };
    assert(run(start, events.take(1)).0 == cleaned);
    lemma_run_split(start, events, 1);
    assert(events.skip(1) =~= later);
    lemma_cleaned_is_final(cleaned, later, k);
    lemma_run_len(start, events.take(1));
}

/// Running on a sequence is running on its front, then on its rest from the
/// state reached.
pub proof fn lemma_run_split(state: LifecycleView, events: Seq<EventView>, k: int)
    requires
        0 <= k <= events.len(),
    ensures
        run(state, events).0 == run(run(state, events.take(k)).0, events.skip(k)).0,
        run(state, events).1 == run(state, events.take(k)).1 + run(
            run(state, events.take(k)).0,
            events.skip(k),
        ).1,
    decreases events.len(),
{
    let mid = run(state, events.take(k)).0;
    if k == events.len() {
        assert(events.take(k) =~= events);
        assert(events.skip(k) =~= Seq::<EventView>::empty());
        assert(run(state, events).1 =~= run(state, events).1 + Seq::<ActionView>::empty());
    } else {
        let front = events.drop_last();
        lemma_run_split(state, front, k);
        assert(front.take(k) =~= events.take(k));
        assert(events.skip(k).drop_last() =~= front.skip(k));
        assert(events.skip(k).last() == events.last());
        let a = run(state, events.take(k)).1;
        let b = run(mid, front.skip(k)).1;
        let step = next(run(state, front).0, events.last()).1;
        assert((a + b).push(step) =~= a + b.push(step));
    }
}

/// A bound on the number of events an execution in this phase still takes
/// before it is over.
pub open spec fn steps_left(phase: PhaseView) -> nat {
    match phase {
        PhaseView::Requested => 6,
        PhaseView::Created { .. } => 5,
        PhaseView::Started { .. } => 4,
        PhaseView::Exited { .. } => 3,
        PhaseView::Killing { .. } => 2,
        PhaseView::Completed { .. } => 1,
        PhaseView::TimedOut { .. } => 1,
        PhaseView::Failed { .. } => 1,
        PhaseView::Cleaned => 0,
    }
}

/// The event that reports the pending request of a phase as answered
/// without failure.
pub open spec fn plain_answer(phase: PhaseView) -> EventView {
    match phase {
        PhaseView::Requested => EventView::Created { id: Seq::empty() },
        PhaseView::Created { .. } => EventView::Started,
        PhaseView::Started { .. } => EventView::Waited { status: Ok(0) },
        PhaseView::Exited { .. } => EventView::LogsRead { output: Ok((Seq::empty(), Seq::empty())) },
        PhaseView::Killing { .. } => EventView::Killed,
        _ => EventView::Removed,
    }
}

/// An execution cannot get stuck and cannot go on for ever: until it is
/// over, the answer to its pending request is taken; every event that is
/// taken brings the end nearer; and the execution is over exactly when no
/// step is left.
pub proof fn lemma_progress(state: LifecycleView, event: EventView)
    ensures
        steps_left(state.phase) == 0 <==> state.phase is Cleaned,
        !(state.phase is Cleaned) ==> !(next(state, plain_answer(state.phase)).1 is Idle),
        !(next(state, event).1 is Idle) ==> steps_left(next(state, event).0.phase) < steps_left(
            state.phase,
        ),
        next(state, event).1 is Idle ==> next(state, event).0 == state,
        state.phase.sandbox() is Some && next(state, event).0.phase is Cleaned ==> (state.phase
            is Completed || state.phase is TimedOut || state.phase is Failed) && (event is Removed
            || event is RemoveFailed),
{
}

} // verus!
