//! What holds of every session, whatever the cluster reports: that nothing
//! is asked for twice, how often the debug pod is created and deleted, and
//! what comes before what.

use vstd::prelude::*;
use crate::json_builder::pod_name_of;
use crate::kube_controller::{node_of, resolve};
use crate::orchestrator::{delete_action, initial, is_terminal, next, SessionSpec, Stage};
use crate::pod::PodInfoSpec;
use crate::session::{
    is_running, ActionSpec, EventSpec, OutcomeSpec, SessionConfigSpec, SessionErrorSpec,
    TeardownErrorSpec,
};

verus! {

/// The session after `events`, the first of them first.
pub open spec fn run(s: SessionSpec, events: Seq<EventSpec>) -> SessionSpec
    decreases events.len(),
{
    if events.len() == 0 {
        s
    } else {
        next(run(s, events.drop_last()), events.last()).0
    }
}

/// What the session asks for when event `i` of `events` arrives.
pub open spec fn action_at(s: SessionSpec, events: Seq<EventSpec>, i: int) -> ActionSpec {
    next(run(s, events.take(i)), events[i]).1
}

/// What the session asks for over `events`, one action for each event.
pub open spec fn actions(s: SessionSpec, events: Seq<EventSpec>) -> Seq<ActionSpec> {
    Seq::new(events.len(), |i: int| action_at(s, events, i))
}

/// What an action asks for, without its details.
pub enum ActionKind {
    GetTargetPod,
    GetDebugPod,
    CreatePod,
    WatchPod,
    NextWatchEvent,
    Resolve,
    OpenExec,
    SendLine,
    RunPumps,
    StopPumps,
    DeletePod,
    Finish,
    Ignore,
}

/// What `action` asks for.
pub open spec fn kind_of(action: ActionSpec) -> ActionKind {
    match action {
        ActionSpec::GetTargetPod { .. } => ActionKind::GetTargetPod,
        ActionSpec::GetDebugPod { .. } => ActionKind::GetDebugPod,
        ActionSpec::CreatePod { .. } => ActionKind::CreatePod,
        ActionSpec::WatchPod { .. } => ActionKind::WatchPod,
        ActionSpec::NextWatchEvent => ActionKind::NextWatchEvent,
        ActionSpec::Resolve => ActionKind::Resolve,
        ActionSpec::OpenExec { .. } => ActionKind::OpenExec,
        ActionSpec::SendLine { .. } => ActionKind::SendLine,
        ActionSpec::RunPumps { .. } => ActionKind::RunPumps,
        ActionSpec::StopPumps => ActionKind::StopPumps,
        ActionSpec::DeletePod { .. } => ActionKind::DeletePod,
        ActionSpec::Finish { .. } => ActionKind::Finish,
        ActionSpec::Ignore => ActionKind::Ignore,
    }
}

/// One if `action` is of `kind`, zero if not.
pub open spec fn one_if(action: ActionSpec, kind: ActionKind) -> nat {
    if kind_of(action) == kind {
        1
    } else {
        0
    }
}

/// How many of `actions` are of `kind`.
pub open spec fn count(actions: Seq<ActionSpec>, kind: ActionKind) -> nat
    decreases actions.len(),
{
    if actions.len() == 0 {
        0
    } else {
        count(actions.drop_last(), kind) + one_if(actions.last(), kind)
    }
}

/// Running `a` and then `b` is running `a + b`.
pub proof fn lemma_run_append(s: SessionSpec, a: Seq<EventSpec>, b: Seq<EventSpec>)
    ensures
        run(s, a + b) == run(run(s, a), b),
    decreases b.len(),
{
    if b.len() == 0 {
        assert(a + b =~= a);
    } else {
        assert((a + b).drop_last() =~= a + b.drop_last());
        assert((a + b).last() == b.last());
        lemma_run_append(s, a, b.drop_last());
    }
}

/// The actions over all but the last event are all but the last action.
proof fn lemma_actions_drop_last(s: SessionSpec, events: Seq<EventSpec>)
    requires
        events.len() > 0,
    ensures
        actions(s, events).drop_last() == actions(s, events.drop_last()),
        actions(s, events).last() == next(run(s, events.drop_last()), events.last()).1,
{
    let n = events.len() as int;
    assert(events.take(n - 1) =~= events.drop_last());
    assert forall|i: int| 0 <= i < n - 1 implies action_at(s, events, i) == action_at(
        s,
        events.drop_last(),
        i,
    ) by {
        assert(events.take(i) =~= events.drop_last().take(i));
    }
    assert(actions(s, events).drop_last() =~= actions(s, events.drop_last()));
}

/// The actions over `a + b` are those over `a` and then those of the session
/// after `a` over `b`, and so they count.
pub proof fn lemma_count_append(s: SessionSpec, a: Seq<EventSpec>, b: Seq<EventSpec>, kind: ActionKind)
    ensures
        count(actions(s, a + b), kind) == count(actions(s, a), kind) + count(
            actions(run(s, a), b),
            kind,
        ),
    decreases b.len(),
{
    if b.len() == 0 {
        assert(a + b =~= a);
        assert(actions(run(s, a), b) =~= Seq::<ActionSpec>::empty());
    } else {
        assert((a + b).drop_last() =~= a + b.drop_last());
        assert((a + b).last() == b.last());
        lemma_count_append(s, a, b.drop_last(), kind);
        lemma_actions_drop_last(s, a + b);
        lemma_actions_drop_last(run(s, a), b);
        lemma_run_append(s, a, b.drop_last());
    }
}

/// One event is one step, and one action.
proof fn lemma_run_one(s: SessionSpec, e: EventSpec, kind: ActionKind)
    ensures
        run(s, seq![e]) == next(s, e).0,
        count(actions(s, seq![e]), kind) == one_if(next(s, e).1, kind),
{
    let one = seq![e];
    let none = Seq::<EventSpec>::empty();
    assert(one.drop_last() =~= none);
    assert(one.last() == e);
    assert(run(s, none) == s);
    assert(run(s, one) == next(run(s, one.drop_last()), one.last()).0);
    lemma_actions_drop_last(s, one);
    assert(actions(s, none) =~= Seq::<ActionSpec>::empty());
    assert(count(actions(s, none), kind) == 0);
}

/// A step keeps a session well formed.
pub proof fn lemma_step_keeps_wf(s: SessionSpec, e: EventSpec)
    requires
        s.wf(),
    ensures
        next(s, e).0.wf(),
{
}

/// What a session has once found out it keeps: a step never changes what
/// the session was asked to do, and neither the target pod, nor the
/// container that was chosen, nor the error that the session failed with,
/// once there is one.
pub proof fn lemma_step_keeps_findings(s: SessionSpec, e: EventSpec)
    requires
        s.wf(),
    ensures
        next(s, e).0.config == s.config,
        s.target is Some ==> next(s, e).0.target == s.target && next(s, e).0.node == s.node,
        s.resolved is Some ==> next(s, e).0.resolved == s.resolved,
        s.failure is Some ==> next(s, e).0.failure == s.failure,
        s.created ==> next(s, e).0.created,
{
}

/// A run keeps a session well formed, and keeps what the session has found
/// out.
pub proof fn lemma_run_keeps_wf(s: SessionSpec, events: Seq<EventSpec>)
    requires
        s.wf(),
    ensures
        run(s, events).wf(),
        run(s, events).config == s.config,
        s.target is Some ==> run(s, events).target == s.target && run(s, events).node == s.node,
        s.resolved is Some ==> run(s, events).resolved == s.resolved,
        s.failure is Some ==> run(s, events).failure == s.failure,
        s.created ==> run(s, events).created,
    decreases events.len(),
{
    if events.len() > 0 {
        lemma_run_keeps_wf(s, events.drop_last());
        lemma_step_keeps_wf(run(s, events.drop_last()), events.last());
        lemma_step_keeps_findings(run(s, events.drop_last()), events.last());
    }
}

/// A session that is over ignores every event.
pub proof fn lemma_terminal_ignores(s: SessionSpec, e: EventSpec)
    requires
        is_terminal(s.stage),
    ensures
        next(s, e) == (s, ActionSpec::Ignore),
{
}

/// A session without its target pod is over at once: it asks for nothing but
/// to finish, and no later event brings it back.
pub proof fn lemma_missing_target_is_final(config: SessionConfigSpec, then: Seq<EventSpec>)
    ensures
        next(initial(config), EventSpec::TargetMissing).1 == (ActionSpec::Finish {
            outcome: OutcomeSpec::Failed { error: SessionErrorSpec::TargetNotFound },
            teardown: None,
        }),
        run(next(initial(config), EventSpec::TargetMissing).0, then) == next(
            initial(config),
            EventSpec::TargetMissing,
        ).0,
    decreases then.len(),
{
    if then.len() > 0 {
        lemma_missing_target_is_final(config, then.drop_last());
    }
}

/// How far a session in `stage` has come. A session that fails has come as
/// far as one that deletes the debug pod or, once it is over, as one that
/// has completed.
pub open spec fn rank(stage: Stage) -> nat {
    match stage {
        Stage::AwaitTarget => 0,
        Stage::AwaitLookup => 1,
        Stage::AwaitCreate => 2,
        Stage::AwaitReady => 3,
        Stage::Resolving => 4,
        Stage::AwaitExec => 5,
        Stage::AwaitLine => 6,
        Stage::AwaitExit => 7,
        Stage::AwaitDetach => 8,
        Stage::AwaitDelete | Stage::Cleanup => 9,
        Stage::Done | Stage::Failed => 10,
    }
}

/// How far a session can have come at most when it asks for `kind`, plus
/// one. The target pod is asked for when a session starts and by no step.
pub open spec fn last_rank(kind: ActionKind) -> nat {
    match kind {
        ActionKind::GetTargetPod => 0,
        ActionKind::GetDebugPod => 1,
        ActionKind::CreatePod => 2,
        ActionKind::WatchPod => 3,
        ActionKind::Resolve => 4,
        ActionKind::OpenExec => 5,
        ActionKind::SendLine => 6,
        ActionKind::RunPumps => 7,
        ActionKind::StopPumps => 8,
        ActionKind::DeletePod => 9,
        ActionKind::Finish => 10,
        ActionKind::NextWatchEvent | ActionKind::Ignore => 11,
    }
}

/// Whether a session asks for `kind` once at most: all kinds but the next
/// event of a watch, and the answer to an event that is ignored.
pub open spec fn is_asked_once(kind: ActionKind) -> bool {
    kind != ActionKind::NextWatchEvent && kind != ActionKind::Ignore
}

/// How often a session in `stage` may still ask for `kind`, where that is
/// once at most.
pub open spec fn left(stage: Stage, kind: ActionKind) -> nat {
    if rank(stage) < last_rank(kind) {
        1
    } else {
        0
    }
}

/// A session never goes back: no step takes it to a stage that it has left
/// behind.
pub proof fn lemma_step_advances(s: SessionSpec, e: EventSpec)
    requires
        s.wf(),
    ensures
        rank(next(s, e).0.stage) >= rank(s.stage),
        next(s, e).1 is Ignore ==> next(s, e).0 == s,
{
}

/// With each thing that a session asks for, there is one thing less that it
/// may still ask for.
proof fn lemma_step_asks_once(s: SessionSpec, e: EventSpec, kind: ActionKind)
    requires
        s.wf(),
        is_asked_once(kind),
    ensures
        one_if(next(s, e).1, kind) + left(next(s, e).0.stage, kind) <= left(s.stage, kind),
{
}

/// Over any events, a session asks for no more than its first stage leaves.
pub proof fn lemma_run_asks_once(s: SessionSpec, events: Seq<EventSpec>, kind: ActionKind)
    requires
        s.wf(),
        is_asked_once(kind),
    ensures
        count(actions(s, events), kind) + left(run(s, events).stage, kind) <= left(s.stage, kind),
    decreases events.len(),
{
    if events.len() == 0 {
        assert(actions(s, events) =~= Seq::<ActionSpec>::empty());
    } else {
        lemma_run_asks_once(s, events.drop_last(), kind);
        lemma_run_keeps_wf(s, events.drop_last());
        lemma_actions_drop_last(s, events);
        lemma_step_asks_once(run(s, events.drop_last()), events.last(), kind);
    }
}

/// Nothing is tried again: whatever the cluster reports, a session asks at
/// most once for the debug pod to be looked up, created, watched, executed
/// in and deleted, and finishes at most once. Only the next event of the
/// watch is asked for as often as the watch reports.
pub proof fn lemma_no_retries(config: SessionConfigSpec, events: Seq<EventSpec>, kind: ActionKind)
    requires
        is_asked_once(kind),
    ensures
        count(actions(initial(config), events), kind) <= 1,
        kind == ActionKind::GetTargetPod ==> count(actions(initial(config), events), kind) == 0,
{
    lemma_run_asks_once(initial(config), events, kind);
}

/// How many deletions of the debug pod a session in this state has asked for.
pub open spec fn deletions_asked(s: SessionSpec) -> nat {
    match s.stage {
        Stage::AwaitDelete | Stage::Done | Stage::Cleanup => 1,
        Stage::Failed => if s.created {
            1
        } else {
            0
        },
        _ => 0,
    }
}

/// Over any events, a session asks for as many deletions of the debug pod as
/// its last state says.
pub proof fn lemma_deletions_counted(s: SessionSpec, events: Seq<EventSpec>)
    requires
        s.wf(),
    ensures
        count(actions(s, events), ActionKind::DeletePod) + deletions_asked(s) == deletions_asked(
            run(s, events),
        ),
    decreases events.len(),
{
    if events.len() == 0 {
        assert(actions(s, events) =~= Seq::<ActionSpec>::empty());
    } else {
        lemma_deletions_counted(s, events.drop_last());
        lemma_run_keeps_wf(s, events.drop_last());
        lemma_actions_drop_last(s, events);
    }
}

/// The debug pod is deleted exactly once when a session completes. When a
/// session fails, the pod is deleted once if the session created it and
/// left alone if not.
pub proof fn lemma_deletes_once(config: SessionConfigSpec, events: Seq<EventSpec>)
    ensures
        run(initial(config), events).stage == Stage::Done ==> count(
            actions(initial(config), events),
            ActionKind::DeletePod,
        ) == 1,
        run(initial(config), events).stage == Stage::Failed ==> count(
            actions(initial(config), events),
            ActionKind::DeletePod,
        ) == if run(initial(config), events).created {
            1nat
        } else {
            0nat
        },
{
    lemma_deletions_counted(initial(config), events);
}

/// Whether `e` says that the debug pod can take a shell: it runs, or it was
/// there before this session and is taken to run.
pub open spec fn is_ready_event(e: EventSpec) -> bool {
    ||| e is DebugPodFound
    ||| e is PodExists
    ||| e matches EventSpec::PodModified { phase } && is_running(phase)
}

/// Whether one of `events` says that the debug pod can take a shell.
pub open spec fn seen_ready(events: Seq<EventSpec>) -> bool {
    exists|j: int| 0 <= j < events.len() && is_ready_event(#[trigger] events[j])
}

/// Whether one of `events` says that the remote shell has exited.
pub open spec fn seen_exit(events: Seq<EventSpec>) -> bool {
    exists|j: int| 0 <= j < events.len() && #[trigger] events[j] is SessionEnded
}

/// Whether a session in `stage` has got to a debug pod that can take a shell
/// and has not failed since.
pub open spec fn is_past_ready(stage: Stage) -> bool {
    4 <= rank(stage) && !has_failed(stage)
}

/// Whether a session in `stage` has seen its remote shell exit.
pub open spec fn is_past_exit(stage: Stage) -> bool {
    8 <= rank(stage) && !has_failed(stage)
}

/// Whether a session in `stage` has failed.
pub open spec fn has_failed(stage: Stage) -> bool {
    stage == Stage::Cleanup || stage == Stage::Failed
}

/// Whether a session in `stage` has asked for the deletion of the debug pod
/// or has ended without.
pub open spec fn is_winding_down(stage: Stage) -> bool {
    9 <= rank(stage)
}

/// What the stage of a session that ran from its start says of the events
/// that it has seen.
proof fn lemma_history(config: SessionConfigSpec, events: Seq<EventSpec>)
    ensures
        is_past_ready(run(initial(config), events).stage) ==> seen_ready(events),
        is_past_exit(run(initial(config), events).stage) ==> seen_exit(events),
    decreases events.len(),
{
    if events.len() > 0 {
        let before = events.drop_last();
        let last = events.len() - 1;
        lemma_history(config, before);
        let s = run(initial(config), before);
        if is_past_ready(run(initial(config), events).stage) {
            if is_past_ready(s.stage) {
                let j = choose|j: int| 0 <= j < before.len() && is_ready_event(#[trigger] before[j]);
                assert(is_ready_event(events[j]));
            } else {
                assert(is_ready_event(events[last]));
            }
        }
        if is_past_exit(run(initial(config), events).stage) {
            if is_past_exit(s.stage) {
                let j = choose|j: int| 0 <= j < before.len() && #[trigger] before[j] is SessionEnded;
                assert(events[j] is SessionEnded);
            } else {
                assert(events[last] is SessionEnded);
            }
        }
    }
}

/// No shell before the debug pod is ready: a session asks for a shell in
/// the debug pod only after an event that says that the pod runs, or that
/// it was there before the session began.
pub proof fn lemma_shell_after_ready(config: SessionConfigSpec, events: Seq<EventSpec>, i: int)
    requires
        0 <= i < events.len(),
        action_at(initial(config), events, i) is OpenExec,
    ensures
        exists|j: int| 0 <= j < i && is_ready_event(#[trigger] events[j]),
{
    lemma_history(config, events.take(i));
    let j = choose|j: int| 0 <= j < events.take(i).len() && is_ready_event(#[trigger] events.take(i)[j]);
    assert(is_ready_event(events[j]));
}

/// No deletion while the remote shell runs: a session asks for the deletion
/// of the debug pod either after the event that says that the shell has
/// exited, or because it has failed.
pub proof fn lemma_deletion_after_exit(config: SessionConfigSpec, events: Seq<EventSpec>, i: int)
    requires
        0 <= i < events.len(),
        action_at(initial(config), events, i) is DeletePod,
    ensures
        run(initial(config), events.take(i + 1)).stage == Stage::Cleanup || exists|j: int|
            0 <= j < i && #[trigger] events[j] is SessionEnded,
{
    lemma_history(config, events.take(i));
    assert(events.take(i + 1).drop_last() =~= events.take(i));
    assert(events.take(i + 1).last() == events[i]);
    if run(initial(config), events.take(i + 1)).stage != Stage::Cleanup {
        let j = choose|j: int| 0 <= j < events.take(i).len() && #[trigger] events.take(i)[j] is SessionEnded;
        assert(events[j] is SessionEnded);
    }
}

/// Nothing after the deletion: once a session has asked for the deletion of
/// the debug pod, all that it asks for is to finish.
pub proof fn lemma_only_finish_after_deletion(s: SessionSpec, events: Seq<EventSpec>, i: int, k: int)
    requires
        s.wf(),
        0 <= i < k < events.len(),
        action_at(s, events, i) is DeletePod,
    ensures
        action_at(s, events, k) is Finish || action_at(s, events, k) is Ignore,
{
    let first = events.take(i + 1);
    let then = events.subrange(i + 1, k);
    assert(first.drop_last() =~= events.take(i));
    assert(first.last() == events[i]);
    assert(is_winding_down(run(s, first).stage));
    assert(events.take(k) =~= first + then);
    lemma_run_append(s, first, then);
    lemma_run_keeps_wf(s, events.take(i));
    lemma_step_keeps_wf(run(s, events.take(i)), events[i]);
    lemma_run_asks_once(run(s, first), then, ActionKind::DeletePod);
    lemma_run_keeps_wf(run(s, first), then);
}

/// The events of a session that finds its target pod and is then told
/// whether the node has a debug pod.
pub open spec fn deployment(pod: PodInfoSpec, lookup: EventSpec, rest: Seq<EventSpec>) -> Seq<EventSpec> {
    seq![EventSpec::TargetFound { pod: pod }, lookup] + rest
}

/// Two sessions on one node, one after the other, create one debug pod: the
/// first finds none and creates it, the second looks for the same pod, finds
/// it and creates none, whatever else happens to either.
pub proof fn lemma_second_session_reuses(
    first: SessionConfigSpec,
    second: SessionConfigSpec,
    first_target: PodInfoSpec,
    second_target: PodInfoSpec,
    first_rest: Seq<EventSpec>,
    second_rest: Seq<EventSpec>,
)
    requires
        node_of(first_target) == node_of(second_target),
        first.namespace == second.namespace,
    ensures
        action_at(initial(first), deployment(first_target, EventSpec::DebugPodMissing, first_rest), 0)
            == action_at(
            initial(second),
            deployment(second_target, EventSpec::DebugPodFound, second_rest),
            0,
        ),
        action_at(initial(first), deployment(first_target, EventSpec::DebugPodMissing, first_rest), 0)
            == (ActionSpec::GetDebugPod {
            namespace: first.namespace,
            name: pod_name_of(node_of(first_target)),
        }),
        count(
            actions(initial(first), deployment(first_target, EventSpec::DebugPodMissing, first_rest)),
            ActionKind::CreatePod,
        ) == 1,
        count(
            actions(initial(second), deployment(second_target, EventSpec::DebugPodFound, second_rest)),
            ActionKind::CreatePod,
        ) == 0,
{
    lemma_deployment(first, first_target, EventSpec::DebugPodMissing, first_rest);
    lemma_deployment(second, second_target, EventSpec::DebugPodFound, second_rest);
}

/// The first two steps of a deployment, and how many creations they and the
/// rest ask for.
proof fn lemma_deployment(config: SessionConfigSpec, pod: PodInfoSpec, lookup: EventSpec, rest: Seq<EventSpec>)
    requires
        lookup is DebugPodMissing || lookup is DebugPodFound,
    ensures
        action_at(initial(config), deployment(pod, lookup, rest), 0) == (ActionSpec::GetDebugPod {
            namespace: config.namespace,
            name: pod_name_of(node_of(pod)),
        }),
        count(actions(initial(config), deployment(pod, lookup, rest)), ActionKind::CreatePod) == if lookup is DebugPodMissing {
            1nat
        } else {
            0nat
        },
{
    let s = initial(config);
    let found = EventSpec::TargetFound { pod: pod };
    let head = seq![found, lookup];
    let events = deployment(pod, lookup, rest);
    assert(events.take(0) =~= Seq::<EventSpec>::empty());
    assert(run(s, Seq::<EventSpec>::empty()) == s);
    let one = seq![found];
    assert(head.drop_last() =~= one);
    assert(head.last() == lookup);
    lemma_run_one(s, found, ActionKind::CreatePod);
    assert(run(s, head) == next(run(s, one), lookup).0);
    lemma_actions_drop_last(s, head);
    lemma_count_append(s, head, rest, ActionKind::CreatePod);
    lemma_step_keeps_wf(s, found);
    lemma_step_keeps_wf(run(s, one), lookup);
    lemma_run_asks_once(run(s, head), rest, ActionKind::CreatePod);
}

/// A failed session stays failed.
proof fn lemma_failure_stays(s: SessionSpec, events: Seq<EventSpec>)
    requires
        has_failed(s.stage),
    ensures
        has_failed(run(s, events).stage),
        run(s, events).created == s.created,
    decreases events.len(),
{
    if events.len() > 0 {
        lemma_failure_stays(s, events.drop_last());
    }
}

/// What follows a step that makes a session fail.
proof fn lemma_failed_step(s: SessionSpec, e: EventSpec, rest: Seq<EventSpec>)
    requires
        s.wf(),
        !is_winding_down(s.stage),
        has_failed(next(s, e).0.stage),
    ensures
        count(actions(s, seq![e] + rest), ActionKind::OpenExec) == 0,
        count(actions(s, seq![e] + rest), ActionKind::DeletePod) == if s.created {
            1nat
        } else {
            0nat
        },
        run(s, seq![e] + rest).failure == next(s, e).0.failure,
        has_failed(run(s, seq![e] + rest).stage),
{
    let one = seq![e];
    let t = next(s, e).0;
    lemma_run_one(s, e, ActionKind::OpenExec);
    lemma_run_one(s, e, ActionKind::DeletePod);
    lemma_step_keeps_wf(s, e);
    lemma_run_keeps_wf(t, rest);
    lemma_run_append(s, one, rest);
    lemma_count_append(s, one, rest, ActionKind::OpenExec);
    lemma_count_append(s, one, rest, ActionKind::DeletePod);
    lemma_run_asks_once(t, rest, ActionKind::OpenExec);
    lemma_deletions_counted(t, rest);
    lemma_failure_stays(t, rest);
}

/// A debug pod that does not start in time: the session fails with
/// `DeployTimeout`, asks at once for the deletion of the pod, which it
/// created, never asks for it again, and never asks for a shell.
pub proof fn lemma_timeout_cleans_up(s: SessionSpec, rest: Seq<EventSpec>)
    requires
        s.wf(),
        s.stage == Stage::AwaitReady,
    ensures
        next(s, EventSpec::WatchExpired).1 == delete_action(s),
        count(actions(s, seq![EventSpec::WatchExpired] + rest), ActionKind::DeletePod) == 1,
        count(actions(s, seq![EventSpec::WatchExpired] + rest), ActionKind::OpenExec) == 0,
        run(s, seq![EventSpec::WatchExpired] + rest).failure == Some(SessionErrorSpec::DeployTimeout),
        has_failed(run(s, seq![EventSpec::WatchExpired] + rest).stage),
{
    lemma_failed_step(s, EventSpec::WatchExpired, rest);
}

/// A target without the container that was asked for: the session fails
/// before it asks for a shell, and the debug pod is deleted if this session
/// created it.
pub proof fn lemma_unresolved_never_executes(s: SessionSpec, rest: Seq<EventSpec>)
    requires
        s.wf(),
        s.stage == Stage::Resolving,
        resolve(s.target->0, s.config.container_name) is Err,
    ensures
        count(actions(s, seq![EventSpec::Continue] + rest), ActionKind::OpenExec) == 0,
        count(actions(s, seq![EventSpec::Continue] + rest), ActionKind::DeletePod) == if s.created {
            1nat
        } else {
            0nat
        },
        has_failed(run(s, seq![EventSpec::Continue] + rest).stage),
{
    lemma_failed_step(s, EventSpec::Continue, rest);
}

/// A failed deletion never changes how a session ends: after a session
/// that completed it is reported beside the success, after one that failed
/// beside the error that the session failed with.
pub proof fn lemma_teardown_never_masks(s: SessionSpec, cause: Seq<char>)
    requires
        s.wf(),
    ensures
        s.stage == Stage::AwaitDelete ==> next(s, EventSpec::Failed { cause: cause }).1 == (
        ActionSpec::Finish {
            outcome: OutcomeSpec::Completed,
            teardown: Some(TeardownErrorSpec { cause: cause }),
        }),
        s.stage == Stage::Cleanup ==> next(s, EventSpec::Failed { cause: cause }).1 == (
        ActionSpec::Finish {
            outcome: OutcomeSpec::Failed { error: s.failure->0 },
            teardown: Some(TeardownErrorSpec { cause: cause }),
        }),
{
}

/// Whether `action` concerns the debug pod `name` in `namespace`, where it
/// concerns a debug pod at all.
pub open spec fn addresses(action: ActionSpec, namespace: Seq<char>, name: Seq<char>) -> bool {
    match action {
        ActionSpec::GetDebugPod { namespace: ns, name: n } => ns == namespace && n == name,
        ActionSpec::CreatePod { namespace: ns, manifest } => ns == namespace && manifest.name == name,
        ActionSpec::WatchPod { namespace: ns, field_selector, timeout } => ns == namespace
            && field_selector == "metadata.name="@ + name,
        ActionSpec::OpenExec { namespace: ns, pod_name, shell } => ns == namespace && pod_name == name,
        ActionSpec::DeletePod { namespace: ns, name: n } => ns == namespace && n == name,
        _ => true,
    }
}

/// One debug pod for each node: whatever a session asks of a debug pod, it
/// asks of the pod that is named after the node of its target, in the
/// namespace that it was configured with, and the pod that it creates is
/// pinned to that node.
pub proof fn lemma_one_pod_per_node(s: SessionSpec, e: EventSpec)
    requires
        s.wf(),
    ensures
        addresses(next(s, e).1, s.config.namespace, pod_name_of(next(s, e).0.node)),
        next(s, e).1 matches ActionSpec::CreatePod { manifest, .. } ==> manifest.node == next(s, e).0.node,
        next(s, e).0.target matches Some(pod) ==> next(s, e).0.node == node_of(pod),
{
}

} // verus!
