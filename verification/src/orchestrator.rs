//! The life cycle of one debug session as a state machine. The machine
//! decides; a driver does the outside work that each `Action` names and
//! reports what came of it as the next `Event`.

use vstd::prelude::*;
use vstd::string::*;
use crate::json_builder::{debug_pod_name, manifest_of, pod_name_of, DebugPodManifest};
use crate::kube_controller::{
    get_container_id, get_node, node_of, resolve, ResolveError, ResolvedTarget,
    ResolvedTargetSpec,
};
use crate::pod::{PodInfo, PodInfoSpec};
use crate::session::{
    field_selector, field_selector_of, is_running, pod_is_running, remote_line, remote_line_of,
    Action,
    ActionSpec, Event, EventSpec, OutcomeSpec, SessionConfig, SessionConfigSpec, SessionError,
    SessionErrorSpec, SessionMode, SessionModeSpec, TeardownError, TeardownErrorSpec,
};

verus! {

/// The states of a session.
#[derive(Clone, Copy, Debug, PartialEq, Eq, Structural)]
pub enum Phase {
    Init,
    Deploying,
    WaitingReady,
    Resolving,
    Attaching,
    Detaching,
    Deleting,
    Done,
    Error,
}

/// What a session waits for. A phase with several pieces of outside work has
/// one stage for each.
#[derive(Clone, Copy, Debug, PartialEq, Eq, Structural)]
pub enum Stage {
    /// `Init`: the target pod is being looked up.
    AwaitTarget,
    /// `Init`: the debug pod is being looked up.
    AwaitLookup,
    /// `Deploying`: the debug pod is being created.
    AwaitCreate,
    /// `WaitingReady`: the debug pod is being watched until it runs.
    AwaitReady,
    /// `Resolving`: the debug pod is ready, the target's container is chosen
    /// next.
    Resolving,
    /// `Attaching`: the channel to the debug pod's shell is being opened.
    AwaitExec,
    /// `Attaching`: the line that enters the container is being written.
    AwaitLine,
    /// `Attaching`: the remote shell runs.
    AwaitExit,
    /// `Detaching`: the copy loops are being stopped.
    AwaitDetach,
    /// `Deleting`: the debug pod is being deleted after the session.
    AwaitDelete,
    /// `Done`: the session has completed.
    Done,
    /// `Error`: the session has failed, and the debug pod that it created is
    /// being deleted.
    Cleanup,
    /// `Error`: the session has failed.
    Failed,
}

/// The state that a stage belongs to.
pub open spec fn phase_of(stage: Stage) -> Phase {
    match stage {
        Stage::AwaitTarget | Stage::AwaitLookup => Phase::Init,
        Stage::AwaitCreate => Phase::Deploying,
        Stage::AwaitReady => Phase::WaitingReady,
        Stage::Resolving => Phase::Resolving,
        Stage::AwaitExec | Stage::AwaitLine | Stage::AwaitExit => Phase::Attaching,
        Stage::AwaitDetach => Phase::Detaching,
        Stage::AwaitDelete => Phase::Deleting,
        Stage::Done => Phase::Done,
        Stage::Cleanup | Stage::Failed => Phase::Error,
    }
}

/// Whether a session in `stage` is over.
pub open spec fn is_terminal(stage: Stage) -> bool {
    stage == Stage::Done || stage == Stage::Failed
}

/// Whether a session in `stage` has not yet got to choosing the target's
/// container.
pub open spec fn is_before_shell(stage: Stage) -> bool {
    match stage {
        Stage::AwaitTarget | Stage::AwaitLookup | Stage::AwaitCreate | Stage::AwaitReady
        | Stage::Resolving => true,
        _ => false,
    }
}

/// A session, as a mathematical value.
pub struct SessionSpec {
    pub config: SessionConfigSpec,
    pub stage: Stage,
    /// The target pod, once it was found.
    pub target: Option<PodInfoSpec>,
    /// The node of the target pod.
    pub node: Seq<char>,
    /// Whether this session created the debug pod.
    pub created: bool,
    /// The container that the session enters, once it was chosen.
    pub resolved: Option<ResolvedTargetSpec>,
    /// Why the session failed, once it has.
    pub failure: Option<SessionErrorSpec>,
}

impl SessionSpec {
    /// What the stage of a session says of the rest of it.
    pub open spec fn wf(self) -> bool {
        &&& (self.stage == Stage::AwaitTarget || self.stage == Stage::AwaitLookup || self.stage
            == Stage::AwaitCreate) ==> !self.created
        &&& (self.stage == Stage::AwaitReady || self.stage == Stage::Cleanup) ==> self.created
        &&& self.stage == Stage::AwaitTarget ==> self.target is None
        &&& (self.stage == Stage::AwaitLookup || self.stage == Stage::AwaitCreate || self.stage
            == Stage::AwaitReady || self.stage == Stage::Resolving) ==> self.target is Some
        &&& self.target matches Some(pod) ==> self.node == node_of(pod)
        &&& is_before_shell(self.stage) ==> self.resolved is None
        &&& (self.stage == Stage::AwaitExec || self.stage == Stage::AwaitLine || self.stage
            == Stage::AwaitExit) ==> self.resolved is Some
        &&& self.resolved is Some ==> self.target is Some
        &&& (self.stage == Stage::Cleanup || self.stage == Stage::Failed)
            <==> self.failure is Some
    }

    /// The name of the debug pod of this session.
    pub open spec fn debug_pod(self) -> Seq<char> {
        pod_name_of(self.node)
    }
}

/// The session that `config` starts, which waits for the target pod.
pub open spec fn initial(config: SessionConfigSpec) -> SessionSpec {
    SessionSpec {
        config: config,
        stage: Stage::AwaitTarget,
        target: None,
        node: Seq::empty(),
        created: false,
        resolved: None,
        failure: None,
    }
}

/// The first action of the session that `config` starts.
pub open spec fn first_action(config: SessionConfigSpec) -> ActionSpec {
    ActionSpec::GetTargetPod { namespace: config.namespace, name: config.pod_name }
}

/// The action that deletes the debug pod of `s`.
pub open spec fn delete_action(s: SessionSpec) -> ActionSpec {
    ActionSpec::DeletePod { namespace: s.config.namespace, name: s.debug_pod() }
}

/// A session fails with `error`. A debug pod that the session created is
/// deleted before the error is handed out; one that it found is left alone.
pub open spec fn fail(s: SessionSpec, error: SessionErrorSpec) -> (SessionSpec, ActionSpec) {
    if s.created {
        (SessionSpec { stage: Stage::Cleanup, failure: Some(error), ..s }, delete_action(s))
    } else {
        (
            SessionSpec { stage: Stage::Failed, failure: Some(error), ..s },
            ActionSpec::Finish { outcome: OutcomeSpec::Failed { error: error }, teardown: None },
        )
    }
}

/// The session goes on to choose the target's container: the debug pod is
/// ready, or is taken to be.
pub open spec fn ready(s: SessionSpec) -> (SessionSpec, ActionSpec) {
    (SessionSpec { stage: Stage::Resolving, ..s }, ActionSpec::Resolve)
}

/// The event changes nothing.
pub open spec fn ignore(s: SessionSpec) -> (SessionSpec, ActionSpec) {
    (s, ActionSpec::Ignore)
}

/// `Init`, the target pod was looked up. A target that is missing, or that
/// could not be looked up, ends the session.
pub open spec fn after_target(s: SessionSpec, e: EventSpec) -> (SessionSpec, ActionSpec) {
    match e {
        EventSpec::TargetFound { pod } => {
            let node = node_of(pod);
            (
                SessionSpec { stage: Stage::AwaitLookup, target: Some(pod), node: node, ..s },
                ActionSpec::GetDebugPod { namespace: s.config.namespace, name: pod_name_of(node) },
            )
        },
        EventSpec::TargetMissing => fail(s, SessionErrorSpec::TargetNotFound),
        EventSpec::Failed { .. } => fail(s, SessionErrorSpec::TargetNotFound),
        _ => ignore(s),
    }
}

/// The action that creates the debug pod of `s`.
pub open spec fn create_action(s: SessionSpec) -> ActionSpec {
    ActionSpec::CreatePod {
        namespace: s.config.namespace,
        manifest: manifest_of(s.config.image, s.config.socket, s.node, s.config.container_engine),
    }
}

/// `Init`, the debug pod was looked up. One that exists is used as it is;
/// one that is missing, or that could not be looked up, is created.
pub open spec fn after_lookup(s: SessionSpec, e: EventSpec) -> (SessionSpec, ActionSpec) {
    match e {
        EventSpec::DebugPodFound => ready(s),
        EventSpec::DebugPodMissing => (SessionSpec { stage: Stage::AwaitCreate, ..s }, create_action(s)),
        EventSpec::Failed { .. } => (SessionSpec { stage: Stage::AwaitCreate, ..s }, create_action(s)),
        _ => ignore(s),
    }
}

/// The action that watches the debug pod of `s`.
pub open spec fn watch_action(s: SessionSpec) -> ActionSpec {
    ActionSpec::WatchPod {
        namespace: s.config.namespace,
        field_selector: field_selector_of(s.debug_pod()),
        timeout: s.config.ready_timeout,
    }
}

/// `Deploying`, the debug pod was to be created. A pod that another session
/// created in the meantime is used like one that was found.
pub open spec fn after_create(s: SessionSpec, e: EventSpec) -> (SessionSpec, ActionSpec) {
    match e {
        EventSpec::PodCreated => (
            SessionSpec { stage: Stage::AwaitReady, created: true, ..s },
            watch_action(s),
        ),
        EventSpec::PodExists => ready(s),
        EventSpec::Failed { cause } => fail(s, SessionErrorSpec::DeployFailed { cause: cause }),
        _ => ignore(s),
    }
}

/// `WaitingReady`, the watch reports. The session goes on when the debug pod
/// runs, and fails when the watch ends before that.
pub open spec fn while_waiting(s: SessionSpec, e: EventSpec) -> (SessionSpec, ActionSpec) {
    match e {
        EventSpec::PodAdded => (s, ActionSpec::NextWatchEvent),
        EventSpec::PodModified { phase } => if is_running(phase) {
            ready(s)
        } else {
            (s, ActionSpec::NextWatchEvent)
        },
        EventSpec::WatchOther => (s, ActionSpec::NextWatchEvent),
        EventSpec::WatchExpired => fail(s, SessionErrorSpec::DeployTimeout),
        EventSpec::Failed { cause } => fail(s, SessionErrorSpec::DeployFailed { cause: cause }),
        _ => ignore(s),
    }
}

/// The action that opens the channel to the shell of the debug pod of `s`.
pub open spec fn exec_action(s: SessionSpec) -> ActionSpec {
    ActionSpec::OpenExec {
        namespace: s.config.namespace,
        pod_name: s.debug_pod(),
        shell: "/bin/bash"@,
    }
}

/// `Resolving`: the container is chosen among those of the target pod, not
/// of the debug pod.
pub open spec fn resolving(s: SessionSpec, e: EventSpec) -> (SessionSpec, ActionSpec) {
    match e {
        EventSpec::Continue => match resolve(s.target->0, s.config.container_name) {
            Ok(target) => (
                SessionSpec { stage: Stage::AwaitExec, resolved: Some(target), ..s },
                exec_action(s),
            ),
            Err(ResolveError::AmbiguousContainer) => fail(s, SessionErrorSpec::AmbiguousContainer),
            Err(ResolveError::ContainerNotFound) => fail(s, SessionErrorSpec::ContainerNotFound),
        },
        _ => ignore(s),
    }
}

/// The text that `s` writes to the shell: the line that enters the
/// container, and the end of the line.
pub open spec fn shell_input(s: SessionSpec) -> Seq<char> {
    remote_line_of(s.config.mode, s.resolved->0.runtime_id) + "\n"@
}

/// `Attaching`, the channel was to be opened.
pub open spec fn after_open(s: SessionSpec, e: EventSpec) -> (SessionSpec, ActionSpec) {
    match e {
        EventSpec::ExecOpened => (
            SessionSpec { stage: Stage::AwaitLine, ..s },
            ActionSpec::SendLine { input: shell_input(s) },
        ),
        EventSpec::Failed { cause } => fail(s, SessionErrorSpec::ExecChannelError { cause: cause }),
        _ => ignore(s),
    }
}

/// The copy loops of a session: the shell's output always reaches the
/// operator, the operator's input reaches the shell in an attached session
/// only.
pub open spec fn pump_action(mode: SessionModeSpec) -> ActionSpec {
    ActionSpec::RunPumps { forward_input: mode is Attach, forward_output: true }
}

/// `Attaching`, the line was to be written.
pub open spec fn after_line(s: SessionSpec, e: EventSpec) -> (SessionSpec, ActionSpec) {
    match e {
        EventSpec::LineSent => (SessionSpec { stage: Stage::AwaitExit, ..s }, pump_action(s.config.mode)),
        EventSpec::Failed { cause } => fail(s, SessionErrorSpec::ExecChannelError { cause: cause }),
        _ => ignore(s),
    }
}

/// `Attaching`, the remote shell ran.
pub open spec fn after_exit(s: SessionSpec, e: EventSpec) -> (SessionSpec, ActionSpec) {
    match e {
        EventSpec::SessionEnded => (SessionSpec { stage: Stage::AwaitDetach, ..s }, ActionSpec::StopPumps),
        EventSpec::Failed { cause } => fail(s, SessionErrorSpec::ExecChannelError { cause: cause }),
        _ => ignore(s),
    }
}

/// `Detaching`, the copy loops were to be stopped. What happened to them
/// does not matter: the debug pod is deleted.
pub open spec fn after_detach(s: SessionSpec, e: EventSpec) -> (SessionSpec, ActionSpec) {
    match e {
        EventSpec::PumpsStopped => (SessionSpec { stage: Stage::AwaitDelete, ..s }, delete_action(s)),
        EventSpec::Failed { .. } => (SessionSpec { stage: Stage::AwaitDelete, ..s }, delete_action(s)),
        _ => ignore(s),
    }
}

/// `Deleting`, the debug pod was to be deleted. The session has completed
/// whether it was or not.
pub open spec fn after_delete(s: SessionSpec, e: EventSpec) -> (SessionSpec, ActionSpec) {
    match e {
        EventSpec::PodDeleted => (
            SessionSpec { stage: Stage::Done, ..s },
            ActionSpec::Finish { outcome: OutcomeSpec::Completed, teardown: None },
        ),
        EventSpec::Failed { cause } => (
            SessionSpec { stage: Stage::Done, ..s },
            ActionSpec::Finish {
                outcome: OutcomeSpec::Completed,
                teardown: Some(TeardownErrorSpec { cause: cause }),
            },
        ),
        _ => ignore(s),
    }
}

/// `Error`, the debug pod was to be deleted. The session has failed with
/// the error that brought it here whether the pod was deleted or not.
pub open spec fn after_cleanup(s: SessionSpec, e: EventSpec) -> (SessionSpec, ActionSpec) {
    match e {
        EventSpec::PodDeleted => (
            SessionSpec { stage: Stage::Failed, ..s },
            ActionSpec::Finish { outcome: OutcomeSpec::Failed { error: s.failure->0 }, teardown: None },
        ),
        EventSpec::Failed { cause } => (
            SessionSpec { stage: Stage::Failed, ..s },
            ActionSpec::Finish {
                outcome: OutcomeSpec::Failed { error: s.failure->0 },
                teardown: Some(TeardownErrorSpec { cause: cause }),
            },
        ),
        _ => ignore(s),
    }
}

/// The session after `e`, and what it asks for. An event that the stage does
/// not wait for is ignored, and so is every event once the session is over.
pub open spec fn next(s: SessionSpec, e: EventSpec) -> (SessionSpec, ActionSpec) {
    match s.stage {
        Stage::AwaitTarget => after_target(s, e),
        Stage::AwaitLookup => after_lookup(s, e),
        Stage::AwaitCreate => after_create(s, e),
        Stage::AwaitReady => while_waiting(s, e),
        Stage::Resolving => resolving(s, e),
        Stage::AwaitExec => after_open(s, e),
        Stage::AwaitLine => after_line(s, e),
        Stage::AwaitExit => after_exit(s, e),
        Stage::AwaitDetach => after_detach(s, e),
        Stage::AwaitDelete => after_delete(s, e),
        Stage::Cleanup => after_cleanup(s, e),
        Stage::Done => ignore(s),
        Stage::Failed => ignore(s),
    }
}

/// One debug session.
#[derive(Debug)]
pub struct Session {
    config: SessionConfig,
    stage: Stage,
    target: Option<PodInfo>,
    node: String,
    created: bool,
    resolved: Option<ResolvedTarget>,
    failure: Option<SessionError>,
}

impl View for Session {
    type V = SessionSpec;

    closed spec fn view(&self) -> SessionSpec {
        SessionSpec {
            config: self.config@,
            stage: self.stage,
            target: match self.target {
                Some(pod) => Some(pod@),
                None => None,
            },
            node: self.node@,
            created: self.created,
            resolved: match self.resolved {
                Some(target) => Some(target@),
                None => None,
            },
            failure: match self.failure {
                Some(error) => Some(error@),
                None => None,
            },
        }
    }
}

impl Session {
    #[verifier::type_invariant]
    spec fn well_formed(self) -> bool {
        self@.wf()
    }

    /// Starts a session: it waits for the target pod, which the first action
    /// asks for.
    pub fn start(config: SessionConfig) -> (r: (Session, Action))
        ensures
            r.0@ == initial(config@),
            r.0@.wf(),
            r.1@ == first_action(config@),
    {
        let action = Action::GetTargetPod {
            namespace: config.namespace.clone(),
            name: config.pod_name.clone(),
        };
        let session = Session {
            config,
            stage: Stage::AwaitTarget,
            target: None,
            node: String::new(),
            created: false,
            resolved: None,
            failure: None,
        };
        (session, action)
    }

    /// What the session waits for.
    pub fn stage(&self) -> (stage: Stage)
        ensures
            stage == self@.stage,
            self@.wf(),
    {
        proof {
            use_type_invariant(self);
        }
        self.stage
    }

    /// The state of the session.
    pub fn phase(&self) -> (phase: Phase)
        ensures
            phase == phase_of(self@.stage),
    {
        match self.stage {
            Stage::AwaitTarget | Stage::AwaitLookup => Phase::Init,
            Stage::AwaitCreate => Phase::Deploying,
            Stage::AwaitReady => Phase::WaitingReady,
            Stage::Resolving => Phase::Resolving,
            Stage::AwaitExec | Stage::AwaitLine | Stage::AwaitExit => Phase::Attaching,
            Stage::AwaitDetach => Phase::Detaching,
            Stage::AwaitDelete => Phase::Deleting,
            Stage::Done => Phase::Done,
            Stage::Cleanup | Stage::Failed => Phase::Error,
        }
    }

    /// Whether the session is over.
    pub fn is_finished(&self) -> (over: bool)
        ensures
            over == is_terminal(self@.stage),
    {
        match self.stage {
            Stage::Done | Stage::Failed => true,
            _ => false,
        }
    }

    /// What the session was asked to do.
    pub fn config(&self) -> (config: &SessionConfig)
        ensures
            config@ == self@.config,
    {
        &self.config
    }

    /// Whether this session created the debug pod.
    pub fn created_pod(&self) -> (created: bool)
        ensures
            created == self@.created,
    {
        self.created
    }

    /// The name of the debug pod of this session. It is the pod of the empty
    /// node until the target pod is found.
    pub fn debug_pod(&self) -> (name: String)
        ensures
            name@ == self@.debug_pod(),
    {
        debug_pod_name(self.node.as_str())
    }

    /// The container that the session enters, once it was chosen.
    pub fn resolved(&self) -> (target: Option<&ResolvedTarget>)
        ensures
            target is Some == self@.resolved is Some,
            target matches Some(t) ==> self@.resolved == Some(t@),
    {
        match &self.resolved {
            Some(target) => Some(target),
            None => None,
        }
    }

    /// Why the session failed, once it has.
    pub fn failure(&self) -> (error: Option<&SessionError>)
        ensures
            error is Some == self@.failure is Some,
            error matches Some(e) ==> self@.failure == Some(e@),
    {
        match &self.failure {
            Some(error) => Some(error),
            None => None,
        }
    }

    fn delete_pod(&self) -> (action: Action)
        ensures
            action@ == delete_action(self@),
    {
        Action::DeletePod { namespace: self.config.namespace.clone(), name: self.debug_pod() }
    }

    fn fail(self, error: SessionError) -> (r: (Session, Action))
        ensures
            (r.0@, r.1@) == fail(self@, error@),
            r.0@.wf(),
    {
        proof {
            use_type_invariant(&self);
        }
        if self.created {
            let action = self.delete_pod();
            (Session { stage: Stage::Cleanup, failure: Some(error), ..self }, action)
        } else {
            let action = Action::Finish { outcome: Err(error.clone()), teardown: None };
            (Session { stage: Stage::Failed, failure: Some(error), ..self }, action)
        }
    }

    fn ready(self) -> (r: (Session, Action))
        requires
            is_before_shell(self@.stage),
            self@.target is Some,
        ensures
            (r.0@, r.1@) == ready(self@),
            r.0@.wf(),
    {
        proof {
            use_type_invariant(&self);
        }
        (Session { stage: Stage::Resolving, ..self }, Action::Resolve)
    }

    fn create_pod(self) -> (r: (Session, Action))
        requires
            self@.stage == Stage::AwaitLookup,
        ensures
            r.0@ == (SessionSpec { stage: Stage::AwaitCreate, ..self@ }),
            r.1@ == create_action(self@),
            r.0@.wf(),
    {
        proof {
            use_type_invariant(&self);
        }
        let manifest = DebugPodManifest::build(
            self.config.image.clone(),
            self.config.socket.clone(),
            self.node.clone(),
            self.config.container_engine.clone(),
        );
        let action = Action::CreatePod { namespace: self.config.namespace.clone(), manifest };
        (Session { stage: Stage::AwaitCreate, ..self }, action)
    }

    fn choose_container(self) -> (r: (Session, Action))
        requires
            self@.stage == Stage::Resolving,
        ensures
            (r.0@, r.1@) == resolving(self@, EventSpec::Continue),
            r.0@.wf(),
    {
        proof {
            use_type_invariant(&self);
        }
        let pod = self.target.as_ref().unwrap();
        match get_container_id(pod, self.config.container_name.as_str()) {
            Ok(target) => {
                let action = Action::OpenExec {
                    namespace: self.config.namespace.clone(),
                    pod_name: self.debug_pod(),
                    shell: "/bin/bash".to_owned(),
                };
                (Session { stage: Stage::AwaitExec, resolved: Some(target), ..self }, action)
            },
            Err(ResolveError::AmbiguousContainer) => self.fail(SessionError::AmbiguousContainer),
            Err(ResolveError::ContainerNotFound) => self.fail(SessionError::ContainerNotFound),
        }
    }

    fn send_line(self) -> (r: (Session, Action))
        requires
            self@.stage == Stage::AwaitExec,
        ensures
            r.0@ == (SessionSpec { stage: Stage::AwaitLine, ..self@ }),
            r.1@ == (ActionSpec::SendLine { input: shell_input(self@) }),
            r.0@.wf(),
    {
        proof {
            use_type_invariant(&self);
        }
        let target = self.resolved.as_ref().unwrap();
        let line = remote_line(&self.config.mode, target.runtime_id.as_str());
        let action = Action::SendLine { input: line.concat("\n") };
        (Session { stage: Stage::AwaitLine, ..self }, action)
    }

    /// Takes the session one step on: `event` says what came of the action
    /// that the session asked for last, and the result holds the session
    /// after it and the action that it asks for now.
    pub fn step(self, event: Event) -> (r: (Session, Action))
        ensures
            (r.0@, r.1@) == next(self@, event@),
            self@.wf(),
            r.0@.wf(),
    {
        proof {
            use_type_invariant(&self);
        }
        match self.stage {
            Stage::AwaitTarget => match event {
                Event::TargetFound { pod } => {
                    let node = get_node(&pod);
                    let action = Action::GetDebugPod {
                        namespace: self.config.namespace.clone(),
                        name: debug_pod_name(node.as_str()),
                    };
                    (Session { stage: Stage::AwaitLookup, target: Some(pod), node, ..self }, action)
                },
                Event::TargetMissing => self.fail(SessionError::TargetNotFound),
                Event::Failed { .. } => self.fail(SessionError::TargetNotFound),
                _ => (self, Action::Ignore),
            },
            Stage::AwaitLookup => match event {
                Event::DebugPodFound => self.ready(),
                Event::DebugPodMissing => self.create_pod(),
                Event::Failed { .. } => self.create_pod(),
                _ => (self, Action::Ignore),
            },
            Stage::AwaitCreate => match event {
                Event::PodCreated => {
                    let action = Action::WatchPod {
                        namespace: self.config.namespace.clone(),
                        field_selector: field_selector(self.debug_pod().as_str()),
                        timeout: self.config.ready_timeout,
                    };
                    (Session { stage: Stage::AwaitReady, created: true, ..self }, action)
                },
                Event::PodExists => self.ready(),
                Event::Failed { cause } => self.fail(SessionError::DeployFailed { cause }),
                _ => (self, Action::Ignore),
            },
            Stage::AwaitReady => match event {
                Event::PodAdded => (self, Action::NextWatchEvent),
                Event::PodModified { phase } => {
                    if pod_is_running(phase.as_str()) {
                        self.ready()
                    } else {
                        (self, Action::NextWatchEvent)
                    }
                },
                Event::WatchOther => (self, Action::NextWatchEvent),
                Event::WatchExpired => self.fail(SessionError::DeployTimeout),
                Event::Failed { cause } => self.fail(SessionError::DeployFailed { cause }),
                _ => (self, Action::Ignore),
            },
            Stage::Resolving => match event {
                Event::Continue => self.choose_container(),
                _ => (self, Action::Ignore),
            },
            Stage::AwaitExec => match event {
                Event::ExecOpened => self.send_line(),
                Event::Failed { cause } => self.fail(SessionError::ExecChannelError { cause }),
                _ => (self, Action::Ignore),
            },
            Stage::AwaitLine => match event {
                Event::LineSent => {
                    let forward_input = match &self.config.mode {
                        SessionMode::Attach => true,
                        SessionMode::Execute { .. } => false,
                    };
                    let action = Action::RunPumps { forward_input, forward_output: true };
                    (Session { stage: Stage::AwaitExit, ..self }, action)
                },
                Event::Failed { cause } => self.fail(SessionError::ExecChannelError { cause }),
                _ => (self, Action::Ignore),
            },
            Stage::AwaitExit => match event {
                Event::SessionEnded => (Session { stage: Stage::AwaitDetach, ..self }, Action::StopPumps),
                Event::Failed { cause } => self.fail(SessionError::ExecChannelError { cause }),
                _ => (self, Action::Ignore),
            },
            Stage::AwaitDetach => match event {
                Event::PumpsStopped | Event::Failed { .. } => {
                    let action = self.delete_pod();
                    (Session { stage: Stage::AwaitDelete, ..self }, action)
                },
                _ => (self, Action::Ignore),
            },
            Stage::AwaitDelete => match event {
                Event::PodDeleted => {
                    let action = Action::Finish { outcome: Ok(()), teardown: None };
                    (Session { stage: Stage::Done, ..self }, action)
                },
                Event::Failed { cause } => {
                    let action = Action::Finish {
                        outcome: Ok(()),
                        teardown: Some(TeardownError { cause }),
                    };
                    (Session { stage: Stage::Done, ..self }, action)
                },
                _ => (self, Action::Ignore),
            },
            Stage::Cleanup => match event {
                Event::PodDeleted => {
                    let action = Action::Finish { outcome: Err(self.error()), teardown: None };
                    (Session { stage: Stage::Failed, ..self }, action)
                },
                Event::Failed { cause } => {
                    let action = Action::Finish {
                        outcome: Err(self.error()),
                        teardown: Some(TeardownError { cause }),
                    };
                    (Session { stage: Stage::Failed, ..self }, action)
                },
                _ => (self, Action::Ignore),
            },
            Stage::Done => (self, Action::Ignore),
            Stage::Failed => (self, Action::Ignore),
        }
    }

    fn error(&self) -> (error: SessionError)
        requires
            self@.failure is Some,
        ensures
            error@ == self@.failure->0,
    {
        self.failure.as_ref().unwrap().clone()
    }
}

} // verus!
