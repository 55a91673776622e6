//! What a session is configured with, what the cluster reports to it, and
//! what it asks the cluster to do.

use vstd::prelude::*;
use vstd::string::*;
use crate::json_builder::{DebugPodManifest, DebugPodManifestSpec};
use crate::pod::{PodInfo, PodInfoSpec};
use crate::text::join;

verus! {

/// How the operator uses the target container.
pub enum SessionModeSpec {
    Attach,
    Execute { command: Seq<char> },
}

/// How the operator uses the target container: with a terminal of their own,
/// or for one command whose output comes back.
#[derive(Debug, PartialEq, Eq)]
pub enum SessionMode {
    Attach,
    Execute { command: String },
}

impl View for SessionMode {
    type V = SessionModeSpec;

    open spec fn view(&self) -> SessionModeSpec {
        match *self {
            SessionMode::Attach => SessionModeSpec::Attach,
            SessionMode::Execute { command } => SessionModeSpec::Execute { command: command@ },
        }
    }
}

impl Clone for SessionMode {
    fn clone(&self) -> (copy: SessionMode)
        ensures
            copy@ == self@,
    {
        match self {
            SessionMode::Attach => SessionMode::Attach,
            SessionMode::Execute { command } => SessionMode::Execute { command: command.clone() },
        }
    }
}

/// The number of seconds that a new debug pod is given to start, where
/// nothing else is asked for.
pub const READY_TIMEOUT: u32 = 60;

/// A configuration, as a mathematical value.
pub struct SessionConfigSpec {
    pub pod_name: Seq<char>,
    pub container_name: Seq<char>,
    pub namespace: Seq<char>,
    pub image: Seq<char>,
    pub socket: Seq<char>,
    pub container_engine: Seq<char>,
    pub ready_timeout: u32,
    pub mode: SessionModeSpec,
}

/// What one session is asked to do. It is made once and never changed.
///
/// An empty `container_name` names no container. `ready_timeout` is the
/// number of seconds that a new debug pod is given to start.
#[derive(Debug, PartialEq, Eq)]
pub struct SessionConfig {
    pub pod_name: String,
    pub container_name: String,
    pub namespace: String,
    pub image: String,
    pub socket: String,
    pub container_engine: String,
    pub ready_timeout: u32,
    pub mode: SessionMode,
}

impl View for SessionConfig {
    type V = SessionConfigSpec;

    open spec fn view(&self) -> SessionConfigSpec {
        SessionConfigSpec {
            pod_name: self.pod_name@,
            container_name: self.container_name@,
            namespace: self.namespace@,
            image: self.image@,
            socket: self.socket@,
            container_engine: self.container_engine@,
            ready_timeout: self.ready_timeout,
            mode: self.mode@,
        }
    }
}

/// Why a session failed, as a mathematical value.
pub enum SessionErrorSpec {
    TargetNotFound,
    AmbiguousContainer,
    ContainerNotFound,
    DeployTimeout,
    DeployFailed { cause: Seq<char> },
    ExecChannelError { cause: Seq<char> },
}

/// Why a session failed.
#[derive(Debug, PartialEq, Eq)]
pub enum SessionError {
    /// The namespace holds no pod of the target's name.
    TargetNotFound,
    /// The target pod has several containers and none was named.
    AmbiguousContainer,
    /// The target pod has no started container of the name given.
    ContainerNotFound,
    /// The debug pod did not start within the time it was given.
    DeployTimeout,
    /// The debug pod could not be created, or could not be watched.
    DeployFailed { cause: String },
    /// The channel to the debug pod's shell could not be opened or used.
    ExecChannelError { cause: String },
}

impl View for SessionError {
    type V = SessionErrorSpec;

    open spec fn view(&self) -> SessionErrorSpec {
        match *self {
            SessionError::TargetNotFound => SessionErrorSpec::TargetNotFound,
            SessionError::AmbiguousContainer => SessionErrorSpec::AmbiguousContainer,
            SessionError::ContainerNotFound => SessionErrorSpec::ContainerNotFound,
            SessionError::DeployTimeout => SessionErrorSpec::DeployTimeout,
            SessionError::DeployFailed { cause } => SessionErrorSpec::DeployFailed { cause: cause@ },
            SessionError::ExecChannelError { cause } => SessionErrorSpec::ExecChannelError {
                cause: cause@,
            },
        }
    }
}

impl Clone for SessionError {
    fn clone(&self) -> (copy: SessionError)
        ensures
            copy@ == self@,
    {
        match self {
            SessionError::TargetNotFound => SessionError::TargetNotFound,
            SessionError::AmbiguousContainer => SessionError::AmbiguousContainer,
            SessionError::ContainerNotFound => SessionError::ContainerNotFound,
            SessionError::DeployTimeout => SessionError::DeployTimeout,
            SessionError::DeployFailed { cause } => SessionError::DeployFailed { cause: cause.clone() },
            SessionError::ExecChannelError { cause } => SessionError::ExecChannelError {
                cause: cause.clone(),
            },
        }
    }
}

/// Why the debug pod was not deleted, as a mathematical value.
pub struct TeardownErrorSpec {
    pub cause: Seq<char>,
}

/// Why the debug pod was not deleted at the end of a session. It is worth a
/// log line and never changes how the session ended.
#[derive(Debug, PartialEq, Eq)]
pub struct TeardownError {
    pub cause: String,
}

impl View for TeardownError {
    type V = TeardownErrorSpec;

    open spec fn view(&self) -> TeardownErrorSpec {
        TeardownErrorSpec { cause: self.cause@ }
    }
}

/// What the cluster reports, as a mathematical value.
pub enum EventSpec {
    Continue,
    TargetFound { pod: PodInfoSpec },
    TargetMissing,
    DebugPodFound,
    DebugPodMissing,
    PodCreated,
    PodExists,
    PodAdded,
    PodModified { phase: Seq<char> },
    WatchOther,
    WatchExpired,
    ExecOpened,
    LineSent,
    SessionEnded,
    PumpsStopped,
    PodDeleted,
    Failed { cause: Seq<char> },
}

/// What came of the action that a session asked for last.
#[derive(Debug, PartialEq, Eq)]
pub enum Event {
    /// Nothing to report: the action needed no outside work.
    Continue,
    /// The target pod exists.
    TargetFound { pod: PodInfo },
    /// The namespace holds no pod of the target's name.
    TargetMissing,
    /// The node has a debug pod already.
    DebugPodFound,
    /// The node has no debug pod.
    DebugPodMissing,
    /// The debug pod was created.
    PodCreated,
    /// The debug pod was not created, because it exists by now.
    PodExists,
    /// The watch reports that the debug pod was added.
    PodAdded,
    /// The watch reports a change of the debug pod, which is now in `phase`
    /// (empty where the pod reports none).
    PodModified { phase: String },
    /// The watch reports anything else.
    WatchOther,
    /// The watch ended: the time that the debug pod was given is over.
    WatchExpired,
    /// The channel to the debug pod's shell is open.
    ExecOpened,
    /// The line was written to the shell's input.
    LineSent,
    /// The remote shell has exited.
    SessionEnded,
    /// The copy loops were stopped.
    PumpsStopped,
    /// The debug pod was deleted.
    PodDeleted,
    /// The action failed.
    Failed { cause: String },
}

impl View for Event {
    type V = EventSpec;

    open spec fn view(&self) -> EventSpec {
        match *self {
            Event::Continue => EventSpec::Continue,
            Event::TargetFound { pod } => EventSpec::TargetFound { pod: pod@ },
            Event::TargetMissing => EventSpec::TargetMissing,
            Event::DebugPodFound => EventSpec::DebugPodFound,
            Event::DebugPodMissing => EventSpec::DebugPodMissing,
            Event::PodCreated => EventSpec::PodCreated,
            Event::PodExists => EventSpec::PodExists,
            Event::PodAdded => EventSpec::PodAdded,
            Event::PodModified { phase } => EventSpec::PodModified { phase: phase@ },
            Event::WatchOther => EventSpec::WatchOther,
            Event::WatchExpired => EventSpec::WatchExpired,
            Event::ExecOpened => EventSpec::ExecOpened,
            Event::LineSent => EventSpec::LineSent,
            Event::SessionEnded => EventSpec::SessionEnded,
            Event::PumpsStopped => EventSpec::PumpsStopped,
            Event::PodDeleted => EventSpec::PodDeleted,
            Event::Failed { cause } => EventSpec::Failed { cause: cause@ },
        }
    }
}

/// How a session ended, as a mathematical value.
pub enum OutcomeSpec {
    Completed,
    Failed { error: SessionErrorSpec },
}

/// What a session asks for, as a mathematical value.
pub enum ActionSpec {
    GetTargetPod { namespace: Seq<char>, name: Seq<char> },
    GetDebugPod { namespace: Seq<char>, name: Seq<char> },
    CreatePod { namespace: Seq<char>, manifest: DebugPodManifestSpec },
    WatchPod { namespace: Seq<char>, field_selector: Seq<char>, timeout: u32 },
    NextWatchEvent,
    Resolve,
    OpenExec { namespace: Seq<char>, pod_name: Seq<char>, shell: Seq<char> },
    SendLine { input: Seq<char> },
    RunPumps { forward_input: bool, forward_output: bool },
    StopPumps,
    DeletePod { namespace: Seq<char>, name: Seq<char> },
    Finish { outcome: OutcomeSpec, teardown: Option<TeardownErrorSpec> },
    Ignore,
}

/// What the driver of a session does next. It reports what came of it as
/// the next `Event`.
#[derive(Debug, PartialEq, Eq)]
pub enum Action {
    /// Look up the target pod. Answered by `TargetFound` or `TargetMissing`.
    GetTargetPod { namespace: String, name: String },
    /// Look up the debug pod. Answered by `DebugPodFound` or
    /// `DebugPodMissing`.
    GetDebugPod { namespace: String, name: String },
    /// Create the debug pod. Answered by `PodCreated` or `PodExists`.
    CreatePod { namespace: String, manifest: DebugPodManifest },
    /// Watch the pods that `field_selector` selects, for `timeout` seconds at
    /// most, and report the first event.
    WatchPod { namespace: String, field_selector: String, timeout: u32 },
    /// Report the next event of the watch.
    NextWatchEvent,
    /// The debug pod is ready. Nothing to do outside: answered by `Continue`.
    Resolve,
    /// Execute `shell` in the debug pod, with a terminal. Answered by
    /// `ExecOpened`.
    OpenExec { namespace: String, pod_name: String, shell: String },
    /// Write `input` to the shell's input. Answered by `LineSent`.
    SendLine { input: String },
    /// Start the copy loops, from the operator's input to the shell where
    /// `forward_input` is set and from the shell's output to the operator
    /// where `forward_output` is set, and wait for the shell to exit, not for
    /// the loops. Answered by `SessionEnded`.
    RunPumps { forward_input: bool, forward_output: bool },
    /// Stop the copy loops. Answered by `PumpsStopped`.
    StopPumps,
    /// Delete the debug pod. Answered by `PodDeleted`.
    DeletePod { namespace: String, name: String },
    /// The session is over. `teardown` says why the debug pod could not be
    /// deleted, where it could not.
    Finish { outcome: Result<(), SessionError>, teardown: Option<TeardownError> },
    /// The event was not expected and changed nothing: what was asked for
    /// last is still asked for.
    Ignore,
}

impl View for Action {
    type V = ActionSpec;

    open spec fn view(&self) -> ActionSpec {
        match *self {
            Action::GetTargetPod { namespace, name } => ActionSpec::GetTargetPod {
                namespace: namespace@,
                name: name@,
            },
            Action::GetDebugPod { namespace, name } => ActionSpec::GetDebugPod {
                namespace: namespace@,
                name: name@,
            },
            Action::CreatePod { namespace, manifest } => ActionSpec::CreatePod {
                namespace: namespace@,
                manifest: manifest@,
            },
            Action::WatchPod { namespace, field_selector, timeout } => ActionSpec::WatchPod {
                namespace: namespace@,
                field_selector: field_selector@,
                timeout: timeout,
            },
            Action::NextWatchEvent => ActionSpec::NextWatchEvent,
            Action::Resolve => ActionSpec::Resolve,
            Action::OpenExec { namespace, pod_name, shell } => ActionSpec::OpenExec {
                namespace: namespace@,
                pod_name: pod_name@,
                shell: shell@,
            },
            Action::SendLine { input } => ActionSpec::SendLine { input: input@ },
            Action::RunPumps { forward_input, forward_output } => ActionSpec::RunPumps {
                forward_input: forward_input,
                forward_output: forward_output,
            },
            Action::StopPumps => ActionSpec::StopPumps,
            Action::DeletePod { namespace, name } => ActionSpec::DeletePod {
                namespace: namespace@,
                name: name@,
            },
            Action::Finish { outcome, teardown } => ActionSpec::Finish {
                outcome: match outcome {
                    Ok(_) => OutcomeSpec::Completed,
                    Err(error) => OutcomeSpec::Failed { error: error@ },
                },
                teardown: match teardown {
                    Some(error) => Some(error@),
                    None => None,
                },
            },
            Action::Ignore => ActionSpec::Ignore,
        }
    }
}

/// The line that enters the container `id` with the operator's terminal.
pub open spec fn attach_line_of(id: Seq<char>) -> Seq<char> {
    "cntr attach "@ + id
}

/// The line that runs `command` in the container `id` and then leaves the
/// shell, so that the channel closes.
pub open spec fn execute_line_of(id: Seq<char>, command: Seq<char>) -> Seq<char> {
    "cntr attach "@ + id + " -- "@ + command + " && exit"@
}

/// The line that a session of the given mode writes to the debug pod's shell.
pub open spec fn remote_line_of(mode: SessionModeSpec, id: Seq<char>) -> Seq<char> {
    match mode {
        SessionModeSpec::Attach => attach_line_of(id),
        SessionModeSpec::Execute { command } => execute_line_of(id, command),
    }
}

/// The selector of a watch that reports the pod `name` alone.
pub open spec fn field_selector_of(name: Seq<char>) -> Seq<char> {
    "metadata.name="@ + name
}

/// Whether a pod in `phase` can take a shell.
pub open spec fn is_running(phase: Seq<char>) -> bool {
    phase == "Running"@
}

/// The line that a session of the given mode writes to the debug pod's
/// shell to enter the container `id`.
pub fn remote_line(mode: &SessionMode, id: &str) -> (line: String)
    ensures
        line@ == remote_line_of(mode@, id@),
{
    match mode {
        SessionMode::Attach => join("cntr attach ", id),
        SessionMode::Execute { command } => {
            let line = join("cntr attach ", id).concat(" -- ").concat(command.as_str()).concat(
                " && exit",
            );
            line
        },
    }
}

/// What the operator is told of a failed session.
pub open spec fn message_of(error: SessionErrorSpec, config: SessionConfigSpec) -> Seq<char> {
    match error {
        SessionErrorSpec::TargetNotFound => "No pod \""@ + config.pod_name + "\" found in namespace \""@
            + config.namespace + "\"!"@,
        SessionErrorSpec::AmbiguousContainer => "The Pod "@ + config.pod_name
            + " contains more than one container, please specify a container."@,
        SessionErrorSpec::ContainerNotFound => "The Pod "@ + config.pod_name
            + " did not contain a container named "@ + config.container_name + "."@,
        SessionErrorSpec::DeployTimeout => "The Lambda-Cntr-Pod was not running in time."@,
        SessionErrorSpec::DeployFailed { cause } => cause,
        SessionErrorSpec::ExecChannelError { cause } => cause,
    }
}

/// The exit status of a process that ran one session: zero for a session
/// that completed.
pub open spec fn exit_code_of(failed: bool) -> i32 {
    if failed {
        1
    } else {
        0
    }
}

impl SessionError {
    /// What the operator is told of this error in a session of `config`.
    pub fn message(&self, config: &SessionConfig) -> (text: String)
        ensures
            text@ == message_of(self@, config@),
    {
        match self {
            SessionError::TargetNotFound => {
                join("No pod \"", config.pod_name.as_str()).concat("\" found in namespace \"").concat(
                    config.namespace.as_str(),
                ).concat("\"!")
            },
            SessionError::AmbiguousContainer => {
                join("The Pod ", config.pod_name.as_str()).concat(
                    " contains more than one container, please specify a container.",
                )
            },
            SessionError::ContainerNotFound => {
                join("The Pod ", config.pod_name.as_str()).concat(
                    " did not contain a container named ",
                ).concat(config.container_name.as_str()).concat(".")
            },
            SessionError::DeployTimeout => "The Lambda-Cntr-Pod was not running in time.".to_owned(),
            SessionError::DeployFailed { cause } => cause.clone(),
            SessionError::ExecChannelError { cause } => cause.clone(),
        }
    }
}

/// The exit status of a process that ran one session with this outcome.
pub fn exit_code(outcome: &Result<(), SessionError>) -> (code: i32)
    ensures
        code == exit_code_of(outcome is Err),
        code == 0 <==> outcome is Ok,
{
    match outcome {
        Ok(_) => 0,
        Err(_) => 1,
    }
}

/// Whether a pod in `phase` can take a shell.
pub fn pod_is_running(phase: &str) -> (running: bool)
    ensures
        running == is_running(phase@),
{
    phase.to_owned() == "Running".to_owned()
}

/// The selector of a watch that reports the pod `name` alone.
pub fn field_selector(name: &str) -> (selector: String)
    ensures
        selector@ == field_selector_of(name@),
{
    join("metadata.name=", name)
}

} // verus!
