use lambda_cntr::json_builder::DebugPodManifest;
use lambda_cntr::kube_controller::{deploy_and_attach, deploy_and_execute, ResolvedTarget};
use lambda_cntr::orchestrator::{Phase, Session, Stage};
use lambda_cntr::pod::{ContainerStatus, PodInfo};
use lambda_cntr::session::{
    exit_code, field_selector, pod_is_running, remote_line, Action, Event, SessionConfig,
    SessionError, SessionMode, TeardownError, READY_TIMEOUT,
};

fn config(mode: SessionMode) -> SessionConfig {
    SessionConfig {
        pod_name: "web".to_string(),
        container_name: "".to_string(),
        namespace: "default".to_string(),
        image: "onestone070/lambda-cntr:latest".to_string(),
        socket: "/run/containerd/containerd.sock".to_string(),
        container_engine: "containerd".to_string(),
        ready_timeout: 60,
        mode,
    }
}

fn execute(command: &str) -> SessionMode {
    SessionMode::Execute { command: command.to_string() }
}

fn status(name: &str, id: Option<&str>) -> ContainerStatus {
    ContainerStatus::new(name.to_string(), id.map(|s| s.to_string())).unwrap()
}

fn target_pod(statuses: Vec<ContainerStatus>) -> PodInfo {
    PodInfo { name: "web".to_string(), node_name: Some("node1".to_string()), container_statuses: Some(statuses) }
}

fn one_container(id: &str) -> PodInfo {
    target_pod(vec![status("app", Some(id))])
}

fn found(pod: PodInfo) -> Event {
    Event::TargetFound { pod }
}

fn modified(phase: &str) -> Event {
    Event::PodModified { phase: phase.to_string() }
}

fn failed(cause: &str) -> Event {
    Event::Failed { cause: cause.to_string() }
}

fn delete_pod() -> Action {
    Action::DeletePod { namespace: "default".to_string(), name: "lambda-cntr-node1".to_string() }
}

fn open_exec() -> Action {
    Action::OpenExec {
        namespace: "default".to_string(),
        pod_name: "lambda-cntr-node1".to_string(),
        shell: "/bin/bash".to_string(),
    }
}

fn finish(outcome: Result<(), SessionError>, teardown: Option<&str>) -> Action {
    Action::Finish { outcome, teardown: teardown.map(|s| TeardownError { cause: s.to_string() }) }
}

/// Runs a session over `events` and hands back where it stands and all that
/// it asked for, the first action included.
fn drive(config: SessionConfig, events: Vec<Event>) -> (Session, Vec<Action>) {
    let (mut session, first) = Session::start(config);
    let mut actions = vec![first];
    for event in events {
        let (next, action) = session.step(event);
        session = next;
        actions.push(action);
    }
    (session, actions)
}

fn count(actions: &[Action], wanted: fn(&Action) -> bool) -> usize {
    actions.iter().filter(|a| wanted(a)).count()
}

fn is_create(a: &Action) -> bool {
    matches!(a, Action::CreatePod { .. })
}

fn is_delete(a: &Action) -> bool {
    matches!(a, Action::DeletePod { .. })
}

fn is_exec(a: &Action) -> bool {
    matches!(a, Action::OpenExec { .. })
}

fn fresh_deploy(pod: PodInfo) -> Vec<Event> {
    vec![found(pod), Event::DebugPodMissing, Event::PodCreated, Event::PodAdded, modified("Pending"), modified("Running")]
}

fn session_events() -> Vec<Event> {
    vec![Event::Continue, Event::ExecOpened, Event::LineSent, Event::SessionEnded, Event::PumpsStopped, Event::PodDeleted]
}

#[test]
fn attach_line_is_exact() {
    assert_eq!(remote_line(&SessionMode::Attach, "abc123"), "cntr attach abc123");
}

#[test]
fn execute_line_is_exact() {
    assert_eq!(remote_line(&execute("ls -la"), "xyz"), "cntr attach xyz -- ls -la && exit");
}

#[test]
fn lines_with_empty_parts() {
    assert_eq!(remote_line(&SessionMode::Attach, ""), "cntr attach ");
    assert_eq!(remote_line(&execute(""), "id"), "cntr attach id --  && exit");
}

#[test]
fn field_selector_names_the_pod() {
    assert_eq!(field_selector("lambda-cntr-node1"), "metadata.name=lambda-cntr-node1");
}

#[test]
fn start_asks_for_the_target_pod() {
    let (session, action) = Session::start(config(SessionMode::Attach));
    assert_eq!(action, Action::GetTargetPod { namespace: "default".to_string(), name: "web".to_string() });
    assert_eq!(session.stage(), Stage::AwaitTarget);
    assert_eq!(session.phase(), Phase::Init);
    assert!(!session.is_finished());
    assert!(!session.created_pod());
    assert_eq!(session.resolved(), None);
    assert_eq!(session.failure(), None);
    assert_eq!(session.config(), &config(SessionMode::Attach));
}

#[test]
fn scenario_attach_issues_the_attach_line() {
    let mut events = fresh_deploy(one_container("containerd://abc123"));
    events.extend(vec![Event::Continue, Event::ExecOpened]);
    let (session, actions) = drive(config(SessionMode::Attach), events);
    assert_eq!(actions.last(), Some(&Action::SendLine { input: "cntr attach abc123\n".to_string() }));
    assert_eq!(
        session.resolved(),
        Some(&ResolvedTarget { runtime_id: "abc123".to_string(), runtime_kind: "containerd".to_string() })
    );
    assert_eq!(count(&actions, |a| matches!(a, Action::SendLine { .. })), 1);
}

#[test]
fn scenario_execute_issues_the_execute_line() {
    let events = vec![found(one_container("docker://xyz")), Event::DebugPodFound, Event::Continue, Event::ExecOpened];
    let (_, actions) = drive(config(execute("ls -la")), events);
    assert_eq!(actions.last(), Some(&Action::SendLine { input: "cntr attach xyz -- ls -la && exit\n".to_string() }));
}

#[test]
fn scenario_timeout_fails_and_deletes_once() {
    let events = vec![
        found(one_container("containerd://abc123")),
        Event::DebugPodMissing,
        Event::PodCreated,
        Event::PodAdded,
        modified("Pending"),
        modified(""),
        Event::WatchOther,
        modified("ContainerCreating"),
        Event::WatchExpired,
        Event::PodDeleted,
    ];
    let (session, actions) = drive(config(SessionMode::Attach), events);
    assert_eq!(actions[actions.len() - 2], delete_pod());
    assert_eq!(actions.last(), Some(&finish(Err(SessionError::DeployTimeout), None)));
    assert_eq!(count(&actions, is_delete), 1);
    assert_eq!(count(&actions, is_exec), 0);
    assert_eq!(session.stage(), Stage::Failed);
    assert_eq!(session.phase(), Phase::Error);
    assert_eq!(session.failure(), Some(&SessionError::DeployTimeout));
    assert!(session.created_pod());
    assert!(session.is_finished());
}

#[test]
fn timeout_while_deleting_fails_keeps_the_timeout() {
    let events = vec![
        found(one_container("containerd://abc123")),
        Event::DebugPodMissing,
        Event::PodCreated,
        Event::WatchExpired,
        failed("gone"),
    ];
    let (session, actions) = drive(config(SessionMode::Attach), events);
    assert_eq!(actions.last(), Some(&finish(Err(SessionError::DeployTimeout), Some("gone"))));
    assert_eq!(count(&actions, is_delete), 1);
    assert_eq!(session.stage(), Stage::Failed);
}

#[test]
fn two_sessions_on_one_node_create_one_pod() {
    let mut first_events = fresh_deploy(one_container("containerd://abc123"));
    first_events.extend(vec![Event::Continue, Event::ExecOpened, Event::LineSent]);
    let (_, first) = drive(config(SessionMode::Attach), first_events);

    let mut second_events = vec![found(target_pod(vec![status("db", Some("containerd://d4"))])), Event::DebugPodFound];
    second_events.extend(session_events());
    let (session, second) = drive(config(SessionMode::Attach), second_events);

    assert_eq!(count(&first, is_create), 1);
    assert_eq!(count(&second, is_create), 0);
    assert_eq!(first[1], second[1]);
    assert_eq!(second[1], Action::GetDebugPod { namespace: "default".to_string(), name: "lambda-cntr-node1".to_string() });
    assert_eq!(count(&second, |a| matches!(a, Action::WatchPod { .. })), 0);
    assert!(!session.created_pod());
    assert_eq!(session.stage(), Stage::Done);
}

#[test]
fn full_attach_session() {
    let mut events = fresh_deploy(one_container("containerd://abc123"));
    events.extend(session_events());
    let (session, actions) = drive(config(SessionMode::Attach), events);
    let expected = vec![
        Action::GetTargetPod { namespace: "default".to_string(), name: "web".to_string() },
        Action::GetDebugPod { namespace: "default".to_string(), name: "lambda-cntr-node1".to_string() },
        Action::CreatePod {
            namespace: "default".to_string(),
            manifest: DebugPodManifest {
                name: "lambda-cntr-node1".to_string(),
                node: "node1".to_string(),
                image: "onestone070/lambda-cntr:latest".to_string(),
                socket: "/run/containerd/containerd.sock".to_string(),
                mount_path: "/run/containerd/containerd.sock".to_string(),
            },
        },
        Action::WatchPod {
            namespace: "default".to_string(),
            field_selector: "metadata.name=lambda-cntr-node1".to_string(),
            timeout: 60,
        },
        Action::NextWatchEvent,
        Action::NextWatchEvent,
        Action::Resolve,
        open_exec(),
        Action::SendLine { input: "cntr attach abc123\n".to_string() },
        Action::RunPumps { forward_input: true, forward_output: true },
        Action::StopPumps,
        delete_pod(),
        finish(Ok(()), None),
    ];
    assert_eq!(actions, expected);
    assert_eq!(session.stage(), Stage::Done);
    assert_eq!(session.phase(), Phase::Done);
    assert!(session.is_finished());
    assert!(session.created_pod());
    assert_eq!(session.failure(), None);
}

#[test]
fn phases_follow_the_life_cycle() {
    let mut events = fresh_deploy(one_container("containerd://abc123"));
    events.extend(session_events());
    let (mut session, _) = Session::start(config(SessionMode::Attach));
    let mut phases = vec![session.phase()];
    for event in events {
        session = session.step(event).0;
        phases.push(session.phase());
    }
    assert_eq!(
        phases,
        vec![
            Phase::Init,
            Phase::Init,
            Phase::Deploying,
            Phase::WaitingReady,
            Phase::WaitingReady,
            Phase::WaitingReady,
            Phase::Resolving,
            Phase::Attaching,
            Phase::Attaching,
            Phase::Attaching,
            Phase::Detaching,
            Phase::Deleting,
            Phase::Done,
        ]
    );
}

#[test]
fn execute_session_forwards_output_only() {
    let mut events = vec![found(one_container("containerd://abc123")), Event::DebugPodFound];
    events.extend(vec![Event::Continue, Event::ExecOpened, Event::LineSent]);
    let (_, actions) = drive(config(execute("ps")), events);
    assert_eq!(actions.last(), Some(&Action::RunPumps { forward_input: false, forward_output: true }));
}

#[test]
fn execute_session_deletes_the_pod_at_its_end() {
    let mut events = vec![found(one_container("containerd://abc123")), Event::DebugPodFound];
    events.extend(session_events());
    let (session, actions) = drive(config(execute("ps")), events);
    assert_eq!(count(&actions, is_delete), 1);
    assert_eq!(actions.last(), Some(&finish(Ok(()), None)));
    assert_eq!(session.stage(), Stage::Done);
}

#[test]
fn reused_pod_is_not_watched() {
    let events = vec![found(one_container("containerd://abc123")), Event::DebugPodFound];
    let (session, actions) = drive(config(SessionMode::Attach), events);
    assert_eq!(actions.last(), Some(&Action::Resolve));
    assert_eq!(session.stage(), Stage::Resolving);
    assert!(!session.created_pod());
}

#[test]
fn pod_that_exists_by_now_is_reused() {
    let events = vec![found(one_container("containerd://abc123")), Event::DebugPodMissing, Event::PodExists];
    let (session, actions) = drive(config(SessionMode::Attach), events);
    assert_eq!(actions.last(), Some(&Action::Resolve));
    assert!(!session.created_pod());
    assert_eq!(count(&actions, is_create), 1);
}

#[test]
fn failed_lookup_of_the_debug_pod_creates_it() {
    let events = vec![found(one_container("containerd://abc123")), failed("timeout")];
    let (session, actions) = drive(config(SessionMode::Attach), events);
    assert!(is_create(actions.last().unwrap()));
    assert_eq!(session.phase(), Phase::Deploying);
}

#[test]
fn missing_target_ends_the_session() {
    let (session, actions) = drive(config(SessionMode::Attach), vec![Event::TargetMissing]);
    assert_eq!(actions.last(), Some(&finish(Err(SessionError::TargetNotFound), None)));
    assert_eq!(session.stage(), Stage::Failed);
    assert_eq!(session.failure(), Some(&SessionError::TargetNotFound));
    assert_eq!(count(&actions, is_delete), 0);
}

#[test]
fn failed_lookup_of_the_target_ends_the_session() {
    let (session, actions) = drive(config(SessionMode::Attach), vec![failed("forbidden")]);
    assert_eq!(actions.last(), Some(&finish(Err(SessionError::TargetNotFound), None)));
    assert!(session.is_finished());
}

#[test]
fn failed_creation_ends_the_session_without_deletion() {
    let events = vec![found(one_container("containerd://abc123")), Event::DebugPodMissing, failed("quota")];
    let (session, actions) = drive(config(SessionMode::Attach), events);
    assert_eq!(actions.last(), Some(&finish(Err(SessionError::DeployFailed { cause: "quota".to_string() }), None)));
    assert_eq!(count(&actions, is_delete), 0);
    assert_eq!(session.stage(), Stage::Failed);
}

#[test]
fn failed_watch_deletes_the_pod() {
    let events = vec![
        found(one_container("containerd://abc123")),
        Event::DebugPodMissing,
        Event::PodCreated,
        failed("reset"),
        Event::PodDeleted,
    ];
    let (_, actions) = drive(config(SessionMode::Attach), events);
    assert_eq!(actions[actions.len() - 2], delete_pod());
    assert_eq!(actions.last(), Some(&finish(Err(SessionError::DeployFailed { cause: "reset".to_string() }), None)));
}

#[test]
fn ambiguous_target_fails_before_any_shell() {
    let pod = target_pod(vec![status("a", Some("containerd://a1")), status("b", Some("containerd://b2"))]);
    let mut events = fresh_deploy(pod);
    events.extend(vec![Event::Continue, Event::PodDeleted]);
    let (session, actions) = drive(config(SessionMode::Attach), events);
    assert_eq!(actions[actions.len() - 2], delete_pod());
    assert_eq!(actions.last(), Some(&finish(Err(SessionError::AmbiguousContainer), None)));
    assert_eq!(count(&actions, is_exec), 0);
    assert_eq!(count(&actions, is_delete), 1);
    assert_eq!(session.failure(), Some(&SessionError::AmbiguousContainer));
}

#[test]
fn unknown_container_in_a_reused_pod_leaves_the_pod() {
    let pod = target_pod(vec![status("a", Some("containerd://a1")), status("b", Some("containerd://b2"))]);
    let mut cfg = config(SessionMode::Attach);
    cfg.container_name = "c".to_string();
    let events = vec![found(pod), Event::DebugPodFound, Event::Continue];
    let (session, actions) = drive(cfg, events);
    assert_eq!(actions.last(), Some(&finish(Err(SessionError::ContainerNotFound), None)));
    assert_eq!(count(&actions, is_delete), 0);
    assert_eq!(count(&actions, is_exec), 0);
    assert_eq!(session.stage(), Stage::Failed);
}

#[test]
fn named_container_is_entered() {
    let pod = target_pod(vec![status("a", Some("containerd://a1")), status("b", Some("docker://b2"))]);
    let mut cfg = config(SessionMode::Attach);
    cfg.container_name = "b".to_string();
    let events = vec![found(pod), Event::DebugPodFound, Event::Continue, Event::ExecOpened];
    let (_, actions) = drive(cfg, events);
    assert_eq!(actions.last(), Some(&Action::SendLine { input: "cntr attach b2\n".to_string() }));
}

#[test]
fn resolution_uses_the_target_pod() {
    let events = vec![found(one_container("containerd://target-id")), Event::DebugPodFound, Event::Continue];
    let (session, actions) = drive(config(SessionMode::Attach), events);
    assert_eq!(actions.last(), Some(&open_exec()));
    assert_eq!(session.resolved().map(|t| t.runtime_id.as_str()), Some("target-id"));
}

#[test]
fn failed_exec_in_a_created_pod_deletes_it() {
    let mut events = fresh_deploy(one_container("containerd://abc123"));
    events.extend(vec![Event::Continue, failed("handshake"), Event::PodDeleted]);
    let (_, actions) = drive(config(SessionMode::Attach), events);
    assert_eq!(actions[actions.len() - 2], delete_pod());
    assert_eq!(
        actions.last(),
        Some(&finish(Err(SessionError::ExecChannelError { cause: "handshake".to_string() }), None))
    );
}

#[test]
fn failed_exec_in_a_reused_pod_leaves_it() {
    let events = vec![found(one_container("containerd://abc123")), Event::DebugPodFound, Event::Continue, failed("handshake")];
    let (_, actions) = drive(config(SessionMode::Attach), events);
    assert_eq!(
        actions.last(),
        Some(&finish(Err(SessionError::ExecChannelError { cause: "handshake".to_string() }), None))
    );
    assert_eq!(count(&actions, is_delete), 0);
}

#[test]
fn failed_write_ends_the_session() {
    let mut events = fresh_deploy(one_container("containerd://abc123"));
    events.extend(vec![Event::Continue, Event::ExecOpened, failed("broken pipe")]);
    let (session, actions) = drive(config(SessionMode::Attach), events);
    assert_eq!(actions.last(), Some(&delete_pod()));
    assert_eq!(session.stage(), Stage::Cleanup);
    assert_eq!(session.phase(), Phase::Error);
    assert_eq!(session.failure(), Some(&SessionError::ExecChannelError { cause: "broken pipe".to_string() }));
    assert_eq!(count(&actions, |a| matches!(a, Action::RunPumps { .. })), 0);
}

#[test]
fn failed_session_ends_with_its_cause() {
    let mut events = fresh_deploy(one_container("containerd://abc123"));
    events.extend(vec![Event::Continue, Event::ExecOpened, Event::LineSent, failed("closed"), failed("no delete")]);
    let (_, actions) = drive(config(SessionMode::Attach), events);
    assert_eq!(
        actions.last(),
        Some(&finish(Err(SessionError::ExecChannelError { cause: "closed".to_string() }), Some("no delete")))
    );
    assert_eq!(count(&actions, is_delete), 1);
}

#[test]
fn failed_deletion_does_not_fail_the_session() {
    let mut events = fresh_deploy(one_container("containerd://abc123"));
    events.extend(vec![Event::Continue, Event::ExecOpened, Event::LineSent, Event::SessionEnded, Event::PumpsStopped, failed("conflict")]);
    let (session, actions) = drive(config(SessionMode::Attach), events);
    assert_eq!(actions.last(), Some(&finish(Ok(()), Some("conflict"))));
    assert_eq!(session.stage(), Stage::Done);
    assert_eq!(session.failure(), None);
}

#[test]
fn pumps_that_fail_to_stop_do_not_matter() {
    let mut events = fresh_deploy(one_container("containerd://abc123"));
    events.extend(vec![Event::Continue, Event::ExecOpened, Event::LineSent, Event::SessionEnded, failed("join")]);
    let (session, actions) = drive(config(SessionMode::Attach), events);
    assert_eq!(actions.last(), Some(&delete_pod()));
    assert_eq!(session.phase(), Phase::Deleting);
}

#[test]
fn only_running_ends_the_wait() {
    for phase in ["", "Pending", "running", "Running ", "Succeeded", "Failed", "Unknown"] {
        let events = vec![found(one_container("containerd://abc123")), Event::DebugPodMissing, Event::PodCreated, modified(phase)];
        let (session, actions) = drive(config(SessionMode::Attach), events);
        assert_eq!(actions.last(), Some(&Action::NextWatchEvent), "phase {:?}", phase);
        assert_eq!(session.stage(), Stage::AwaitReady);
    }
}

#[test]
fn added_does_not_end_the_wait() {
    let events = vec![found(one_container("containerd://abc123")), Event::DebugPodMissing, Event::PodCreated, Event::PodAdded, Event::PodAdded];
    let (session, actions) = drive(config(SessionMode::Attach), events);
    assert_eq!(actions.last(), Some(&Action::NextWatchEvent));
    assert_eq!(session.phase(), Phase::WaitingReady);
}

#[test]
fn unexpected_events_are_ignored() {
    let events = vec![
        Event::PodDeleted,
        Event::ExecOpened,
        modified("Running"),
        Event::Continue,
        Event::DebugPodFound,
        Event::WatchExpired,
    ];
    let (session, actions) = drive(config(SessionMode::Attach), events);
    assert_eq!(actions.len(), 7);
    assert!(actions[1..].iter().all(|a| *a == Action::Ignore));
    assert_eq!(session.stage(), Stage::AwaitTarget);
}

#[test]
fn running_before_creation_is_ignored() {
    let events = vec![found(one_container("containerd://abc123")), Event::DebugPodMissing, modified("Running")];
    let (session, actions) = drive(config(SessionMode::Attach), events);
    assert_eq!(actions.last(), Some(&Action::Ignore));
    assert_eq!(session.stage(), Stage::AwaitCreate);
}

#[test]
fn a_finished_session_ignores_everything() {
    let mut events = fresh_deploy(one_container("containerd://abc123"));
    events.extend(session_events());
    events.extend(vec![Event::PodDeleted, Event::Continue, failed("late"), Event::TargetMissing]);
    let (session, actions) = drive(config(SessionMode::Attach), events);
    assert!(actions[actions.len() - 4..].iter().all(|a| *a == Action::Ignore));
    assert_eq!(session.stage(), Stage::Done);
    assert_eq!(count(&actions, is_delete), 1);
    assert_eq!(count(&actions, |a| matches!(a, Action::Finish { .. })), 1);
}

#[test]
fn a_failed_session_ignores_everything() {
    let events = vec![Event::TargetMissing, Event::PodDeleted, failed("late"), found(one_container("containerd://abc123"))];
    let (session, actions) = drive(config(SessionMode::Attach), events);
    assert!(actions[2..].iter().all(|a| *a == Action::Ignore));
    assert_eq!(session.failure(), Some(&SessionError::TargetNotFound));
}

#[test]
fn unscheduled_target_uses_the_pod_of_the_empty_node() {
    let pod = PodInfo { name: "web".to_string(), node_name: None, container_statuses: None };
    let (session, actions) = drive(config(SessionMode::Attach), vec![found(pod)]);
    assert_eq!(actions.last(), Some(&Action::GetDebugPod { namespace: "default".to_string(), name: "lambda-cntr-".to_string() }));
    assert_eq!(session.debug_pod(), "lambda-cntr-");
}

#[test]
fn configuration_reaches_the_manifest() {
    let mut cfg = config(SessionMode::Attach);
    cfg.namespace = "kube-system".to_string();
    cfg.image = "".to_string();
    cfg.socket = "/var/run/docker.sock".to_string();
    cfg.container_engine = "docker".to_string();
    cfg.ready_timeout = 5;
    let events = vec![found(one_container("docker://abc")), Event::DebugPodMissing, Event::PodCreated];
    let (_, actions) = drive(cfg, events);
    assert_eq!(
        actions[2],
        Action::CreatePod {
            namespace: "kube-system".to_string(),
            manifest: DebugPodManifest {
                name: "lambda-cntr-node1".to_string(),
                node: "node1".to_string(),
                image: "onestone070/lambda-cntr:latest".to_string(),
                socket: "/var/run/docker.sock".to_string(),
                mount_path: "/run/docker.sock".to_string(),
            },
        }
    );
    assert_eq!(
        actions[3],
        Action::WatchPod {
            namespace: "kube-system".to_string(),
            field_selector: "metadata.name=lambda-cntr-node1".to_string(),
            timeout: 5,
        }
    );
}

#[test]
fn mode_and_error_clones_are_equal() {
    let mode = execute("ls");
    assert_eq!(mode.clone(), mode);
    assert_eq!(SessionMode::Attach.clone(), SessionMode::Attach);
    let error = SessionError::DeployFailed { cause: "x".to_string() };
    assert_eq!(error.clone(), error);
    assert_eq!(SessionError::DeployTimeout.clone(), SessionError::DeployTimeout);
    assert_ne!(SessionError::DeployFailed { cause: "x".to_string() }, SessionError::ExecChannelError { cause: "x".to_string() });
}

#[test]
fn running_is_the_only_ready_phase() {
    assert!(pod_is_running("Running"));
    for phase in ["", "Pending", "running", "RUNNING", "Running ", " Running", "Succeeded", "Failed", "Unknown"] {
        assert!(!pod_is_running(phase), "phase {:?}", phase);
    }
}

#[test]
fn exit_code_is_zero_for_a_completed_session() {
    assert_eq!(exit_code(&Ok(())), 0);
}

#[test]
fn exit_code_is_not_zero_for_a_failed_session() {
    assert_eq!(exit_code(&Err(SessionError::TargetNotFound)), 1);
    assert_eq!(exit_code(&Err(SessionError::AmbiguousContainer)), 1);
    assert_eq!(exit_code(&Err(SessionError::ContainerNotFound)), 1);
    assert_eq!(exit_code(&Err(SessionError::DeployTimeout)), 1);
    assert_eq!(exit_code(&Err(SessionError::DeployFailed { cause: "x".to_string() })), 1);
    assert_eq!(exit_code(&Err(SessionError::ExecChannelError { cause: "x".to_string() })), 1);
}

#[test]
fn messages_name_the_pod() {
    let mut cfg = config(SessionMode::Attach);
    cfg.container_name = "db".to_string();
    cfg.namespace = "prod".to_string();
    assert_eq!(SessionError::TargetNotFound.message(&cfg), "No pod \"web\" found in namespace \"prod\"!");
    assert_eq!(
        SessionError::AmbiguousContainer.message(&cfg),
        "The Pod web contains more than one container, please specify a container."
    );
    assert_eq!(SessionError::ContainerNotFound.message(&cfg), "The Pod web did not contain a container named db.");
    assert_eq!(SessionError::DeployTimeout.message(&cfg), "The Lambda-Cntr-Pod was not running in time.");
}

#[test]
fn messages_hand_on_the_cause() {
    let cfg = config(SessionMode::Attach);
    assert_eq!(SessionError::DeployFailed { cause: "quota exceeded".to_string() }.message(&cfg), "quota exceeded");
    assert_eq!(SessionError::ExecChannelError { cause: "".to_string() }.message(&cfg), "");
}

#[test]
fn a_debug_pod_is_given_a_minute() {
    assert_eq!(READY_TIMEOUT, 60);
}

fn text(s: &str) -> String {
    s.to_string()
}

#[test]
fn deploy_and_attach_starts_an_attach_session() {
    let (session, action) = deploy_and_attach(
        text("web"),
        text("app"),
        text("prod"),
        text("me/img"),
        text("/var/run/docker.sock"),
        text("docker"),
    );
    assert_eq!(action, Action::GetTargetPod { namespace: text("prod"), name: text("web") });
    assert_eq!(
        session.config(),
        &SessionConfig {
            pod_name: text("web"),
            container_name: text("app"),
            namespace: text("prod"),
            image: text("me/img"),
            socket: text("/var/run/docker.sock"),
            container_engine: text("docker"),
            ready_timeout: 60,
            mode: SessionMode::Attach,
        }
    );
    assert_eq!(session.stage(), Stage::AwaitTarget);
}

#[test]
fn deploy_and_execute_starts_an_execute_session() {
    let (session, action) = deploy_and_execute(
        text("web"),
        text(""),
        text("default"),
        text("ls -la"),
        text(""),
        text("/run/containerd/containerd.sock"),
        text("containerd"),
    );
    assert_eq!(action, Action::GetTargetPod { namespace: text("default"), name: text("web") });
    assert_eq!(session.config().mode, execute("ls -la"));
    assert_eq!(session.config().ready_timeout, 60);
    let (_, actions) = {
        let mut actions = vec![action];
        let mut session = session;
        for event in [found(one_container("containerd://xyz")), Event::DebugPodFound, Event::Continue, Event::ExecOpened] {
            let (next, asked) = session.step(event);
            session = next;
            actions.push(asked);
        }
        (session, actions)
    };
    assert_eq!(actions.last(), Some(&Action::SendLine { input: text("cntr attach xyz -- ls -la && exit\n") }));
}
