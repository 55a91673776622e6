//! Which container of the target pod a session enters, and on which node
//! the pod runs.

use vstd::prelude::*;
use vstd::string::*;
use crate::orchestrator::{first_action, initial, Session};
use crate::pod::{ContainerStatus, ContainerStatusSpec, PodInfo, PodInfoSpec};
use crate::session::{
    Action, SessionConfig, SessionConfigSpec, SessionMode, SessionModeSpec, READY_TIMEOUT,
};
use crate::text::{
    after_separator, chars_of, find_separator, first_segment, has_separator,
};

verus! {

/// A resolved target, as a mathematical value.
pub struct ResolvedTargetSpec {
    pub runtime_id: Seq<char>,
    pub runtime_kind: Seq<char>,
}

/// The container that a session enters: its identifier at the container
/// runtime, and the kind of runtime that gave it (`docker`, `containerd`).
#[derive(Debug, PartialEq, Eq)]
pub struct ResolvedTarget {
    pub runtime_id: String,
    pub runtime_kind: String,
}

impl View for ResolvedTarget {
    type V = ResolvedTargetSpec;

    open spec fn view(&self) -> ResolvedTargetSpec {
        ResolvedTargetSpec { runtime_id: self.runtime_id@, runtime_kind: self.runtime_kind@ }
    }
}

impl Clone for ResolvedTarget {
    fn clone(&self) -> (copy: ResolvedTarget)
        ensures
            copy@ == self@,
    {
        ResolvedTarget {
            runtime_id: self.runtime_id.clone(),
            runtime_kind: self.runtime_kind.clone(),
        }
    }
}

/// Why no container could be chosen.
#[derive(Clone, Copy, Debug, PartialEq, Eq, Structural)]
pub enum ResolveError {
    /// The pod has several containers (or lists none) and no name was given.
    AmbiguousContainer,
    /// No started container of the pod has the name that was given.
    ContainerNotFound,
}

/// The runtime kind of `<kind>://<id>`: what stands before the leftmost `://`.
pub open spec fn runtime_kind(id: Seq<char>) -> Seq<char> {
    first_segment(id)
}

/// The bare identifier of `<kind>://<id>`: what stands between the leftmost
/// `://` and the next one, or the end.
pub open spec fn runtime_id(id: Seq<char>) -> Seq<char> {
    first_segment(after_separator(id))
}

/// The two parts of a runtime identifier.
pub open spec fn split(id: Seq<char>) -> ResolvedTargetSpec {
    ResolvedTargetSpec { runtime_id: runtime_id(id), runtime_kind: runtime_kind(id) }
}

/// The target without identifier and kind, which stands for a container that
/// has not started.
pub open spec fn no_target() -> ResolvedTargetSpec {
    ResolvedTargetSpec { runtime_id: Seq::empty(), runtime_kind: Seq::empty() }
}

/// The target that a status entry stands for.
pub open spec fn target_of(entry: ContainerStatusSpec) -> ResolvedTargetSpec {
    match entry.container_id {
        Some(id) => split(id),
        None => no_target(),
    }
}

/// Whether an entry can be chosen by `name`: it has that name, and its
/// container has started.
pub open spec fn is_match(entry: ContainerStatusSpec, name: Seq<char>) -> bool {
    entry.name == name && entry.container_id is Some
}

/// Whether entry `i` is the first that can be chosen by `name`.
pub open spec fn is_first_match(entries: Seq<ContainerStatusSpec>, name: Seq<char>, i: int) -> bool {
    &&& 0 <= i < entries.len()
    &&& is_match(entries[i], name)
    &&& forall|j: int| 0 <= j < i ==> !is_match(#[trigger] entries[j], name)
}

/// The container that `name` chooses among the containers of `pod`.
///
/// A pod with exactly one status entry has one candidate, whatever the
/// name. Otherwise a name is needed, and the first started container of
/// that name is chosen. A pod that reports no status list yet resolves to
/// the target without identifier.
pub open spec fn resolve(pod: PodInfoSpec, name: Seq<char>) -> Result<ResolvedTargetSpec, ResolveError> {
    match pod.container_statuses {
        None => Ok(no_target()),
        Some(entries) => {
            if entries.len() == 1 {
                Ok(target_of(entries[0]))
            } else if name.len() == 0 {
                Err(ResolveError::AmbiguousContainer)
            } else if exists|i: int| is_first_match(entries, name, i) {
                Ok(target_of(entries[choose|i: int| is_first_match(entries, name, i)]))
            } else {
                Err(ResolveError::ContainerNotFound)
            }
        },
    }
}

/// The outcome of a resolution, as a mathematical value.
pub open spec fn resolution_view(r: Result<ResolvedTarget, ResolveError>) -> Result<ResolvedTargetSpec, ResolveError> {
    match r {
        Ok(t) => Ok(t@),
        Err(e) => Err(e),
    }
}

/// The node that `pod` runs on; empty while the pod is not scheduled.
pub open spec fn node_of(pod: PodInfoSpec) -> Seq<char> {
    match pod.node_name {
        Some(n) => n,
        None => Seq::empty(),
    }
}

/// Whether `pod` has a started container with the bare identifier `id`.
pub open spec fn has_container(pod: PodInfoSpec, id: Seq<char>) -> bool {
    pod.container_statuses matches Some(entries) && exists|j: int|
        0 <= j < entries.len() && runs_as(#[trigger] entries[j], id)
}

/// Whether the container of `entry` has started with the bare identifier `id`.
pub open spec fn runs_as(entry: ContainerStatusSpec, id: Seq<char>) -> bool {
    entry.container_id matches Some(full) && runtime_id(full) == id
}

/// Whether pod `i` is the first of `pods` with a started container of the
/// bare identifier `id`.
pub open spec fn is_first_pod_of(pods: Seq<PodInfoSpec>, id: Seq<char>, i: int) -> bool {
    &&& 0 <= i < pods.len()
    &&& has_container(pods[i], id)
    &&& forall|k: int| 0 <= k < i ==> !has_container(#[trigger] pods[k], id)
}

/// One line of the index of containers, as a mathematical value.
pub struct IndexEntrySpec {
    pub pod_name: Seq<char>,
    pub container_id: Seq<char>,
}

/// One line of the index of containers: a pod, and the bare identifier of
/// one of its started containers.
#[derive(Debug, PartialEq, Eq)]
pub struct IndexEntry {
    pub pod_name: String,
    pub container_id: String,
}

impl View for IndexEntry {
    type V = IndexEntrySpec;

    open spec fn view(&self) -> IndexEntrySpec {
        IndexEntrySpec { pod_name: self.pod_name@, container_id: self.container_id@ }
    }
}

/// The line of the index for one container of the pod `pod_name`; none for a
/// container that has not started.
pub open spec fn entry_of(pod_name: Seq<char>, entry: ContainerStatusSpec) -> Option<IndexEntrySpec> {
    match entry.container_id {
        Some(id) => Some(IndexEntrySpec { pod_name: pod_name, container_id: runtime_id(id) }),
        None => None,
    }
}

/// The lines of the index for the containers `entries` of the pod
/// `pod_name`, in their order.
pub open spec fn entries_of(pod_name: Seq<char>, entries: Seq<ContainerStatusSpec>) -> Seq<IndexEntrySpec> {
    entries.filter_map(|c: ContainerStatusSpec| entry_of(pod_name, c))
}

/// The lines of the index for one pod.
pub open spec fn pod_entries(pod: PodInfoSpec) -> Seq<IndexEntrySpec> {
    match pod.container_statuses {
        Some(entries) => entries_of(pod.name, entries),
        None => Seq::empty(),
    }
}

/// The index of the containers of `pods`: for each pod in its order, for each
/// of its started containers in its order, the name of the pod and the bare
/// identifier of the container.
pub open spec fn index_of(pods: Seq<PodInfoSpec>) -> Seq<IndexEntrySpec> {
    pods.map_values(|p: PodInfoSpec| pod_entries(p)).flatten()
}

/// Splits a runtime identifier `<kind>://<id>` into kind and bare identifier.
/// There is no result for a string without `://`.
pub fn split_runtime_id(id: &str) -> (parts: Option<ResolvedTarget>)
    ensures
        parts is Some <==> has_separator(id@),
        parts matches Some(t) ==> t@ == split(id@),
{
    let chars = chars_of(id);
    let n = chars.len();
    assert(chars@.subrange(0, n as int) =~= id@);
    let first = find_separator(&chars, 0);
    if first == n {
        return None;
    }
    proof {
        crate::text::lemma_split_joins(id@);
        assert(chars@.subrange(first + 3, n as int) =~= after_separator(id@));
    }
    let second = find_separator(&chars, first + 3);
    let kind = id.substring_char(0, first).to_owned();
    let bare = id.substring_char(first + 3, second).to_owned();
    assert(bare@ =~= runtime_id(id@));
    Some(ResolvedTarget { runtime_id: bare, runtime_kind: kind })
}

/// The target that one status entry stands for.
fn entry_target(entry: &ContainerStatus) -> (t: ResolvedTarget)
    ensures
        t@ == target_of(entry@),
{
    match entry.container_id() {
        Some(id) => split_runtime_id(id.as_str()).unwrap(),
        None => ResolvedTarget { runtime_id: String::new(), runtime_kind: String::new() },
    }
}

/// Chooses the container of `pod` that a session enters, and splits its
/// runtime identifier.
pub fn get_container_id(pod: &PodInfo, container_name: &str) -> (r: Result<ResolvedTarget, ResolveError>)
    ensures
        resolution_view(r) == resolve(pod@, container_name@),
{
    match &pod.container_statuses {
        None => Ok(ResolvedTarget { runtime_id: String::new(), runtime_kind: String::new() }),
        Some(entries) => {
            let ghost specs = entries@.map_values(|c: ContainerStatus| c@);
            assert(pod@.container_statuses == Some(specs));
            if entries.len() == 1 {
                Ok(entry_target(&entries[0]))
            } else if container_name.is_empty() {
                Err(ResolveError::AmbiguousContainer)
            } else {
                let wanted = container_name.to_owned();
                let mut i: usize = 0;
                while i < entries.len()
                    invariant
                        i <= entries.len(),
                        wanted@ == container_name@,
                        container_name@.len() > 0,
                        entries.len() != 1,
                        specs == entries@.map_values(|c: ContainerStatus| c@),
                        pod@.container_statuses == Some(specs),
                        forall|j: int| 0 <= j < i ==> !is_match(#[trigger] specs[j], container_name@),
                    decreases entries.len() - i,
                {
                    let entry = &entries[i];
                    if *entry.name() == wanted && entry.container_id().is_some() {
                        proof {
                            assert(is_first_match(specs, container_name@, i as int));
                            let k = choose|k: int| is_first_match(specs, container_name@, k);
                            if k < i {
                                assert(!is_match(specs[k], container_name@));
                            }
                            if i < k {
                                assert(is_match(specs[i as int], container_name@));
                            }
                        }
                        return Ok(entry_target(entry));
                    }
                    i += 1;
                }
                assert forall|k: int| !is_first_match(specs, container_name@, k) by {
                    if is_first_match(specs, container_name@, k) {
                        assert(!is_match(specs[k], container_name@));
                    }
                }
                Err(ResolveError::ContainerNotFound)
            }
        },
    }
}

/// Whether `pod` has a started container with the bare identifier `id`.
pub fn pod_has_container(pod: &PodInfo, id: &str) -> (found: bool)
    ensures
        found == has_container(pod@, id@),
{
    match &pod.container_statuses {
        None => false,
        Some(entries) => {
            let ghost specs = entries@.map_values(|c: ContainerStatus| c@);
            let wanted = id.to_owned();
            let mut j: usize = 0;
            while j < entries.len()
                invariant
                    j <= entries.len(),
                    wanted@ == id@,
                    specs == entries@.map_values(|c: ContainerStatus| c@),
                    pod@.container_statuses == Some(specs),
                    forall|k: int| 0 <= k < j ==> !runs_as(#[trigger] specs[k], id@),
                decreases entries.len() - j,
            {
                let target = entry_target(&entries[j]);
                if entries[j].container_id().is_some() && target.runtime_id == wanted {
                    assert(runs_as(pod@.container_statuses->0[j as int], id@));
                    return true;
                }
                j += 1;
            }
            false
        },
    }
}

/// The index of the containers of `pods`, which are the pods of a namespace:
/// it tells an operator who names a container by its identifier which pod
/// runs it.
pub fn container_index(pods: &Vec<PodInfo>) -> (index: Vec<IndexEntry>)
    ensures
        index@.map_values(|e: IndexEntry| e@) == index_of(pods@.map_values(|p: PodInfo| p@)),
{
    let ghost all = pods@.map_values(|p: PodInfo| p@);
    let mut index: Vec<IndexEntry> = Vec::new();
    let mut i: usize = 0;
    assert(all.take(0).map_values(|p: PodInfoSpec| pod_entries(p)) =~= Seq::<Seq<IndexEntrySpec>>::empty());
    assert(index@.map_values(|e: IndexEntry| e@) =~= index_of(all.take(0)));
    while i < pods.len()
        invariant
            i <= pods.len(),
            all == pods@.map_values(|p: PodInfo| p@),
            index@.map_values(|e: IndexEntry| e@) == index_of(all.take(i as int)),
        decreases pods.len() - i,
    {
        let pod = &pods[i];
        let ghost before = index@.map_values(|e: IndexEntry| e@);
        match &pod.container_statuses {
            None => {},
            Some(entries) => {
                let ghost specs = entries@.map_values(|c: ContainerStatus| c@);
                let mut j: usize = 0;
                assert(specs.take(0) =~= Seq::<ContainerStatusSpec>::empty());
                assert(index@.map_values(|e: IndexEntry| e@) =~= before + entries_of(pod@.name, specs.take(0)));
                while j < entries.len()
                    invariant
                        j <= entries.len(),
                        specs == entries@.map_values(|c: ContainerStatus| c@),
                        index@.map_values(|e: IndexEntry| e@) == before + entries_of(
                            pod@.name,
                            specs.take(j as int),
                        ),
                    decreases entries.len() - j,
                {
                    proof {
                        specs.lemma_filter_map_take_succ(
                            |c: ContainerStatusSpec| entry_of(pod@.name, c),
                            j as int,
                        );
                    }
                    let ghost so_far = index@.map_values(|e: IndexEntry| e@);
                    if entries[j].container_id().is_some() {
                        let target = entry_target(&entries[j]);
                        let entry = IndexEntry { pod_name: pod.name.clone(), container_id: target.runtime_id };
                        index.push(entry);
                        assert(index@.map_values(|e: IndexEntry| e@) =~= so_far.push(entry@));
                        assert(entry_of(pod@.name, specs[j as int]) == Some(entry@));
                    }
                    j += 1;
                    assert(index@.map_values(|e: IndexEntry| e@) =~= before + entries_of(
                        pod@.name,
                        specs.take(j as int),
                    ));
                }
                assert(specs.take(entries.len() as int) =~= specs);
            },
        }
        proof {
            let lists = all.map_values(|p: PodInfoSpec| pod_entries(p));
            assert(index@.map_values(|e: IndexEntry| e@) =~= before + pod_entries(all[i as int]));
            assert(all.take(i + 1).map_values(|p: PodInfoSpec| pod_entries(p)) =~= all.take(
                i as int,
            ).map_values(|p: PodInfoSpec| pod_entries(p)).push(pod_entries(all[i as int])));
            all.take(i as int).map_values(|p: PodInfoSpec| pod_entries(p)).lemma_flatten_push(
                pod_entries(all[i as int]),
            );
        }
        i += 1;
    }
    assert(all.take(pods.len() as int) =~= all);
    index
}

/// The pod that runs the container with the bare identifier `id`: the first
/// of `pods` that has a started container of that identifier, by its
/// position. This finds the pod for an operator who names a container by
/// its identifier.
pub fn find_pod_of_container(pods: &Vec<PodInfo>, id: &str) -> (found: Option<usize>)
    ensures
        match found {
            Some(i) => is_first_pod_of(pods@.map_values(|p: PodInfo| p@), id@, i as int),
            None => forall|k: int| 0 <= k < pods.len() ==> !has_container(#[trigger] pods[k]@, id@),
        },
{
    let ghost specs = pods@.map_values(|p: PodInfo| p@);
    assert forall|k: int| 0 <= k < pods.len() implies specs[k] == #[trigger] pods[k]@ by {}
    let mut i: usize = 0;
    while i < pods.len()
        invariant
            i <= pods.len(),
            specs == pods@.map_values(|p: PodInfo| p@),
            forall|k: int| 0 <= k < i ==> !has_container(#[trigger] specs[k], id@),
        decreases pods.len() - i,
    {
        if pod_has_container(&pods[i], id) {
            return Some(i);
        }
        i += 1;
    }
    None
}

/// The configuration of a session that gives a new debug pod the usual time
/// to start.
pub open spec fn config_of(
    pod_name: Seq<char>,
    container_name: Seq<char>,
    namespace: Seq<char>,
    image: Seq<char>,
    socket: Seq<char>,
    container_engine: Seq<char>,
    mode: SessionModeSpec,
) -> SessionConfigSpec {
    SessionConfigSpec {
        pod_name: pod_name,
        container_name: container_name,
        namespace: namespace,
        image: image,
        socket: socket,
        container_engine: container_engine,
        ready_timeout: READY_TIMEOUT,
        mode: mode,
    }
}

/// Starts the session that deploys a debug pod on the node of the pod
/// `pod_name` and attaches the operator's terminal to the container
/// `container_name` of that pod. The result is the session and the first
/// thing that it asks for; `Session::step` takes it on from there.
pub fn deploy_and_attach(
    pod_name: String,
    container_name: String,
    namespace: String,
    image: String,
    socket: String,
    container_engine: String,
) -> (r: (Session, Action))
    ensures
        r.0@ == initial(
            config_of(
                pod_name@,
                container_name@,
                namespace@,
                image@,
                socket@,
                container_engine@,
                SessionModeSpec::Attach,
            ),
        ),
        r.1@ == first_action(r.0@.config),
        r.0@.wf(),
{
    Session::start(
        SessionConfig {
            pod_name,
            container_name,
            namespace,
            image,
            socket,
            container_engine,
            ready_timeout: READY_TIMEOUT,
            mode: SessionMode::Attach,
        },
    )
}

/// Starts the session that deploys a debug pod on the node of the pod
/// `pod_name` and runs `cmd` in the container `container_name` of that pod.
/// The result is the session and the first thing that it asks for;
/// `Session::step` takes it on from there.
pub fn deploy_and_execute(
    pod_name: String,
    container_name: String,
    namespace: String,
    cmd: String,
    image: String,
    socket: String,
    container_engine: String,
) -> (r: (Session, Action))
    ensures
        r.0@ == initial(
            config_of(
                pod_name@,
                container_name@,
                namespace@,
                image@,
                socket@,
                container_engine@,
                SessionModeSpec::Execute { command: cmd@ },
            ),
        ),
        r.1@ == first_action(r.0@.config),
        r.0@.wf(),
{
    Session::start(
        SessionConfig {
            pod_name,
            container_name,
            namespace,
            image,
            socket,
            container_engine,
            ready_timeout: READY_TIMEOUT,
            mode: SessionMode::Execute { command: cmd },
        },
    )
}

/// The node that `pod` runs on; the empty string while it is not scheduled.
pub fn get_node(pod: &PodInfo) -> (node: String)
    ensures
        node@ == node_of(pod@),
{
    match &pod.node_name {
        Some(n) => n.clone(),
        None => String::new(),
    }
}

/// A pod with exactly one container status resolves to that container,
/// whatever name is asked for: an empty name and a name that the container
/// does not have included.
pub proof fn lemma_single_container_resolves(pod: PodInfoSpec, name: Seq<char>)
    requires
        pod.container_statuses matches Some(entries) && entries.len() == 1,
    ensures
        resolve(pod, name) matches Ok(t) && t == target_of(pod.container_statuses->0[0]),
{
}

/// Among several containers, resolution without a name fails as ambiguous.
pub proof fn lemma_unnamed_is_ambiguous(pod: PodInfoSpec, name: Seq<char>)
    requires
        pod.container_statuses matches Some(entries) && entries.len() > 1,
        name.len() == 0,
    ensures
        resolve(pod, name) matches Err(e) && e == ResolveError::AmbiguousContainer,
{
}

/// Among several containers, a name that exactly one of them has resolves to
/// the two parts of that container's runtime identifier, once it has started.
pub proof fn lemma_unique_name_resolves(pod: PodInfoSpec, name: Seq<char>, i: int)
    requires
        pod.container_statuses matches Some(entries) && entries.len() > 1 && 0 <= i < entries.len()
            && entries[i].name == name && entries[i].container_id is Some && forall|j: int|
            0 <= j < entries.len() && j != i ==> (#[trigger] entries[j]).name != name,
        name.len() > 0,
    ensures
        resolve(pod, name) matches Ok(t) && t == split(pod.container_statuses->0[i].container_id->0),
{
    let entries = pod.container_statuses->0;
    assert(is_first_match(entries, name, i));
    let k = choose|k: int| is_first_match(entries, name, k);
    if k != i {
        assert(entries[k].name != name);
    }
}

/// Among several containers, a name that no started container has is not
/// found.
pub proof fn lemma_unknown_name_not_found(pod: PodInfoSpec, name: Seq<char>)
    requires
        pod.container_statuses matches Some(entries) && entries.len() > 1 && forall|j: int|
            0 <= j < entries.len() ==> !is_match(#[trigger] entries[j], name),
        name.len() > 0,
    ensures
        resolve(pod, name) matches Err(e) && e == ResolveError::ContainerNotFound,
{
    let entries = pod.container_statuses->0;
    assert forall|k: int| !is_first_match(entries, name, k) by {
        if is_first_match(entries, name, k) {
            assert(!is_match(entries[k], name));
        }
    }
}

/// The lines of the index for the containers of one pod name that pod and
/// the started containers among them, and nothing else.
proof fn lemma_entries_contain(pod_name: Seq<char>, entries: Seq<ContainerStatusSpec>, e: IndexEntrySpec)
    ensures
        entries_of(pod_name, entries).contains(e) <==> e.pod_name == pod_name && exists|j: int|
            0 <= j < entries.len() && runs_as(#[trigger] entries[j], e.container_id),
    decreases entries.len(),
{
    let f = |c: ContainerStatusSpec| entry_of(pod_name, c);
    if entries.len() > 0 {
        let rest = entries.drop_last();
        let last = entries.last();
        lemma_entries_contain(pod_name, rest, e);
        let found = entries_of(pod_name, rest);
        let added: Seq<IndexEntrySpec> = match f(last) {
            Some(x) => seq![x],
            None => Seq::empty(),
        };
        assert(entries_of(pod_name, entries) =~= found + added);
        if entries_of(pod_name, entries).contains(e) {
            let k = choose|k: int|
                0 <= k < entries_of(pod_name, entries).len() && entries_of(pod_name, entries)[k] == e;
            if k < found.len() {
                assert(found[k] == e);
                assert(found.contains(e));
                let j = choose|j: int| 0 <= j < rest.len() && runs_as(#[trigger] rest[j], e.container_id);
                assert(runs_as(entries[j], e.container_id));
            } else {
                assert(added[k - found.len()] == e);
                assert(runs_as(entries[entries.len() - 1], e.container_id));
            }
        }
        if e.pod_name == pod_name && exists|j: int|
            0 <= j < entries.len() && runs_as(#[trigger] entries[j], e.container_id) {
            let j = choose|j: int| 0 <= j < entries.len() && runs_as(#[trigger] entries[j], e.container_id);
            if j < rest.len() {
                assert(runs_as(rest[j], e.container_id));
                let k = choose|k: int| 0 <= k < found.len() && found[k] == e;
                assert((found + added)[k] == e);
            } else {
                assert(added[0] == e);
                assert((found + added)[found.len() as int] == e);
            }
        }
    }
}

/// The index lists the started containers of the pods, each under the name
/// of its pod, and nothing else.
pub proof fn lemma_index_contains(pods: Seq<PodInfoSpec>, e: IndexEntrySpec)
    ensures
        index_of(pods).contains(e) <==> exists|i: int|
            0 <= i < pods.len() && (#[trigger] pods[i]).name == e.pod_name && has_container(
                pods[i],
                e.container_id,
            ),
    decreases pods.len(),
{
    let lists = pods.map_values(|p: PodInfoSpec| pod_entries(p));
    if pods.len() > 0 {
        let rest = pods.drop_last();
        let last = pods.last();
        lemma_index_contains(rest, e);
        let found = index_of(rest);
        let added = pod_entries(last);
        assert(lists =~= rest.map_values(|p: PodInfoSpec| pod_entries(p)).push(added));
        rest.map_values(|p: PodInfoSpec| pod_entries(p)).lemma_flatten_push(added);
        assert(index_of(pods) =~= found + added);
        if last.container_statuses is Some {
            lemma_entries_contain(last.name, last.container_statuses->0, e);
        }
        if index_of(pods).contains(e) {
            let k = choose|k: int| 0 <= k < index_of(pods).len() && index_of(pods)[k] == e;
            if k < found.len() {
                assert(found[k] == e);
                assert(found.contains(e));
                let i = choose|i: int|
                    0 <= i < rest.len() && (#[trigger] rest[i]).name == e.pod_name && has_container(
                        rest[i],
                        e.container_id,
                    );
                assert(pods[i].name == e.pod_name && has_container(pods[i], e.container_id));
            } else {
                assert(added[k - found.len()] == e);
                assert(added.contains(e));
                assert(pods[pods.len() - 1].name == e.pod_name && has_container(
                    pods[pods.len() - 1],
                    e.container_id,
                ));
            }
        }
        if exists|i: int|
            0 <= i < pods.len() && (#[trigger] pods[i]).name == e.pod_name && has_container(
                pods[i],
                e.container_id,
            ) {
            let i = choose|i: int|
                0 <= i < pods.len() && (#[trigger] pods[i]).name == e.pod_name && has_container(
                    pods[i],
                    e.container_id,
                );
            if i < rest.len() {
                assert(rest[i].name == e.pod_name && has_container(rest[i], e.container_id));
                let k = choose|k: int| 0 <= k < found.len() && found[k] == e;
                assert((found + added)[k] == e);
            } else {
                assert(added.contains(e));
                let k = choose|k: int| 0 <= k < added.len() && added[k] == e;
                assert((found + added)[found.len() + k] == e);
            }
        }
    } else {
        assert(lists =~= Seq::<Seq<IndexEntrySpec>>::empty());
    }
}

/// A well-formed runtime identifier is its kind, `://` and what follows; the
/// kind holds no `://`, and neither does the bare identifier.
pub proof fn lemma_split_parts(id: Seq<char>)
    requires
        has_separator(id),
    ensures
        id == runtime_kind(id) + seq![':', '/', '/'] + after_separator(id),
        !has_separator(runtime_kind(id)),
        !has_separator(runtime_id(id)),
        runtime_id(id).is_prefix_of(after_separator(id)),
{
    crate::text::lemma_split_joins(id);
    let rest = after_separator(id);
    if has_separator(rest) {
        crate::text::lemma_split_joins(rest);
    } else {
        assert(runtime_id(id) =~= rest);
    }
}

} // verus!
