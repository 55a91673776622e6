//! The manifest of the debug pod: a privileged pod, pinned to the node of the
//! target, that mounts the socket of the node's container engine.

use vstd::prelude::*;
use vstd::string::*;
use crate::json::{
    json_bool, json_doc, json_int, json_list, json_object, json_text, members_insert,
    members_new, single_item, singleton, JsonDoc,
};
use crate::text::join;

verus! {

/// The image of the debug pod where none is given.
pub open spec fn default_image() -> Seq<char> {
    "onestone070/lambda-cntr:latest"@
}

/// The name of the debug pod on `node`. There is one name per node, so that
/// a second session on the node finds the pod of the first.
pub open spec fn pod_name_of(node: Seq<char>) -> Seq<char> {
    "lambda-cntr-"@ + node
}

/// Where the engine's socket is mounted inside the debug pod: every engine
/// but `docker` is taken for containerd.
pub open spec fn mount_path_of(engine: Seq<char>) -> Seq<char> {
    if engine == "docker"@ {
        "/run/docker.sock"@
    } else {
        "/run/containerd/containerd.sock"@
    }
}

/// The image that the debug pod runs.
pub open spec fn image_of(image: Seq<char>) -> Seq<char> {
    if image.len() == 0 {
        default_image()
    } else {
        image
    }
}

/// A manifest, as a mathematical value.
pub struct DebugPodManifestSpec {
    pub name: Seq<char>,
    pub node: Seq<char>,
    pub image: Seq<char>,
    pub socket: Seq<char>,
    pub mount_path: Seq<char>,
}

/// The manifest for the given configuration.
pub open spec fn manifest_of(
    image: Seq<char>,
    socket: Seq<char>,
    node: Seq<char>,
    engine: Seq<char>,
) -> DebugPodManifestSpec {
    DebugPodManifestSpec {
        name: pod_name_of(node),
        node: node,
        image: image_of(image),
        socket: socket,
        mount_path: mount_path_of(engine),
    }
}

/// The one container of the debug pod: privileged, run as root, asleep until
/// a session executes a shell in it, with the engine's socket mounted.
pub open spec fn container_doc(m: DebugPodManifestSpec) -> JsonDoc {
    JsonDoc::Object(
        map![
            "name"@ => JsonDoc::Text("lambda-cntr"@),
            "image"@ => JsonDoc::Text(m.image),
            "imagePullPolicy"@ => JsonDoc::Text("Always"@),
            "command"@ => JsonDoc::List(seq![JsonDoc::Text("sleep"@), JsonDoc::Text("360000"@)]),
            "securityContext"@ => JsonDoc::Object(
                map!["privileged"@ => JsonDoc::Bool(true), "runAsUser"@ => JsonDoc::Int(0)],
            ),
            "volumeMounts"@ => JsonDoc::List(
                seq![
                    JsonDoc::Object(
                        map![
                            "name"@ => JsonDoc::Text("container-sock"@),
                            "mountPath"@ => JsonDoc::Text(m.mount_path),
                        ],
                    ),
                ],
            ),
            "env"@ => JsonDoc::List(
                seq![
                    JsonDoc::Object(
                        map![
                            "name"@ => JsonDoc::Text("CONTAINERD_NAMESPACE"@),
                            "value"@ => JsonDoc::Text("k8s.io"@),
                        ],
                    ),
                ],
            ),
        ],
    )
}

/// The one volume of the debug pod: the socket of the node's container engine.
pub open spec fn volume_doc(m: DebugPodManifestSpec) -> JsonDoc {
    JsonDoc::Object(
        map![
            "name"@ => JsonDoc::Text("container-sock"@),
            "hostPath"@ => JsonDoc::Object(
                map!["path"@ => JsonDoc::Text(m.socket), "type"@ => JsonDoc::Text("Socket"@)],
            ),
        ],
    )
}

/// The pod specification: the host's process namespace, the container, the
/// volume, and the selector that pins the pod to its node.
pub open spec fn pod_spec_doc(m: DebugPodManifestSpec) -> JsonDoc {
    JsonDoc::Object(
        map![
            "hostPID"@ => JsonDoc::Bool(true),
            "containers"@ => JsonDoc::List(seq![container_doc(m)]),
            "volumes"@ => JsonDoc::List(seq![volume_doc(m)]),
            "restartPolicy"@ => JsonDoc::Text("Never"@),
            "nodeSelector"@ => JsonDoc::Object(
                map!["kubernetes.io/hostname"@ => JsonDoc::Text(m.node)],
            ),
        ],
    )
}

/// The manifest as the JSON document that the cluster takes.
pub open spec fn manifest_doc(m: DebugPodManifestSpec) -> JsonDoc {
    JsonDoc::Object(
        map![
            "apiVersion"@ => JsonDoc::Text("v1"@),
            "kind"@ => JsonDoc::Text("Pod"@),
            "metadata"@ => JsonDoc::Object(map!["name"@ => JsonDoc::Text(m.name)]),
            "spec"@ => pod_spec_doc(m),
        ],
    )
}

/// What the document of a manifest says: the pod is named after its node and
/// pinned to it, shares the process namespace of the host, and has one
/// container, which is privileged, runs the image of the manifest, always
/// pulls it, and finds the socket of the container engine, a socket of the
/// host, at the mount path.
pub proof fn lemma_manifest_contents(m: DebugPodManifestSpec)
    ensures
        manifest_doc(m).member("metadata"@).member("name"@) == JsonDoc::Text(m.name),
        manifest_doc(m).member("spec"@) == pod_spec_doc(m),
        pod_spec_doc(m).member("nodeSelector"@).member("kubernetes.io/hostname"@) == JsonDoc::Text(
            m.node,
        ),
        pod_spec_doc(m).member("hostPID"@) == JsonDoc::Bool(true),
        pod_spec_doc(m).member("containers"@) == JsonDoc::List(seq![container_doc(m)]),
        pod_spec_doc(m).member("volumes"@) == JsonDoc::List(seq![volume_doc(m)]),
        container_doc(m).member("image"@) == JsonDoc::Text(m.image),
        container_doc(m).member("imagePullPolicy"@) == JsonDoc::Text("Always"@),
        container_doc(m).member("securityContext"@).member("privileged"@) == JsonDoc::Bool(true),
        container_doc(m).member("volumeMounts"@).item(0).member("mountPath"@) == JsonDoc::Text(
            m.mount_path,
        ),
        container_doc(m).member("volumeMounts"@).item(0).member("name"@) == volume_doc(m).member(
            "name"@,
        ),
        volume_doc(m).member("hostPath"@).member("path"@) == JsonDoc::Text(m.socket),
        volume_doc(m).member("hostPath"@).member("type"@) == JsonDoc::Text("Socket"@),
{
    reveal_strlit("apiVersion");
    reveal_strlit("kind");
    reveal_strlit("metadata");
    reveal_strlit("spec");
    reveal_strlit("hostPID");
    reveal_strlit("containers");
    reveal_strlit("volumes");
    reveal_strlit("restartPolicy");
    reveal_strlit("nodeSelector");
    reveal_strlit("name");
    reveal_strlit("image");
    reveal_strlit("imagePullPolicy");
    reveal_strlit("command");
    reveal_strlit("securityContext");
    reveal_strlit("volumeMounts");
    reveal_strlit("env");
    reveal_strlit("privileged");
    reveal_strlit("runAsUser");
    reveal_strlit("mountPath");
    reveal_strlit("hostPath");
    reveal_strlit("path");
    reveal_strlit("type");
    assert("apiVersion"@.len() == 10 && "kind"@.len() == 4 && "metadata"@.len() == 8 && "spec"@.len()
        == 4);
    assert("hostPID"@.len() == 7 && "containers"@.len() == 10 && "volumes"@.len() == 7
        && "restartPolicy"@.len() == 13 && "nodeSelector"@.len() == 12);
    assert("name"@.len() == 4 && "image"@.len() == 5 && "imagePullPolicy"@.len() == 15
        && "command"@.len() == 7 && "securityContext"@.len() == 15 && "volumeMounts"@.len() == 12
        && "env"@.len() == 3);
    assert("privileged"@.len() == 10 && "runAsUser"@.len() == 9 && "mountPath"@.len() == 9
        && "hostPath"@.len() == 8);
    assert("kind"@[0] != "spec"@[0]);
    assert("hostPID"@[0] != "volumes"@[0]);
    assert("imagePullPolicy"@[0] != "securityContext"@[0]);
    assert("path"@[0] != "type"@[0]);
}

/// The name of the debug pod on `node`.
pub fn debug_pod_name(node: &str) -> (name: String)
    ensures
        name@ == pod_name_of(node@),
        name@ == "lambda-cntr-"@ + node@,
{
    join("lambda-cntr-", node)
}

/// Where the socket of `engine` is mounted inside the debug pod. An engine
/// that is not known is no error: it gets the path of containerd.
pub fn mount_path(engine: &str) -> (path: String)
    ensures
        path@ == mount_path_of(engine@),
        engine@ != "docker"@ ==> path@ == "/run/containerd/containerd.sock"@,
        engine@ == "docker"@ ==> path@ == "/run/docker.sock"@,
{
    if engine.to_owned() == "docker".to_owned() {
        "/run/docker.sock".to_owned()
    } else {
        "/run/containerd/containerd.sock".to_owned()
    }
}

/// What varies in the manifest of a debug pod.
#[derive(Debug, PartialEq, Eq)]
pub struct DebugPodManifest {
    pub name: String,
    pub node: String,
    pub image: String,
    pub socket: String,
    pub mount_path: String,
}

impl View for DebugPodManifest {
    type V = DebugPodManifestSpec;

    open spec fn view(&self) -> DebugPodManifestSpec {
        DebugPodManifestSpec {
            name: self.name@,
            node: self.node@,
            image: self.image@,
            socket: self.socket@,
            mount_path: self.mount_path@,
        }
    }
}

impl Clone for DebugPodManifest {
    fn clone(&self) -> (copy: DebugPodManifest)
        ensures
            copy@ == self@,
    {
        DebugPodManifest {
            name: self.name.clone(),
            node: self.node.clone(),
            image: self.image.clone(),
            socket: self.socket.clone(),
            mount_path: self.mount_path.clone(),
        }
    }
}

impl DebugPodManifest {
    /// The manifest of the debug pod on `node`. An empty `image` stands for
    /// the default image; `socket` is taken as it is given.
    pub fn build(image: String, socket: String, node: String, container_engine: String) -> (m: DebugPodManifest)
        ensures
            m@ == manifest_of(image@, socket@, node@, container_engine@),
            m@.name == "lambda-cntr-"@ + node@,
            container_engine@ != "docker"@ ==> m@.mount_path == "/run/containerd/containerd.sock"@,
    {
        let name = debug_pod_name(node.as_str());
        let mount_path = mount_path(container_engine.as_str());
        let image = if image.as_str().is_empty() {
            "onestone070/lambda-cntr:latest".to_owned()
        } else {
            image
        };
        DebugPodManifest { name, node, image, socket, mount_path }
    }

    /// The container of the debug pod.
    fn container_json(&self) -> (v: serde_json::Value)
        ensures
            json_doc(v) == container_doc(self@),
    {
        let mut command: Vec<serde_json::Value> = Vec::new();
        command.push(json_text("sleep"));
        command.push(json_text("360000"));
        assert(command@.map_values(|item: serde_json::Value| json_doc(item)) =~= seq![
            JsonDoc::Text("sleep"@),
            JsonDoc::Text("360000"@),
        ]);

        let mut security = members_new();
        members_insert(&mut security, "privileged", json_bool(true));
        members_insert(&mut security, "runAsUser", json_int(0));

        let mut mount = members_new();
        members_insert(&mut mount, "name", json_text("container-sock"));
        members_insert(&mut mount, "mountPath", json_text(self.mount_path.as_str()));

        let mut env = members_new();
        members_insert(&mut env, "name", json_text("CONTAINERD_NAMESPACE"));
        members_insert(&mut env, "value", json_text("k8s.io"));

        let mut container = members_new();
        members_insert(&mut container, "name", json_text("lambda-cntr"));
        members_insert(&mut container, "image", json_text(self.image.as_str()));
        members_insert(&mut container, "imagePullPolicy", json_text("Always"));
        members_insert(&mut container, "command", json_list(command));
        members_insert(&mut container, "securityContext", json_object(security));
        members_insert(&mut container, "volumeMounts", single_item(json_object(mount)));
        members_insert(&mut container, "env", single_item(json_object(env)));
        json_object(container)
    }

    /// The volume of the debug pod.
    fn volume_json(&self) -> (v: serde_json::Value)
        ensures
            json_doc(v) == volume_doc(self@),
    {
        let mut host_path = members_new();
        members_insert(&mut host_path, "path", json_text(self.socket.as_str()));
        members_insert(&mut host_path, "type", json_text("Socket"));

        let mut volume = members_new();
        members_insert(&mut volume, "name", json_text("container-sock"));
        members_insert(&mut volume, "hostPath", json_object(host_path));
        json_object(volume)
    }

    /// The manifest as the JSON document that the cluster takes.
    pub fn to_json(&self) -> (v: serde_json::Value)
        ensures
            json_doc(v) == manifest_doc(self@),
    {
        let mut spec = members_new();
        members_insert(&mut spec, "hostPID", json_bool(true));
        members_insert(&mut spec, "containers", single_item(self.container_json()));
        members_insert(&mut spec, "volumes", single_item(self.volume_json()));
        members_insert(&mut spec, "restartPolicy", json_text("Never"));
        members_insert(&mut spec, "nodeSelector", singleton("kubernetes.io/hostname", json_text(self.node.as_str())));

        let mut pod = members_new();
        members_insert(&mut pod, "apiVersion", json_text("v1"));
        members_insert(&mut pod, "kind", json_text("Pod"));
        members_insert(&mut pod, "metadata", singleton("name", json_text(self.name.as_str())));
        members_insert(&mut pod, "spec", json_object(spec));
        json_object(pod)
    }
}

/// The manifest of the debug pod on `node` as a JSON document. The result
/// is always `Ok`.
pub fn get_json(image: String, socket: String, node: String, container_engine: String) -> (r: Result<serde_json::Value, ()>)
    ensures
        r matches Ok(v) && json_doc(v) == manifest_doc(manifest_of(image@, socket@, node@, container_engine@)),
{
    let manifest = DebugPodManifest::build(image, socket, node, container_engine);
    Ok(manifest.to_json())
}

} // verus!
