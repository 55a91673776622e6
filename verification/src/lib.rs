//! Debug sessions inside the namespaces of a container that runs on a
//! Kubernetes node: the manifest of the privileged helper pod, the
//! resolution of the target container's runtime identifier, and the
//! life cycle of one session as a state machine.

pub mod guarantees;
pub mod json;
pub mod json_builder;
pub mod kube_controller;
pub mod orchestrator;
pub mod pod;
pub mod session;
pub mod text;
