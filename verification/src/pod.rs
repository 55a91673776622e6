//! What the library reads of a pod: its name, the node it runs on and the
//! status of its containers.

use vstd::prelude::*;
use crate::text::{contains_separator, has_separator};

verus! {

/// The status of one container, as a mathematical value.
pub struct ContainerStatusSpec {
    pub name: Seq<char>,
    pub container_id: Option<Seq<char>>,
}

impl ContainerStatusSpec {
    /// A runtime identifier, once the container has one, has the form
    /// `<kind>://<id>`.
    pub open spec fn wf(self) -> bool {
        self.container_id matches Some(id) ==> has_separator(id)
    }
}

/// The status of one container of a pod. A container that has not started
/// has no runtime identifier yet.
#[derive(Debug, PartialEq, Eq)]
pub struct ContainerStatus {
    name: String,
    container_id: Option<String>,
}

impl View for ContainerStatus {
    type V = ContainerStatusSpec;

    closed spec fn view(&self) -> ContainerStatusSpec {
        ContainerStatusSpec {
            name: self.name@,
            container_id: match self.container_id {
                Some(id) => Some(id@),
                None => None,
            },
        }
    }
}

impl ContainerStatus {
    #[verifier::type_invariant]
    spec fn well_formed(self) -> bool {
        self@.wf()
    }

    /// The status of the container `name`. There is none for a runtime
    /// identifier without `://`.
    pub fn new(name: String, container_id: Option<String>) -> (status: Option<ContainerStatus>)
        ensures
            status is Some <==> (container_id matches Some(id) ==> has_separator(id@)),
            status matches Some(c) ==> c@.name == name@ && c@.wf() && match container_id {
                Some(id) => c@.container_id == Some(id@),
                None => c@.container_id is None,
            },
    {
        let valid = match &container_id {
            Some(id) => contains_separator(id.as_str()),
            None => true,
        };
        if valid {
            Some(ContainerStatus { name, container_id })
        } else {
            None
        }
    }

    /// The container's name.
    pub fn name(&self) -> (name: &String)
        ensures
            name@ == self@.name,
    {
        &self.name
    }

    /// The container's runtime identifier, where it has one.
    pub fn container_id(&self) -> (id: Option<&String>)
        ensures
            self@.wf(),
            id is Some == self@.container_id is Some,
            id matches Some(s) ==> self@.container_id == Some(s@),
    {
        proof {
            use_type_invariant(self);
        }
        match &self.container_id {
            Some(id) => Some(id),
            None => None,
        }
    }
}

impl Clone for ContainerStatus {
    fn clone(&self) -> (copy: ContainerStatus)
        ensures
            copy@ == self@,
    {
        proof {
            use_type_invariant(self);
        }
        ContainerStatus {
            name: self.name.clone(),
            container_id: match &self.container_id {
                Some(id) => Some(id.clone()),
                None => None,
            },
        }
    }
}

/// A pod, as a mathematical value.
pub struct PodInfoSpec {
    pub name: Seq<char>,
    pub node_name: Option<Seq<char>>,
    pub container_statuses: Option<Seq<ContainerStatusSpec>>,
}

impl PodInfoSpec {
    /// Every container status of the pod is well formed.
    pub open spec fn wf(self) -> bool {
        self.container_statuses matches Some(entries) ==> forall|i: int|
            0 <= i < entries.len() ==> (#[trigger] entries[i]).wf()
    }
}

/// A pod as the cluster reports it: `node_name` is absent until the pod is
/// scheduled, `container_statuses` until the node has reported any.
#[derive(Debug, PartialEq, Eq)]
pub struct PodInfo {
    pub name: String,
    pub node_name: Option<String>,
    pub container_statuses: Option<Vec<ContainerStatus>>,
}

impl View for PodInfo {
    type V = PodInfoSpec;

    open spec fn view(&self) -> PodInfoSpec {
        PodInfoSpec {
            name: self.name@,
            node_name: match self.node_name {
                Some(n) => Some(n@),
                None => None,
            },
            container_statuses: match self.container_statuses {
                Some(entries) => Some(entries@.map_values(|c: ContainerStatus| c@)),
                None => None,
            },
        }
    }
}

/// A copy of `entries`, item by item.
pub fn clone_statuses(entries: &Vec<ContainerStatus>) -> (copy: Vec<ContainerStatus>)
    ensures
        copy@.map_values(|c: ContainerStatus| c@) == entries@.map_values(|c: ContainerStatus| c@),
{
    let mut copy: Vec<ContainerStatus> = Vec::new();
    let mut i: usize = 0;
    while i < entries.len()
        invariant
            i <= entries.len(),
            copy.len() == i,
            forall|j: int| 0 <= j < i ==> copy[j]@ == entries[j]@,
        decreases entries.len() - i,
    {
        copy.push(entries[i].clone());
        i += 1;
    }
    assert(copy@.map_values(|c: ContainerStatus| c@) =~= entries@.map_values(|c: ContainerStatus| c@));
    copy
}

impl Clone for PodInfo {
    fn clone(&self) -> (copy: PodInfo)
        ensures
            copy@ == self@,
    {
        PodInfo {
            name: self.name.clone(),
            node_name: match &self.node_name {
                Some(n) => Some(n.clone()),
                None => None,
            },
            container_statuses: match &self.container_statuses {
                Some(entries) => Some(clone_statuses(entries)),
                None => None,
            },
        }
    }
}

} // verus!
