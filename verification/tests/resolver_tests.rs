use lambda_cntr::kube_controller::{
    container_index, find_pod_of_container, get_container_id, get_node, pod_has_container,
    split_runtime_id, IndexEntry, ResolveError, ResolvedTarget,
};
use lambda_cntr::pod::{ContainerStatus, PodInfo};
use lambda_cntr::text::{chars_of, contains_separator, join};

fn status(name: &str, id: Option<&str>) -> ContainerStatus {
    ContainerStatus::new(name.to_string(), id.map(|s| s.to_string())).unwrap()
}

fn pod(statuses: Option<Vec<ContainerStatus>>) -> PodInfo {
    PodInfo { name: "target".to_string(), node_name: Some("node1".to_string()), container_statuses: statuses }
}

fn target(kind: &str, id: &str) -> ResolvedTarget {
    ResolvedTarget { runtime_id: id.to_string(), runtime_kind: kind.to_string() }
}

#[test]
fn split_containerd_id() {
    assert_eq!(split_runtime_id("containerd://abc123"), Some(target("containerd", "abc123")));
}

#[test]
fn split_docker_id() {
    assert_eq!(
        split_runtime_id("docker://0123456789abcdef0123456789abcdef0123456789abcdef0123456789abcdef"),
        Some(target("docker", "0123456789abcdef0123456789abcdef0123456789abcdef0123456789abcdef"))
    );
}

#[test]
fn split_without_separator_is_none() {
    assert_eq!(split_runtime_id("abc123"), None);
    assert_eq!(split_runtime_id(""), None);
    assert_eq!(split_runtime_id("docker:/x"), None);
    assert_eq!(split_runtime_id("docker//x"), None);
    assert_eq!(split_runtime_id(":/"), None);
}

#[test]
fn split_with_empty_parts() {
    assert_eq!(split_runtime_id("://"), Some(target("", "")));
    assert_eq!(split_runtime_id("docker://"), Some(target("docker", "")));
    assert_eq!(split_runtime_id("://abc"), Some(target("", "abc")));
}

#[test]
fn split_takes_the_segment_after_the_first_separator() {
    assert_eq!(split_runtime_id("a://b://c"), Some(target("a", "b")));
    assert_eq!(split_runtime_id("a://b://"), Some(target("a", "b")));
    assert_eq!(split_runtime_id("a://://c"), Some(target("a", "")));
}

#[test]
fn split_matches_from_the_left() {
    assert_eq!(split_runtime_id("a:///b"), Some(target("a", "/b")));
    assert_eq!(split_runtime_id("a:://b"), Some(target("a:", "b")));
}

#[test]
fn split_counts_characters_not_bytes() {
    assert_eq!(split_runtime_id("dömö://ïd€"), Some(target("dömö", "ïd€")));
}

#[test]
fn contains_separator_cases() {
    assert!(contains_separator("containerd://abc"));
    assert!(contains_separator("://"));
    assert!(contains_separator("x://"));
    assert!(!contains_separator(""));
    assert!(!contains_separator(":/"));
    assert!(!contains_separator("containerd:/abc"));
    assert!(!contains_separator("é:/é/"));
}

#[test]
fn chars_of_lists_characters() {
    assert_eq!(chars_of("a€b"), vec!['a', '€', 'b']);
    assert_eq!(chars_of(""), Vec::<char>::new());
}

#[test]
fn join_concatenates() {
    assert_eq!(join("ab", "cd"), "abcd");
    assert_eq!(join("", "x"), "x");
    assert_eq!(join("x", ""), "x");
}

#[test]
fn status_rejects_an_id_without_separator() {
    assert_eq!(ContainerStatus::new("app".to_string(), Some("abc123".to_string())), None);
    assert_eq!(ContainerStatus::new("app".to_string(), Some("".to_string())), None);
}

#[test]
fn status_accepts_a_missing_id() {
    let s = ContainerStatus::new("app".to_string(), None).unwrap();
    assert_eq!(s.name(), "app");
    assert_eq!(s.container_id(), None);
}

#[test]
fn status_keeps_name_and_id() {
    let s = status("app", Some("containerd://abc123"));
    assert_eq!(s.name(), "app");
    assert_eq!(s.container_id(), Some(&"containerd://abc123".to_string()));
    assert_eq!(s.clone(), s);
}

#[test]
fn single_container_resolves_without_a_name() {
    let p = pod(Some(vec![status("app", Some("containerd://abc123"))]));
    assert_eq!(get_container_id(&p, ""), Ok(target("containerd", "abc123")));
}

#[test]
fn single_container_resolves_with_its_name() {
    let p = pod(Some(vec![status("app", Some("containerd://abc123"))]));
    assert_eq!(get_container_id(&p, "app"), Ok(target("containerd", "abc123")));
}

#[test]
fn single_container_resolves_with_another_name() {
    let p = pod(Some(vec![status("app", Some("docker://f00"))]));
    assert_eq!(get_container_id(&p, "sidecar"), Ok(target("docker", "f00")));
}

#[test]
fn single_container_that_has_not_started_resolves_to_nothing() {
    let p = pod(Some(vec![status("app", None)]));
    assert_eq!(get_container_id(&p, ""), Ok(target("", "")));
    assert_eq!(get_container_id(&p, "app"), Ok(target("", "")));
}

#[test]
fn several_containers_without_a_name_are_ambiguous() {
    let p = pod(Some(vec![
        status("app", Some("containerd://a1")),
        status("sidecar", Some("containerd://b2")),
    ]));
    assert_eq!(get_container_id(&p, ""), Err(ResolveError::AmbiguousContainer));
}

#[test]
fn three_containers_without_a_name_are_ambiguous() {
    let p = pod(Some(vec![
        status("a", Some("containerd://a1")),
        status("b", None),
        status("", Some("containerd://c3")),
    ]));
    assert_eq!(get_container_id(&p, ""), Err(ResolveError::AmbiguousContainer));
}

#[test]
fn several_containers_resolve_by_name() {
    let p = pod(Some(vec![
        status("app", Some("containerd://a1")),
        status("sidecar", Some("docker://b2")),
        status("init", Some("cri-o://c3")),
    ]));
    assert_eq!(get_container_id(&p, "app"), Ok(target("containerd", "a1")));
    assert_eq!(get_container_id(&p, "sidecar"), Ok(target("docker", "b2")));
    assert_eq!(get_container_id(&p, "init"), Ok(target("cri-o", "c3")));
}

#[test]
fn several_containers_with_an_unknown_name_are_not_found() {
    let p = pod(Some(vec![
        status("app", Some("containerd://a1")),
        status("sidecar", Some("containerd://b2")),
    ]));
    assert_eq!(get_container_id(&p, "db"), Err(ResolveError::ContainerNotFound));
    assert_eq!(get_container_id(&p, "App"), Err(ResolveError::ContainerNotFound));
    assert_eq!(get_container_id(&p, "app "), Err(ResolveError::ContainerNotFound));
}

#[test]
fn the_first_of_two_containers_of_one_name_wins() {
    let p = pod(Some(vec![
        status("other", Some("containerd://a0")),
        status("app", Some("containerd://a1")),
        status("app", Some("containerd://a2")),
    ]));
    assert_eq!(get_container_id(&p, "app"), Ok(target("containerd", "a1")));
}

#[test]
fn a_container_that_has_not_started_is_skipped() {
    let p = pod(Some(vec![
        status("app", None),
        status("sidecar", Some("containerd://b2")),
        status("app", Some("containerd://a3")),
    ]));
    assert_eq!(get_container_id(&p, "app"), Ok(target("containerd", "a3")));
}

#[test]
fn a_name_whose_only_container_has_not_started_is_not_found() {
    let p = pod(Some(vec![status("app", None), status("sidecar", Some("containerd://b2"))]));
    assert_eq!(get_container_id(&p, "app"), Err(ResolveError::ContainerNotFound));
}

#[test]
fn a_matching_container_with_an_empty_identifier_resolves() {
    let p = pod(Some(vec![status("app", Some("docker://")), status("sidecar", Some("containerd://b2"))]));
    assert_eq!(get_container_id(&p, "app"), Ok(target("docker", "")));
}

#[test]
fn an_empty_status_list_needs_a_name() {
    let p = pod(Some(vec![]));
    assert_eq!(get_container_id(&p, ""), Err(ResolveError::AmbiguousContainer));
    assert_eq!(get_container_id(&p, "app"), Err(ResolveError::ContainerNotFound));
}

#[test]
fn a_pod_without_status_list_resolves_to_nothing() {
    let p = pod(None);
    assert_eq!(get_container_id(&p, ""), Ok(target("", "")));
    assert_eq!(get_container_id(&p, "app"), Ok(target("", "")));
}

#[test]
fn resolved_target_clone_is_equal() {
    let t = target("containerd", "abc");
    assert_eq!(t.clone(), t);
}

#[test]
fn node_of_a_scheduled_pod() {
    assert_eq!(get_node(&pod(None)), "node1");
}

#[test]
fn node_of_an_unscheduled_pod_is_empty() {
    let p = PodInfo { name: "p".to_string(), node_name: None, container_statuses: None };
    assert_eq!(get_node(&p), "");
}

#[test]
fn pod_clone_is_equal() {
    let p = pod(Some(vec![status("app", Some("containerd://a1")), status("b", None)]));
    assert_eq!(p.clone(), p);
}

fn named_pod(name: &str, statuses: Option<Vec<ContainerStatus>>) -> PodInfo {
    PodInfo { name: name.to_string(), node_name: None, container_statuses: statuses }
}

#[test]
fn pod_has_its_started_containers() {
    let p = pod(Some(vec![
        status("app", Some("containerd://a1")),
        status("init", None),
        status("sidecar", Some("docker://b2")),
    ]));
    assert!(pod_has_container(&p, "a1"));
    assert!(pod_has_container(&p, "b2"));
    assert!(!pod_has_container(&p, "c3"));
    assert!(!pod_has_container(&p, ""));
    assert!(!pod_has_container(&p, "containerd://a1"));
    assert!(!pod_has_container(&p, "containerd"));
}

#[test]
fn pod_without_statuses_has_no_container() {
    assert!(!pod_has_container(&pod(None), "a1"));
    assert!(!pod_has_container(&pod(Some(vec![])), "a1"));
    assert!(!pod_has_container(&pod(Some(vec![status("app", None)])), ""));
}

#[test]
fn container_with_empty_identifier_is_found_by_it() {
    let p = pod(Some(vec![status("app", Some("docker://"))]));
    assert!(pod_has_container(&p, ""));
}

#[test]
fn find_pod_by_container_identifier() {
    let pods = vec![
        named_pod("web", Some(vec![status("app", Some("containerd://a1"))])),
        named_pod("pending", None),
        named_pod("db", Some(vec![status("pg", Some("containerd://d4")), status("exporter", Some("containerd://e5"))])),
        named_pod("copy", Some(vec![status("pg", Some("docker://d4"))])),
    ];
    assert_eq!(find_pod_of_container(&pods, "a1"), Some(0));
    assert_eq!(find_pod_of_container(&pods, "d4"), Some(2));
    assert_eq!(find_pod_of_container(&pods, "e5"), Some(2));
    assert_eq!(find_pod_of_container(&pods, "zz"), None);
    assert_eq!(find_pod_of_container(&pods, ""), None);
    assert_eq!(find_pod_of_container(&Vec::new(), "a1"), None);
}

fn words(alphabet: &[char], max_len: usize) -> Vec<String> {
    let mut all = vec![String::new()];
    let mut last = vec![String::new()];
    for _ in 0..max_len {
        let mut longer = Vec::new();
        for word in &last {
            for c in alphabet {
                let mut w = word.clone();
                w.push(*c);
                longer.push(w);
            }
        }
        all.extend(longer.iter().cloned());
        last = longer;
    }
    all
}

#[test]
fn split_agrees_with_the_segments_of_str_split() {
    for word in words(&[':', '/', 'a', 'é'], 7) {
        let segments: Vec<&str> = word.split("://").collect();
        let expected = if segments.len() >= 2 { Some(target(segments[0], segments[1])) } else { None };
        assert_eq!(split_runtime_id(&word), expected, "identifier {:?}", word);
        assert_eq!(contains_separator(&word), word.contains("://"), "identifier {:?}", word);
    }
}

#[test]
fn resolution_of_two_containers_agrees_with_a_scan() {
    let names = ["", "a", "b"];
    let ids = [None, Some("containerd://x"), Some("docker://y")];
    for n0 in names {
        for n1 in names {
            for i0 in ids {
                for i1 in ids {
                    let p = pod(Some(vec![status(n0, i0), status(n1, i1)]));
                    for wanted in names {
                        let expected = if wanted.is_empty() {
                            Err(ResolveError::AmbiguousContainer)
                        } else if n0 == wanted && i0.is_some() {
                            Ok(split_runtime_id(i0.unwrap()).unwrap())
                        } else if n1 == wanted && i1.is_some() {
                            Ok(split_runtime_id(i1.unwrap()).unwrap())
                        } else {
                            Err(ResolveError::ContainerNotFound)
                        };
                        assert_eq!(get_container_id(&p, wanted), expected);
                    }
                }
            }
        }
    }
}

fn line(pod_name: &str, container_id: &str) -> IndexEntry {
    IndexEntry { pod_name: pod_name.to_string(), container_id: container_id.to_string() }
}

#[test]
fn index_lists_started_containers_by_pod() {
    let pods = vec![
        named_pod("web", Some(vec![status("app", Some("containerd://a1"))])),
        named_pod("pending", None),
        named_pod("empty", Some(vec![])),
        named_pod("db", Some(vec![
            status("init", None),
            status("pg", Some("containerd://d4")),
            status("exporter", Some("docker://e5")),
        ])),
        named_pod("waiting", Some(vec![status("app", None)])),
    ];
    assert_eq!(container_index(&pods), vec![line("web", "a1"), line("db", "d4"), line("db", "e5")]);
}

#[test]
fn index_of_no_pods_is_empty() {
    assert_eq!(container_index(&Vec::new()), Vec::<IndexEntry>::new());
    assert_eq!(container_index(&vec![named_pod("p", None)]), Vec::<IndexEntry>::new());
}

#[test]
fn index_keeps_equal_identifiers_of_different_pods() {
    let pods = vec![
        named_pod("a", Some(vec![status("c", Some("containerd://same"))])),
        named_pod("b", Some(vec![status("c", Some("docker://same"))])),
    ];
    assert_eq!(container_index(&pods), vec![line("a", "same"), line("b", "same")]);
}

#[test]
fn index_agrees_with_the_search() {
    let pods = vec![
        named_pod("web", Some(vec![status("app", Some("containerd://a1")), status("side", Some("containerd://s1"))])),
        named_pod("db", Some(vec![status("pg", Some("containerd://d4"))])),
    ];
    let index = container_index(&pods);
    for id in ["a1", "s1", "d4", "zz"] {
        let by_index = index.iter().find(|e| e.container_id == id).map(|e| e.pod_name.clone());
        let by_search = find_pod_of_container(&pods, id).map(|i| pods[i].name.clone());
        assert_eq!(by_index, by_search, "identifier {:?}", id);
    }
}
