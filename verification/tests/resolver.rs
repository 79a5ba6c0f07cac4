use gir_parser::{GirDirectory, GirFile, ParserError, Repository, RepositoryMap};

fn doc(name: &str, version: &str, includes: &[(&str, &str)]) -> String {
    let mut inc = String::new();
    for (n, v) in includes {
        inc.push_str(&format!("<include name=\"{}\" version=\"{}\"/>", n, v));
    }
    format!(
        "<repository version=\"1.2\">{}<namespace name=\"{}\" version=\"{}\"></namespace></repository>",
        inc, name, version
    )
}

fn dir(files: Vec<(&str, String)>) -> GirDirectory {
    GirDirectory {
        files: files
            .into_iter()
            .map(|(n, c)| GirFile { name: n.to_string(), content: c })
            .collect(),
    }
}

#[test]
fn resolves_transitive_includes() {
    // A includes B, B includes nothing: resolving A yields a two-entry result
    // keyed by both file names, whatever the recursion order.
    let d = dir(vec![
        ("A-1.0.gir", doc("A", "1.0", &[("B", "2.0")])),
        ("B-2.0.gir", doc("B", "2.0", &[])),
    ]);
    let map = Repository::from_path_follow_namespaces("A-1.0.gir", &d).unwrap();
    assert_eq!(map.len(), 2);
    assert!(map.contains_key("A-1.0.gir"));
    assert!(map.contains_key("B-2.0.gir"));
    assert_eq!(map.get("A-1.0.gir").unwrap().namespace().name(), "A");
    assert_eq!(map.get("B-2.0.gir").unwrap().namespace().name(), "B");
    assert!(map.get("C-1.0.gir").is_none());
    // Dependencies land in the cache no later than their dependents.
    assert_eq!(map.entries[0].0, "B-2.0.gir");
    assert_eq!(map.entries[1].0, "A-1.0.gir");
}

#[test]
fn shared_include_read_once() {
    // A diamond: A includes B and C, both include D; D is cached after the
    // first visit and the result holds each file once.
    let d = dir(vec![
        ("A-1.gir", doc("A", "1", &[("B", "1"), ("C", "1")])),
        ("B-1.gir", doc("B", "1", &[("D", "1")])),
        ("C-1.gir", doc("C", "1", &[("D", "1")])),
        ("D-1.gir", doc("D", "1", &[])),
    ]);
    let map = Repository::from_path_follow_namespaces("A-1.gir", &d).unwrap();
    assert_eq!(map.len(), 4);
    for k in ["A-1.gir", "B-1.gir", "C-1.gir", "D-1.gir"] {
        assert!(map.contains_key(k));
    }
}

#[test]
fn reuses_a_caller_cache() {
    let d = dir(vec![
        ("A-1.gir", doc("A", "1", &[("B", "1")])),
        ("B-1.gir", doc("B", "1", &[])),
    ]);
    let mut cache = RepositoryMap::new();
    Repository::from_path_follow_namespaces_and_cache(&mut cache, "B-1.gir", &d).unwrap();
    assert_eq!(cache.len(), 1);
    // Resolving A afterwards re-parses B once but keeps its single entry.
    Repository::from_path_follow_namespaces_and_cache(&mut cache, "A-1.gir", &d).unwrap();
    assert_eq!(cache.len(), 2);
}

#[test]
fn cyclic_includes_are_a_cycle_error() {
    // A includes B and B includes A: resolution reports the explicit cycle
    // error instead of recursing without bound.
    let d = dir(vec![
        ("A-1.gir", doc("A", "1", &[("B", "1")])),
        ("B-1.gir", doc("B", "1", &[("A", "1")])),
    ]);
    let r = Repository::from_path_follow_namespaces("A-1.gir", &d);
    match r {
        Err(e @ ParserError::Cycle(_)) => {
            assert!(e.message().starts_with("Cyclic include chain: "));
        },
        other => panic!("expected the cycle error, got {:?}", other),
    }

    // A file including itself is the smallest cycle.
    let d = dir(vec![("A-1.gir", doc("A", "1", &[("A", "1")]))]);
    let r = Repository::from_path_follow_namespaces("A-1.gir", &d);
    assert!(matches!(r, Err(ParserError::Cycle(_))));
}

#[test]
fn missing_file_is_an_io_error() {
    let d = dir(vec![("A-1.gir", doc("A", "1", &[("B", "1")]))]);
    let r = Repository::from_path_follow_namespaces("A-1.gir", &d);
    assert!(matches!(r, Err(ParserError::IO(_))));
    let r = Repository::from_path_follow_namespaces("Z-9.gir", &d);
    match r {
        Err(e @ ParserError::IO(_)) => {
            assert!(e.message().starts_with("I/O operation failed "));
        },
        other => panic!("expected the read failure, got {:?}", other),
    }
}

#[test]
fn structural_error_aborts_resolution() {
    let d = dir(vec![
        ("A-1.gir", doc("A", "1", &[("B", "1")])),
        ("B-1.gir", "<repository version=\"1.2\"><garbage/></repository>".to_string()),
    ]);
    let r = Repository::from_path_follow_namespaces("A-1.gir", &d);
    assert!(matches!(r, Err(ParserError::Xml(_))));
}
