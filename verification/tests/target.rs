use ops_cli::target::{parse_target, Target};

#[test]
fn node_id_target() {
    match parse_target("12345").unwrap() {
        Target::NodeId { id, path } => {
            assert_eq!(id, 12345);
            assert_eq!(path, None);
        }
        other => panic!("unexpected {:?}", other),
    }
}

#[test]
fn app_target() {
    match parse_target("api.RedQ").unwrap() {
        Target::AppTarget { app, project, path } => {
            assert_eq!(app, "api");
            assert_eq!(project, "RedQ");
            assert_eq!(path, None);
        }
        other => panic!("unexpected {:?}", other),
    }
}

#[test]
fn environment_and_project() {
    match parse_target("main_server.jug0").unwrap() {
        Target::AppTarget { app, project, .. } => {
            assert_eq!(app, "main_server");
            assert_eq!(project, "jug0");
        }
        other => panic!("unexpected {:?}", other),
    }
}

#[test]
fn node_id_with_path() {
    let t = parse_target("12345:/root/").unwrap();
    assert_eq!(t.path().map(|p| p.as_str()), Some("/root/"));
    assert_eq!(t.domain(), "12345.node.ops.autos");
    assert!(matches!(t, Target::NodeId { id: 12345, .. }));
}

#[test]
fn app_target_with_path() {
    let t = parse_target("api.RedQ:/srv/data.d/x:y").unwrap();
    assert_eq!(t.path().map(|p| p.as_str()), Some("/srv/data.d/x:y"));
    assert_eq!(t.domain(), "api.RedQ.ops.autos");
}

#[test]
fn empty_path_suffix_is_kept() {
    let t = parse_target("7:").unwrap();
    assert_eq!(t.path().map(|p| p.as_str()), Some(""));
}

#[test]
fn invalid_targets_are_rejected() {
    for text in ["", "api", "a.b.c", ":path", "12x", "a.b.c:/p", "99999999999999999999999"] {
        let e = parse_target(text).unwrap_err();
        assert_eq!(e.text, text);
        assert_eq!(
            e.message(),
            "Invalid target format. Expected 'environment.project' (e.g., main_server.jug0)"
        );
    }
}

#[test]
fn empty_parts_are_allowed() {
    match parse_target(".").unwrap() {
        Target::AppTarget { app, project, .. } => {
            assert_eq!(app, "");
            assert_eq!(project, "");
        }
        other => panic!("unexpected {:?}", other),
    }
}

#[test]
fn largest_node_id() {
    assert!(matches!(
        parse_target("18446744073709551615").unwrap(),
        Target::NodeId { id: u64::MAX, .. }
    ));
}
