use ops_cli::pool::{require_group, DeployTarget, GroupHealth, LbStrategy, NodeStatus, PoolError, PoolOp};
use ops_cli::report::{
    app_heading, count_healthy, group_icon, group_line, health_line, member_line, mode_line,
    node_heading, pad_right, repeat, shows_each_node, status_icon, status_names, status_tone,
    table_header, table_row, target_row, Tone,
};
use ops_cli::target::parse_pool_target;

fn target(node_id: u64, status: NodeStatus) -> DeployTarget {
    DeployTarget {
        node_id,
        domain: format!("{}.node.ops.autos", node_id),
        ip_address: format!("10.0.0.{}", node_id),
        hostname: None,
        region: Some("us-east".to_string()),
        zone: None,
        weight: 100,
        is_primary: node_id == 1,
        status,
    }
}

#[test]
fn padding() {
    assert_eq!(pad_right("ab", 5), "ab   ");
    assert_eq!(pad_right("abcde", 5), "abcde");
    assert_eq!(pad_right("abcdef", 5), "abcdef");
    assert_eq!(pad_right("", 2), "  ");
    assert_eq!(pad_right("é", 3), "é  ");
    assert_eq!(repeat('-', 4), "----");
    assert_eq!(repeat('-', 0), "");
    assert_eq!(repeat('-', 84), "-".repeat(84));
}

#[test]
fn pool_table() {
    assert_eq!(
        table_header(),
        format!("  {:<8} {:<28} {:<16} {:<14} {:<10} {:<8}", "ID", "Domain", "IP", "Region", "Status", "Primary")
    );
    assert_eq!(
        target_row(&target(1, NodeStatus::Healthy)),
        format!(
            "  {:<8} {:<28} {:<16} {:<14} {:<10} {:<8}",
            1, "1.node.ops.autos", "10.0.0.1", "us-east", "healthy", "yes"
        )
    );
    let mut t = target(7, NodeStatus::Draining);
    t.region = None;
    assert_eq!(
        target_row(&t),
        format!(
            "  {:<8} {:<28} {:<16} {:<14} {:<10} {:<8}",
            7, "7.node.ops.autos", "10.0.0.7", "-", "draining", "-"
        )
    );
    assert_eq!(table_row("a", "b", "c", "d", "e", "f").len(), 2 + 8 + 1 + 28 + 1 + 16 + 1 + 14 + 1 + 10 + 1 + 8);
}

#[test]
fn pool_status_excludes_a_draining_node_from_the_healthy() {
    let targets = vec![
        target(1, NodeStatus::Healthy),
        target(7, NodeStatus::Draining),
        target(9, NodeStatus::Healthy),
    ];
    let healthy = count_healthy(&targets);
    assert_eq!(healthy, 2);
    assert_eq!(health_line(healthy, targets.len()), "  2/3 nodes healthy");
    assert_eq!(count_healthy(&Vec::new()), 0);
}

#[test]
fn icons_and_tones() {
    assert_eq!(status_icon(NodeStatus::Healthy), ("●", Tone::Good));
    assert_eq!(status_icon(NodeStatus::Unhealthy), ("●", Tone::Bad));
    assert_eq!(status_icon(NodeStatus::Draining), ("◐", Tone::Caution));
    assert_eq!(status_icon(NodeStatus::Offline), ("○", Tone::Bad));
    assert_eq!(status_icon(NodeStatus::Unknown), ("○", Tone::Faint));
    assert_eq!(status_tone(NodeStatus::Healthy), Tone::Good);
    assert_eq!(status_tone(NodeStatus::Draining), Tone::Caution);
    assert_eq!(status_tone(NodeStatus::Offline), Tone::Bad);
    assert_eq!(group_icon(GroupHealth::Empty), ("○", Tone::Faint));
    assert_eq!(group_icon(GroupHealth::AllHealthy), ("●", Tone::Good));
    assert_eq!(group_icon(GroupHealth::Degraded), ("◐", Tone::Caution));
    assert_eq!(group_icon(GroupHealth::Down), ("●", Tone::Bad));
}

#[test]
fn group_and_member_lines() {
    assert_eq!(
        group_line(3, "api-pool", &Some("RedQ".to_string()), 4, 3, "round-robin"),
        "#3 api-pool (RedQ) - 4 nodes (3 healthy) [round-robin]"
    );
    assert_eq!(group_line(3, "p", &None, 0, 0, "geo"), "#3 p (-) - 0 nodes (0 healthy) [geo]");
    let mut t = target(2, NodeStatus::Healthy);
    assert_eq!(member_line(&t), "10.0.0.2 (10.0.0.2) - us-east zone:- weight:100");
    t.hostname = Some("web-2".to_string());
    t.zone = Some("b".to_string());
    t.region = None;
    t.weight = 7;
    assert_eq!(member_line(&t), "web-2 (10.0.0.2) - - zone:b weight:7");
}

#[test]
fn pool_targets() {
    let t = parse_pool_target("api.RedQ").unwrap();
    assert_eq!((t.app.as_str(), t.project.as_str()), ("api", "RedQ"));
    let t = parse_pool_target("api.Red.Q").unwrap();
    assert_eq!((t.app.as_str(), t.project.as_str()), ("api", "Red.Q"));
    let e = parse_pool_target("api").unwrap_err();
    assert_eq!(e.message(), "Target must be in 'app.project' format (e.g., api.RedQ)");
}

#[test]
fn pool_operations_need_a_group() {
    assert_eq!(require_group(Some(4), PoolOp::Drain).unwrap(), 4);
    let e = require_group(None, PoolOp::Drain).unwrap_err();
    assert_eq!(e.message(), "App is in single-node mode. Cannot drain.");
    let e = require_group(None, PoolOp::Undrain).unwrap_err();
    assert_eq!(e.message(), "App is in single-node mode. Cannot undrain.");
    let e = require_group(None, PoolOp::SetStrategy).unwrap_err();
    assert_eq!(e.message(), "App is in single-node mode. Bind a second node to enable pool mode.");
}

#[test]
fn pool_error_messages() {
    assert_eq!(
        LbStrategy::parse("fastest").unwrap_err().message(),
        "Invalid strategy 'fastest'. Must be one of: round-robin, geo, weighted, failover"
    );
    assert_eq!(PoolError::NotAMember(7).message(), "Node 7 is not in this group");
    assert_eq!(PoolError::AlreadyMember(7).message(), "Node 7 is already in this group");
    assert_eq!(PoolError::SecondPrimary.message(), "A failover group has one primary");
}

#[test]
fn status_is_asked_for_under_the_names_that_are_declared() {
    let p = Some("redq".to_string());
    let a = Some("api".to_string());
    assert_eq!(status_names(&p, &a), Some(("redq".to_string(), "api".to_string())));
    assert_eq!(status_names(&p, &None), Some(("redq".to_string(), "redq".to_string())));
    assert_eq!(status_names(&None, &a), Some(("api".to_string(), "api".to_string())));
    assert_eq!(status_names(&None, &None), None);
}

#[test]
fn status_is_shown_node_by_node_for_more_than_one_node() {
    assert!(!shows_each_node(0));
    assert!(!shows_each_node(1));
    assert!(shows_each_node(2));
    assert!(shows_each_node(30));
}

#[test]
fn status_headings() {
    assert_eq!(app_heading("api", "redq"), "📊 App: api (project: redq)");
    assert_eq!(
        mode_line("pool", 3, &Some("round-robin".to_string())),
        "   Mode: pool (3 nodes, strategy: round-robin)"
    );
    assert_eq!(mode_line("single", 2, &None), "   Mode: single (2 nodes, strategy: single)");
    let mut t = target(1, NodeStatus::Healthy);
    assert_eq!(node_heading(&t), "  Node 1 (us-east, ) (primary)");
    t.hostname = Some("alpha".to_string());
    t.is_primary = false;
    assert_eq!(node_heading(&t), "  Node 1 (us-east, alpha)");
    t.region = None;
    t.node_id = 4071;
    assert_eq!(node_heading(&t), "  Node 4071 (-, alpha)");
}
