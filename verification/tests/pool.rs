use ops_cli::pool::{
    group_health, DeployTarget, GroupHealth, LbStrategy, Member, NodeGroup, NodeStatus, PoolError,
    PoolMode,
};

fn target(node_id: u64, status: NodeStatus, is_primary: bool) -> DeployTarget {
    DeployTarget {
        node_id,
        domain: format!("{}.node.ops.autos", node_id),
        ip_address: format!("10.0.0.{}", node_id),
        hostname: None,
        region: Some("us-east".to_string()),
        zone: None,
        weight: 100,
        is_primary,
        status,
    }
}

fn group(strategy: LbStrategy, nodes: &[(u64, NodeStatus, bool)]) -> NodeGroup {
    let mut g = NodeGroup::new(1, "RedQ".to_string(), "api".to_string(), "api-pool".to_string(), strategy);
    for (id, status, primary) in nodes {
        g.add_member(target(*id, *status, *primary)).unwrap();
    }
    g
}

#[test]
fn status_words_read_back() {
    assert_eq!(NodeStatus::parse("healthy"), NodeStatus::Healthy);
    assert_eq!(NodeStatus::parse("unhealthy"), NodeStatus::Unhealthy);
    assert_eq!(NodeStatus::parse("draining"), NodeStatus::Draining);
    assert_eq!(NodeStatus::parse("offline"), NodeStatus::Offline);
    assert_eq!(NodeStatus::parse("unknown"), NodeStatus::Unknown);
    assert_eq!(NodeStatus::parse("weird"), NodeStatus::Unknown);
    assert_eq!(NodeStatus::parse("Healthy"), NodeStatus::Unknown);
    for s in [
        NodeStatus::Healthy,
        NodeStatus::Unhealthy,
        NodeStatus::Draining,
        NodeStatus::Offline,
        NodeStatus::Unknown,
    ] {
        assert_eq!(NodeStatus::parse(s.as_str()), s);
    }
}

#[test]
fn strategy_words_read_back() {
    for s in [LbStrategy::RoundRobin, LbStrategy::Geo, LbStrategy::Weighted, LbStrategy::Failover] {
        assert_eq!(LbStrategy::parse(s.as_str()).unwrap(), s);
    }
    assert_eq!(LbStrategy::RoundRobin.as_str(), "round-robin");
    match LbStrategy::parse("random") {
        Err(PoolError::InvalidStrategy(word)) => assert_eq!(word, "random"),
        other => panic!("unexpected {:?}", other),
    }
    assert!(LbStrategy::parse("").is_err());
}

#[test]
fn new_group_is_empty_and_valid() {
    let g = group(LbStrategy::RoundRobin, &[]);
    assert!(g.validate());
    assert_eq!(g.node_count(), 0);
    assert_eq!(g.healthy_count(), 0);
    assert_eq!(g.health(), GroupHealth::Empty);
    assert_eq!(g.mode(), PoolMode::Single);
}

#[test]
fn drain_flips_status_and_leaves_membership() {
    let mut g = group(
        LbStrategy::RoundRobin,
        &[(5, NodeStatus::Healthy, true), (7, NodeStatus::Healthy, false), (9, NodeStatus::Unhealthy, false)],
    );
    assert_eq!(g.healthy_count(), 2);
    g.drain(7).unwrap();
    assert_eq!(g.status_of(7), Some(NodeStatus::Draining));
    assert_eq!(g.healthy_count(), 1);
    assert_eq!(g.node_count(), 3);
    assert!(g.is_member(7));
    let ids: Vec<u64> = g.targets().iter().map(|t| t.node_id).collect();
    assert_eq!(ids, vec![5, 7, 9]);
    assert!(g.validate());
}

#[test]
fn draining_node_seven_takes_it_out_of_the_healthy_count() {
    let mut g = group(
        LbStrategy::RoundRobin,
        &[(3, NodeStatus::Healthy, true), (7, NodeStatus::Healthy, false)],
    );
    assert_eq!((g.healthy_count(), g.node_count()), (2, 2));
    g.drain(7).unwrap();
    assert_eq!(g.status_of(7).unwrap().as_str(), "draining");
    assert_eq!((g.healthy_count(), g.node_count()), (1, 2));
    assert_eq!(g.health(), GroupHealth::Degraded);
}

#[test]
fn undrain_restores_the_prior_status() {
    for prior in [NodeStatus::Healthy, NodeStatus::Unhealthy, NodeStatus::Offline, NodeStatus::Unknown] {
        let mut g = group(LbStrategy::Geo, &[(1, NodeStatus::Healthy, true), (2, prior, false)]);
        let before = g.healthy_count();
        g.drain(2).unwrap();
        g.undrain(2).unwrap();
        assert_eq!(g.status_of(2), Some(prior));
        assert_eq!(g.healthy_count(), before);
        assert_eq!(g.node_count(), 2);
        assert_eq!(g.members[1].resume, None);
    }
}

#[test]
fn drain_twice_keeps_the_first_prior_status() {
    let mut g = group(LbStrategy::Geo, &[(2, NodeStatus::Unhealthy, false)]);
    g.drain(2).unwrap();
    g.drain(2).unwrap();
    assert_eq!(g.members[0].resume, Some(NodeStatus::Unhealthy));
    g.undrain(2).unwrap();
    assert_eq!(g.status_of(2), Some(NodeStatus::Unhealthy));
}

#[test]
fn undrain_of_a_node_that_is_not_draining_changes_nothing() {
    let mut g = group(LbStrategy::Geo, &[(2, NodeStatus::Offline, false)]);
    g.undrain(2).unwrap();
    assert_eq!(g.status_of(2), Some(NodeStatus::Offline));
}

#[test]
fn undrain_without_a_remembered_status_gives_unknown() {
    let mut g = group(LbStrategy::Geo, &[]);
    g.members.push(Member { target: target(4, NodeStatus::Draining, false), resume: None });
    assert!(g.validate());
    g.undrain(4).unwrap();
    assert_eq!(g.status_of(4), Some(NodeStatus::Unknown));
}

#[test]
fn drain_of_a_stranger_is_refused() {
    let mut g = group(LbStrategy::Geo, &[(1, NodeStatus::Healthy, true)]);
    assert!(matches!(g.drain(8), Err(PoolError::NotAMember(8))));
    assert!(matches!(g.undrain(8), Err(PoolError::NotAMember(8))));
    assert_eq!(g.status_of(8), None);
    assert_eq!(g.healthy_count(), 1);
}

#[test]
fn a_node_is_bound_once() {
    let mut g = group(LbStrategy::Geo, &[(1, NodeStatus::Healthy, true)]);
    assert!(matches!(
        g.add_member(target(1, NodeStatus::Healthy, false)),
        Err(PoolError::AlreadyMember(1))
    ));
    assert_eq!(g.node_count(), 1);
}

#[test]
fn failover_group_has_one_primary() {
    let mut g = group(LbStrategy::Failover, &[(1, NodeStatus::Healthy, true)]);
    assert!(matches!(
        g.add_member(target(2, NodeStatus::Healthy, true)),
        Err(PoolError::SecondPrimary)
    ));
    g.add_member(target(2, NodeStatus::Healthy, false)).unwrap();
    assert_eq!(g.primary_count(), 1);
    assert_eq!(g.mode(), PoolMode::Pool);
}

#[test]
fn primary_is_advisory_outside_failover() {
    let mut g = group(
        LbStrategy::RoundRobin,
        &[(1, NodeStatus::Healthy, true), (2, NodeStatus::Healthy, true)],
    );
    assert!(g.validate());
    assert!(matches!(g.set_strategy(LbStrategy::Failover), Err(PoolError::SecondPrimary)));
    assert_eq!(g.lb_strategy, LbStrategy::RoundRobin);
    g.set_strategy(LbStrategy::Weighted).unwrap();
    assert_eq!(g.lb_strategy, LbStrategy::Weighted);
}

#[test]
fn validate_rejects_broken_groups() {
    let mut twice = group(LbStrategy::Geo, &[(1, NodeStatus::Healthy, false)]);
    twice.members.push(Member { target: target(1, NodeStatus::Healthy, false), resume: None });
    assert!(!twice.validate());

    let mut stale = group(LbStrategy::Geo, &[(1, NodeStatus::Healthy, false)]);
    stale.members[0].resume = Some(NodeStatus::Unhealthy);
    assert!(!stale.validate());

    let mut primaries = group(
        LbStrategy::Geo,
        &[(1, NodeStatus::Healthy, true), (2, NodeStatus::Healthy, true)],
    );
    primaries.lb_strategy = LbStrategy::Failover;
    assert!(!primaries.validate());
}

#[test]
fn group_health_classes() {
    assert_eq!(group_health(0, 0), GroupHealth::Empty);
    assert_eq!(group_health(3, 3), GroupHealth::AllHealthy);
    assert_eq!(group_health(3, 1), GroupHealth::Degraded);
    assert_eq!(group_health(3, 0), GroupHealth::Down);
}

#[test]
fn clone_of_a_target_keeps_every_field() {
    let mut t = target(3, NodeStatus::Offline, true);
    t.hostname = Some("web-3".to_string());
    t.zone = Some("b".to_string());
    t.weight = 42;
    let c = t.clone();
    assert_eq!(c.node_id, 3);
    assert_eq!(c.domain, t.domain);
    assert_eq!(c.ip_address, t.ip_address);
    assert_eq!(c.hostname, t.hostname);
    assert_eq!(c.region, t.region);
    assert_eq!(c.zone, t.zone);
    assert_eq!(c.weight, 42);
    assert!(c.is_primary);
    assert_eq!(c.status, NodeStatus::Offline);
}
