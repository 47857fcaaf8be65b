use ops_cli::coordinator::{
    choose_mode, Action, AggregateStatus, Coordinator, Mode, ProtocolError, Summary,
};
use ops_cli::pool::{DeployTarget, NodeStatus};

fn target(node_id: u64) -> DeployTarget {
    DeployTarget {
        node_id,
        domain: format!("node{}.example", node_id),
        ip_address: String::new(),
        hostname: None,
        region: None,
        zone: None,
        weight: 100,
        is_primary: node_id == 1,
        status: NodeStatus::Healthy,
    }
}

fn targets(n: u64) -> Vec<DeployTarget> {
    (1..=n).map(target).collect()
}

fn ids(list: &[DeployTarget]) -> Vec<u64> {
    list.iter().map(|t| t.node_id).collect()
}

#[test]
fn mode_by_count_and_flag() {
    assert_eq!(choose_mode(0, false), Mode::Single);
    assert_eq!(choose_mode(1, true), Mode::Single);
    assert_eq!(choose_mode(2, false), Mode::Parallel);
    assert_eq!(choose_mode(2, true), Mode::Rolling);
}

#[test]
fn rolling_invokes_every_target_in_order() {
    let mut c = Coordinator::new(targets(4), true);
    assert_eq!(c.start(), vec![0]);
    assert_eq!(c.record(0, None), Ok(Action::Invoke(1)));
    assert_eq!(c.record(1, Some("boom".to_string())), Ok(Action::Invoke(2)));
    assert_eq!(c.record(2, Some("bang".to_string())), Ok(Action::Invoke(3)));
    assert_eq!(c.record(3, None), Ok(Action::Finish));
    assert!(c.finished());
    let s = c.summary();
    assert_eq!(ids(&s.succeeded), vec![1, 4]);
    assert_eq!(s.failed.len(), 2);
    assert_eq!(s.failed[0].target.node_id, 2);
    assert_eq!(s.failed[0].error, "boom");
    assert_eq!(s.failed[1].error, "bang");
}

#[test]
fn rolling_three_nodes_second_fails() {
    let mut c = Coordinator::new(targets(3), true);
    assert_eq!(c.mode, Mode::Rolling);
    let mut invoked = c.start();
    let outcomes = [None, Some("remote command exited with status 1".to_string()), None];
    let mut next = 0;
    loop {
        let index = invoked[next];
        match c.record(index, outcomes[index].clone()).unwrap() {
            Action::Invoke(i) => invoked.push(i),
            Action::Wait => panic!("a rolling run never waits"),
            Action::Finish => break,
        }
        next += 1;
    }
    assert_eq!(invoked, vec![0, 1, 2]);
    let s = c.summary();
    assert_eq!(ids(&s.succeeded), vec![1, 3]);
    assert_eq!(s.failed.len(), 1);
    assert_eq!(s.failed[0].target.node_id, 2);
    assert_eq!(s.status(), AggregateStatus::Partial);
    assert_eq!(s.status().as_str(), "partial");
    assert_eq!(s.exit_code(), 1);
    assert_eq!(s.headline("api"), "Deployed api to 2/3 nodes (1 failed)");
    assert_eq!(s.failure_text(), "1 node(s) failed deployment");
}

#[test]
fn rolling_refuses_reports_out_of_turn() {
    let mut c = Coordinator::new(targets(3), true);
    assert_eq!(c.record(1, None), Err(ProtocolError::OutOfTurn));
    assert_eq!(c.record(3, None), Err(ProtocolError::NoSuchTarget));
    assert_eq!(c.record(0, None), Ok(Action::Invoke(1)));
    assert_eq!(c.record(0, None), Err(ProtocolError::AlreadyReported));
    assert_eq!(c.order, vec![0]);
}

#[test]
fn parallel_invokes_all_and_takes_reports_in_any_order() {
    let mut c = Coordinator::new(targets(4), false);
    assert_eq!(c.mode, Mode::Parallel);
    assert_eq!(c.start(), vec![0, 1, 2, 3]);
    assert_eq!(c.record(2, Some("x".to_string())), Ok(Action::Wait));
    assert_eq!(c.record(0, None), Ok(Action::Wait));
    assert_eq!(c.record(2, None), Err(ProtocolError::AlreadyReported));
    assert_eq!(c.record(3, Some("y".to_string())), Ok(Action::Wait));
    assert!(!c.finished());
    assert_eq!(c.record(1, None), Ok(Action::Finish));
    let s = c.summary();
    assert_eq!(s.succeeded.len() + s.failed.len(), 4);
    assert_eq!(ids(&s.succeeded), vec![1, 2]);
    assert_eq!(s.failed[0].target.node_id, 3);
    assert_eq!(s.failed[1].target.node_id, 4);
    assert_eq!(c.record(1, None), Err(ProtocolError::AlreadyReported));
}

#[test]
fn parallel_counts_add_up_for_every_outcome_pattern() {
    for pattern in 0u32..16 {
        let mut c = Coordinator::new(targets(4), false);
        for index in [3usize, 1, 0, 2] {
            let error = if pattern & (1 << index) != 0 { Some("failed".to_string()) } else { None };
            c.record(index, error).unwrap();
        }
        let s = c.summary();
        assert_eq!(s.succeeded.len() + s.failed.len(), 4);
        assert_eq!(s.failed.len() as u32, pattern.count_ones());
    }
}

#[test]
fn single_target_runs_directly() {
    let mut c = Coordinator::new(targets(1), false);
    assert_eq!(c.mode, Mode::Single);
    assert_eq!(c.start(), vec![0]);
    assert_eq!(c.record(0, None), Ok(Action::Finish));
    let s = c.summary();
    assert_eq!(s.status(), AggregateStatus::Success);
    assert_eq!(s.exit_code(), 0);
}

#[test]
fn no_targets_nothing_to_invoke() {
    let c = Coordinator::new(Vec::new(), true);
    assert!(c.start().is_empty());
    assert!(c.finished());
    assert_eq!(c.summary().status(), AggregateStatus::Success);
}

#[test]
fn aggregate_status_and_exit_code() {
    let all = Summary { succeeded: targets(2), failed: Vec::new() };
    assert_eq!(all.status(), AggregateStatus::Success);
    assert_eq!(all.exit_code(), 0);
    assert_eq!(all.headline("web"), "Deployed web to 2/2 nodes");

    let mut c = Coordinator::new(targets(2), true);
    c.record(0, Some("a".to_string())).unwrap();
    c.record(1, Some("b".to_string())).unwrap();
    let none = c.summary();
    assert_eq!(none.status(), AggregateStatus::Failed);
    assert_eq!(none.status().as_str(), "failed");
    assert_eq!(none.exit_code(), 1);
    assert_eq!(none.headline("web"), "Deployed web to 0/2 nodes (2 failed)");
    assert_eq!(none.failure_text(), "2 node(s) failed deployment");
    assert_eq!(AggregateStatus::Success.as_str(), "success");
}

#[test]
fn a_run_put_together_by_hand_is_checked() {
    let mut c = Coordinator::new(targets(3), true);
    assert!(c.validate());
    c.record(0, None).unwrap();
    assert!(c.validate());
    c.order.push(0);
    assert!(!c.validate());
    c.errors.push(None);
    assert!(!c.validate());
    c.order[1] = 2;
    assert!(!c.validate());
    c.mode = Mode::Parallel;
    assert!(c.validate());
    c.order[1] = 3;
    assert!(!c.validate());
}
