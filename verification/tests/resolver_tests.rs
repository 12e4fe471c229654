use opiumware::ports::{candidate_port_list, port_plan};
use opiumware::resolver::{
    attach_scan_done, fold_outcomes, opiumware_attach_any, opiumware_detach, opiumware_execute,
    render_status, AttemptOutcome, Outcome,
};

#[test]
fn candidate_ports_are_fixed_and_ascending() {
    let ports = candidate_port_list();
    let expected = vec!["8392", "8393", "8394", "8395", "8396", "8397"];
    assert_eq!(ports.len(), 6);
    for (p, e) in ports.iter().zip(expected.iter()) {
        assert_eq!(p, e);
    }
}

#[test]
fn single_port_plan_is_that_port_alone() {
    let plan = port_plan("8394");
    assert_eq!(plan.len(), 1);
    assert_eq!(plan[0], "8394");
}

#[test]
fn broadcast_plan_covers_all_six_ports() {
    let plan = port_plan("ALL");
    assert_eq!(plan.len(), 6);
    assert_eq!(plan[0], "8392");
    assert_eq!(plan[5], "8397");
}

#[test]
fn probe_on_reachable_single_port_names_that_port() {
    let outcomes = vec![AttemptOutcome::Accepted];
    let status = opiumware_execute("NULL", "8392", &outcomes);
    assert_eq!(status, "Successfully connected to Opiumware on port: 8392");
}

#[test]
fn unreachable_single_port_reports_failure_and_attempts_no_other() {
    // The plan for a concrete port is a singleton: no other candidate port is
    // ever attempted.
    assert_eq!(port_plan("8393").len(), 1);
    let outcomes = vec![AttemptOutcome::ConnectFailed("connection refused".to_string())];
    let status = opiumware_execute("print(1)", "8393", &outcomes);
    assert_eq!(
        status,
        "Failed to connect on all ports. Last error: Failed to connect to port 8393: connection refused"
    );
}

#[test]
fn broadcast_with_two_accepting_ports_lists_them_in_order() {
    let outcomes = vec![
        AttemptOutcome::ConnectFailed("connection refused".to_string()),
        AttemptOutcome::Accepted,
        AttemptOutcome::ConnectFailed("connection refused".to_string()),
        AttemptOutcome::Accepted,
        AttemptOutcome::ConnectFailed("connection refused".to_string()),
        AttemptOutcome::ConnectFailed("connection refused".to_string()),
    ];
    let status = opiumware_execute("print(1)", "ALL", &outcomes);
    assert_eq!(status, "Successfully executed on ports: 8393, 8395");
}

#[test]
fn broadcast_with_no_reachable_port_reports_last_error() {
    let outcomes = vec![
        AttemptOutcome::ConnectFailed("error one".to_string()),
        AttemptOutcome::ConnectFailed("error two".to_string()),
        AttemptOutcome::ConnectFailed("error three".to_string()),
        AttemptOutcome::ConnectFailed("error four".to_string()),
        AttemptOutcome::ConnectFailed("error five".to_string()),
        AttemptOutcome::ConnectFailed("timed out".to_string()),
    ];
    let status = opiumware_execute("print(1)", "ALL", &outcomes);
    assert_eq!(
        status,
        "Failed to connect on all ports. Last error: Failed to connect to port 8397: timed out"
    );
}

#[test]
fn delivery_is_stateless_across_repeated_calls() {
    let outcomes = vec![AttemptOutcome::Accepted];
    let first = opiumware_execute("print(1)", "8396", &outcomes);
    let second = opiumware_execute("print(1)", "8396", &outcomes);
    assert_eq!(first, "Successfully connected to Opiumware on port: 8396");
    assert_eq!(first, second);
}

#[test]
fn send_failure_is_not_a_success_and_its_error_is_reported() {
    let outcomes = vec![AttemptOutcome::SendFailed("broken pipe".to_string())];
    let status = opiumware_execute("print(1)", "8392", &outcomes);
    assert_eq!(
        status,
        "Failed to connect on all ports. Last error: Error sending script: broken pipe"
    );
}

#[test]
fn lone_success_among_send_failures_names_only_that_port() {
    let outcomes = vec![
        AttemptOutcome::Accepted,
        AttemptOutcome::SendFailed("broken pipe".to_string()),
        AttemptOutcome::ConnectFailed("connection refused".to_string()),
        AttemptOutcome::ConnectFailed("connection refused".to_string()),
        AttemptOutcome::ConnectFailed("connection refused".to_string()),
        AttemptOutcome::ConnectFailed("connection refused".to_string()),
    ];
    let status = opiumware_execute("print(1)", "ALL", &outcomes);
    assert_eq!(status, "Successfully connected to Opiumware on port: 8392");
}

#[test]
fn fold_keeps_accepting_ports_in_attempt_order() {
    let plan = port_plan("ALL");
    let outcomes = vec![
        AttemptOutcome::Accepted,
        AttemptOutcome::ConnectFailed("connection refused".to_string()),
        AttemptOutcome::Accepted,
        AttemptOutcome::ConnectFailed("connection refused".to_string()),
        AttemptOutcome::Accepted,
        AttemptOutcome::ConnectFailed("connection refused".to_string()),
    ];
    let folded = fold_outcomes(&plan, &outcomes);
    match &folded {
        Outcome::Success { ports } => {
            assert_eq!(ports.len(), 3);
            assert_eq!(ports[0], "8392");
            assert_eq!(ports[1], "8394");
            assert_eq!(ports[2], "8396");
        }
        Outcome::Failure { .. } => panic!("expected success"),
    }
    let status = render_status(&folded);
    assert_eq!(status, "Successfully executed on ports: 8392, 8394, 8396");
}

#[test]
fn fold_with_no_attempts_is_a_failure_with_empty_error() {
    let plan: Vec<String> = Vec::new();
    let outcomes: Vec<AttemptOutcome> = Vec::new();
    let folded = fold_outcomes(&plan, &outcomes);
    match &folded {
        Outcome::Failure { last_error } => assert_eq!(last_error, ""),
        Outcome::Success { .. } => panic!("expected failure"),
    }
}

#[test]
fn attach_scan_stops_at_first_reachable_port() {
    assert!(!attach_scan_done(&vec![]));
    assert!(!attach_scan_done(&vec![false]));
    assert!(!attach_scan_done(&vec![false, false]));
    assert!(attach_scan_done(&vec![false, false, true]));
    assert!(attach_scan_done(&vec![false, false, false, false, false, false]));
}

#[test]
fn attach_names_the_first_reachable_port() {
    let status = opiumware_attach_any(&vec![false, false, true]);
    assert_eq!(status, "Successfully attached on port 8394");
    let status = opiumware_attach_any(&vec![true]);
    assert_eq!(status, "Successfully attached on port 8392");
}

#[test]
fn attach_reports_failure_when_no_port_is_reachable() {
    let status = opiumware_attach_any(&vec![false, false, false, false, false, false]);
    assert_eq!(
        status,
        "Failed to attach: no Opiumware instance found on ports 8392-8397"
    );
}

#[test]
fn detach_names_the_port() {
    assert_eq!(opiumware_detach("8395"), "Detached from port 8395");
}

#[test]
fn out_of_set_port_is_attempted_as_given() {
    // A selector outside the candidate set is not validated: it is simply
    // attempted (and in practice fails to connect).
    let plan = port_plan("9999");
    assert_eq!(plan.len(), 1);
    assert_eq!(plan[0], "9999");
    let outcomes = vec![AttemptOutcome::ConnectFailed("connection refused".to_string())];
    let status = opiumware_execute("print(1)", "9999", &outcomes);
    assert_eq!(
        status,
        "Failed to connect on all ports. Last error: Failed to connect to port 9999: connection refused"
    );
}
