use quake::clean::CleanScope;
use quake::duration::Span;
use quake::error::{ErrorKind, ToolError};
use quake::tools::{
    apply_perturbation, begin_node_call, clean_answer, clean_testnet, continue_node_call,
    ensure_ssm_tunnels, nodes_label, perturb_disconnect, perturb_for, perturb_kill, perturb_pause,
    perturb_restart, perturb_upgrade, run_tests, run_tests_answer, tunnels_to_start, valset_update,
    valset_update_answer, wait_height, wait_height_answer, wait_height_for, wait_rounds,
    wait_rounds_answer, wait_rounds_for, CleanParams, CleanRequest, NodeAction, NodeNamesParams,
    NodeProgress, NodeTool, PerturbRequest, PerturbTargetsParams, PerturbTimedParams,
    Perturbation, RunTestsParams, TimedKind, TunnelsReady, ValsetUpdateEntry, ValsetUpdateParams,
    WaitHeightParams, WaitRoundsParams,
};

fn ready() -> TunnelsReady {
    ensure_ssm_tunnels(&Err("local".to_string()), None).unwrap()
}

fn strings(names: &[&str]) -> Vec<String> {
    names.iter().map(|n| n.to_string()).collect()
}

fn failed<T>(r: Result<T, ToolError>) -> (ErrorKind, String) {
    match r {
        Ok(_) => panic!("an error was expected"),
        Err(e) => (e.kind, e.message),
    }
}

fn internal(message: &str) -> (ErrorKind, String) {
    (ErrorKind::InternalError, message.to_string())
}

#[test]
fn tunnels_are_ready_or_reported() {
    let local = Err("local".to_string());
    assert!(!tunnels_to_start(&local));
    assert!(ensure_ssm_tunnels(&local, None).is_ok());
    let remote = Ok(());
    assert!(tunnels_to_start(&remote));
    assert!(ensure_ssm_tunnels(&remote, Some(Ok(()))).is_ok());
    assert_eq!(
        failed(ensure_ssm_tunnels(&remote, Some(Err("no session".to_string())))),
        internal("Failed to start SSM tunnels: no session")
    );
}

/// Runs a call on nodes and lists its actions and its answer.
fn node_call(
    tool: NodeTool,
    nodes: Option<&[&str]>,
    fail: Option<NodeAction>,
) -> (Vec<(NodeAction, Vec<String>)>, Result<String, ToolError>) {
    let params = NodeNamesParams { nodes: nodes.map(strings) };
    let mut call = begin_node_call(&ready(), tool, params);
    let mut done = Vec::new();
    loop {
        done.push((call.action, call.names.clone()));
        let went = if fail == Some(call.action) { Err("docker".to_string()) } else { Ok(()) };
        match continue_node_call(call, went) {
            Ok(NodeProgress::Next(next)) => call = next,
            Ok(NodeProgress::Answer(answer)) => return (done, Ok(answer)),
            Err(e) => return (done, Err(e)),
        }
    }
}

#[test]
fn nodes_start_and_stop() {
    let (done, answer) = node_call(NodeTool::StartNodes, Some(&["validator1", "full*"]), None);
    assert_eq!(done, vec![(NodeAction::Start, strings(&["validator1", "full*"]))]);
    assert_eq!(answer.unwrap(), "Started: validator1, full*");
    let (done, answer) = node_call(NodeTool::StopNodes, None, None);
    assert_eq!(done, vec![(NodeAction::Stop, vec![])]);
    assert_eq!(answer.unwrap(), "Stopped: all nodes");
    let (_, answer) = node_call(NodeTool::StartNodes, None, Some(NodeAction::Start));
    assert_eq!(failed(answer), internal("Failed to start nodes: docker"));
    let (_, answer) = node_call(NodeTool::StopNodes, None, Some(NodeAction::Stop));
    assert_eq!(failed(answer), internal("Failed to stop nodes: docker"));
}

#[test]
fn a_restart_stops_then_starts() {
    let names = strings(&["validator1"]);
    let (done, answer) = node_call(NodeTool::RestartTestnet, Some(&["validator1"]), None);
    assert_eq!(done, vec![(NodeAction::Stop, names.clone()), (NodeAction::Start, names.clone())]);
    assert_eq!(answer.unwrap(), "Restarted: validator1");
    let (done, answer) =
        node_call(NodeTool::RestartTestnet, Some(&["validator1"]), Some(NodeAction::Stop));
    assert_eq!(done, vec![(NodeAction::Stop, names.clone())]);
    assert_eq!(failed(answer), internal("Failed to stop nodes: docker"));
    let (done, answer) =
        node_call(NodeTool::RestartTestnet, Some(&["validator1"]), Some(NodeAction::Start));
    assert_eq!(done.len(), 2);
    assert_eq!(failed(answer), internal("Failed to start nodes: docker"));
}

#[test]
fn labels() {
    assert_eq!(nodes_label(&vec![]), "all nodes");
    assert_eq!(nodes_label(&strings(&["a", "b"])), "a, b");
}

const NO_FLAGS: CleanParams = CleanParams {
    all: None,
    monitoring: None,
    data: None,
    execution_data: None,
    consensus_data: None,
};

#[test]
fn clean_requests() {
    let request = |mode, include_monitoring| CleanRequest { mode, include_monitoring };
    for (params, expected) in [
        (NO_FLAGS, request(CleanScope::Full, false)),
        (CleanParams { all: Some(true), ..NO_FLAGS }, request(CleanScope::Full, true)),
        (
            CleanParams { all: Some(true), data: Some(false), ..NO_FLAGS },
            request(CleanScope::Full, true),
        ),
        (CleanParams { monitoring: Some(true), ..NO_FLAGS }, request(CleanScope::Skip, true)),
        (
            CleanParams { monitoring: Some(true), data: Some(true), ..NO_FLAGS },
            request(CleanScope::Data, true),
        ),
        (
            CleanParams { execution_data: Some(true), monitoring: Some(false), ..NO_FLAGS },
            request(CleanScope::ExecutionData, false),
        ),
        (
            CleanParams { consensus_data: Some(true), ..NO_FLAGS },
            request(CleanScope::ConsensusData, false),
        ),
    ] {
        assert_eq!(clean_testnet(&ready(), params).unwrap(), expected);
    }
}

#[test]
fn all_stands_alone() {
    let all = CleanParams { all: Some(true), ..NO_FLAGS };
    for params in [
        CleanParams { monitoring: Some(true), ..all },
        CleanParams { data: Some(true), ..all },
        CleanParams { execution_data: Some(true), ..all },
        CleanParams { consensus_data: Some(true), ..all },
    ] {
        assert_eq!(
            failed(clean_testnet(&ready(), params)),
            (ErrorKind::InvalidParams, "all cannot be combined with other flags".to_string())
        );
    }
}

#[test]
fn clean_answers() {
    assert_eq!(clean_answer(CleanScope::Full, Ok(())).unwrap(), "Testnet cleaned (full)");
    assert_eq!(clean_answer(CleanScope::Skip, Ok(())).unwrap(), "Testnet cleaned (partial)");
    assert_eq!(clean_answer(CleanScope::Data, Ok(())).unwrap(), "Testnet cleaned (partial)");
    assert_eq!(
        failed(clean_answer(CleanScope::Full, Err("busy".to_string()))),
        internal("Failed to clean testnet: busy")
    );
}

fn timed(duration: Option<&str>) -> PerturbTimedParams {
    PerturbTimedParams {
        targets: strings(&["validator1_cl"]),
        duration: duration.map(|t| t.to_string()),
    }
}

fn check_bounds(request: &PerturbRequest) {
    assert_eq!(request.min_time_off, Span::from_secs(10));
    assert_eq!(request.max_time_off, Span::from_secs(20));
}

#[test]
fn timed_perturbations() {
    let request = perturb_disconnect(&ready(), timed(Some("1m30s"))).unwrap();
    check_bounds(&request);
    match request.action {
        Perturbation::Disconnect { targets, time_off } => {
            assert_eq!(targets, strings(&["validator1_cl"]));
            assert_eq!(time_off, Some(Span::from_secs(90)));
        }
        other => panic!("unexpected: {other:?}"),
    }
    let request = perturb_kill(&ready(), timed(None)).unwrap();
    check_bounds(&request);
    assert!(matches!(request.action, Perturbation::Kill { time_off: None, .. }));
    let request = perturb_pause(&ready(), timed(Some("250ms"))).unwrap();
    assert!(matches!(
        request.action,
        Perturbation::Pause { time_off: Some(Span { secs: 0, nanos: 250_000_000 }), .. }
    ));
}

#[test]
fn perturbations_with_unreadable_durations() {
    for r in [
        perturb_disconnect(&ready(), timed(Some("10x"))),
        perturb_kill(&ready(), timed(Some("10x"))),
        perturb_pause(&ready(), timed(Some("10x"))),
    ] {
        let (kind, message) = failed(r);
        assert_eq!(kind, ErrorKind::InvalidParams);
        assert!(message.starts_with("Invalid duration '10x': unknown time unit \"x\""));
    }
    let unread = ToolError::invalid_params("unread".to_string());
    let r = perturb_for(&ready(), TimedKind::Kill, strings(&["a"]), Err(unread));
    assert_eq!(failed(r), (ErrorKind::InvalidParams, "unread".to_string()));
}

#[test]
fn untimed_perturbations() {
    let params = || PerturbTargetsParams { targets: strings(&["a", "b"]) };
    let request = perturb_restart(&ready(), params());
    check_bounds(&request);
    assert!(matches!(&request.action, Perturbation::Restart { targets } if targets.len() == 2));
    let request = perturb_upgrade(&ready(), params());
    check_bounds(&request);
    assert!(matches!(&request.action, Perturbation::Upgrade { time_off: None, targets } if targets[1] == "b"));
}

#[test]
fn perturbations_are_answered() {
    for action in [
        Perturbation::Disconnect { targets: strings(&["a", "b"]), time_off: None },
        Perturbation::Kill { targets: strings(&["a", "b"]), time_off: None },
        Perturbation::Pause { targets: strings(&["a", "b"]), time_off: None },
        Perturbation::Restart { targets: strings(&["a", "b"]) },
        Perturbation::Upgrade { targets: strings(&["a", "b"]), time_off: None },
    ] {
        assert_eq!(
            apply_perturbation(&action, "kill a, b", Ok(())).unwrap(),
            "Perturbation applied: kill a, b"
        );
        assert_eq!(
            failed(apply_perturbation(&action, "kill a, b", Err("docker".to_string()))),
            internal("Perturbation failed on a, b: docker")
        );
    }
}

#[test]
fn test_runs() {
    let request = run_tests(&ready(), RunTestsParams { spec: None, dry_run: None });
    assert_eq!(request.filter, "");
    assert!(!request.dry_run);
    assert_eq!(request.rpc_timeout, Span::from_secs(1));
    assert_eq!(run_tests_answer(request, Ok(())).unwrap(), "Tests completed: all");
    let params = || RunTestsParams { spec: Some("probe".to_string()), dry_run: Some(true) };
    let request = run_tests(&ready(), params());
    assert_eq!(run_tests_answer(request, Ok(())).unwrap(), "Tests completed (dry run): probe");
    let request = run_tests(&ready(), params());
    assert_eq!(
        failed(run_tests_answer(request, Err("2 of 3".to_string()))),
        internal("Tests failed: 2 of 3")
    );
}

#[test]
fn waits_for_heights() {
    let params = |nodes: Option<&[&str]>, timeout: Option<&str>| WaitHeightParams {
        height: 100,
        nodes: nodes.map(strings),
        timeout: timeout.map(|t| t.to_string()),
    };
    let request = wait_height(&ready(), params(None, None)).unwrap();
    assert_eq!((request.height, request.nodes.len()), (100, 0));
    assert_eq!(request.timeout, Span::from_secs(60));
    assert_eq!(
        wait_height_answer(&request, Ok(())).unwrap(),
        "Reached height 100 on all nodes"
    );
    let request = wait_height(&ready(), params(Some(&["a", "b"]), Some("2m"))).unwrap();
    assert_eq!(request.timeout, Span::from_secs(120));
    assert_eq!(wait_height_answer(&request, Ok(())).unwrap(), "Reached height 100 on a, b");
    assert_eq!(
        failed(wait_height_answer(&request, Err("timeout".to_string()))),
        internal("Wait for height 100 failed: timeout")
    );
    let (kind, message) = failed(wait_height(&ready(), params(None, Some("now"))));
    assert_eq!(kind, ErrorKind::InvalidParams);
    assert_eq!(message, "Invalid duration 'now': expected number at 0");
    let request = wait_height_for(&ready(), 7, None, Ok(Some(Span::from_secs(5)))).unwrap();
    assert_eq!((request.height, request.timeout), (7, Span::from_secs(5)));
}

#[test]
fn waits_for_rounds() {
    let params = |consecutive: Option<u64>, timeout: Option<&str>| WaitRoundsParams {
        consecutive,
        timeout: timeout.map(|t| t.to_string()),
    };
    let request = wait_rounds(&ready(), params(None, None)).unwrap();
    assert_eq!((request.consecutive, request.timeout), (10, Span::from_secs(120)));
    let request = wait_rounds(&ready(), params(Some(3), Some("1s"))).unwrap();
    assert_eq!((request.consecutive, request.timeout), (3, Span::from_secs(1)));
    assert_eq!(
        wait_rounds_answer(request, Ok(())).unwrap(),
        "Consensus rounds settled: 3 consecutive blocks at round 0"
    );
    assert_eq!(
        failed(wait_rounds_answer(request, Err("timeout".to_string()))),
        internal("Wait for rounds failed: timeout")
    );
    assert_eq!(
        failed(wait_rounds(&ready(), params(None, Some("")))),
        (ErrorKind::InvalidParams, "Invalid duration '': value was empty".to_string())
    );
    assert_eq!(wait_rounds_for(&ready(), Some(1), Ok(None)).unwrap().consecutive, 1);
}

#[test]
fn voting_power_updates() {
    let entry = |validator: &str, power: u64| ValsetUpdateEntry {
        validator: validator.to_string(),
        power,
    };
    let params =
        ValsetUpdateParams { updates: vec![entry("validator1", 123), entry("validator2", 0)] };
    let updates = valset_update(&ready(), &params);
    assert_eq!(updates.len(), 2);
    assert_eq!(updates[0].validator_name, "validator1");
    assert_eq!(updates[0].new_voting_power, 123);
    assert_eq!(
        valset_update_answer(&updates, Ok(())).unwrap(),
        "Validator set updated: validator1:123, validator2:0"
    );
    assert_eq!(
        failed(valset_update_answer(&updates, Err("unknown validator".to_string()))),
        internal("Validator set update failed: unknown validator")
    );
    assert_eq!(valset_update_answer(&vec![], Ok(())).unwrap(), "Validator set updated: ");
}
