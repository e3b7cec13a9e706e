use quake::clean::{
    begin_clean, clean, clean_node_data, clean_remote_node_data, clean_scope, node_data_removals, CleanJob,
    CleanScope, CleanStep, InfraType, Layer, MALACHITE_DATA_SUBDIRS,
    NO_NAMES, RETH_DATA_SUBDIRS,
};

#[test]
fn test_clean_scope_no_flags() {
    assert_eq!(clean_scope(false, false, false, false), CleanScope::Full);
}

#[test]
fn test_clean_scope_data() {
    assert_eq!(clean_scope(true, false, false, false), CleanScope::Data);
}

#[test]
fn test_clean_scope_execution_data() {
    assert_eq!(clean_scope(false, true, false, false), CleanScope::ExecutionData);
}

#[test]
fn test_clean_scope_consensus_data() {
    assert_eq!(clean_scope(false, false, true, false), CleanScope::ConsensusData);
}

#[test]
fn test_clean_scope_monitoring_only() {
    assert_eq!(clean_scope(false, false, false, true), CleanScope::Skip);
}

#[test]
fn test_clean_scope_data_and_monitoring() {
    assert_eq!(clean_scope(true, false, false, true), CleanScope::Data);
}

#[test]
fn test_clean_scope_execution_and_consensus_data() {
    assert_eq!(clean_scope(false, true, true, false), CleanScope::Data);
}

#[test]
fn scope_follows_every_combination_of_flags() {
    for flags in 0u8..16 {
        let data = flags & 1 != 0;
        let execution_data = flags & 2 != 0;
        let consensus_data = flags & 4 != 0;
        let monitoring = flags & 8 != 0;
        let execution = data || execution_data;
        let consensus = data || consensus_data;
        let expected = if execution && consensus {
            CleanScope::Data
        } else if execution {
            CleanScope::ExecutionData
        } else if consensus {
            CleanScope::ConsensusData
        } else if monitoring {
            CleanScope::Skip
        } else {
            CleanScope::Full
        };
        assert_eq!(clean_scope(data, execution_data, consensus_data, monitoring), expected);
    }
}

const STOP: CleanStep = CleanStep::StopContainers { names: NO_NAMES };
const DESTROY: CleanStep = CleanStep::DestroyInfra { yes: true };

/// Runs a clean-up in which the steps of `no` answer no or fail, and lists its steps.
fn steps(infra: InfraType, mode: CleanScope, include_monitoring: bool, no: &[CleanStep]) -> Vec<CleanStep> {
    let job = CleanJob { infra, mode, include_monitoring };
    let mut done = Vec::new();
    let mut step = begin_clean();
    while step != CleanStep::Finished {
        done.push(step);
        step = clean(job, step, !no.contains(&step));
    }
    done
}

#[test]
fn full_local_clean_removes_the_testnet() {
    assert_eq!(
        steps(InfraType::Local, CleanScope::Full, false, &[]),
        vec![STOP, CleanStep::FindTestnetDir, CleanStep::RemoveTestnetDir]
    );
}

#[test]
fn full_remote_clean_destroys_the_infrastructure() {
    assert_eq!(
        steps(InfraType::Remote, CleanScope::Full, true, &[]),
        vec![
            STOP,
            CleanStep::FindMonitoring,
            CleanStep::StopMonitoring,
            CleanStep::CleanMonitoring,
            CleanStep::FindRemoteInfra,
            CleanStep::StopTunnels,
            CleanStep::FindTerraformState,
            DESTROY,
            CleanStep::FindTestnetDir,
            CleanStep::RemoveTestnetDir,
        ]
    );
}

#[test]
fn remote_clean_without_state_or_infrastructure() {
    assert_eq!(
        steps(InfraType::Remote, CleanScope::Full, false, &[CleanStep::FindTerraformState]),
        vec![
            STOP,
            CleanStep::FindRemoteInfra,
            CleanStep::StopTunnels,
            CleanStep::FindTerraformState,
            CleanStep::FindTestnetDir,
            CleanStep::RemoveTestnetDir,
        ]
    );
    assert_eq!(
        steps(
            InfraType::Remote,
            CleanScope::Full,
            false,
            &[CleanStep::FindRemoteInfra, CleanStep::FindTestnetDir]
        ),
        vec![STOP, CleanStep::FindRemoteInfra, CleanStep::FindTestnetDir]
    );
}

#[test]
fn failed_actions_do_not_stop_a_clean_up() {
    let no = [
        STOP,
        CleanStep::StopMonitoring,
        CleanStep::CleanMonitoring,
        CleanStep::StopTunnels,
        DESTROY,
        CleanStep::RemoveTestnetDir,
    ];
    assert_eq!(
        steps(InfraType::Remote, CleanScope::Full, true, &no),
        steps(InfraType::Remote, CleanScope::Full, true, &[])
    );
}

#[test]
fn monitoring_combines_with_every_mode() {
    let monitoring =
        [CleanStep::FindMonitoring, CleanStep::StopMonitoring, CleanStep::CleanMonitoring];
    for infra in [InfraType::Local, InfraType::Remote] {
        for mode in [
            CleanScope::Skip,
            CleanScope::Full,
            CleanScope::ExecutionData,
            CleanScope::ConsensusData,
            CleanScope::Data,
        ] {
            let with = steps(infra, mode, true, &[]);
            let rest: Vec<CleanStep> =
                with.iter().copied().filter(|s| !monitoring.contains(s)).collect();
            assert_eq!(rest, steps(infra, mode, false, &[]));
            assert_eq!(with[1..4], monitoring);
        }
    }
}

#[test]
fn monitoring_out_of_reach_is_left() {
    assert_eq!(
        steps(InfraType::Local, CleanScope::Skip, true, &[CleanStep::FindMonitoring]),
        vec![STOP, CleanStep::FindMonitoring]
    );
}

#[test]
fn data_scopes_touch_node_data_only() {
    for mode in [CleanScope::ExecutionData, CleanScope::ConsensusData, CleanScope::Data] {
        assert_eq!(
            steps(InfraType::Remote, mode, false, &[]),
            vec![STOP, CleanStep::FindNodes, CleanStep::CleanNodeData]
        );
        assert_eq!(
            steps(InfraType::Local, mode, false, &[CleanStep::FindNodes]),
            vec![STOP, CleanStep::FindNodes]
        );
    }
}

fn cleanups(nodes: &[&str], mode: CleanScope) -> Vec<(String, Layer)> {
    let nodes: Vec<String> = nodes.iter().map(|n| n.to_string()).collect();
    clean_node_data(&nodes, &mode).into_iter().map(|c| (c.node, c.layer)).collect()
}

#[test]
fn node_data_is_cleaned_node_by_node() {
    assert_eq!(
        cleanups(&["validator1", "full1"], CleanScope::Data),
        vec![
            ("validator1".to_string(), Layer::Execution),
            ("validator1".to_string(), Layer::Consensus),
            ("full1".to_string(), Layer::Execution),
            ("full1".to_string(), Layer::Consensus),
        ]
    );
    assert_eq!(
        cleanups(&["a", "b"], CleanScope::ExecutionData),
        vec![("a".to_string(), Layer::Execution), ("b".to_string(), Layer::Execution)]
    );
    assert_eq!(
        cleanups(&["a"], CleanScope::ConsensusData),
        vec![("a".to_string(), Layer::Consensus)]
    );
    assert_eq!(cleanups(&[], CleanScope::Full), vec![]);
}

#[test]
fn remote_node_data_is_cleaned_layer_by_layer() {
    assert_eq!(clean_remote_node_data(&CleanScope::ExecutionData), vec![Layer::Execution]);
    assert_eq!(clean_remote_node_data(&CleanScope::ConsensusData), vec![Layer::Consensus]);
    assert_eq!(
        clean_remote_node_data(&CleanScope::Data),
        vec![Layer::Execution, Layer::Consensus]
    );
}

#[test]
fn data_subdirectories() {
    assert_eq!(RETH_DATA_SUBDIRS, ["db", "static_files", "blobstore", "invalid_block_hooks"]);
    assert_eq!(MALACHITE_DATA_SUBDIRS, ["store.db", "wal"]);
}

#[test]
fn removals_follow_the_infrastructure() {
    let nodes = vec!["a".to_string(), "b".to_string()];
    let removals = |infra, mode| -> Vec<(Option<String>, Layer)> {
        let job = CleanJob { infra, mode, include_monitoring: false };
        node_data_removals(job, &nodes).into_iter().map(|r| (r.node, r.layer)).collect()
    };
    let of = |name: &str, layer| (Some(name.to_string()), layer);
    assert_eq!(
        removals(InfraType::Local, CleanScope::Data),
        vec![
            of("a", Layer::Execution),
            of("a", Layer::Consensus),
            of("b", Layer::Execution),
            of("b", Layer::Consensus),
        ]
    );
    assert_eq!(
        removals(InfraType::Local, CleanScope::ConsensusData),
        vec![of("a", Layer::Consensus), of("b", Layer::Consensus)]
    );
    assert_eq!(
        removals(InfraType::Remote, CleanScope::Data),
        vec![(None, Layer::Execution), (None, Layer::Consensus)]
    );
    assert_eq!(
        removals(InfraType::Remote, CleanScope::ExecutionData),
        vec![(None, Layer::Execution)]
    );
}
