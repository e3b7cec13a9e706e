use quake::report::{
    enode_address, get_block_heights, get_mempool, get_peers, mesh_display_options,
    missing_metrics, status_query, testnet_status, Fetched, NodeAddresses, NodeHeight, NodeMempool, NodePeers,
    NodeStatus, PeerInfo, StatusData, StatusQuery, RPC_TIMEOUT_SECS,
};
use quake::tools::{ensure_ssm_tunnels, TunnelsReady};

fn ready() -> TunnelsReady {
    ensure_ssm_tunnels(&Err("local".to_string()), None).unwrap()
}

fn height(name: &str, height: Result<u64, &str>) -> NodeHeight {
    NodeHeight { name: name.to_string(), height: height.map_err(|e| e.to_string()) }
}

fn peer(enode: &str) -> PeerInfo {
    PeerInfo {
        enode: enode.to_string(),
        local_address: "172.19.0.2:30303".to_string(),
        remote_address: "172.19.0.3:41000".to_string(),
        inbound: true,
        trusted: false,
        static_node: true,
    }
}

#[test]
fn status_with_validators() {
    let nodes = vec![
        NodeStatus {
            name: "validator1".to_string(),
            height: Ok("120".to_string()),
            peers: Some(4),
            voting_power: Some("1000".to_string()),
        },
        NodeStatus {
            name: "a-node-with-a-name-of-more-than-twenty".to_string(),
            height: Err("connection refused".to_string()),
            peers: None,
            voting_power: None,
        },
    ];
    let report = testnet_status(&ready(), &Fetched::Data(StatusData::WithValidators(nodes)));
    let expected = [
        format!("{:<20} {:>8} {:>7} {:>14}", "Node", "Height", "Peers", "Voting Power"),
        "-".repeat(55),
        format!("{:<20} {:>8} {:>7} {:>14}", "validator1", "120", "4", "1000"),
        format!(
            "{:<20} {:>8} {:>7} {:>14}",
            "a-node-with-a-name-of-more-than-twenty", "err: connection refused", "?", "?"
        ),
    ]
    .join("\n");
    assert_eq!(report, expected);
    assert!(report.contains("validator1                120       4           1000"));
}

#[test]
fn status_without_validators() {
    let data = StatusData::WithoutValidators {
        heights: vec![
            height("validator1", Ok(7)),
            height("validator2", Err("timeout")),
            height("full1", Ok(18446744073709551615)),
        ],
        peers: vec![
            NodePeers { name: "validator1".to_string(), peers: vec![peer("a"), peer("b")] },
            NodePeers { name: "full1".to_string(), peers: vec![peer("a")] },
            NodePeers { name: "validator1".to_string(), peers: vec![] },
        ],
    };
    let row = |name: &str, height: &str, peers: &str| {
        format!("{:<20} {:>8} {:>7} {:>14}", name, height, peers, "n/a")
    };
    assert_eq!(
        testnet_status(&ready(), &Fetched::Data(data)),
        [
            format!("{:<20} {:>8} {:>7} {:>14}", "Node", "Height", "Peers", "Voting Power"),
            "-".repeat(55),
            row("validator1", "7", "0"),
            row("validator2", "err: timeout", "?"),
            row("full1", "18446744073709551615", "1"),
        ]
        .join("\n")
    );
}

#[test]
fn queries_that_time_out() {
    assert_eq!(RPC_TIMEOUT_SECS, 15);
    assert!(testnet_status(&ready(), &Fetched::TimedOut)
        .ends_with("\n(timed out after 15s fetching node data)"));
    assert!(get_block_heights(&ready(), &Fetched::TimedOut)
        .ends_with("\n(timed out after 15s fetching block heights)"));
    assert!(get_mempool(&ready(), &Fetched::TimedOut)
        .ends_with("\n(timed out after 15s fetching mempool status)"));
    assert_eq!(
        get_peers(&ready(), &Fetched::TimedOut, &vec![]),
        "(timed out after 15s fetching peer info)"
    );
}

#[test]
fn block_heights() {
    let nodes = vec![height("validator1", Ok(0)), height("v2", Err("no route"))];
    assert_eq!(
        get_block_heights(&ready(), &Fetched::Data(nodes)),
        "Node                     Height\n\
         --------------------------------\n\
         validator1                    0\n\
         v2                   err: no route"
    );
    assert_eq!(
        get_block_heights(&ready(), &Fetched::Data(vec![])),
        "Node                     Height\n--------------------------------"
    );
}

#[test]
fn mempool() {
    let pool = |name: &str, pending: i64, queued: i64| NodeMempool {
        name: name.to_string(),
        pending,
        queued,
    };
    let nodes = vec![pool("validator1", 12, 0), pool("v2", -1, 9223372036854775807)];
    assert_eq!(
        get_mempool(&ready(), &Fetched::Data(nodes)),
        "Node                    Pending     Queued\n\
         --------------------------------------------\n\
         validator1                   12          0\n\
         v2                          err 9223372036854775807"
    );
}

#[test]
fn peers_are_named_after_nodes() {
    let nodes = vec![
        NodeAddresses {
            name: "validator1".to_string(),
            ips: vec!["172.19.0.2".to_string(), "172.20.0.2".to_string()],
        },
        NodeAddresses { name: "validator2".to_string(), ips: vec!["172.19.0.3".to_string()] },
    ];
    let peers = vec![
        NodePeers {
            name: "validator1".to_string(),
            peers: vec![
                peer("enode://abcd@172.19.0.3:30303"),
                peer("enode://abcd@10.0.0.1:30303?discport=0"),
            ],
        },
        NodePeers { name: "lonely".to_string(), peers: vec![] },
    ];
    assert_eq!(
        get_peers(&ready(), &Fetched::Data(peers), &nodes),
        "validator1 (2 peers)\n  \
         - validator2: local=172.19.0.2:30303, remote=172.19.0.3:41000, inbound=true, \
         trusted=false, static=true\n  \
         - unknown: local=172.19.0.2:30303, remote=172.19.0.3:41000, inbound=true, \
         trusted=false, static=true\n\
         lonely (0 peers)\n  \
         (no peers connected)"
    );
    assert_eq!(get_peers(&ready(), &Fetched::Data(vec![]), &nodes), "");
}

#[test]
fn the_last_node_with_an_address_names_the_peer() {
    let node = |name: &str| NodeAddresses {
        name: name.to_string(),
        ips: vec!["10.0.0.7".to_string()],
    };
    let peers = vec![NodePeers { name: "n".to_string(), peers: vec![peer("e@10.0.0.7:1")] }];
    let report = get_peers(&ready(), &Fetched::Data(peers), &vec![node("first"), node("second")]);
    assert!(report.contains("- second: "));
}

#[test]
fn enode_addresses() {
    for (enode, expected) in [
        ("enode://key@10.1.2.3:30303", "10.1.2.3"),
        ("enode://key@10.1.2.3", "10.1.2.3"),
        ("enode://key@host@other:1", "host"),
        ("enode://key@", ""),
        ("no at sign", "?"),
        ("", "?"),
        ("@:5", ""),
    ] {
        let host = enode.split('@').nth(1).unwrap_or("?");
        assert_eq!(host.split(':').next().unwrap_or("?"), expected);
        assert_eq!(enode_address(enode), expected);
    }
}

#[test]
fn metrics() {
    assert_eq!(
        missing_metrics(0),
        Some("No nodes responded to metrics requests. Is the testnet running?".to_string())
    );
    assert_eq!(missing_metrics(1), None);
    let options = mesh_display_options();
    assert!(options.show_counts && options.show_mesh);
    assert!(!options.show_peers && !options.show_peers_full);
}

#[test]
fn columns_line_up_and_rows_follow_the_nodes() {
    let names = ["validator1", "v", "a-name-of-twenty-ch."];
    let heights = || names.iter().map(|n| height(n, Ok(7))).collect::<Vec<NodeHeight>>();
    let pools = names
        .iter()
        .map(|n| NodeMempool { name: n.to_string(), pending: 1, queued: -1 })
        .collect();
    let data = StatusData::WithoutValidators { heights: heights(), peers: vec![] };
    for (table, width) in [
        (testnet_status(&ready(), &Fetched::Data(data)), 52),
        (get_block_heights(&ready(), &Fetched::Data(heights())), 31),
        (get_mempool(&ready(), &Fetched::Data(pools)), 42),
    ] {
        let lines: Vec<&str> = table.split('\n').collect();
        assert_eq!(lines.len(), 5);
        assert_eq!(lines[0].len(), width);
        for (i, name) in names.iter().enumerate() {
            assert_eq!(lines[2 + i].len(), width);
            assert!(lines[2 + i].starts_with(name));
        }
    }
}

#[test]
fn validators_are_asked_for_where_controllers_are_known() {
    assert_eq!(status_query(true), StatusQuery::LatestData);
    assert_eq!(status_query(false), StatusQuery::HeightsAndPeers);
}
