use quake::error::ErrorKind;
use quake::resources::{
    bind_failure, get_info, list_resources, manifest_path, read_resource, resource_answer,
    run_server, ResourceId, Transport,
};

#[test]
fn server_info() {
    let info = get_info("v1.2.3".to_string());
    assert_eq!(info.name, "quake-mcp-server");
    assert_eq!(info.version, "v1.2.3");
    assert_eq!(info.description, "MCP server for observing and managing Arc testnet state via Quake");
    assert!(info.instructions.starts_with(
        "This server provides tools for observing and managing a running Arc testnet via Quake.\n\n\
         Observability: testnet_status (overview), list_nodes (node details), get_block_heights \
         (chain heights), "
    ));
    assert!(info.instructions.ends_with(
        "Resources: quake://manifest (testnet TOML config), quake://nodes (node metadata JSON)."
    ));
    assert_eq!(info.resources_subscribe, None);
    assert_eq!(info.resources_list_changed, Some(false));
    assert_eq!(info.tools_list_changed, Some(false));
}

#[test]
fn listed_resources_can_be_read() {
    let listed = list_resources();
    assert_eq!(listed.len(), 2);
    assert_eq!(listed[0].uri, "quake://manifest");
    assert_eq!(listed[0].name, "Testnet manifest");
    assert_eq!(listed[0].description, "Current testnet manifest (TOML configuration)");
    assert_eq!(listed[0].mime_type, "application/toml");
    assert_eq!(listed[1].uri, "quake://nodes");
    assert_eq!(listed[1].name, "Node metadata");
    assert_eq!(listed[1].description, "All node metadata as JSON");
    assert_eq!(listed[1].mime_type, "application/json");
    assert_eq!(read_resource(&listed[0].uri).unwrap(), ResourceId::Manifest);
    assert_eq!(read_resource(&listed[1].uri).unwrap(), ResourceId::Nodes);
}

#[test]
fn unknown_resources() {
    for uri in ["", "quake://", "quake://manifest/", "QUAKE://nodes"] {
        let e = read_resource(uri).unwrap_err();
        assert_eq!(e.kind, ErrorKind::InvalidParams);
        assert_eq!(e.message, format!("Unknown resource URI: {uri}"));
    }
}

#[test]
fn manifest_paths_are_trimmed() {
    assert_eq!(manifest_path(Ok("  a b.toml\n".to_string())).unwrap(), "a b.toml");
    let e = manifest_path(Err("not found".to_string())).unwrap_err();
    assert_eq!(e.kind, ErrorKind::InternalError);
    assert_eq!(e.message, "Failed to read .last_manifest: not found");
}

#[test]
fn resource_answers() {
    let content = || Ok("content".to_string());
    let broken = || Err("broken".to_string());
    let answer = resource_answer(ResourceId::Manifest, content()).unwrap();
    assert_eq!((answer.text.as_str(), answer.uri.as_str()), ("content", "quake://manifest"));
    let answer = resource_answer(ResourceId::Nodes, content()).unwrap();
    assert_eq!((answer.text.as_str(), answer.uri.as_str()), ("content", "quake://nodes"));
    let e = resource_answer(ResourceId::Manifest, broken()).unwrap_err();
    assert_eq!(e.message, "Failed to read manifest file: broken");
    let e = resource_answer(ResourceId::Nodes, broken()).unwrap_err();
    assert_eq!(e.kind, ErrorKind::InternalError);
    assert_eq!(e.message, "Failed to serialize nodes: broken");
}

#[test]
fn transports() {
    assert!(matches!(run_server(false, 8080), Transport::Stdio));
    match run_server(true, 8080) {
        Transport::Http(address) => assert_eq!(address, "0.0.0.0:8080"),
        Transport::Stdio => panic!("HTTP was asked for"),
    }
    assert_eq!(bind_failure(80, "in use"), "Failed to bind to port 80: in use");
}
