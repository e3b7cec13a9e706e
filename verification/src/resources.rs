//! The server as its clients see it: what it is, the resources it offers, and the transport it
//! speaks over.

use vstd::prelude::*;
use vstd::string::*;

use crate::error;
use crate::error::{operation_failed, ErrorKind, ToolError};
use crate::text;

verus! {

/// The URI of the testnet's manifest.
pub const MANIFEST_URI: &'static str = "quake://manifest";

/// The URI of the nodes' metadata.
pub const NODES_URI: &'static str = "quake://nodes";

/// How the server tells clients to use it.
pub const INSTRUCTIONS: &'static str =
    "This server provides tools for observing and managing a running Arc testnet via Quake.\n\n\
    Observability: testnet_status (overview), list_nodes (node details), get_block_heights \
    (chain heights), get_mempool (transaction pool), get_peers (network connectivity), \
    get_mesh (gossipsub mesh analysis), get_perf (block latency and throughput), \
    get_health (consensus health metrics).\n\n\
    Lifecycle: start_nodes, stop_nodes, restart_testnet, clean_testnet.\n\n\
    Perturbations: perturb_disconnect (network partition), perturb_kill (force stop/restart), \
    perturb_pause (freeze/unpause), perturb_restart (clean restart), perturb_upgrade \
    (upgrade to new image).\n\n\
    Testing: run_tests (E2E tests), wait_height (wait for block height), \
    valset_update (update validator voting power).\n\n\
    Remote: remote_ssh (run a command on a node or CC via SSH), \
    remote_ssm (manage SSM tunnels: start/stop/list), \
    remote_provision (upload config files to CC). Remote testnets only.\n\n\
    Resources: quake://manifest (testnet TOML config), quake://nodes (node metadata JSON).";

/// What the server tells about itself.
#[derive(Debug)]
pub struct ServerInfo {
    pub name: String,
    pub version: String,
    pub description: String,
    pub instructions: String,
    /// Whether clients can subscribe to resources; not told where `None`.
    pub resources_subscribe: Option<bool>,
    /// Whether clients are told when the list of resources changes.
    pub resources_list_changed: Option<bool>,
    /// Whether clients are told when the list of tools changes.
    pub tools_list_changed: Option<bool>,
}

/// What the server tells about itself; `version` is the version of the program.
pub fn get_info(version: String) -> (r: ServerInfo)
    ensures
        r.name@ == "quake-mcp-server"@,
        r.version == version,
        r.description@ == "MCP server for observing and managing Arc testnet state via Quake"@,
        r.instructions@ == INSTRUCTIONS@,
        r.resources_subscribe == None::<bool>,
        r.resources_list_changed == Some(false),
        r.tools_list_changed == Some(false),
{
    ServerInfo {
        name: String::from_str("quake-mcp-server"),
        version,
        description: String::from_str(
            "MCP server for observing and managing Arc testnet state via Quake",
        ),
        instructions: String::from_str(INSTRUCTIONS),
        resources_subscribe: None,
        resources_list_changed: Some(false),
        tools_list_changed: Some(false),
    }
}

/// A resource that the server offers.
#[derive(Debug, Clone, Copy, PartialEq, Eq, Structural)]
pub enum ResourceId {
    /// The manifest of the testnet, in TOML.
    Manifest,
    /// The metadata of all nodes, in JSON.
    Nodes,
}

impl ResourceId {
    /// The URI of the resource.
    pub open spec fn uri(self) -> Seq<char> {
        match self {
            ResourceId::Manifest => MANIFEST_URI@,
            ResourceId::Nodes => NODES_URI@,
        }
    }

    /// The resource with a URI, if there is one.
    pub open spec fn of_uri(uri: Seq<char>) -> Option<ResourceId> {
        if uri == MANIFEST_URI@ {
            Some(ResourceId::Manifest)
        } else if uri == NODES_URI@ {
            Some(ResourceId::Nodes)
        } else {
            None
        }
    }
}

/// A resource in the list of resources; `T` is what texts are made of.
#[derive(Debug)]
pub struct ResourceEntry<T> {
    pub uri: T,
    pub name: T,
    pub description: T,
    pub mime_type: T,
}

impl View for ResourceEntry<String> {
    type V = ResourceEntry<Seq<char>>;

    open spec fn view(&self) -> ResourceEntry<Seq<char>> {
        ResourceEntry {
            uri: self.uri@,
            name: self.name@,
            description: self.description@,
            mime_type: self.mime_type@,
        }
    }
}

/// The list of resources.
pub open spec fn resource_entries() -> Seq<ResourceEntry<Seq<char>>> {
    seq![
        ResourceEntry {
            uri: MANIFEST_URI@,
            name: "Testnet manifest"@,
            description: "Current testnet manifest (TOML configuration)"@,
            mime_type: "application/toml"@,
        },
        ResourceEntry {
            uri: NODES_URI@,
            name: "Node metadata"@,
            description: "All node metadata as JSON"@,
            mime_type: "application/json"@,
        },
    ]
}

/// Lists the resources.
pub fn list_resources() -> (r: Vec<ResourceEntry<String>>)
    ensures
        r@.map_values(|entry: ResourceEntry<String>| entry@) == resource_entries(),
{
    let mut r: Vec<ResourceEntry<String>> = Vec::new();
    r.push(
        ResourceEntry {
            uri: String::from_str(MANIFEST_URI),
            name: String::from_str("Testnet manifest"),
            description: String::from_str("Current testnet manifest (TOML configuration)"),
            mime_type: String::from_str("application/toml"),
        },
    );
    r.push(
        ResourceEntry {
            uri: String::from_str(NODES_URI),
            name: String::from_str("Node metadata"),
            description: String::from_str("All node metadata as JSON"),
            mime_type: String::from_str("application/json"),
        },
    );
    assert(r@.map_values(|entry: ResourceEntry<String>| entry@) =~= resource_entries());
    r
}

/// Decides which resource a URI asks for. For the manifest, the file that points to it is to be
/// read next; for the nodes, their metadata is to be written as JSON.
pub fn read_resource(uri: &str) -> (r: Result<ResourceId, ToolError>)
    ensures
        error::outcome(r) == match ResourceId::of_uri(uri@) {
            Some(id) => Ok(id),
            None => Err((ErrorKind::InvalidParams, "Unknown resource URI: "@ + uri@)),
        },
{
    let asked = String::from_str(uri);
    if asked == String::from_str(MANIFEST_URI) {
        Ok(ResourceId::Manifest)
    } else if asked == String::from_str(NODES_URI) {
        Ok(ResourceId::Nodes)
    } else {
        Err(ToolError::invalid_params(String::from_str("Unknown resource URI: ").concat(uri)))
    }
}

/// Takes the path of the manifest from the file that points to it: its content without the white
/// space around it. That file is to be read next.
pub fn manifest_path(pointer: Result<String, String>) -> (r: Result<String, ToolError>)
    ensures
        error::answer(r) == match pointer {
            Ok(t) => Ok(text::trimmed(t@)),
            Err(e) => Err(error::failure("Failed to read .last_manifest: "@, e@)),
        },
{
    match pointer {
        Ok(t) => Ok(text::trim(t.as_str())),
        Err(e) => Err(operation_failed("Failed to read .last_manifest: ", e.as_str())),
    }
}

/// The content of a resource.
#[derive(Debug)]
pub struct ResourceText {
    pub text: String,
    pub uri: String,
}

/// The content of a resource that was read or written, or the error.
pub open spec fn resource_result(id: ResourceId, content: Result<String, String>) -> Result<
    (Seq<char>, Seq<char>),
    (ErrorKind, Seq<char>),
> {
    match (id, content) {
        (id, Ok(t)) => Ok((t@, id.uri())),
        (ResourceId::Manifest, Err(e)) => Err(
            error::failure("Failed to read manifest file: "@, e@),
        ),
        (ResourceId::Nodes, Err(e)) => Err(error::failure("Failed to serialize nodes: "@, e@)),
    }
}

/// Answers with the content of a resource under its URI.
pub fn resource_answer(id: ResourceId, content: Result<String, String>) -> (r: Result<
    ResourceText,
    ToolError,
>)
    ensures
        match r {
            Ok(resource) => Ok((resource.text@, resource.uri@)),
            Err(e) => Err(e@),
        } == resource_result(id, content),
{
    match content {
        Ok(text) => {
            let uri = match id {
                ResourceId::Manifest => String::from_str(MANIFEST_URI),
                ResourceId::Nodes => String::from_str(NODES_URI),
            };
            Ok(ResourceText { text, uri })
        },
        Err(e) => match id {
            ResourceId::Manifest => Err(
                operation_failed("Failed to read manifest file: ", e.as_str()),
            ),
            ResourceId::Nodes => Err(operation_failed("Failed to serialize nodes: ", e.as_str())),
        },
    }
}

/// The resources that can be read are exactly those that are listed, and each is read under the
/// URI that it is listed with.
pub proof fn law_listed_resources_are_readable(uri: Seq<char>)
    ensures
        ResourceId::of_uri(uri) is Some <==> exists|i: int|
            0 <= i < resource_entries().len() && (#[trigger] resource_entries()[i]).uri == uri,
        ResourceId::of_uri(uri) matches Some(id) ==> id.uri() == uri,
{
    assert(resource_entries()[0].uri == MANIFEST_URI@);
    assert(resource_entries()[1].uri == NODES_URI@);
}

// ── Transport ───────────────────────────────────────────────────────────

/// How the server talks to its clients.
#[derive(Debug)]
pub enum Transport {
    /// Over standard input and output: for direct integration with a client program.
    Stdio,
    /// Over HTTP+SSE at this address: for remote clients over the network.
    Http(String),
}

/// Chooses the transport: stdio by default, HTTP+SSE on all interfaces where it is asked for.
pub fn run_server(http: bool, port: u16) -> (r: Transport)
    ensures
        http <==> r is Http,
        r matches Transport::Http(address) ==> address@ == "0.0.0.0:"@ + text::decimal(port as nat),
{
    if http {
        let mut address = String::from_str("0.0.0.0:");
        address.append(text::decimal_text(port as u64).as_str());
        Transport::Http(address)
    } else {
        Transport::Stdio
    }
}

/// The message of a server that could not listen.
pub fn bind_failure(port: u16, cause: &str) -> (r: String)
    ensures
        r@ == "Failed to bind to port "@ + text::decimal(port as nat) + ": "@ + cause@,
{
    let mut message = String::from_str("Failed to bind to port ");
    message.append(text::decimal_text(port as u64).as_str());
    message.append(": ");
    message.append(cause);
    message
}

// ── Laws ────────────────────────────────────────────────────────────────

/// The manifest and the metadata of the nodes are the resources, each with a URI of its own, and
/// no other URI asks for one.
pub proof fn law_resources_have_their_uris(uri: Seq<char>)
    ensures
        ResourceId::Manifest.uri() == "quake://manifest"@,
        ResourceId::Nodes.uri() == "quake://nodes"@,
        ResourceId::of_uri(uri) == Some(ResourceId::Manifest) <==> uri == "quake://manifest"@,
        ResourceId::of_uri(uri) == Some(ResourceId::Nodes) <==> uri == "quake://nodes"@,
{
    reveal_strlit("quake://manifest");
    reveal_strlit("quake://nodes");
}

/// The list has two entries. The first is the manifest, in TOML, and the second the metadata of
/// the nodes, in JSON.
pub proof fn law_resources_are_listed()
    ensures
        resource_entries().len() == 2,
        resource_entries()[0].uri == "quake://manifest"@,
        resource_entries()[0].name == "Testnet manifest"@,
        resource_entries()[0].description == "Current testnet manifest (TOML configuration)"@,
        resource_entries()[0].mime_type == "application/toml"@,
        resource_entries()[1].uri == "quake://nodes"@,
        resource_entries()[1].name == "Node metadata"@,
        resource_entries()[1].description == "All node metadata as JSON"@,
        resource_entries()[1].mime_type == "application/json"@,
{
}

/// An entry is told as it is.
pub proof fn law_entries_are_told(entry: ResourceEntry<String>)
    ensures
        entry@.uri == entry.uri@,
        entry@.name == entry.name@,
        entry@.description == entry.description@,
        entry@.mime_type == entry.mime_type@,
{
}

/// The content of a resource is answered as it is, under the URI of the resource. What could not
/// be read or written is an internal error with the cause, of its own for each resource.
pub proof fn law_contents_are_answered(t: String, e: String)
    ensures
        resource_result(ResourceId::Manifest, Ok(t)) == Ok::<_, (ErrorKind, Seq<char>)>(
            (t@, "quake://manifest"@),
        ),
        resource_result(ResourceId::Nodes, Ok(t)) == Ok::<_, (ErrorKind, Seq<char>)>(
            (t@, "quake://nodes"@),
        ),
        resource_result(ResourceId::Manifest, Err(e)) == Err::<(Seq<char>, Seq<char>), _>(
            (ErrorKind::InternalError, "Failed to read manifest file: "@ + e@),
        ),
        resource_result(ResourceId::Nodes, Err(e)) == Err::<(Seq<char>, Seq<char>), _>(
            (ErrorKind::InternalError, "Failed to serialize nodes: "@ + e@),
        ),
{
}

/// The instructions name every tool under its heading, with what it is for, and then the
/// resources.
pub proof fn law_instructions_name_the_tools()
    ensures
        INSTRUCTIONS@
            == "This server provides tools for observing and managing a running Arc testnet via Quake.\n\n\
            Observability: testnet_status (overview), list_nodes (node details), get_block_heights \
            (chain heights), get_mempool (transaction pool), get_peers (network connectivity), \
            get_mesh (gossipsub mesh analysis), get_perf (block latency and throughput), \
            get_health (consensus health metrics).\n\n\
            Lifecycle: start_nodes, stop_nodes, restart_testnet, clean_testnet.\n\n\
            Perturbations: perturb_disconnect (network partition), perturb_kill (force stop/restart), \
            perturb_pause (freeze/unpause), perturb_restart (clean restart), perturb_upgrade \
            (upgrade to new image).\n\n\
            Testing: run_tests (E2E tests), wait_height (wait for block height), \
            valset_update (update validator voting power).\n\n\
            Remote: remote_ssh (run a command on a node or CC via SSH), \
            remote_ssm (manage SSM tunnels: start/stop/list), \
            remote_provision (upload config files to CC). Remote testnets only.\n\n\
            Resources: quake://manifest (testnet TOML config), quake://nodes (node metadata JSON)."@,
{
}

} // verus!
