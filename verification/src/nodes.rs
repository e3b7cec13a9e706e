//! The list of the nodes of a testnet, as JSON.

use vstd::prelude::*;
use vstd::string::*;

use crate::error;
use crate::error::{ErrorKind, ToolError};

verus! {

/// A JSON value without parts; `T` is what texts are made of.
#[derive(Debug)]
pub enum JsonScalar<T> {
    Null,
    Text(T),
    Number(u64),
    Flag(bool),
}

impl View for JsonScalar<String> {
    type V = JsonScalar<Seq<char>>;

    open spec fn view(&self) -> JsonScalar<Seq<char>> {
        match self {
            JsonScalar::Null => JsonScalar::Null,
            JsonScalar::Text(t) => JsonScalar::Text(t@),
            JsonScalar::Number(n) => JsonScalar::Number(*n),
            JsonScalar::Flag(b) => JsonScalar::Flag(*b),
        }
    }
}

/// The members of an object: a value under each key.
pub type Members = Map<Seq<char>, JsonScalar<Seq<char>>>;

/// The JSON object of `serde_json`.
#[verifier::external_type_specification]
#[verifier::external_body]
#[verifier::reject_recursive_types(K)]
#[verifier::reject_recursive_types(V)]
pub struct ExJsonMap<K, V>(serde_json::Map<K, V>);

/// The JSON value of `serde_json`.
#[verifier::external_type_specification]
#[verifier::external_body]
pub struct ExJsonValue(serde_json::Value);

/// The members of a JSON object.
pub uninterp spec fn json_members(
    object: serde_json::Map<String, serde_json::Value>,
) -> Members;

/// The members of each object of a list.
pub open spec fn members_of(objects: Seq<serde_json::Map<String, serde_json::Value>>) -> Seq<Members> {
    Seq::new(objects.len(), |i: int| json_members(objects[i]))
}

/// The indented JSON text of an array of objects with the given members, or the text of the
/// error.
pub uninterp spec fn json_pretty(
    objects: Seq<Members>,
) -> Result<Seq<char>, Seq<char>>;

/// Makes an object without members. The call is `serde_json::Map::new`.
#[verifier::external_body]
fn json_object() -> (r: serde_json::Map<String, serde_json::Value>)
    ensures
        json_members(r) == Members::empty(),
{
    serde_json::Map::new()
}

/// Gives an object a member. The call is `serde_json::Map::insert`: the member is added, or its
/// value is replaced where the key is there already, and no other member changes.
#[verifier::external_body]
fn json_insert(
    object: &mut serde_json::Map<String, serde_json::Value>,
    key: &str,
    value: JsonScalar<String>,
)
    ensures
        json_members(*final(object)) == json_members(*old(object)).insert(key@, value@),
{
    let value = match value {
        JsonScalar::Null => serde_json::Value::Null,
        JsonScalar::Text(t) => serde_json::Value::String(t),
        JsonScalar::Number(n) => serde_json::Value::from(n),
        JsonScalar::Flag(b) => serde_json::Value::Bool(b),
    };
    object.insert(key.to_string(), value);
}

/// Writes an array of objects as indented JSON. The call is `serde_json::to_string_pretty`: its
/// text is a function of the objects' members, since an object keeps them sorted by key, and is
/// left to it. It fails only where a type refuses to be serialized or a key is not a string, and
/// neither happens here.
#[verifier::external_body]
fn json_text(objects: &Vec<serde_json::Map<String, serde_json::Value>>) -> (r: Result<
    String,
    String,
>)
    ensures
        serialized(r) == json_pretty(members_of(objects@)),
        r is Ok,
{
    serde_json::to_string_pretty(objects).map_err(|e| e.to_string())
}

/// A text that was written, or the text of the error.
pub open spec fn serialized(r: Result<String, String>) -> Result<Seq<char>, Seq<char>> {
    match r {
        Ok(t) => Ok(t@),
        Err(e) => Err(e@),
    }
}

/// What is listed of a node.
#[derive(Debug)]
pub struct NodeInfo {
    pub name: String,
    pub public_ip: Option<String>,
    pub execution_http_url: String,
    pub execution_ws_url: String,
    pub execution_http_port: u16,
    pub execution_ws_port: u16,
    pub consensus_port: u16,
    pub consensus_rpc_port: u16,
    pub consensus_enabled: bool,
    pub follow: bool,
}

impl NodeInfo {
    /// The members of the object that lists the node.
    pub open spec fn members(self) -> Members {
        Members::empty().insert("name"@, JsonScalar::Text(self.name@)).insert(
            "public_ip"@,
            match self.public_ip {
                Some(ip) => JsonScalar::Text(ip@),
                None => JsonScalar::Null,
            },
        ).insert("execution_http_url"@, JsonScalar::Text(self.execution_http_url@)).insert(
            "execution_ws_url"@,
            JsonScalar::Text(self.execution_ws_url@),
        ).insert("execution_http_port"@, JsonScalar::Number(self.execution_http_port as u64)).insert(
            "execution_ws_port"@,
            JsonScalar::Number(self.execution_ws_port as u64),
        ).insert("consensus_port"@, JsonScalar::Number(self.consensus_port as u64)).insert(
            "consensus_rpc_port"@,
            JsonScalar::Number(self.consensus_rpc_port as u64),
        ).insert("consensus_enabled"@, JsonScalar::Flag(self.consensus_enabled)).insert(
            "follow"@,
            JsonScalar::Flag(self.follow),
        )
    }
}

/// Lists one node.
fn node_entry(node: &NodeInfo) -> (r: serde_json::Map<String, serde_json::Value>)
    ensures
        json_members(r) == node.members(),
{
    let mut entry = json_object();
    json_insert(&mut entry, "name", JsonScalar::Text(node.name.clone()));
    let public_ip = match &node.public_ip {
        Some(ip) => JsonScalar::Text(ip.clone()),
        None => JsonScalar::Null,
    };
    json_insert(&mut entry, "public_ip", public_ip);
    json_insert(
        &mut entry,
        "execution_http_url",
        JsonScalar::Text(node.execution_http_url.clone()),
    );
    json_insert(&mut entry, "execution_ws_url", JsonScalar::Text(node.execution_ws_url.clone()));
    json_insert(
        &mut entry,
        "execution_http_port",
        JsonScalar::Number(node.execution_http_port as u64),
    );
    json_insert(
        &mut entry,
        "execution_ws_port",
        JsonScalar::Number(node.execution_ws_port as u64),
    );
    json_insert(&mut entry, "consensus_port", JsonScalar::Number(node.consensus_port as u64));
    json_insert(
        &mut entry,
        "consensus_rpc_port",
        JsonScalar::Number(node.consensus_rpc_port as u64),
    );
    json_insert(&mut entry, "consensus_enabled", JsonScalar::Flag(node.consensus_enabled));
    json_insert(&mut entry, "follow", JsonScalar::Flag(node.follow));
    entry
}

/// The members of the objects that list the nodes.
pub open spec fn listing(nodes: Seq<NodeInfo>) -> Seq<Members> {
    Seq::new(nodes.len(), |i: int| nodes[i].members())
}

/// What is answered with a listing that was written, or not.
pub open spec fn listing_answer(written: Result<Seq<char>, Seq<char>>) -> Result<
    Seq<char>,
    (ErrorKind, Seq<char>),
> {
    match written {
        Ok(t) => Ok(t),
        Err(e) => Err(error::failure("Failed to serialize node list: "@, e)),
    }
}

/// Answers with a listing that was written, or reports that it was not.
pub fn node_list_answer(written: Result<String, String>) -> (r: Result<String, ToolError>)
    ensures
        error::answer(r) == listing_answer(serialized(written)),
{
    match written {
        Ok(t) => Ok(t),
        Err(e) => Err(error::operation_failed("Failed to serialize node list: ", e.as_str())),
    }
}

/// Lists all nodes in the testnet with their names, IPs, ports, and URLs.
pub fn list_nodes(nodes: &Vec<NodeInfo>) -> (r: Result<String, ToolError>)
    ensures
        error::answer(r) == listing_answer(json_pretty(listing(nodes@))),
        r is Ok,
{
    let mut entries: Vec<serde_json::Map<String, serde_json::Value>> = Vec::new();
    let mut i: usize = 0;
    while i < nodes.len()
        invariant
            i <= nodes.len(),
            members_of(entries@) == listing(nodes@.take(i as int)),
        decreases nodes.len() - i,
    {
        entries.push(node_entry(&nodes[i]));
        i = i + 1;
        assert(members_of(entries@) =~= listing(nodes@.take(i - 1)).push(nodes[i - 1].members()));
        assert(members_of(entries@) =~= listing(nodes@.take(i as int)));
    }
    assert(nodes@.take(nodes@.len() as int) =~= nodes@);
    let written = json_text(&entries);
    node_list_answer(written)
}

// ── Laws ────────────────────────────────────────────────────────────────

/// Each thing that is known of a node is listed under its own key, as text, number or flag; an
/// address that is not known is listed as null. Nothing else is listed.
pub proof fn law_nodes_are_listed_whole(node: NodeInfo)
    ensures
        ({
            let members = node.members();
            &&& members["name"@] == JsonScalar::Text(node.name@)
            &&& node.public_ip matches Some(ip) ==> members["public_ip"@] == JsonScalar::Text(ip@)
            &&& node.public_ip is None ==> members["public_ip"@] == JsonScalar::<Seq<char>>::Null
            &&& members["execution_http_url"@] == JsonScalar::Text(node.execution_http_url@)
            &&& members["execution_ws_url"@] == JsonScalar::Text(node.execution_ws_url@)
            &&& members["execution_http_port"@] matches JsonScalar::Number(n) && n
                == node.execution_http_port
            &&& members["execution_ws_port"@] matches JsonScalar::Number(n) && n
                == node.execution_ws_port
            &&& members["consensus_port"@] matches JsonScalar::Number(n) && n == node.consensus_port
            &&& members["consensus_rpc_port"@] matches JsonScalar::Number(n) && n
                == node.consensus_rpc_port
            &&& members["consensus_enabled"@] == JsonScalar::<Seq<char>>::Flag(
                node.consensus_enabled,
            )
            &&& members["follow"@] == JsonScalar::<Seq<char>>::Flag(node.follow)
            &&& members.dom() == set![
                "name"@,
                "public_ip"@,
                "execution_http_url"@,
                "execution_ws_url"@,
                "execution_http_port"@,
                "execution_ws_port"@,
                "consensus_port"@,
                "consensus_rpc_port"@,
                "consensus_enabled"@,
                "follow"@,
            ]
        }),
{
    reveal_strlit("name");
    reveal_strlit("public_ip");
    reveal_strlit("execution_http_url");
    reveal_strlit("execution_ws_url");
    reveal_strlit("execution_http_port");
    reveal_strlit("execution_ws_port");
    reveal_strlit("consensus_port");
    reveal_strlit("consensus_rpc_port");
    reveal_strlit("consensus_enabled");
    reveal_strlit("follow");
    assert("name"@.len() == 4);
    assert("public_ip"@.len() == 9);
    assert("execution_http_url"@.len() == 18);
    assert("execution_ws_url"@.len() == 16);
    assert("execution_http_port"@.len() == 19);
    assert("execution_ws_port"@.len() == 17);
    assert("consensus_port"@.len() == 14);
    assert("consensus_rpc_port"@.len() == 18);
    assert("consensus_enabled"@.len() == 17);
    assert("follow"@.len() == 6);
    assert("execution_http_url"@[0] != "consensus_rpc_port"@[0]);
    assert("execution_ws_port"@[0] != "consensus_enabled"@[0]);
}

/// The nodes are listed one for one and in their order.
pub proof fn law_nodes_are_listed_in_order(nodes: Seq<NodeInfo>, i: int)
    requires
        0 <= i < nodes.len(),
    ensures
        listing(nodes).len() == nodes.len(),
        listing(nodes)[i] == nodes[i].members(),
{
}

/// The members of a list of objects are those of each object, in their order.
pub proof fn law_members_follow_objects(
    objects: Seq<serde_json::Map<String, serde_json::Value>>,
    i: int,
)
    requires
        0 <= i < objects.len(),
    ensures
        members_of(objects).len() == objects.len(),
        members_of(objects)[i] == json_members(objects[i]),
{
}

/// A value is told as it is.
pub proof fn law_values_are_told(t: String, n: u64, b: bool)
    ensures
        JsonScalar::<String>::Null@ == JsonScalar::<Seq<char>>::Null,
        JsonScalar::Text(t)@ == JsonScalar::Text(t@),
        JsonScalar::<String>::Number(n)@ == JsonScalar::<Seq<char>>::Number(n),
        JsonScalar::<String>::Flag(b)@ == JsonScalar::<Seq<char>>::Flag(b),
{
}

/// A listing that was written is the answer as it is; otherwise the answer is the cause.
pub proof fn law_listings_are_answered(t: String, e: String)
    ensures
        serialized(Ok(t)) == Ok::<_, Seq<char>>(t@),
        serialized(Err(e)) == Err::<Seq<char>, _>(e@),
        listing_answer(Ok(t@)) == Ok::<_, (ErrorKind, Seq<char>)>(t@),
        listing_answer(Err(e@)) == Err::<Seq<char>, _>(
            (ErrorKind::InternalError, "Failed to serialize node list: "@ + e@),
        ),
{
}

} // verus!
