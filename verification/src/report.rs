//! The observability reports: tables and lists about the nodes of a testnet.
//!
//! A report that queries the nodes needs the tunnels to a remote testnet, and takes a
//! [`TunnelsReady`].

use vstd::prelude::*;
use vstd::string::*;

use crate::text;
use crate::tools::TunnelsReady;

verus! {

/// Overall timeout for RPC-based observability queries, in seconds. Prevents tools from hanging
/// when the proxy or a tunnel is degraded in remote mode.
pub const RPC_TIMEOUT_SECS: u64 = 15;

/// What a query of the nodes came to.
#[derive(Debug)]
pub enum Fetched<T> {
    Data(T),
    /// The query took longer than [`RPC_TIMEOUT_SECS`].
    TimedOut,
}

/// The latest block height of a node, or the text of the error.
#[derive(Debug)]
pub struct NodeHeight {
    pub name: String,
    pub height: Result<u64, String>,
}

/// The state of a node, with its validator as the contract knows it.
#[derive(Debug)]
pub struct NodeStatus {
    pub name: String,
    /// The latest block height, or the text of the error.
    pub height: Result<String, String>,
    /// How many peers are connected, if that is known.
    pub peers: Option<usize>,
    /// The voting power of the validator, if that is known.
    pub voting_power: Option<String>,
}

/// The sizes of a node's transaction pool; a negative number stands for an error.
#[derive(Debug)]
pub struct NodeMempool {
    pub name: String,
    pub pending: i64,
    pub queued: i64,
}

/// A peer as a node sees it.
#[derive(Debug)]
pub struct PeerInfo {
    pub enode: String,
    pub local_address: String,
    pub remote_address: String,
    pub inbound: bool,
    pub trusted: bool,
    pub static_node: bool,
}

/// The connected peers of a node.
#[derive(Debug)]
pub struct NodePeers {
    pub name: String,
    pub peers: Vec<PeerInfo>,
}

/// The private addresses of a node's execution layer.
#[derive(Debug)]
pub struct NodeAddresses {
    pub name: String,
    pub ips: Vec<String>,
}

/// What is known about the nodes for an overview.
#[derive(Debug)]
pub enum StatusData {
    /// The controllers are known, so the nodes' validators are as well.
    WithValidators(Vec<NodeStatus>),
    /// The controllers are not known.
    WithoutValidators { heights: Vec<NodeHeight>, peers: Vec<NodePeers> },
}

/// The line that reports a timeout.
pub open spec fn timeout_line(what: Seq<char>) -> Seq<char> {
    "(timed out after "@ + text::decimal(RPC_TIMEOUT_SECS as nat) + "s fetching "@ + what + ")"@
}

/// The lines of a report as one text.
pub open spec fn page(lines: Seq<Seq<char>>) -> Seq<char> {
    text::joined(lines, "\n"@)
}

/// The line that reports a timeout.
fn timeout_text(what: &str) -> (r: String)
    ensures
        r@ == timeout_line(what@),
{
    let mut r = String::from_str("(timed out after ");
    r.append(text::decimal_text(RPC_TIMEOUT_SECS).as_str());
    r.append("s fetching ");
    r.append(what);
    r.append(")");
    r
}

/// A height, or its error, in a column.
pub open spec fn height_cell(height: Result<Seq<char>, Seq<char>>) -> Seq<char> {
    match height {
        Ok(height) => height,
        Err(e) => "err: "@ + e,
    }
}

/// The height of a node, or its error, in a column.
pub open spec fn node_height_cell(node: NodeHeight) -> Seq<char> {
    height_cell(
        match node.height {
            Ok(height) => Ok(text::decimal(height as nat)),
            Err(e) => Err(e@),
        },
    )
}

/// The height of a node, or its error, in a column.
fn height_text(height: &Result<u64, String>) -> (r: String)
    ensures
        r@ == height_cell(
            match *height {
                Ok(height) => Ok(text::decimal(height as nat)),
                Err(e) => Err(e@),
            },
        ),
{
    match height {
        Ok(height) => text::decimal_text(*height),
        Err(e) => String::from_str("err: ").concat(e.as_str()),
    }
}

/// A number, or a mark that it is not known.
pub open spec fn count_cell(count: Option<nat>) -> Seq<char> {
    match count {
        Some(count) => text::decimal(count),
        None => "?"@,
    }
}

/// A number, or a mark that it is not known.
fn count_text(count: Option<usize>) -> (r: String)
    ensures
        r@ == count_cell(
            match count {
                Some(count) => Some(count as nat),
                None => None,
            },
        ),
{
    match count {
        Some(count) => text::decimal_text(count as u64),
        None => String::from_str("?"),
    }
}

// ── Overview ────────────────────────────────────────────────────────────

/// What is asked of the nodes for an overview.
#[derive(Debug, Clone, Copy, PartialEq, Eq, Structural)]
pub enum StatusQuery {
    /// Height, peers and validator of each node, in one query.
    LatestData,
    /// The heights of the nodes, then their peers.
    HeightsAndPeers,
}

/// The query for an overview: validators are asked for exactly where the controllers are known.
pub open spec fn query_for(controllers_known: bool) -> StatusQuery {
    if controllers_known {
        StatusQuery::LatestData
    } else {
        StatusQuery::HeightsAndPeers
    }
}

/// Chooses the query for an overview.
pub fn status_query(controllers_known: bool) -> (r: StatusQuery)
    ensures
        r == query_for(controllers_known),
{
    if controllers_known {
        StatusQuery::LatestData
    } else {
        StatusQuery::HeightsAndPeers
    }
}

/// Whether the data is what the query asks for.
pub open spec fn answers(query: StatusQuery, data: StatusData) -> bool {
    match query {
        StatusQuery::LatestData => data is WithValidators,
        StatusQuery::HeightsAndPeers => data is WithoutValidators,
    }
}

/// A row of the overview.
pub open spec fn status_row(
    name: Seq<char>,
    height: Seq<char>,
    peers: Seq<char>,
    voting_power: Seq<char>,
) -> Seq<char> {
    text::left_aligned(name, 20) + " "@ + text::right_aligned(height, 8) + " "@
        + text::right_aligned(peers, 7) + " "@ + text::right_aligned(voting_power, 14)
}

/// A row of the overview.
fn status_row_text(name: &str, height: &str, peers: &str, voting_power: &str) -> (r: String)
    ensures
        r@ == status_row(name@, height@, peers@, voting_power@),
{
    let mut r = text::align_left(name, 20);
    r.append(" ");
    r.append(text::align_right(height, 8).as_str());
    r.append(" ");
    r.append(text::align_right(peers, 7).as_str());
    r.append(" ");
    r.append(text::align_right(voting_power, 14).as_str());
    r
}

/// How many peers the last entry for a node lists.
pub open spec fn peer_count(name: Seq<char>, nodes: Seq<NodePeers>) -> Option<nat>
    decreases nodes.len(),
{
    if nodes.len() == 0 {
        None
    } else if nodes.last().name@ == name {
        Some(nodes.last().peers@.len())
    } else {
        peer_count(name, nodes.drop_last())
    }
}

/// Finds how many peers the last entry for a node lists.
fn find_peer_count(name: &String, nodes: &Vec<NodePeers>) -> (r: Option<usize>)
    ensures
        match r {
            Some(count) => Some(count as nat),
            None => None,
        } == peer_count(name@, nodes@),
{
    let mut i: usize = nodes.len();
    assert(nodes@.take(i as int) =~= nodes@);
    while i > 0
        invariant
            i <= nodes.len(),
            peer_count(name@, nodes@.take(i as int)) == peer_count(name@, nodes@),
        decreases i,
    {
        i = i - 1;
        assert(nodes@.take(i + 1).drop_last() =~= nodes@.take(i as int));
        if nodes[i].name == *name {
            return Some(nodes[i].peers.len());
        }
    }
    None
}

/// The row of a node whose validator was looked up.
pub open spec fn validator_row(node: NodeStatus) -> Seq<char> {
    status_row(
        node.name@,
        height_cell(
            match node.height {
                Ok(height) => Ok(height@),
                Err(e) => Err(e@),
            },
        ),
        count_cell(
            match node.peers {
                Some(count) => Some(count as nat),
                None => None,
            },
        ),
        match node.voting_power {
            Some(power) => power@,
            None => "?"@,
        },
    )
}

/// The row of a node whose validator was not looked up.
pub open spec fn plain_row(node: NodeHeight, peers: Seq<NodePeers>) -> Seq<char> {
    status_row(
        node.name@,
        node_height_cell(node),
        count_cell(peer_count(node.name@, peers)),
        "n/a"@,
    )
}

/// The rows of the overview, one for each node.
pub open spec fn status_rows(data: StatusData) -> Seq<Seq<char>> {
    match data {
        StatusData::WithValidators(nodes) => Seq::new(
            nodes@.len(),
            |i: int| validator_row(nodes@[i]),
        ),
        StatusData::WithoutValidators { heights, peers } => Seq::new(
            heights@.len(),
            |i: int| plain_row(heights@[i], peers@),
        ),
    }
}

/// The lines of the overview: a heading, a rule, and the rows or the report of a timeout.
pub open spec fn status_lines(fetched: Fetched<StatusData>) -> Seq<Seq<char>> {
    seq![
        status_row("Node"@, "Height"@, "Peers"@, "Voting Power"@),
        text::fill('-', 55),
    ] + match fetched {
        Fetched::Data(data) => status_rows(data),
        Fetched::TimedOut => seq![timeout_line("node data"@)],
    }
}

/// A rule of `n` dashes.
fn rule(n: usize) -> (r: String)
    ensures
        r@ == text::fill('-', n as nat),
{
    proof {
        reveal_strlit("-");
    }
    text::filled("-", n)
}

/// Returns an overview of the testnet: block heights, peer counts, and voting power per node.
pub fn testnet_status(_ready: &TunnelsReady, fetched: &Fetched<StatusData>) -> (r: String)
    ensures
        r@ == page(status_lines(*fetched)),
{
    let mut lines: Vec<String> = Vec::new();
    text::push_line(&mut lines, status_row_text("Node", "Height", "Peers", "Voting Power"));
    text::push_line(&mut lines, rule(55));
    let ghost head = text::texts(lines@);
    assert(head =~= seq![
        status_row("Node"@, "Height"@, "Peers"@, "Voting Power"@),
        text::fill('-', 55),
    ]);
    match fetched {
        Fetched::Data(StatusData::WithValidators(nodes)) => {
            let mut i: usize = 0;
            while i < nodes.len()
                invariant
                    i <= nodes.len(),
                    text::texts(lines@) == head + Seq::new(
                        i as nat,
                        |i: int| validator_row(nodes@[i]),
                    ),
                decreases nodes.len() - i,
            {
                let node = &nodes[i];
                let height = match &node.height {
                    Ok(height) => height.clone(),
                    Err(e) => String::from_str("err: ").concat(e.as_str()),
                };
                let power = match &node.voting_power {
                    Some(power) => power.clone(),
                    None => String::from_str("?"),
                };
                let line = status_row_text(
                    node.name.as_str(),
                    height.as_str(),
                    count_text(node.peers).as_str(),
                    power.as_str(),
                );
                text::push_line(&mut lines, line);
                i = i + 1;
                assert(text::texts(lines@) =~= head + Seq::new(
                    i as nat,
                    |i: int| validator_row(nodes@[i]),
                ));
            }
        },
        Fetched::Data(StatusData::WithoutValidators { heights, peers }) => {
            let mut i: usize = 0;
            while i < heights.len()
                invariant
                    i <= heights.len(),
                    text::texts(lines@) == head + Seq::new(
                        i as nat,
                        |i: int| plain_row(heights@[i], peers@),
                    ),
                decreases heights.len() - i,
            {
                let node = &heights[i];
                let line = status_row_text(
                    node.name.as_str(),
                    height_text(&node.height).as_str(),
                    count_text(find_peer_count(&node.name, peers)).as_str(),
                    "n/a",
                );
                text::push_line(&mut lines, line);
                i = i + 1;
                assert(text::texts(lines@) =~= head + Seq::new(
                    i as nat,
                    |i: int| plain_row(heights@[i], peers@),
                ));
            }
        },
        Fetched::TimedOut => {
            text::push_line(&mut lines, timeout_text("node data"));
        },
    }
    assert(text::texts(lines@) =~= status_lines(*fetched));
    text::join(&lines, "\n")
}

// ── Block heights ───────────────────────────────────────────────────────

/// A row of the list of heights.
pub open spec fn height_row(name: Seq<char>, height: Seq<char>) -> Seq<char> {
    text::left_aligned(name, 20) + " "@ + text::right_aligned(height, 10)
}

/// A row of the list of heights.
fn height_row_text(name: &str, height: &str) -> (r: String)
    ensures
        r@ == height_row(name@, height@),
{
    let mut r = text::align_left(name, 20);
    r.append(" ");
    r.append(text::align_right(height, 10).as_str());
    r
}

/// The lines of the list of heights.
pub open spec fn height_lines(fetched: Fetched<Vec<NodeHeight>>) -> Seq<Seq<char>> {
    seq![height_row("Node"@, "Height"@), text::fill('-', 32)] + match fetched {
        Fetched::Data(nodes) => Seq::new(
            nodes@.len(),
            |i: int| height_row(nodes@[i].name@, node_height_cell(nodes@[i])),
        ),
        Fetched::TimedOut => seq![timeout_line("block heights"@)],
    }
}

/// Returns the latest block height for each node in the testnet.
pub fn get_block_heights(_ready: &TunnelsReady, fetched: &Fetched<Vec<NodeHeight>>) -> (r: String)
    ensures
        r@ == page(height_lines(*fetched)),
{
    let mut lines: Vec<String> = Vec::new();
    text::push_line(&mut lines, height_row_text("Node", "Height"));
    text::push_line(&mut lines, rule(32));
    let ghost head = text::texts(lines@);
    assert(head =~= seq![height_row("Node"@, "Height"@), text::fill('-', 32)]);
    match fetched {
        Fetched::Data(nodes) => {
            let mut i: usize = 0;
            while i < nodes.len()
                invariant
                    i <= nodes.len(),
                    text::texts(lines@) == head + Seq::new(
                        i as nat,
                        |i: int| height_row(nodes@[i].name@, node_height_cell(nodes@[i])),
                    ),
                decreases nodes.len() - i,
            {
                let node = &nodes[i];
                let height = height_text(&node.height);
                text::push_line(&mut lines, height_row_text(node.name.as_str(), height.as_str()));
                i = i + 1;
                assert(text::texts(lines@) =~= head + Seq::new(
                    i as nat,
                    |i: int| height_row(nodes@[i].name@, node_height_cell(nodes@[i])),
                ));
            }
        },
        Fetched::TimedOut => {
            text::push_line(&mut lines, timeout_text("block heights"));
        },
    }
    assert(text::texts(lines@) =~= height_lines(*fetched));
    text::join(&lines, "\n")
}

// ── Transaction pools ───────────────────────────────────────────────────

/// A row of the list of transaction pools.
pub open spec fn mempool_row(name: Seq<char>, pending: Seq<char>, queued: Seq<char>) -> Seq<char> {
    text::left_aligned(name, 20) + " "@ + text::right_aligned(pending, 10) + " "@
        + text::right_aligned(queued, 10)
}

/// A row of the list of transaction pools.
fn mempool_row_text(name: &str, pending: &str, queued: &str) -> (r: String)
    ensures
        r@ == mempool_row(name@, pending@, queued@),
{
    let mut r = text::align_left(name, 20);
    r.append(" ");
    r.append(text::align_right(pending, 10).as_str());
    r.append(" ");
    r.append(text::align_right(queued, 10).as_str());
    r
}

/// A number of transactions; a negative one stands for an error.
pub open spec fn pool_cell(count: i64) -> Seq<char> {
    if count < 0 {
        "err"@
    } else {
        text::decimal(count as nat)
    }
}

/// A number of transactions; a negative one stands for an error.
fn pool_text(count: i64) -> (r: String)
    ensures
        r@ == pool_cell(count),
{
    if count < 0 {
        String::from_str("err")
    } else {
        text::decimal_text(count as u64)
    }
}

/// The row of a node's transaction pool.
pub open spec fn node_mempool_row(node: NodeMempool) -> Seq<char> {
    mempool_row(node.name@, pool_cell(node.pending), pool_cell(node.queued))
}

/// The lines of the list of transaction pools.
pub open spec fn mempool_lines(fetched: Fetched<Vec<NodeMempool>>) -> Seq<Seq<char>> {
    seq![mempool_row("Node"@, "Pending"@, "Queued"@), text::fill('-', 44)] + match fetched {
        Fetched::Data(nodes) => Seq::new(nodes@.len(), |i: int| node_mempool_row(nodes@[i])),
        Fetched::TimedOut => seq![timeout_line("mempool status"@)],
    }
}

/// Returns the pending and queued transaction counts in the mempool for each node.
pub fn get_mempool(_ready: &TunnelsReady, fetched: &Fetched<Vec<NodeMempool>>) -> (r: String)
    ensures
        r@ == page(mempool_lines(*fetched)),
{
    let mut lines: Vec<String> = Vec::new();
    text::push_line(&mut lines, mempool_row_text("Node", "Pending", "Queued"));
    text::push_line(&mut lines, rule(44));
    let ghost head = text::texts(lines@);
    assert(head =~= seq![mempool_row("Node"@, "Pending"@, "Queued"@), text::fill('-', 44)]);
    match fetched {
        Fetched::Data(nodes) => {
            let mut i: usize = 0;
            while i < nodes.len()
                invariant
                    i <= nodes.len(),
                    text::texts(lines@) == head + Seq::new(
                        i as nat,
                        |i: int| node_mempool_row(nodes@[i]),
                    ),
                decreases nodes.len() - i,
            {
                let node = &nodes[i];
                let pending = pool_text(node.pending);
                let queued = pool_text(node.queued);
                text::push_line(
                    &mut lines,
                    mempool_row_text(node.name.as_str(), pending.as_str(), queued.as_str()),
                );
                i = i + 1;
                assert(text::texts(lines@) =~= head + Seq::new(
                    i as nat,
                    |i: int| node_mempool_row(nodes@[i]),
                ));
            }
        },
        Fetched::TimedOut => {
            text::push_line(&mut lines, timeout_text("mempool status"));
        },
    }
    assert(text::texts(lines@) =~= mempool_lines(*fetched));
    text::join(&lines, "\n")
}

// ── Peers ───────────────────────────────────────────────────────────────

/// The host of an enode URL: what stands between the first two `@` signs, or behind the only
/// one; a mark where there is none.
pub open spec fn enode_host(enode: Seq<char>) -> Seq<char> {
    if enode.contains('@') {
        text::before(text::behind(enode, '@'), '@')
    } else {
        "?"@
    }
}

/// The address in an enode URL: its host without what follows the first colon.
pub open spec fn enode_ip(enode: Seq<char>) -> Seq<char> {
    text::before(enode_host(enode), ':')
}

/// Takes the address from an enode URL.
pub fn enode_address(enode: &str) -> (r: String)
    ensures
        r@ == enode_ip(enode@),
{
    proof {
        text::lemma_position_finds(enode@, '@');
    }
    let len = enode.unicode_len();
    let at = text::find(enode, '@');
    let host = if at < len {
        let rest = enode.substring_char(at + 1, len);
        assert(rest@ =~= text::behind(enode@, '@'));
        proof {
            text::lemma_position_finds(rest@, '@');
        }
        let end = text::find(rest, '@');
        String::from_str(rest.substring_char(0, end))
    } else {
        String::from_str("?")
    };
    proof {
        text::lemma_position_finds(host@, ':');
    }
    let colon = text::find(host.as_str(), ':');
    let r = String::from_str(host.as_str().substring_char(0, colon));
    assert(r@ =~= enode_ip(enode@));
    r
}

/// The name of the last node that has an address.
pub open spec fn node_of_ip(ip: Seq<char>, nodes: Seq<NodeAddresses>) -> Option<Seq<char>>
    decreases nodes.len(),
{
    if nodes.len() == 0 {
        None
    } else if text::texts(nodes.last().ips@).contains(ip) {
        Some(nodes.last().name@)
    } else {
        node_of_ip(ip, nodes.drop_last())
    }
}

/// Says whether an address is in a list.
fn has_ip(ips: &Vec<String>, ip: &String) -> (r: bool)
    ensures
        r == text::texts(ips@).contains(ip@),
{
    let mut i: usize = 0;
    while i < ips.len()
        invariant
            i <= ips.len(),
            forall|j: int| 0 <= j < i ==> ips@[j]@ != ip@,
        decreases ips.len() - i,
    {
        if ips[i] == *ip {
            assert(text::texts(ips@)[i as int] == ip@);
            return true;
        }
        i = i + 1;
    }
    assert forall|j: int| 0 <= j < text::texts(ips@).len() implies text::texts(ips@)[j]
        != ip@ by {
        assert(text::texts(ips@)[j] == ips@[j]@);
    }
    false
}

/// How a peer is named: after the node that has its address, if one has.
pub open spec fn peer_name(enode: Seq<char>, nodes: Seq<NodeAddresses>) -> Seq<char> {
    match node_of_ip(enode_ip(enode), nodes) {
        Some(name) => name,
        None => "unknown"@,
    }
}

/// Names a peer after the node that has its address.
fn find_peer_name(enode: &str, nodes: &Vec<NodeAddresses>) -> (r: String)
    ensures
        r@ == peer_name(enode@, nodes@),
{
    let ip = enode_address(enode);
    let mut i: usize = nodes.len();
    assert(nodes@.take(i as int) =~= nodes@);
    while i > 0
        invariant
            i <= nodes.len(),
            ip@ == enode_ip(enode@),
            node_of_ip(ip@, nodes@.take(i as int)) == node_of_ip(ip@, nodes@),
        decreases i,
    {
        i = i - 1;
        assert(nodes@.take(i + 1).drop_last() =~= nodes@.take(i as int));
        if has_ip(&nodes[i].ips, &ip) {
            return nodes[i].name.clone();
        }
    }
    String::from_str("unknown")
}

/// A truth value in words.
pub open spec fn flag(b: bool) -> Seq<char> {
    if b {
        "true"@
    } else {
        "false"@
    }
}

/// A truth value in words.
fn flag_text(b: bool) -> (r: &'static str)
    ensures
        r@ == flag(b),
{
    if b {
        "true"
    } else {
        "false"
    }
}

/// The line about a peer.
pub open spec fn peer_line(peer: PeerInfo, nodes: Seq<NodeAddresses>) -> Seq<char> {
    "  - "@ + peer_name(peer.enode@, nodes) + ": local="@ + peer.local_address@ + ", remote="@
        + peer.remote_address@ + ", inbound="@ + flag(peer.inbound) + ", trusted="@ + flag(
        peer.trusted,
    ) + ", static="@ + flag(peer.static_node)
}

/// The line about a peer.
fn peer_text(peer: &PeerInfo, nodes: &Vec<NodeAddresses>) -> (r: String)
    ensures
        r@ == peer_line(*peer, nodes@),
{
    let mut r = String::from_str("  - ");
    r.append(find_peer_name(peer.enode.as_str(), nodes).as_str());
    r.append(": local=");
    r.append(peer.local_address.as_str());
    r.append(", remote=");
    r.append(peer.remote_address.as_str());
    r.append(", inbound=");
    r.append(flag_text(peer.inbound));
    r.append(", trusted=");
    r.append(flag_text(peer.trusted));
    r.append(", static=");
    r.append(flag_text(peer.static_node));
    r
}

/// The heading of a node's peers.
pub open spec fn peers_heading(node: NodePeers) -> Seq<char> {
    node.name@ + " ("@ + text::decimal(node.peers@.len()) + " peers)"@
}

/// The lines about a node and its peers.
pub open spec fn node_peer_lines(node: NodePeers, nodes: Seq<NodeAddresses>) -> Seq<Seq<char>> {
    if node.peers@.len() == 0 {
        seq![peers_heading(node), "  (no peers connected)"@]
    } else {
        seq![peers_heading(node)] + Seq::new(
            node.peers@.len(),
            |i: int| peer_line(node.peers@[i], nodes),
        )
    }
}

/// The lines about nodes and their peers.
pub open spec fn all_peer_lines(peers: Seq<NodePeers>, nodes: Seq<NodeAddresses>) -> Seq<Seq<char>>
    decreases peers.len(),
{
    if peers.len() == 0 {
        Seq::empty()
    } else {
        all_peer_lines(peers.drop_last(), nodes) + node_peer_lines(peers.last(), nodes)
    }
}

/// The lines of the list of peers.
pub open spec fn peers_lines(
    fetched: Fetched<Vec<NodePeers>>,
    nodes: Seq<NodeAddresses>,
) -> Seq<Seq<char>> {
    match fetched {
        Fetched::Data(peers) => all_peer_lines(peers@, nodes),
        Fetched::TimedOut => seq![timeout_line("peer info"@)],
    }
}

/// Adds the lines about a node and its peers to a report.
fn push_node_peers(lines: &mut Vec<String>, node: &NodePeers, nodes: &Vec<NodeAddresses>)
    ensures
        text::texts(final(lines)@) == text::texts(old(lines)@) + node_peer_lines(*node, nodes@),
{
    let mut heading = node.name.clone();
    heading.append(" (");
    heading.append(text::decimal_text(node.peers.len() as u64).as_str());
    heading.append(" peers)");
    text::push_line(lines, heading);
    if node.peers.len() == 0 {
        text::push_line(lines, String::from_str("  (no peers connected)"));
        assert(text::texts(lines@) =~= text::texts(old(lines)@) + node_peer_lines(*node, nodes@));
        return ;
    }
    let ghost head = text::texts(lines@);
    let mut i: usize = 0;
    while i < node.peers.len()
        invariant
            i <= node.peers.len(),
            text::texts(lines@) == head + Seq::new(
                i as nat,
                |i: int| peer_line(node.peers@[i], nodes@),
            ),
        decreases node.peers.len() - i,
    {
        text::push_line(lines, peer_text(&node.peers[i], nodes));
        i = i + 1;
        assert(text::texts(lines@) =~= head + Seq::new(
            i as nat,
            |i: int| peer_line(node.peers@[i], nodes@),
        ));
    }
    assert(text::texts(lines@) =~= text::texts(old(lines)@) + node_peer_lines(*node, nodes@));
}

/// Returns the connected peers for each node in the testnet.
pub fn get_peers(
    _ready: &TunnelsReady,
    fetched: &Fetched<Vec<NodePeers>>,
    nodes: &Vec<NodeAddresses>,
) -> (r: String)
    ensures
        r@ == page(peers_lines(*fetched, nodes@)),
{
    let mut lines: Vec<String> = Vec::new();
    match fetched {
        Fetched::Data(peers) => {
            let mut i: usize = 0;
            assert(text::texts(lines@) =~= all_peer_lines(peers@.take(0), nodes@));
            while i < peers.len()
                invariant
                    i <= peers.len(),
                    text::texts(lines@) == all_peer_lines(peers@.take(i as int), nodes@),
                decreases peers.len() - i,
            {
                push_node_peers(&mut lines, &peers[i], nodes);
                i = i + 1;
                assert(peers@.take(i as int).drop_last() =~= peers@.take(i - 1));
            }
            assert(peers@.take(peers@.len() as int) =~= peers@);
        },
        Fetched::TimedOut => {
            text::push_line(&mut lines, timeout_text("peer info"));
            assert(text::texts(lines@) =~= seq![timeout_line("peer info"@)]);
        },
    }
    text::join(&lines, "\n")
}

// ── Laws ────────────────────────────────────────────────────────────────

/// A table has a row for each node, in the order of the nodes, below a heading and a rule; the
/// row begins with the name of the node.
pub proof fn law_tables_have_a_row_per_node(
    status: Vec<NodeStatus>,
    heights: Vec<NodeHeight>,
    peers: Vec<NodePeers>,
    pools: Vec<NodeMempool>,
)
    ensures
        ({
            let lines = status_lines(Fetched::Data(StatusData::WithValidators(status)));
            &&& lines.len() == 2 + status@.len()
            &&& forall|i: int|
                0 <= i < status@.len() ==> (#[trigger] status@[i]).name@.is_prefix_of(lines[2 + i])
        }),
        ({
            let lines = status_lines(
                Fetched::Data(StatusData::WithoutValidators { heights, peers }),
            );
            &&& lines.len() == 2 + heights@.len()
            &&& forall|i: int|
                0 <= i < heights@.len() ==> (#[trigger] heights@[i]).name@.is_prefix_of(
                    lines[2 + i],
                )
        }),
        ({
            let lines = height_lines(Fetched::Data(heights));
            &&& lines.len() == 2 + heights@.len()
            &&& forall|i: int|
                0 <= i < heights@.len() ==> (#[trigger] heights@[i]).name@.is_prefix_of(
                    lines[2 + i],
                )
        }),
        ({
            let lines = mempool_lines(Fetched::Data(pools));
            &&& lines.len() == 2 + pools@.len()
            &&& forall|i: int|
                0 <= i < pools@.len() ==> (#[trigger] pools@[i]).name@.is_prefix_of(lines[2 + i])
        }),
{
}

/// An overview has voting powers exactly where the controllers are known; where they are not,
/// its rows say that there are none.
pub proof fn law_status_follows_controllers(controllers_known: bool, data: StatusData, i: int)
    requires
        answers(query_for(controllers_known), data),
        0 <= i < status_rows(data).len(),
    ensures
        controllers_known ==> status_rows(data)[i] == validator_row(data->WithValidators_0@[i]),
        !controllers_known ==> status_rows(data)[i] == plain_row(
            data->heights@[i],
            data->peers@,
        ),
{
}

/// The columns of a table line up: rows whose cells fit their columns are equally long.
pub proof fn law_columns_line_up(
    name: Seq<char>,
    height: Seq<char>,
    peers: Seq<char>,
    voting_power: Seq<char>,
    pending: Seq<char>,
    queued: Seq<char>,
)
    requires
        name.len() <= 20,
    ensures
        height.len() <= 8 && peers.len() <= 7 && voting_power.len() <= 14 ==> status_row(
            name,
            height,
            peers,
            voting_power,
        ).len() == 52,
        height.len() <= 10 ==> height_row(name, height).len() == 31,
        pending.len() <= 10 && queued.len() <= 10 ==> mempool_row(name, pending, queued).len()
            == 42,
{
    reveal_strlit(" ");
}

/// A row of the overview tells what is known of its node: its name, its height or the error, the
/// number of its peers and the voting power of its validator, with marks for what is not known.
pub proof fn law_overview_tells_what_is_known(nodes: Vec<NodeStatus>, i: int)
    requires
        0 <= i < nodes@.len(),
    ensures
        ({
            let node = nodes@[i];
            let height = match node.height {
                Ok(height) => height@,
                Err(e) => "err: "@ + e@,
            };
            let peers = match node.peers {
                Some(count) => text::decimal(count as nat),
                None => "?"@,
            };
            let power = match node.voting_power {
                Some(power) => power@,
                None => "?"@,
            };
            status_lines(Fetched::Data(StatusData::WithValidators(nodes)))[2 + i]
                == text::left_aligned(node.name@, 20) + " "@ + text::right_aligned(height, 8)
                + " "@ + text::right_aligned(peers, 7) + " "@ + text::right_aligned(power, 14)
        }),
{
}

/// Without validators, a row of the overview tells the height or the error and the number of
/// peers that the last entry for the node lists; there is no voting power to tell. `at` is where
/// that entry stands, if there is one.
pub proof fn law_overview_without_validators(
    heights: Vec<NodeHeight>,
    peers: Vec<NodePeers>,
    i: int,
    at: Option<int>,
)
    requires
        0 <= i < heights@.len(),
        match at {
            Some(k) => 0 <= k < peers@.len() && peers@[k].name@ == heights@[i].name@ && (forall|
                j: int,
            |
                k < j < peers@.len() ==> (#[trigger] peers@[j]).name@ != heights@[i].name@),
            None => forall|j: int|
                0 <= j < peers@.len() ==> (#[trigger] peers@[j]).name@ != heights@[i].name@,
        },
    ensures
        ({
            let node = heights@[i];
            let height = match node.height {
                Ok(height) => text::decimal(height as nat),
                Err(e) => "err: "@ + e@,
            };
            let count = match at {
                Some(k) => text::decimal(peers@[k].peers@.len()),
                None => "?"@,
            };
            status_lines(Fetched::Data(StatusData::WithoutValidators { heights, peers }))[2 + i]
                == text::left_aligned(node.name@, 20) + " "@ + text::right_aligned(height, 8)
                + " "@ + text::right_aligned(count, 7) + " "@ + text::right_aligned("n/a"@, 14)
        }),
{
    lemma_last_entry(heights@[i].name@, peers@, at);
}

/// The number of peers is that of the last entry for a node, or not known.
proof fn lemma_last_entry(name: Seq<char>, nodes: Seq<NodePeers>, at: Option<int>)
    requires
        match at {
            Some(k) => 0 <= k < nodes.len() && nodes[k].name@ == name && (forall|j: int|
                k < j < nodes.len() ==> (#[trigger] nodes[j]).name@ != name),
            None => forall|j: int| 0 <= j < nodes.len() ==> (#[trigger] nodes[j]).name@ != name,
        },
    ensures
        peer_count(name, nodes) == match at {
            Some(k) => Some(nodes[k].peers@.len()),
            None => None,
        },
    decreases nodes.len(),
{
    if nodes.len() > 0 {
        let last = nodes[nodes.len() - 1];
        if last.name@ != name {
            let rest = nodes.drop_last();
            assert forall|j: int| 0 <= j < rest.len() implies #[trigger] rest[j] == nodes[j] by {}
            lemma_last_entry(name, rest, at);
        }
    }
}

/// A row of the list of heights tells the height of its node, or the error.
pub proof fn law_heights_are_told(nodes: Vec<NodeHeight>, i: int)
    requires
        0 <= i < nodes@.len(),
    ensures
        ({
            let node = nodes@[i];
            let height = match node.height {
                Ok(height) => text::decimal(height as nat),
                Err(e) => "err: "@ + e@,
            };
            height_lines(Fetched::Data(nodes))[2 + i] == text::left_aligned(node.name@, 20) + " "@
                + text::right_aligned(height, 10)
        }),
{
}

/// A row of the list of transaction pools tells both sizes of the pool of its node; a negative
/// one is told as an error.
pub proof fn law_pools_are_told(nodes: Vec<NodeMempool>, i: int)
    requires
        0 <= i < nodes@.len(),
    ensures
        ({
            let node = nodes@[i];
            let pending = if node.pending < 0 {
                "err"@
            } else {
                text::decimal(node.pending as nat)
            };
            let queued = if node.queued < 0 {
                "err"@
            } else {
                text::decimal(node.queued as nat)
            };
            mempool_lines(Fetched::Data(nodes))[2 + i] == text::left_aligned(node.name@, 20) + " "@
                + text::right_aligned(pending, 10) + " "@ + text::right_aligned(queued, 10)
        }),
{
}

/// Each table has its heading, with the columns where the rows have them, and a rule of dashes
/// below it, whatever came of the query.
pub proof fn law_tables_have_their_headings(
    status: Fetched<StatusData>,
    heights: Fetched<Vec<NodeHeight>>,
    pools: Fetched<Vec<NodeMempool>>,
    i: int,
)
    ensures
        status_lines(status)[0] == text::left_aligned("Node"@, 20) + " "@ + text::right_aligned(
            "Height"@,
            8,
        ) + " "@ + text::right_aligned("Peers"@, 7) + " "@ + text::right_aligned(
            "Voting Power"@,
            14,
        ),
        status_lines(status)[1].len() == 55,
        0 <= i < 55 ==> status_lines(status)[1][i] == '-',
        height_lines(heights)[0] == text::left_aligned("Node"@, 20) + " "@ + text::right_aligned(
            "Height"@,
            10,
        ),
        height_lines(heights)[1].len() == 32,
        0 <= i < 32 ==> height_lines(heights)[1][i] == '-',
        mempool_lines(pools)[0] == text::left_aligned("Node"@, 20) + " "@ + text::right_aligned(
            "Pending"@,
            10,
        ) + " "@ + text::right_aligned("Queued"@, 10),
        mempool_lines(pools)[1].len() == 44,
        0 <= i < 44 ==> mempool_lines(pools)[1][i] == '-',
{
}

/// A query that took too long is told in one line that says after how many seconds and what was
/// being fetched, below the heading where there is one.
pub proof fn law_timeouts_are_told(nodes: Seq<NodeAddresses>)
    ensures
        ({
            let after = "(timed out after "@ + text::decimal(15) + "s fetching "@;
            let status = status_lines(Fetched::TimedOut);
            let heights = height_lines(Fetched::TimedOut);
            let pools = mempool_lines(Fetched::TimedOut);
            let peers = peers_lines(Fetched::TimedOut, nodes);
            &&& status.len() == 3 && status[2] == after + "node data"@ + ")"@
            &&& heights.len() == 3 && heights[2] == after + "block heights"@ + ")"@
            &&& pools.len() == 3 && pools[2] == after + "mempool status"@ + ")"@
            &&& peers.len() == 1 && peers[0] == after + "peer info"@ + ")"@
        }),
{
}

/// A report is its lines in their order, each but the last followed by a line break.
pub proof fn law_reports_are_their_lines(a: Seq<Seq<char>>, b: Seq<Seq<char>>, line: Seq<char>)
    ensures
        page(Seq::empty()) == Seq::<char>::empty(),
        page(seq![line]) == line,
        a.len() > 0 && b.len() > 0 ==> page(a + b) == page(a) + seq!['\n'] + page(b),
{
    reveal_strlit("\n");
    assert("\n"@ =~= seq!['\n']);
    if a.len() > 0 && b.len() > 0 {
        text::law_joined_in_order(a, b, "\n"@);
    }
}

/// Validators are asked for exactly where the controllers are known, and the data is taken for
/// an answer exactly where it is of the kind asked for.
pub proof fn law_query_follows_controllers(
    known: bool,
    nodes: Vec<NodeStatus>,
    heights: Vec<NodeHeight>,
    peers: Vec<NodePeers>,
)
    ensures
        query_for(known) == StatusQuery::LatestData <==> known,
        answers(query_for(known), StatusData::WithValidators(nodes)) <==> known,
        answers(query_for(known), StatusData::WithoutValidators { heights, peers }) <==> !known,
{
}

/// The address in an enode URL stands behind the first `@` and ends at the first colon or at the
/// next `@`, or where the URL does. A URL without `@` has none, and a mark stands for it.
pub proof fn law_addresses_stand_behind_the_sign(
    enode: Seq<char>,
    id: Seq<char>,
    ip: Seq<char>,
    rest: Seq<char>,
)
    requires
        !id.contains('@'),
        !ip.contains('@'),
        !ip.contains(':'),
        rest.len() > 0 ==> rest[0] == ':' || rest[0] == '@',
    ensures
        enode_ip(id + seq!['@'] + ip + rest) == ip,
        !enode.contains('@') ==> enode_ip(enode) == seq!['?'],
{
    let whole = id + seq!['@'] + ip + rest;
    assert forall|j: int| 0 <= j < id.len() implies whole[j] != '@' by {
        assert(whole[j] == id[j]);
        assert(id.contains(id[j]));
    }
    assert(whole[id.len() as int] == '@');
    text::lemma_position(whole, '@', id.len() as int);
    let tail = text::behind(whole, '@');
    assert(tail =~= ip + rest);
    text::lemma_position_finds(tail, '@');
    let host = enode_host(whole);
    let end = text::position(tail, '@') as int;
    assert(host =~= tail.take(end));
    if end < ip.len() {
        assert(tail[end] == ip[end]);
        assert(ip.contains(ip[end]));
    }
    assert forall|j: int| 0 <= j < ip.len() implies host[j] != ':' by {
        assert(host[j] == ip[j]);
        assert(ip.contains(ip[j]));
    }
    if ip.len() < host.len() {
        assert(host[ip.len() as int] == rest[0]);
    }
    text::lemma_position(host, ':', ip.len() as int);
    assert(enode_ip(whole) =~= ip);
    reveal_strlit("?");
    text::lemma_position("?"@, ':', 1);
    assert("?"@.take(1) =~= seq!['?']);
}

/// A peer is named after the last node that has its address, and is unknown where none has. `at`
/// is where that node stands, if there is one.
pub proof fn law_peers_are_named_after_nodes(
    enode: Seq<char>,
    nodes: Seq<NodeAddresses>,
    at: Option<int>,
)
    requires
        match at {
            Some(k) => 0 <= k < nodes.len() && text::texts(nodes[k].ips@).contains(enode_ip(enode))
                && (forall|j: int|
                k < j < nodes.len() ==> !text::texts((#[trigger] nodes[j]).ips@).contains(
                    enode_ip(enode),
                )),
            None => forall|j: int|
                0 <= j < nodes.len() ==> !text::texts((#[trigger] nodes[j]).ips@).contains(
                    enode_ip(enode),
                ),
        },
    ensures
        peer_name(enode, nodes) == match at {
            Some(k) => nodes[k].name@,
            None => "unknown"@,
        },
{
    lemma_last_holder(enode_ip(enode), nodes, at);
}

/// The node of an address is the last one that has it.
proof fn lemma_last_holder(ip: Seq<char>, nodes: Seq<NodeAddresses>, at: Option<int>)
    requires
        match at {
            Some(k) => 0 <= k < nodes.len() && text::texts(nodes[k].ips@).contains(ip) && (forall|
                j: int,
            |
                k < j < nodes.len() ==> !text::texts((#[trigger] nodes[j]).ips@).contains(ip)),
            None => forall|j: int|
                0 <= j < nodes.len() ==> !text::texts((#[trigger] nodes[j]).ips@).contains(ip),
        },
    ensures
        node_of_ip(ip, nodes) == match at {
            Some(k) => Some(nodes[k].name@),
            None => None,
        },
    decreases nodes.len(),
{
    if nodes.len() > 0 {
        let last = nodes[nodes.len() - 1];
        if !text::texts(last.ips@).contains(ip) {
            let rest = nodes.drop_last();
            assert forall|j: int| 0 <= j < rest.len() implies #[trigger] rest[j] == nodes[j] by {}
            lemma_last_holder(ip, rest, at);
        }
    }
}

/// The line about a peer tells its name, both addresses as they are, and each of the three flags
/// for itself.
pub proof fn law_peers_are_told(peer: PeerInfo, nodes: Seq<NodeAddresses>)
    ensures
        ({
            let inbound = if peer.inbound {
                "true"@
            } else {
                "false"@
            };
            let trusted = if peer.trusted {
                "true"@
            } else {
                "false"@
            };
            let fixed = if peer.static_node {
                "true"@
            } else {
                "false"@
            };
            peer_line(peer, nodes) == "  - "@ + peer_name(peer.enode@, nodes) + ": local="@
                + peer.local_address@ + ", remote="@ + peer.remote_address@ + ", inbound="@
                + inbound + ", trusted="@ + trusted + ", static="@ + fixed
        }),
{
}

/// The lines about a node are its name with the number of its peers, and then a line for each of
/// them in their order, or one that says that there is none.
pub proof fn law_nodes_are_told_with_their_peers(
    node: NodePeers,
    nodes: Seq<NodeAddresses>,
    i: int,
)
    ensures
        ({
            let lines = node_peer_lines(node, nodes);
            let count = node.peers@.len();
            &&& lines.len() == 1 + if count == 0 {
                1
            } else {
                count
            }
            &&& lines[0] == node.name@ + " ("@ + text::decimal(count) + " peers)"@
            &&& count == 0 ==> lines[1] == "  (no peers connected)"@
            &&& 0 <= i < count ==> lines[1 + i] == peer_line(node.peers@[i], nodes)
        }),
{
}

/// The list of peers is made of the lines about each node, in the order of the nodes.
pub proof fn law_peer_lists_follow_the_nodes(
    one: NodePeers,
    a: Vec<NodePeers>,
    b: Vec<NodePeers>,
    both: Vec<NodePeers>,
    nodes: Seq<NodeAddresses>,
)
    requires
        both@ == a@ + b@,
    ensures
        all_peer_lines(Seq::empty(), nodes) == Seq::<Seq<char>>::empty(),
        all_peer_lines(seq![one], nodes) == node_peer_lines(one, nodes),
        peers_lines(Fetched::Data(both), nodes) == peers_lines(Fetched::Data(a), nodes)
            + peers_lines(Fetched::Data(b), nodes),
        peers_lines(Fetched::Data(a), nodes) == all_peer_lines(a@, nodes),
{
    lemma_peer_lines(a@, b@, nodes);
    reveal_with_fuel(all_peer_lines, 2);
    assert(seq![one].drop_last() =~= Seq::empty());
    assert(all_peer_lines(seq![one], nodes) =~= node_peer_lines(one, nodes));
}

/// The lines about two lists of nodes are those of the first and then those of the second.
proof fn lemma_peer_lines(a: Seq<NodePeers>, b: Seq<NodePeers>, nodes: Seq<NodeAddresses>)
    ensures
        all_peer_lines(a + b, nodes) == all_peer_lines(a, nodes) + all_peer_lines(b, nodes),
    decreases b.len(),
{
    if b.len() == 0 {
        assert(a + b =~= a);
        assert(all_peer_lines(a, nodes) + all_peer_lines(b, nodes) =~= all_peer_lines(a, nodes));
    } else {
        assert((a + b).drop_last() =~= a + b.drop_last());
        assert((a + b).last() == b.last());
        lemma_peer_lines(a, b.drop_last(), nodes);
        assert(all_peer_lines(a + b, nodes) =~= all_peer_lines(a, nodes) + all_peer_lines(b, nodes));
    }
}

/// The cells of a table say what they stand for.
pub proof fn law_cells_say_what_they_stand_for(
    t: Seq<char>,
    n: nat,
    height: u64,
    count: i64,
    name: String,
    e: String,
    b: bool,
)
    ensures
        height_cell(Ok(t)) == t,
        height_cell(Err(t)) == "err: "@ + t,
        node_height_cell(NodeHeight { name, height: Ok(height) }) == text::decimal(height as nat),
        node_height_cell(NodeHeight { name, height: Err(e) }) == "err: "@ + e@,
        count_cell(Some(n)) == text::decimal(n),
        count_cell(None) == "?"@,
        count >= 0 ==> pool_cell(count) == text::decimal(count as nat),
        count < 0 ==> pool_cell(count) == "err"@,
        b ==> flag(b) == "true"@,
        !b ==> flag(b) == "false"@,
{
}

// ── Metrics ─────────────────────────────────────────────────────────────

/// Which parts of a mesh report are shown.
#[derive(Debug, Clone, Copy, PartialEq, Eq, Structural)]
pub struct MeshDisplayOptions {
    pub show_counts: bool,
    pub show_mesh: bool,
    pub show_peers: bool,
    pub show_peers_full: bool,
}

/// The parts of a mesh report that the mesh tool shows: the counts and the mesh, no peers.
pub fn mesh_display_options() -> (r: MeshDisplayOptions)
    ensures
        r == (MeshDisplayOptions {
            show_counts: true,
            show_mesh: true,
            show_peers: false,
            show_peers_full: false,
        }),
{
    MeshDisplayOptions {
        show_counts: true,
        show_mesh: true,
        show_peers: false,
        show_peers_full: false,
    }
}

/// Decides whether there is anything to report on the nodes' metrics (mesh, performance or
/// health): where no node responded, this is the whole answer; otherwise the report is.
pub fn missing_metrics(responded: usize) -> (r: Option<String>)
    ensures
        r is Some <==> responded == 0,
        r matches Some(answer) ==> answer@
            == "No nodes responded to metrics requests. Is the testnet running?"@,
{
    if responded == 0 {
        Some(
            String::from_str("No nodes responded to metrics requests. Is the testnet running?"),
        )
    } else {
        None
    }
}

} // verus!
