//! The management tools: what each call asks of the testnet, and how it is answered.
//!
//! A call that needs the tunnels to a remote testnet takes a [`TunnelsReady`], which only
//! [`ensure_ssm_tunnels`] gives out.

use vstd::prelude::*;
use vstd::string::*;

use crate::clean;
use crate::clean::{clean_scope, CleanScope};
use crate::duration;
use crate::duration::{parse_duration_opt, Span};
use crate::error;
use crate::error::{operation_failed, ErrorKind, ToolError};
use crate::text;

verus! {

// ── Tunnels ─────────────────────────────────────────────────────────────

/// Shows that the tunnels to the testnet are open, or that it needs none.
#[derive(Debug)]
pub struct TunnelsReady(());

/// Whether tunnels are to be started: exactly for a remote testnet. `found` says whether the
/// remote infrastructure is at hand.
pub open spec fn starts_tunnels(found: Result<(), String>) -> bool {
    found is Ok
}

/// Decides whether tunnels are to be started. For local testnets nothing is to be done.
pub fn tunnels_to_start(found: &Result<(), String>) -> (r: bool)
    ensures
        r == starts_tunnels(*found),
{
    match found {
        Ok(_) => true,
        Err(_) => false,
    }
}

/// What comes of the tunnels: an error exactly where they were started in vain.
pub open spec fn tunnels_result(started: Option<Result<(), String>>) -> Result<
    (),
    (ErrorKind, Seq<char>),
> {
    match started {
        Some(Err(e)) => Err(error::failure("Failed to start SSM tunnels: "@, e@)),
        _ => Ok(()),
    }
}

/// Ensure SSM tunnels are active before performing remote operations.
///
/// For local testnets this is a no-op: nothing is started, and `started` is `None`. For remote
/// testnets the tunnels are started once, which opens inactive sessions only, and `started` says
/// how that went.
pub fn ensure_ssm_tunnels(
    found: &Result<(), String>,
    started: Option<Result<(), String>>,
) -> (r: Result<TunnelsReady, ToolError>)
    requires
        started is Some <==> starts_tunnels(*found),
    ensures
        match r {
            Ok(_) => Ok(()),
            Err(e) => Err(e@),
        } == tunnels_result(started),
        found is Err ==> r is Ok,
{
    match started {
        Some(Err(e)) => Err(operation_failed("Failed to start SSM tunnels: ", e.as_str())),
        _ => Ok(TunnelsReady(())),
    }
}

// ── Nodes ───────────────────────────────────────────────────────────────

/// Parameters for tools that accept an optional list of node names.
#[derive(Debug)]
pub struct NodeNamesParams {
    /// Optional list of node or container names. If empty or omitted, applies to all nodes.
    pub nodes: Option<Vec<String>>,
}

/// The names of a list that may be missing.
pub open spec fn named(nodes: Option<Vec<String>>) -> Seq<String> {
    match nodes {
        Some(names) => names@,
        None => Seq::empty(),
    }
}

/// How a list of names is called in an answer.
pub open spec fn label(names: Seq<String>) -> Seq<char> {
    if names.len() == 0 {
        "all nodes"@
    } else {
        text::joined(text::texts(names), ", "@)
    }
}

/// The names of a list that may be missing.
fn names_or_none(nodes: Option<Vec<String>>) -> (r: Vec<String>)
    ensures
        r@ == named(nodes),
        nodes matches Some(names) ==> r == names,
{
    match nodes {
        Some(names) => names,
        None => Vec::new(),
    }
}

/// How a list of names is called in an answer.
pub fn nodes_label(names: &Vec<String>) -> (r: String)
    ensures
        r@ == label(names@),
{
    if names.len() == 0 {
        String::from_str("all nodes")
    } else {
        text::join(names, ", ")
    }
}

/// A tool that starts or stops nodes.
#[derive(Debug, Clone, Copy, PartialEq, Eq, Structural)]
pub enum NodeTool {
    /// Starts testnet nodes.
    StartNodes,
    /// Stops testnet nodes.
    StopNodes,
    /// Restarts testnet nodes by stopping then starting them.
    RestartTestnet,
}

/// What is to be done to the nodes.
#[derive(Debug, Clone, Copy, PartialEq, Eq, Structural)]
pub enum NodeAction {
    Stop,
    Start,
}

/// A call of a tool that starts or stops nodes: the nodes, and what is to be done to them next.
#[derive(Debug)]
pub struct NodeCall {
    pub tool: NodeTool,
    /// The nodes or containers; none for all nodes.
    pub names: Vec<String>,
    pub action: NodeAction,
}

/// What follows an action; `T` is what texts are made of.
#[derive(Debug)]
pub enum NodeProgress<T> {
    Next(NodeCall),
    Answer(T),
}

/// The first action of a tool.
pub open spec fn first_action(tool: NodeTool) -> NodeAction {
    match tool {
        NodeTool::StartNodes => NodeAction::Start,
        _ => NodeAction::Stop,
    }
}

/// Begins a call. If specific node names are provided, it is about those nodes only; otherwise
/// about all nodes.
pub fn begin_node_call(_ready: &TunnelsReady, tool: NodeTool, params: NodeNamesParams) -> (r: NodeCall)
    ensures
        r.tool == tool,
        r.names@ == named(params.nodes),
        r.action == first_action(tool),
        params.nodes matches Some(names) ==> r.names == names,
        params.nodes is None ==> r.names@.len() == 0,
        r.action == NodeAction::Start <==> tool == NodeTool::StartNodes,
{
    let action = match tool {
        NodeTool::StartNodes => NodeAction::Start,
        NodeTool::StopNodes => NodeAction::Stop,
        NodeTool::RestartTestnet => NodeAction::Stop,
    };
    NodeCall { tool, names: names_or_none(params.nodes), action }
}

/// How the answer of a call begins.
pub open spec fn done_word(tool: NodeTool) -> Seq<char> {
    match tool {
        NodeTool::StartNodes => "Started: "@,
        NodeTool::StopNodes => "Stopped: "@,
        NodeTool::RestartTestnet => "Restarted: "@,
    }
}

/// What follows an action that went as `done` says.
pub open spec fn node_progress(call: NodeCall, done: Result<(), String>) -> Result<
    NodeProgress<Seq<char>>,
    (ErrorKind, Seq<char>),
> {
    match (done, call.action) {
        (Err(e), NodeAction::Stop) => Err(error::failure("Failed to stop nodes: "@, e@)),
        (Err(e), NodeAction::Start) => Err(error::failure("Failed to start nodes: "@, e@)),
        (Ok(_), action) => Ok(
            if call.tool == NodeTool::RestartTestnet && action == NodeAction::Stop {
                NodeProgress::Next(NodeCall { action: NodeAction::Start, ..call })
            } else {
                NodeProgress::Answer(done_word(call.tool) + label(call.names@))
            },
        ),
    }
}

/// What a step of a call comes to.
pub open spec fn node_outcome(r: Result<NodeProgress<String>, ToolError>) -> Result<
    NodeProgress<Seq<char>>,
    (ErrorKind, Seq<char>),
> {
    match r {
        Ok(NodeProgress::Next(call)) => Ok(NodeProgress::Next(call)),
        Ok(NodeProgress::Answer(t)) => Ok(NodeProgress::Answer(t@)),
        Err(e) => Err(e@),
    }
}

/// Goes on after an action. A restart starts the nodes once they have stopped; if the stop
/// succeeds but the start fails, the nodes remain stopped.
pub fn continue_node_call(call: NodeCall, done: Result<(), String>) -> (r: Result<
    NodeProgress<String>,
    ToolError,
>)
    ensures
        node_outcome(r) == node_progress(call, done),
{
    match done {
        Err(e) => match call.action {
            NodeAction::Stop => Err(operation_failed("Failed to stop nodes: ", e.as_str())),
            NodeAction::Start => Err(operation_failed("Failed to start nodes: ", e.as_str())),
        },
        Ok(_) => match (call.tool, call.action) {
            (NodeTool::RestartTestnet, NodeAction::Stop) => {
                Ok(
                    NodeProgress::Next(
                        NodeCall { tool: call.tool, names: call.names, action: NodeAction::Start },
                    ),
                )
            },
            (tool, _) => {
                let word = match tool {
                    NodeTool::StartNodes => "Started: ",
                    NodeTool::StopNodes => "Stopped: ",
                    NodeTool::RestartTestnet => "Restarted: ",
                };
                let mut answer = String::from_str(word);
                answer.append(nodes_label(&call.names).as_str());
                Ok(NodeProgress::Answer(answer))
            },
        },
    }
}

// ── Clean-up ────────────────────────────────────────────────────────────

/// Parameters for the clean_testnet tool.
#[derive(Debug, Clone, Copy, PartialEq, Eq, Structural)]
pub struct CleanParams {
    /// If true, remove all data, including the testnet directory and monitoring services.
    pub all: Option<bool>,
    /// If true, also stop monitoring services and remove monitoring data.
    pub monitoring: Option<bool>,
    /// If true, remove both Reth and Malachite data, preserving testnet configuration.
    /// The testnet can be restarted immediately without re-running setup.
    pub data: Option<bool>,
    /// If true, remove only Reth (execution layer) data.
    pub execution_data: Option<bool>,
    /// If true, remove only Malachite (consensus layer) data.
    pub consensus_data: Option<bool>,
}

/// A clean-up to be run.
#[derive(Debug, Clone, Copy, PartialEq, Eq, Structural)]
pub struct CleanRequest {
    pub mode: CleanScope,
    pub include_monitoring: bool,
}

/// Whether a flag is there and set.
pub open spec fn is_set(flag: Option<bool>) -> bool {
    flag == Some(true)
}

/// Whether `all` is set together with another flag.
pub open spec fn conflicting(params: CleanParams) -> bool {
    is_set(params.all) && (is_set(params.monitoring) || is_set(params.data) || is_set(
        params.execution_data,
    ) || is_set(params.consensus_data))
}

/// The clean-up that the parameters ask for. `all` asks for everything including monitoring, and
/// no other flag may be set beside it.
pub open spec fn requested_clean(params: CleanParams) -> Result<
    CleanRequest,
    (ErrorKind, Seq<char>),
> {
    if conflicting(params) {
        Err((ErrorKind::InvalidParams, "all cannot be combined with other flags"@))
    } else {
        Ok(
            CleanRequest {
                mode: clean::scope_of(
                    is_set(params.data),
                    is_set(params.execution_data),
                    is_set(params.consensus_data),
                    is_set(params.monitoring),
                ),
                include_monitoring: is_set(params.all) || is_set(params.monitoring),
            },
        )
    }
}

/// Cleans up testnet data and infrastructure.
///
/// By default (no flags), removes all node data and configuration. Partial flags:
/// - `data`: remove both execution and consensus layer data, preserving configuration.
/// - `execution_data`: remove only Reth (execution layer) data.
/// - `consensus_data`: remove only Malachite (consensus layer) data.
/// - `monitoring`: stop monitoring services and remove their data (combinable with data flags).
/// - `all`: remove everything including monitoring; cannot be combined with other flags.
pub fn clean_testnet(_ready: &TunnelsReady, params: CleanParams) -> (r: Result<
    CleanRequest,
    ToolError,
>)
    ensures
        error::outcome(r) == requested_clean(params),
{
    let all = params.all.unwrap_or(false);
    let monitoring = params.monitoring.unwrap_or(false);
    let data = params.data.unwrap_or(false);
    let execution_data = params.execution_data.unwrap_or(false);
    let consensus_data = params.consensus_data.unwrap_or(false);
    if all && (monitoring || data || execution_data || consensus_data) {
        return Err(
            ToolError::invalid_params(String::from_str("all cannot be combined with other flags")),
        );
    }
    Ok(
        CleanRequest {
            mode: clean_scope(data, execution_data, consensus_data, monitoring),
            include_monitoring: all || monitoring,
        },
    )
}

/// Answers a clean-up that was run.
pub fn clean_answer(mode: CleanScope, cleaned: Result<(), String>) -> (r: Result<String, ToolError>)
    ensures
        error::answer(r) == match cleaned {
            Err(e) => Err(error::failure("Failed to clean testnet: "@, e@)),
            Ok(_) => Ok(
                if mode == CleanScope::Full {
                    "Testnet cleaned (full)"@
                } else {
                    "Testnet cleaned (partial)"@
                },
            ),
        },
{
    match cleaned {
        Err(e) => Err(operation_failed("Failed to clean testnet: ", e.as_str())),
        Ok(_) => match mode {
            CleanScope::Full => Ok(String::from_str("Testnet cleaned (full)")),
            _ => Ok(String::from_str("Testnet cleaned (partial)")),
        },
    }
}

// ── Perturbations ───────────────────────────────────────────────────────

/// A perturbation of nodes or containers.
#[derive(Debug)]
pub enum Perturbation {
    /// Disconnect the targets from the network, then reconnect them.
    Disconnect { targets: Vec<String>, time_off: Option<Span> },
    /// Kill the containers, then restart them.
    Kill { targets: Vec<String>, time_off: Option<Span> },
    /// Pause the containers, then unpause them.
    Pause { targets: Vec<String>, time_off: Option<Span> },
    /// Restart the containers cleanly.
    Restart { targets: Vec<String> },
    /// Stop the containers and restart them with the upgraded image.
    Upgrade { targets: Vec<String>, time_off: Option<Span> },
}

impl Perturbation {
    /// The names of the nodes and containers perturbed.
    pub open spec fn targets(self) -> Seq<String> {
        match self {
            Perturbation::Disconnect { targets, .. } => targets@,
            Perturbation::Kill { targets, .. } => targets@,
            Perturbation::Pause { targets, .. } => targets@,
            Perturbation::Restart { targets } => targets@,
            Perturbation::Upgrade { targets, .. } => targets@,
        }
    }
}

/// A perturbation to be applied, without a seed of its own.
#[derive(Debug)]
pub struct PerturbRequest {
    pub action: Perturbation,
    /// Minimum time that targets without a time of their own are offline.
    pub min_time_off: Span,
    /// Maximum time that targets without a time of their own are offline.
    pub max_time_off: Span,
}

/// A perturbation, to be applied within the bounds that all tools use.
pub open spec fn perturbing(action: Perturbation) -> PerturbRequest {
    PerturbRequest { action, min_time_off: Span::of_secs(10), max_time_off: Span::of_secs(20) }
}

/// A perturbation, to be applied within the bounds that all tools use.
fn request_perturbation(action: Perturbation) -> (r: PerturbRequest)
    ensures
        r == perturbing(action),
{
    PerturbRequest {
        action,
        min_time_off: Span::from_secs(10),
        max_time_off: Span::from_secs(20),
    }
}

/// Parameters for timed perturbation tools (disconnect, kill, pause).
#[derive(Debug)]
pub struct PerturbTimedParams {
    /// Target node or container names to perturb.
    pub targets: Vec<String>,
    /// How long the perturbation should last, e.g. "10s", "1m". If omitted, a random
    /// duration is chosen.
    pub duration: Option<String>,
}

/// Parameters for non-timed perturbation tools (restart, upgrade).
#[derive(Debug)]
pub struct PerturbTargetsParams {
    /// Target node or container names to perturb.
    pub targets: Vec<String>,
}

/// The perturbations that last for a time.
#[derive(Debug, Clone, Copy, PartialEq, Eq, Structural)]
pub enum TimedKind {
    Disconnect,
    Kill,
    Pause,
}

/// A perturbation that lasts for a time.
pub open spec fn timed(
    kind: TimedKind,
    targets: Vec<String>,
    time_off: Option<Span>,
) -> Perturbation {
    match kind {
        TimedKind::Disconnect => Perturbation::Disconnect { targets, time_off },
        TimedKind::Kill => Perturbation::Kill { targets, time_off },
        TimedKind::Pause => Perturbation::Pause { targets, time_off },
    }
}

/// What a timed perturbation comes to once its duration has been read.
pub open spec fn timed_request(
    kind: TimedKind,
    targets: Vec<String>,
    duration: Result<Option<Span>, (ErrorKind, Seq<char>)>,
) -> Result<PerturbRequest, (ErrorKind, Seq<char>)> {
    match duration {
        Ok(time_off) => Ok(perturbing(timed(kind, targets, time_off))),
        Err(e) => Err(e),
    }
}

/// Requests a timed perturbation once its duration has been read. Nothing is perturbed where the
/// duration could not be read.
pub fn perturb_for(
    _ready: &TunnelsReady,
    kind: TimedKind,
    targets: Vec<String>,
    duration: Result<Option<Span>, ToolError>,
) -> (r: Result<PerturbRequest, ToolError>)
    ensures
        error::outcome(r) == timed_request(kind, targets, error::outcome(duration)),
        r is Ok <==> duration is Ok,
        r is Ok ==> r->Ok_0.min_time_off.secs == 10 && r->Ok_0.min_time_off.nanos == 0
            && r->Ok_0.max_time_off.secs == 20 && r->Ok_0.max_time_off.nanos == 0,
        r is Ok && kind == TimedKind::Disconnect ==> r->Ok_0.action == (Perturbation::Disconnect {
            targets,
            time_off: duration->Ok_0,
        }),
        r is Ok && kind == TimedKind::Kill ==> r->Ok_0.action == (Perturbation::Kill {
            targets,
            time_off: duration->Ok_0,
        }),
        r is Ok && kind == TimedKind::Pause ==> r->Ok_0.action == (Perturbation::Pause {
            targets,
            time_off: duration->Ok_0,
        }),
        r is Err ==> r->Err_0.kind == duration->Err_0.kind && r->Err_0.message@
            == duration->Err_0.message@,
{
    match duration {
        Ok(time_off) => {
            let action = match kind {
                TimedKind::Disconnect => Perturbation::Disconnect { targets, time_off },
                TimedKind::Kill => Perturbation::Kill { targets, time_off },
                TimedKind::Pause => Perturbation::Pause { targets, time_off },
            };
            Ok(request_perturbation(action))
        },
        Err(e) => Err(e),
    }
}

/// What an optional duration text comes to.
pub open spec fn duration_read(t: Option<String>) -> Result<Option<Span>, (ErrorKind, Seq<char>)> {
    match t {
        None => Ok(None),
        Some(t) => duration::optional_duration(Some(t@), duration::human_duration(t@)),
    }
}

/// Whether an optional duration text is one that can be read.
pub open spec fn readable(t: Option<String>) -> bool {
    t matches Some(t) ==> duration::bounded(t@)
}

/// Reads an optional duration text.
fn read_optional(t: &Option<String>) -> (r: Result<Option<Span>, ToolError>)
    requires
        readable(*t),
    ensures
        error::outcome(r) == duration_read(*t),
{
    match t {
        Some(t) => parse_duration_opt(Some(t.as_str())),
        None => parse_duration_opt(None),
    }
}

/// Disconnects target nodes from the network for a period, then reconnects them.
/// Simulates a network partition.
pub fn perturb_disconnect(ready: &TunnelsReady, params: PerturbTimedParams) -> (r: Result<
    PerturbRequest,
    ToolError,
>)
    requires
        readable(params.duration),
    ensures
        error::outcome(r) == timed_request(
            TimedKind::Disconnect,
            params.targets,
            duration_read(params.duration),
        ),
        params.duration is None ==> r is Ok && r->Ok_0.action == (Perturbation::Disconnect {
            targets: params.targets,
            time_off: None,
        }),
        params.duration matches Some(t) ==> match duration::human_duration(t@) {
            Ok(span) => r is Ok && r->Ok_0.action == (Perturbation::Disconnect {
                targets: params.targets,
                time_off: Some(span),
            }),
            Err(_) => r is Err && r->Err_0.kind == ErrorKind::InvalidParams,
        },
{
    let duration = read_optional(&params.duration);
    perturb_for(ready, TimedKind::Disconnect, params.targets, duration)
}

/// Kills target node containers, waits for a period, then restarts them.
pub fn perturb_kill(ready: &TunnelsReady, params: PerturbTimedParams) -> (r: Result<
    PerturbRequest,
    ToolError,
>)
    requires
        readable(params.duration),
    ensures
        error::outcome(r) == timed_request(
            TimedKind::Kill,
            params.targets,
            duration_read(params.duration),
        ),
        params.duration is None ==> r is Ok && r->Ok_0.action == (Perturbation::Kill {
            targets: params.targets,
            time_off: None,
        }),
        params.duration matches Some(t) ==> match duration::human_duration(t@) {
            Ok(span) => r is Ok && r->Ok_0.action == (Perturbation::Kill {
                targets: params.targets,
                time_off: Some(span),
            }),
            Err(_) => r is Err && r->Err_0.kind == ErrorKind::InvalidParams,
        },
{
    let duration = read_optional(&params.duration);
    perturb_for(ready, TimedKind::Kill, params.targets, duration)
}

/// Pauses target node containers for a period, then unpauses them.
pub fn perturb_pause(ready: &TunnelsReady, params: PerturbTimedParams) -> (r: Result<
    PerturbRequest,
    ToolError,
>)
    requires
        readable(params.duration),
    ensures
        error::outcome(r) == timed_request(
            TimedKind::Pause,
            params.targets,
            duration_read(params.duration),
        ),
        params.duration is None ==> r is Ok && r->Ok_0.action == (Perturbation::Pause {
            targets: params.targets,
            time_off: None,
        }),
        params.duration matches Some(t) ==> match duration::human_duration(t@) {
            Ok(span) => r is Ok && r->Ok_0.action == (Perturbation::Pause {
                targets: params.targets,
                time_off: Some(span),
            }),
            Err(_) => r is Err && r->Err_0.kind == ErrorKind::InvalidParams,
        },
{
    let duration = read_optional(&params.duration);
    perturb_for(ready, TimedKind::Pause, params.targets, duration)
}

/// Restarts target node containers cleanly.
pub fn perturb_restart(_ready: &TunnelsReady, params: PerturbTargetsParams) -> (r: PerturbRequest)
    ensures
        r == perturbing(Perturbation::Restart { targets: params.targets }),
        r.action == (Perturbation::Restart { targets: params.targets }),
        r.min_time_off.secs == 10 && r.min_time_off.nanos == 0,
        r.max_time_off.secs == 20 && r.max_time_off.nanos == 0,
{
    request_perturbation(Perturbation::Restart { targets: params.targets })
}

/// Upgrades target node containers by stopping them and restarting with the upgraded image.
pub fn perturb_upgrade(_ready: &TunnelsReady, params: PerturbTargetsParams) -> (r: PerturbRequest)
    ensures
        r == perturbing(Perturbation::Upgrade { targets: params.targets, time_off: None }),
        r.action == (Perturbation::Upgrade { targets: params.targets, time_off: None }),
        r.min_time_off.secs == 10 && r.min_time_off.nanos == 0,
        r.max_time_off.secs == 20 && r.max_time_off.nanos == 0,
{
    request_perturbation(Perturbation::Upgrade { targets: params.targets, time_off: None })
}

/// Answers a perturbation that was applied; `label` is how the perturbation is written.
pub fn apply_perturbation(action: &Perturbation, label: &str, applied: Result<(), String>) -> (r:
    Result<String, ToolError>)
    ensures
        error::answer(r) == match applied {
            Err(e) => Err(
                error::failure(
                    "Perturbation failed on "@ + text::joined(
                        text::texts(action.targets()),
                        ", "@,
                    ) + ": "@,
                    e@,
                ),
            ),
            Ok(_) => Ok("Perturbation applied: "@ + label@),
        },
{
    match applied {
        Err(e) => {
            let targets = match action {
                Perturbation::Disconnect { targets, .. } => targets,
                Perturbation::Kill { targets, .. } => targets,
                Perturbation::Pause { targets, .. } => targets,
                Perturbation::Restart { targets } => targets,
                Perturbation::Upgrade { targets, .. } => targets,
            };
            let mut what = String::from_str("Perturbation failed on ");
            what.append(text::join(targets, ", ").as_str());
            what.append(": ");
            Err(operation_failed(what.as_str(), e.as_str()))
        },
        Ok(_) => Ok(String::from_str("Perturbation applied: ").concat(label)),
    }
}

// ── Testing ─────────────────────────────────────────────────────────────

/// Parameters for the run_tests tool.
#[derive(Debug)]
pub struct RunTestsParams {
    /// Optional test filter spec (e.g. a test name or pattern). Runs all tests if omitted.
    pub spec: Option<String>,
    /// If true, list matching tests without running them. Defaults to false.
    pub dry_run: Option<bool>,
}

/// Tests to be run.
#[derive(Debug)]
pub struct RunTestsRequest {
    /// The filter; empty for all tests.
    pub filter: String,
    pub dry_run: bool,
    /// The timeout of a single RPC. It is short: tests poll rapidly and individual RPC failures
    /// are retried.
    pub rpc_timeout: Span,
}

/// Runs end-to-end tests against the testnet. Optionally filter by test spec or perform a
/// dry run.
pub fn run_tests(_ready: &TunnelsReady, params: RunTestsParams) -> (r: RunTestsRequest)
    ensures
        r.filter@ == match params.spec {
            Some(t) => t@,
            None => Seq::empty(),
        },
        r.dry_run == is_set(params.dry_run),
        r.rpc_timeout == Span::of_secs(1),
        r.dry_run <==> params.dry_run == Some(true),
        r.rpc_timeout.secs == 1 && r.rpc_timeout.nanos == 0,
{
    let filter = match params.spec {
        Some(t) => t,
        None => String::new(),
    };
    RunTestsRequest {
        filter,
        dry_run: params.dry_run.unwrap_or(false),
        rpc_timeout: Span::from_secs(1),
    }
}

/// Answers tests that were run.
pub fn run_tests_answer(request: RunTestsRequest, ran: Result<(), String>) -> (r: Result<
    String,
    ToolError,
>)
    ensures
        error::answer(r) == match ran {
            Err(e) => Err(error::failure("Tests failed: "@, e@)),
            Ok(_) => Ok(
                "Tests completed"@ + (if request.dry_run {
                    " (dry run)"@
                } else {
                    ""@
                }) + ": "@ + (if request.filter@.len() == 0 {
                    "all"@
                } else {
                    request.filter@
                }),
            ),
        },
{
    match ran {
        Err(e) => Err(operation_failed("Tests failed: ", e.as_str())),
        Ok(_) => {
            let mut answer = String::from_str("Tests completed");
            answer.append(
                if request.dry_run {
                    " (dry run)"
                } else {
                    ""
                },
            );
            answer.append(": ");
            if request.filter.as_str().is_empty() {
                answer.append("all");
            } else {
                answer.append(request.filter.as_str());
            }
            Ok(answer)
        },
    }
}

/// Parameters for the wait_height tool.
#[derive(Debug)]
pub struct WaitHeightParams {
    /// Target block height to wait for.
    pub height: u64,
    /// Optional list of node names to wait on. Waits on all nodes if omitted.
    pub nodes: Option<Vec<String>>,
    /// Optional timeout duration string, e.g. "60s", "2m". Defaults to 60s.
    pub timeout: Option<String>,
}

/// A height to be waited for.
#[derive(Debug)]
pub struct WaitHeightRequest {
    pub height: u64,
    /// The nodes; none for all nodes.
    pub nodes: Vec<String>,
    pub timeout: Span,
}

/// A timeout, or the one that holds where none is given.
pub open spec fn timeout_or(
    read: Result<Option<Span>, (ErrorKind, Seq<char>)>,
    default_secs: u64,
) -> Result<Span, (ErrorKind, Seq<char>)> {
    match read {
        Ok(Some(span)) => Ok(span),
        Ok(None) => Ok(Span::of_secs(default_secs)),
        Err(e) => Err(e),
    }
}

/// A timeout, or the one that holds where none is given.
fn or_secs(read: Result<Option<Span>, ToolError>, default_secs: u64) -> (r: Result<Span, ToolError>)
    ensures
        error::outcome(r) == timeout_or(error::outcome(read), default_secs),
{
    match read {
        Ok(Some(span)) => Ok(span),
        Ok(None) => Ok(Span::from_secs(default_secs)),
        Err(e) => Err(e),
    }
}

/// Requests a wait for a height once its timeout has been read. Nothing is waited for where the
/// timeout could not be read.
pub fn wait_height_for(
    _ready: &TunnelsReady,
    height: u64,
    nodes: Option<Vec<String>>,
    timeout: Result<Option<Span>, ToolError>,
) -> (r: Result<WaitHeightRequest, ToolError>)
    ensures
        match timeout_or(error::outcome(timeout), 60) {
            Err(e) => r is Err && r->Err_0@ == e,
            Ok(span) => r is Ok && r->Ok_0.height == height && r->Ok_0.nodes@ == named(nodes)
                && r->Ok_0.timeout == span,
        },
{
    match or_secs(timeout, 60) {
        Ok(timeout) => Ok(WaitHeightRequest { height, nodes: names_or_none(nodes), timeout }),
        Err(e) => Err(e),
    }
}

/// Waits until the specified nodes reach a target block height, with an optional timeout.
pub fn wait_height(ready: &TunnelsReady, params: WaitHeightParams) -> (r: Result<
    WaitHeightRequest,
    ToolError,
>)
    requires
        readable(params.timeout),
    ensures
        match timeout_or(duration_read(params.timeout), 60) {
            Err(e) => r is Err && r->Err_0@ == e,
            Ok(span) => r is Ok && r->Ok_0.height == params.height && r->Ok_0.nodes@ == named(
                params.nodes,
            ) && r->Ok_0.timeout == span,
        },
        params.timeout is None ==> r is Ok && r->Ok_0.timeout.secs == 60 && r->Ok_0.timeout.nanos
            == 0,
        params.timeout matches Some(t) ==> match duration::human_duration(t@) {
            Ok(span) => r is Ok && r->Ok_0.timeout == span,
            Err(_) => r is Err && r->Err_0.kind == ErrorKind::InvalidParams,
        },
{
    let timeout = read_optional(&params.timeout);
    wait_height_for(ready, params.height, params.nodes, timeout)
}

/// Answers a wait for a height.
pub fn wait_height_answer(request: &WaitHeightRequest, waited: Result<(), String>) -> (r: Result<
    String,
    ToolError,
>)
    ensures
        error::answer(r) == match waited {
            Err(e) => Err(
                error::failure(
                    "Wait for height "@ + text::decimal(request.height as nat) + " failed: "@,
                    e@,
                ),
            ),
            Ok(_) => Ok(
                "Reached height "@ + text::decimal(request.height as nat) + " on "@ + label(
                    request.nodes@,
                ),
            ),
        },
{
    match waited {
        Err(e) => {
            let mut what = String::from_str("Wait for height ");
            what.append(text::decimal_text(request.height).as_str());
            what.append(" failed: ");
            Err(operation_failed(what.as_str(), e.as_str()))
        },
        Ok(_) => {
            let mut answer = String::from_str("Reached height ");
            answer.append(text::decimal_text(request.height).as_str());
            answer.append(" on ");
            answer.append(nodes_label(&request.nodes).as_str());
            Ok(answer)
        },
    }
}

/// Parameters for the wait_rounds tool.
#[derive(Debug)]
pub struct WaitRoundsParams {
    /// Number of consecutive round-0 blocks required. Defaults to 10.
    pub consecutive: Option<u64>,
    /// Optional timeout duration string, e.g. "60s", "2m". Defaults to 120s.
    pub timeout: Option<String>,
}

/// Rounds to be waited for.
#[derive(Debug, Clone, Copy, PartialEq, Eq, Structural)]
pub struct WaitRoundsRequest {
    pub consecutive: u64,
    pub timeout: Span,
}

/// What a wait for rounds comes to once its timeout has been read.
pub open spec fn rounds_request(
    consecutive: Option<u64>,
    timeout: Result<Option<Span>, (ErrorKind, Seq<char>)>,
) -> Result<WaitRoundsRequest, (ErrorKind, Seq<char>)> {
    match timeout_or(timeout, 120) {
        Err(e) => Err(e),
        Ok(timeout) => Ok(
            WaitRoundsRequest {
                consecutive: match consecutive {
                    Some(n) => n,
                    None => 10,
                },
                timeout,
            },
        ),
    }
}

/// Requests a wait for rounds once its timeout has been read. Nothing is waited for where the
/// timeout could not be read.
pub fn wait_rounds_for(
    _ready: &TunnelsReady,
    consecutive: Option<u64>,
    timeout: Result<Option<Span>, ToolError>,
) -> (r: Result<WaitRoundsRequest, ToolError>)
    ensures
        error::outcome(r) == rounds_request(consecutive, error::outcome(timeout)),
{
    match or_secs(timeout, 120) {
        Ok(timeout) => Ok(WaitRoundsRequest { consecutive: consecutive.unwrap_or(10), timeout }),
        Err(e) => Err(e),
    }
}

/// Waits until consensus rounds settle at 0: until N consecutive blocks settle at round 0.
pub fn wait_rounds(ready: &TunnelsReady, params: WaitRoundsParams) -> (r: Result<
    WaitRoundsRequest,
    ToolError,
>)
    requires
        readable(params.timeout),
    ensures
        error::outcome(r) == rounds_request(params.consecutive, duration_read(params.timeout)),
        r is Ok && params.consecutive is None ==> r->Ok_0.consecutive == 10,
        r is Ok && params.consecutive is Some ==> Some(r->Ok_0.consecutive) == params.consecutive,
        params.timeout is None ==> r is Ok && r->Ok_0.timeout.secs == 120 && r->Ok_0.timeout.nanos
            == 0,
        params.timeout matches Some(t) ==> match duration::human_duration(t@) {
            Ok(span) => r is Ok && r->Ok_0.timeout == span,
            Err(_) => r is Err && r->Err_0.kind == ErrorKind::InvalidParams,
        },
{
    let timeout = read_optional(&params.timeout);
    wait_rounds_for(ready, params.consecutive, timeout)
}

/// Answers a wait for rounds.
pub fn wait_rounds_answer(request: WaitRoundsRequest, waited: Result<(), String>) -> (r: Result<
    String,
    ToolError,
>)
    ensures
        error::answer(r) == match waited {
            Err(e) => Err(error::failure("Wait for rounds failed: "@, e@)),
            Ok(_) => Ok(
                "Consensus rounds settled: "@ + text::decimal(request.consecutive as nat)
                    + " consecutive blocks at round 0"@,
            ),
        },
{
    match waited {
        Err(e) => Err(operation_failed("Wait for rounds failed: ", e.as_str())),
        Ok(_) => {
            let mut answer = String::from_str("Consensus rounds settled: ");
            answer.append(text::decimal_text(request.consecutive).as_str());
            answer.append(" consecutive blocks at round 0");
            Ok(answer)
        },
    }
}

/// A single validator power update entry.
#[derive(Debug)]
pub struct ValsetUpdateEntry {
    /// Validator name, e.g. "validator1".
    pub validator: String,
    /// New voting power for this validator.
    pub power: u64,
}

/// Parameters for the valset_update tool.
#[derive(Debug)]
pub struct ValsetUpdateParams {
    /// List of validator power updates to apply.
    pub updates: Vec<ValsetUpdateEntry>,
}

/// A change of a validator's voting power.
#[derive(Debug)]
pub struct ValidatorPowerUpdate {
    pub validator_name: String,
    pub new_voting_power: u64,
}

/// The changes that the entries of a call ask for, in their order.
pub open spec fn power_updates(entries: Seq<ValsetUpdateEntry>) -> Seq<ValidatorPowerUpdate> {
    Seq::new(
        entries.len(),
        |i: int|
            ValidatorPowerUpdate {
                validator_name: entries[i].validator,
                new_voting_power: entries[i].power,
            },
    )
}

/// Updates the voting power of one or more validators in the testnet.
pub fn valset_update(_ready: &TunnelsReady, params: &ValsetUpdateParams) -> (r: Vec<
    ValidatorPowerUpdate,
>)
    ensures
        r@ == power_updates(params.updates@),
        r@.len() == params.updates@.len(),
        forall|i: int|
            0 <= i < r@.len() ==> (#[trigger] r@[i]).validator_name == params.updates@[i].validator
                && r@[i].new_voting_power == params.updates@[i].power,
{
    let mut updates: Vec<ValidatorPowerUpdate> = Vec::new();
    let mut i: usize = 0;
    while i < params.updates.len()
        invariant
            i <= params.updates.len(),
            updates@ == power_updates(params.updates@.take(i as int)),
        decreases params.updates.len() - i,
    {
        let entry = &params.updates[i];
        updates.push(
            ValidatorPowerUpdate {
                validator_name: entry.validator.clone(),
                new_voting_power: entry.power,
            },
        );
        i = i + 1;
        assert(updates@ =~= power_updates(params.updates@.take(i as int)));
    }
    assert(params.updates@.take(params.updates@.len() as int) =~= params.updates@);
    updates
}

/// A change of voting power in short.
pub open spec fn update_summary(update: ValidatorPowerUpdate) -> Seq<char> {
    update.validator_name@ + ":"@ + text::decimal(update.new_voting_power as nat)
}

/// The changes in short.
pub open spec fn update_summaries(updates: Seq<ValidatorPowerUpdate>) -> Seq<Seq<char>> {
    Seq::new(updates.len(), |i: int| update_summary(updates[i]))
}

/// Answers a change of voting power.
pub fn valset_update_answer(updates: &Vec<ValidatorPowerUpdate>, updated: Result<(), String>) -> (r:
    Result<String, ToolError>)
    ensures
        error::answer(r) == match updated {
            Err(e) => Err(error::failure("Validator set update failed: "@, e@)),
            Ok(_) => Ok(
                "Validator set updated: "@ + text::joined(update_summaries(updates@), ", "@),
            ),
        },
{
    match updated {
        Err(e) => Err(operation_failed("Validator set update failed: ", e.as_str())),
        Ok(_) => {
            let mut summary: Vec<String> = Vec::new();
            let mut i: usize = 0;
            while i < updates.len()
                invariant
                    i <= updates.len(),
                    text::texts(summary@) == update_summaries(updates@.take(i as int)),
                decreases updates.len() - i,
            {
                let mut line = updates[i].validator_name.clone();
                line.append(":");
                line.append(text::decimal_text(updates[i].new_voting_power).as_str());
                text::push_line(&mut summary, line);
                i = i + 1;
                assert(text::texts(summary@) =~= update_summaries(updates@.take(i as int)));
            }
            assert(updates@.take(updates@.len() as int) =~= updates@);
            let mut answer = String::from_str("Validator set updated: ");
            answer.append(text::join(&summary, ", ").as_str());
            Ok(answer)
        },
    }
}

// ── Laws ────────────────────────────────────────────────────────────────

/// For a local testnet no tunnel is started, and the call goes on. For a remote one the tunnels
/// are started, and the call goes on exactly where that succeeds; where it does not, the call is
/// answered with that error. `start` is how a start goes, if one is made.
pub proof fn law_tunnels_for_remote_only(found: Result<(), String>, start: Result<(), String>)
    ensures
        ({
            let started = if starts_tunnels(found) {
                Some(start)
            } else {
                None
            };
            &&& started is Some <==> found is Ok
            &&& found is Err ==> tunnels_result(started) is Ok
            &&& found is Ok ==> tunnels_result(started) == match start {
                Ok(_) => Ok(()),
                Err(e) => Err(error::failure("Failed to start SSM tunnels: "@, e@)),
            }
        }),
{
}

/// A restart stops the nodes before it starts them, and starts the nodes that it stopped. Where
/// they cannot be stopped it ends with that error, and they are not started. Only where both go
/// well it answers that the nodes were restarted.
pub proof fn law_restart_stops_then_starts(
    names: Vec<String>,
    stopped: Result<(), String>,
    started: Result<(), String>,
)
    ensures
        ({
            let tool = NodeTool::RestartTestnet;
            let stop = NodeCall { tool, names, action: first_action(tool) };
            let start = NodeCall { tool, names, action: NodeAction::Start };
            &&& stop.action == NodeAction::Stop
            &&& node_progress(stop, stopped) == match stopped {
                Err(e) => Err(error::failure("Failed to stop nodes: "@, e@)),
                Ok(_) => Ok(NodeProgress::<Seq<char>>::Next(start)),
            }
            &&& node_progress(start, started) == match started {
                Err(e) => Err(error::failure("Failed to start nodes: "@, e@)),
                Ok(_) => Ok(NodeProgress::Answer("Restarted: "@ + label(names@))),
            }
        }),
{
}

/// Where `all` is accepted, it asks for the full clean-up, with monitoring included.
pub proof fn law_all_is_full_with_monitoring(params: CleanParams)
    requires
        is_set(params.all),
        requested_clean(params) is Ok,
    ensures
        requested_clean(params)->Ok_0 == (CleanRequest {
            mode: CleanScope::Full,
            include_monitoring: true,
        }),
{
}

/// A timed perturbation is of the kind of the tool, hits the targets of the call, and lasts for
/// exactly the duration that was read: for none of its own where none was given. Targets without
/// a time of their own are offline for ten to twenty seconds.
pub proof fn law_perturbations_last_as_asked(
    targets: Vec<String>,
    time_off: Option<Span>,
    kind: TimedKind,
)
    ensures
        timed_request(kind, targets, Ok(time_off)) matches Ok(request) && {
            &&& kind == TimedKind::Disconnect ==> (request.action matches Perturbation::Disconnect {
                targets: hit,
                time_off: off,
            } && hit == targets && off == time_off)
            &&& kind == TimedKind::Kill ==> (request.action matches Perturbation::Kill {
                targets: hit,
                time_off: off,
            } && hit == targets && off == time_off)
            &&& kind == TimedKind::Pause ==> (request.action matches Perturbation::Pause {
                targets: hit,
                time_off: off,
            } && hit == targets && off == time_off)
            &&& request.min_time_off.secs == 10 && request.min_time_off.nanos == 0
            &&& request.max_time_off.secs == 20 && request.max_time_off.nanos == 0
        },
{
}

/// From the parameters of a call to what is perturbed: without a duration the perturbation has
/// no time of its own, with one that can be read it has exactly that time, and with one that
/// cannot be read nothing is perturbed and the error quotes the text.
pub proof fn law_perturbations_follow_their_parameters(
    targets: Vec<String>,
    duration: Option<String>,
    kind: TimedKind,
)
    ensures
        ({
            let asked = timed_request(kind, targets, duration_read(duration));
            let off: Option<Span> = match duration {
                None => None,
                Some(t) => match duration::human_duration(t@) {
                    Ok(span) => Some(span),
                    Err(_) => None,
                },
            };
            &&& asked is Err <==> duration is Some && duration::human_duration(
                duration->Some_0@,
            ) is Err
            &&& asked matches Err(e) ==> e == (
                ErrorKind::InvalidParams,
                "Invalid duration '"@ + duration->Some_0@ + "': "@ + duration::human_duration(
                    duration->Some_0@,
                )->Err_0,
            )
            &&& asked matches Ok(request) ==> request.action == match kind {
                TimedKind::Disconnect => Perturbation::Disconnect { targets, time_off: off },
                TimedKind::Kill => Perturbation::Kill { targets, time_off: off },
                TimedKind::Pause => Perturbation::Pause { targets, time_off: off },
            }
        }),
{
}

/// A text that cannot be read stops a perturbation and a wait with the error of the reading.
pub proof fn law_unread_durations_stop_calls(
    kind: TimedKind,
    targets: Vec<String>,
    consecutive: Option<u64>,
    secs: u64,
    e: (ErrorKind, Seq<char>),
)
    ensures
        timed_request(kind, targets, Err(e)) == Err::<PerturbRequest, _>(e),
        timeout_or(Err(e), secs) == Err::<Span, _>(e),
        rounds_request(consecutive, Err(e)) == Err::<WaitRoundsRequest, _>(e),
{
}

/// The bounds of a perturbation are ten and twenty seconds, whatever is done, and its action is
/// the one asked for.
pub proof fn law_perturbations_have_their_bounds(action: Perturbation)
    ensures
        perturbing(action).action == action,
        perturbing(action).min_time_off.secs == 10,
        perturbing(action).min_time_off.nanos == 0,
        perturbing(action).max_time_off.secs == 20,
        perturbing(action).max_time_off.nanos == 0,
{
}

/// The targets of a perturbation are those that it was made with, whatever it is.
pub proof fn law_targets_are_those_named(targets: Vec<String>, time_off: Option<Span>)
    ensures
        (Perturbation::Disconnect { targets, time_off }).targets() == targets@,
        (Perturbation::Kill { targets, time_off }).targets() == targets@,
        (Perturbation::Pause { targets, time_off }).targets() == targets@,
        (Perturbation::Restart { targets }).targets() == targets@,
        (Perturbation::Upgrade { targets, time_off }).targets() == targets@,
{
}

/// A timeout that is given holds as it is, and a missing one is the number of seconds that
/// stands for it.
pub proof fn law_timeouts_hold_as_given(span: Span, secs: u64)
    ensures
        timeout_or(Ok(Some(span)), secs) == Ok::<_, (ErrorKind, Seq<char>)>(span),
        timeout_or(Ok(None), secs) matches Ok(t) && t.secs == secs && t.nanos == 0,
{
}

/// A wait for rounds is for as many blocks as asked, or for ten, and for as long as asked, or for
/// two minutes.
pub proof fn law_rounds_are_those_asked(n: u64, span: Span, some: bool, given: bool)
    ensures
        ({
            let consecutive = if some {
                Some(n)
            } else {
                None
            };
            let timeout = if given {
                Some(span)
            } else {
                None
            };
            rounds_request(consecutive, Ok(timeout)) matches Ok(request) && {
                &&& some ==> request.consecutive == n
                &&& !some ==> request.consecutive == 10
                &&& given ==> request.timeout == span
                &&& !given ==> request.timeout.secs == 120 && request.timeout.nanos == 0
            }
        }),
{
}

/// No text is read as no duration; a text that is there is read for what it denotes. Only a text
/// that is there can be out of reach of a reading.
pub proof fn law_durations_are_read_where_given(t: String)
    ensures
        duration_read(None) == Ok::<Option<Span>, (ErrorKind, Seq<char>)>(None),
        duration::human_duration(t@) matches Ok(span) ==> duration_read(Some(t)) == Ok::<
            _,
            (ErrorKind, Seq<char>),
        >(Some(span)),
        duration::human_duration(t@) matches Err(cause) ==> duration_read(Some(t)) == Err::<
            Option<Span>,
            _,
        >((ErrorKind::InvalidParams, "Invalid duration '"@ + t@ + "': "@ + cause)),
        readable(None),
        readable(Some(t)) <==> duration::bounded(t@),
{
}

/// A call is about the nodes that it names, and about all nodes where it names none. An answer
/// lists the names in their order, set apart by commas.
pub proof fn law_calls_are_about_the_named(names: Vec<String>, other: Vec<String>)
    ensures
        named(Some(names)) == names@,
        named(None) == Seq::<String>::empty(),
        names@.len() == 0 ==> label(names@) == "all nodes"@,
        names@.len() == 1 ==> label(names@) == names@[0]@,
        names@.len() > 0 && other@.len() > 0 ==> label(names@ + other@) == label(names@) + ", "@
            + label(other@),
{
    if names@.len() > 0 && other@.len() > 0 {
        let a = text::texts(names@);
        let b = text::texts(other@);
        assert(text::texts(names@ + other@) =~= a + b);
        text::law_joined_in_order(a, b, ", "@);
    }
}

/// Each tool does to the nodes what its name says: a start starts them and is answered after
/// that, a stop stops them and is answered after that. What fails is told with its own error.
pub proof fn law_tools_do_what_they_say(names: Vec<String>, e: String)
    ensures
        first_action(NodeTool::StartNodes) == NodeAction::Start,
        first_action(NodeTool::StopNodes) == NodeAction::Stop,
        first_action(NodeTool::RestartTestnet) == NodeAction::Stop,
        node_progress(
            NodeCall { tool: NodeTool::StartNodes, names, action: NodeAction::Start },
            Ok(()),
        ) == Ok::<_, (ErrorKind, Seq<char>)>(
            NodeProgress::Answer("Started: "@ + label(names@)),
        ),
        node_progress(
            NodeCall { tool: NodeTool::StopNodes, names, action: NodeAction::Stop },
            Ok(()),
        ) == Ok::<_, (ErrorKind, Seq<char>)>(
            NodeProgress::Answer("Stopped: "@ + label(names@)),
        ),
        node_progress(
            NodeCall { tool: NodeTool::StartNodes, names, action: NodeAction::Start },
            Err(e),
        ) == Err::<NodeProgress<Seq<char>>, _>(
            (ErrorKind::InternalError, "Failed to start nodes: "@ + e@),
        ),
        node_progress(
            NodeCall { tool: NodeTool::StopNodes, names, action: NodeAction::Stop },
            Err(e),
        ) == Err::<NodeProgress<Seq<char>>, _>(
            (ErrorKind::InternalError, "Failed to stop nodes: "@ + e@),
        ),
{
}

/// A whole restart, step by step: the nodes named are stopped, then the same nodes are started,
/// and the answer says that they were restarted. An error of either step is the answer, and says
/// which step failed.
pub proof fn law_restart_is_told_step_by_step(names: Vec<String>, e: String)
    ensures
        ({
            let tool = NodeTool::RestartTestnet;
            let stop = NodeCall { tool, names, action: NodeAction::Stop };
            let start = NodeCall { tool, names, action: NodeAction::Start };
            &&& node_progress(stop, Ok(())) matches Ok(NodeProgress::Next(next)) && next.tool == tool
                && next.names == names && next.action == NodeAction::Start
            &&& node_progress(start, Ok(())) matches Ok(NodeProgress::Answer(t)) && t
                == "Restarted: "@ + label(names@)
            &&& node_progress(stop, Err(e)) matches Err(told) && told == (
                ErrorKind::InternalError,
                "Failed to stop nodes: "@ + e@,
            )
            &&& node_progress(start, Err(e)) matches Err(told) && told == (
                ErrorKind::InternalError,
                "Failed to start nodes: "@ + e@,
            )
        }),
{
}

/// The answer of a tool begins with what was done.
pub proof fn law_answers_begin_with_what_was_done()
    ensures
        done_word(NodeTool::StartNodes) == "Started: "@,
        done_word(NodeTool::StopNodes) == "Stopped: "@,
        done_word(NodeTool::RestartTestnet) == "Restarted: "@,
{
}

/// Nothing of a step is lost on the way: the next action, the answer and the error are told.
pub proof fn law_steps_of_nodes_are_told(call: NodeCall, t: String, e: ToolError)
    ensures
        node_outcome(Ok(NodeProgress::Next(call))) == Ok::<_, (ErrorKind, Seq<char>)>(
            NodeProgress::<Seq<char>>::Next(call),
        ),
        node_outcome(Ok(NodeProgress::Answer(t))) == Ok::<_, (ErrorKind, Seq<char>)>(
            NodeProgress::Answer(t@),
        ),
        node_outcome(Err(e)) == Err::<NodeProgress<Seq<char>>, _>((e.kind, e.message@)),
{
}

/// A flag counts where it is there and true.
pub proof fn law_flags_count_where_set(flag: bool)
    ensures
        is_set(Some(flag)) == flag,
        !is_set(None),
{
}

/// A clean-up is refused exactly where `all` stands beside another flag, as the caller's error.
/// Otherwise monitoring is included with `all` and with `monitoring`, and the scope is what the
/// data flags name: full where there is none, and nothing where monitoring stands alone.
pub proof fn law_clean_flags_ask_for_what_they_name(
    all: bool,
    monitoring: bool,
    data: bool,
    execution_data: bool,
    consensus_data: bool,
)
    ensures
        ({
            let asked = requested_clean(
                CleanParams {
                    all: Some(all),
                    monitoring: Some(monitoring),
                    data: Some(data),
                    execution_data: Some(execution_data),
                    consensus_data: Some(consensus_data),
                },
            );
            let execution = data || execution_data;
            let consensus = data || consensus_data;
            &&& asked is Err <==> all && (monitoring || execution || consensus)
            &&& asked matches Err(e) ==> e == (
                ErrorKind::InvalidParams,
                "all cannot be combined with other flags"@,
            )
            &&& asked matches Ok(request) ==> {
                &&& request.include_monitoring <==> all || monitoring
                &&& request.mode == CleanScope::Data <==> execution && consensus
                &&& request.mode == CleanScope::ExecutionData <==> execution && !consensus
                &&& request.mode == CleanScope::ConsensusData <==> !execution && consensus
                &&& request.mode == CleanScope::Skip <==> !execution && !consensus && monitoring
                &&& request.mode == CleanScope::Full <==> !execution && !consensus && !monitoring
            }
        }),
{
}

/// A flag that is missing is as one that is not set.
pub proof fn law_missing_flags_are_not_set(params: CleanParams)
    ensures
        ({
            let all = params.all == Some(true);
            let monitoring = params.monitoring == Some(true);
            let data = params.data == Some(true);
            let execution_data = params.execution_data == Some(true);
            let consensus_data = params.consensus_data == Some(true);
            let plain = CleanParams {
                all: Some(all),
                monitoring: Some(monitoring),
                data: Some(data),
                execution_data: Some(execution_data),
                consensus_data: Some(consensus_data),
            };
            &&& requested_clean(params) == requested_clean(plain)
            &&& conflicting(params) <==> all && (monitoring || data || execution_data
                || consensus_data)
        }),
{
}

/// Where tunnels were started in vain, that is the error; otherwise there is none.
pub proof fn law_failed_tunnels_are_told(found: Result<(), String>, e: String)
    ensures
        starts_tunnels(found) <==> found is Ok,
        tunnels_result(None) == Ok::<(), (ErrorKind, Seq<char>)>(()),
        tunnels_result(Some(Ok(()))) == Ok::<(), (ErrorKind, Seq<char>)>(()),
        tunnels_result(Some(Err(e))) == Err::<(), _>(
            (ErrorKind::InternalError, "Failed to start SSM tunnels: "@ + e@),
        ),
{
}

/// Each entry asks for its own change: of its validator, to its power, and in its place. There
/// are no other changes.
pub proof fn law_changes_are_those_asked(entries: Seq<ValsetUpdateEntry>, i: int)
    requires
        0 <= i < entries.len(),
    ensures
        power_updates(entries).len() == entries.len(),
        power_updates(entries)[i].validator_name == entries[i].validator,
        power_updates(entries)[i].new_voting_power == entries[i].power,
{
}

/// Each change is summed up by the name of the validator, a colon and the new power, in its
/// place.
pub proof fn law_changes_are_summed_up(updates: Seq<ValidatorPowerUpdate>, i: int)
    requires
        0 <= i < updates.len(),
    ensures
        update_summaries(updates).len() == updates.len(),
        update_summaries(updates)[i] == updates[i].validator_name@ + ":"@ + text::decimal(
            updates[i].new_voting_power as nat,
        ),
        update_summary(updates[i]) == updates[i].validator_name@ + ":"@ + text::decimal(
            updates[i].new_voting_power as nat,
        ),
{
}

/// Whatever the tool and the action: what failed is told as a failed stop or start, and after what
/// went well the call is answered, unless it is a restart that has only stopped the nodes.
pub proof fn law_calls_go_on_or_are_answered(call: NodeCall, e: String)
    ensures
        ({
            let failed = node_progress(call, Err(e));
            let went = node_progress(call, Ok(()));
            let half = call.tool == NodeTool::RestartTestnet && call.action == NodeAction::Stop;
            &&& failed is Err && failed->Err_0.0 == ErrorKind::InternalError
            &&& call.action == NodeAction::Stop ==> failed->Err_0.1 == "Failed to stop nodes: "@ + e@
            &&& call.action == NodeAction::Start ==> failed->Err_0.1 == "Failed to start nodes: "@
                + e@
            &&& went is Ok
            &&& went->Ok_0 is Next <==> half
            &&& !half ==> went->Ok_0 == NodeProgress::Answer(
                match call.tool {
                    NodeTool::StartNodes => "Started: "@,
                    NodeTool::StopNodes => "Stopped: "@,
                    NodeTool::RestartTestnet => "Restarted: "@,
                } + label(call.names@),
            )
        }),
{
}

} // verus!
