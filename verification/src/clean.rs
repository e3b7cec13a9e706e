//! Cleaning a testnet up: what is removed, and in which order.

use vstd::prelude::*;
use vstd::string::*;

use crate::text;

verus! {

/// The subdirectories of an execution layer's data directory that hold its data.
pub const RETH_DATA_SUBDIRS: [&'static str; 4] = [
    "db",
    "static_files",
    "blobstore",
    "invalid_block_hooks",
];

/// The subdirectories of a consensus layer's data directory that hold its data.
pub const MALACHITE_DATA_SUBDIRS: [&'static str; 2] = ["store.db", "wal"];

/// Controls which node data a clean-up removes.
#[derive(Debug, Clone, Copy, PartialEq, Eq, Structural)]
pub enum CleanScope {
    /// Don't remove any node data.
    Skip,
    /// Remove both data and configuration from consensus and execution layer.
    /// On remote infrastructure, also destroys AWS resources.
    Full,
    /// Remove only execution layer data, preserving configuration.
    ExecutionData,
    /// Remove only consensus layer data, preserving configuration.
    ConsensusData,
    /// Remove both consensus and execution layer data, preserving configuration.
    Data,
}

/// A layer of a node.
#[derive(Debug, Clone, Copy, PartialEq, Eq, Structural)]
pub enum Layer {
    Execution,
    Consensus,
}

/// Where a testnet runs.
#[derive(Debug, Clone, Copy, PartialEq, Eq, Structural)]
pub enum InfraType {
    Local,
    Remote,
}

impl CleanScope {
    /// Whether the scope removes data of the nodes and leaves their configuration.
    pub open spec fn is_data(self) -> bool {
        self is ExecutionData || self is ConsensusData || self is Data
    }

    /// The layers whose data the scope removes from every node, in the order in which it does.
    pub open spec fn layers(self) -> Seq<Layer> {
        match self {
            CleanScope::ExecutionData => seq![Layer::Execution],
            CleanScope::ConsensusData => seq![Layer::Consensus],
            CleanScope::Data => seq![Layer::Execution, Layer::Consensus],
            _ => Seq::empty(),
        }
    }
}

/// The scope that the flags of a clean-up ask for.
pub open spec fn scope_of(
    data: bool,
    execution_data: bool,
    consensus_data: bool,
    monitoring: bool,
) -> CleanScope {
    if data || execution_data && consensus_data {
        CleanScope::Data
    } else if execution_data {
        CleanScope::ExecutionData
    } else if consensus_data {
        CleanScope::ConsensusData
    } else if monitoring {
        CleanScope::Skip
    } else {
        CleanScope::Full
    }
}

/// Derive a [`CleanScope`] from individual boolean flags.
pub fn clean_scope(
    data: bool,
    execution_data: bool,
    consensus_data: bool,
    monitoring: bool,
) -> (r: CleanScope)
    ensures
        r == scope_of(data, execution_data, consensus_data, monitoring),
{
    match (data || execution_data, data || consensus_data) {
        (true, true) => CleanScope::Data,
        (true, false) => CleanScope::ExecutionData,
        (false, true) => CleanScope::ConsensusData,
        // No data flags: clean only monitoring without touching node data.
        (false, false) => if monitoring {
            CleanScope::Skip
        } else {
            CleanScope::Full
        },
    }
}

/// A clean-up that was asked for.
#[derive(Debug, Clone, Copy, PartialEq, Eq, Structural)]
pub struct CleanJob {
    pub infra: InfraType,
    pub mode: CleanScope,
    pub include_monitoring: bool,
}

/// A step of a clean-up. A `Find` step asks a question, the other steps act.
#[derive(Debug, Clone, Copy, PartialEq, Eq)]
pub enum CleanStep {
    /// Stop and remove the containers of the testnet with these names; all of them where there
    /// are none.
    StopContainers { names: [&'static str; 0] },
    /// Is the infrastructure that carries the monitoring services at hand?
    FindMonitoring,
    /// Stop the monitoring services.
    StopMonitoring,
    /// Remove the data of the monitoring services.
    CleanMonitoring,
    /// Is the remote infrastructure at hand?
    FindRemoteInfra,
    /// Terminate the tunnels to the remote infrastructure.
    StopTunnels,
    /// Is there a record of created remote resources?
    FindTerraformState,
    /// Destroy the remote resources; `yes` says not to ask for confirmation.
    DestroyInfra { yes: bool },
    /// Does the directory of the testnet exist?
    FindTestnetDir,
    /// Remove the directory of the testnet.
    RemoveTestnetDir,
    /// Is the infrastructure that carries the nodes at hand?
    FindNodes,
    /// Remove the data of the nodes that the scope names.
    CleanNodeData,
    /// Nothing is left to do.
    Finished,
}

impl CleanStep {
    /// Whether the step changes something, rather than asking a question.
    pub open spec fn acts(self) -> bool {
        match self {
            CleanStep::StopContainers { .. }
            | CleanStep::StopMonitoring
            | CleanStep::CleanMonitoring
            | CleanStep::StopTunnels
            | CleanStep::DestroyInfra { .. }
            | CleanStep::RemoveTestnetDir
            | CleanStep::CleanNodeData => true,
            _ => false,
        }
    }

    /// Whether the step is about the monitoring services.
    pub open spec fn is_monitoring(self) -> bool {
        match self {
            CleanStep::FindMonitoring
            | CleanStep::StopMonitoring
            | CleanStep::CleanMonitoring => true,
            _ => false,
        }
    }

    /// How many steps may still follow.
    pub open spec fn rank(self) -> nat {
        match self {
            CleanStep::StopContainers { .. } => 12,
            CleanStep::FindMonitoring => 11,
            CleanStep::StopMonitoring => 10,
            CleanStep::CleanMonitoring => 9,
            CleanStep::FindRemoteInfra => 8,
            CleanStep::StopTunnels => 7,
            CleanStep::FindTerraformState => 6,
            CleanStep::DestroyInfra { .. } => 5,
            CleanStep::FindTestnetDir => 4,
            CleanStep::RemoveTestnetDir => 3,
            CleanStep::FindNodes => 2,
            CleanStep::CleanNodeData => 1,
            CleanStep::Finished => 0,
        }
    }
}

/// The names of the containers that a clean-up stops: none, which stands for all.
pub const NO_NAMES: [&'static str; 0] = [];

/// The first step of a clean-up: all containers are stopped.
pub open spec fn first_step() -> CleanStep {
    CleanStep::StopContainers { names: NO_NAMES }
}

/// Begins a clean-up.
pub fn begin_clean() -> (r: CleanStep)
    ensures
        r == first_step(),
{
    CleanStep::StopContainers { names: NO_NAMES }
}

/// The first step that concerns the nodes themselves.
pub open spec fn node_step(job: CleanJob) -> CleanStep {
    match job.mode {
        CleanScope::Skip => CleanStep::Finished,
        CleanScope::Full => match job.infra {
            InfraType::Remote => CleanStep::FindRemoteInfra,
            InfraType::Local => CleanStep::FindTestnetDir,
        },
        _ => CleanStep::FindNodes,
    }
}

/// The step that follows `step`; `ok` says that the answer to a question was yes. Whether a
/// step that acts succeeded makes no difference.
pub open spec fn next_step(job: CleanJob, step: CleanStep, ok: bool) -> CleanStep {
    match step {
        CleanStep::StopContainers { .. } => if job.include_monitoring {
            CleanStep::FindMonitoring
        } else {
            node_step(job)
        },
        CleanStep::FindMonitoring => if ok {
            CleanStep::StopMonitoring
        } else {
            node_step(job)
        },
        CleanStep::StopMonitoring => CleanStep::CleanMonitoring,
        CleanStep::CleanMonitoring => node_step(job),
        CleanStep::FindRemoteInfra => if ok {
            CleanStep::StopTunnels
        } else {
            CleanStep::FindTestnetDir
        },
        CleanStep::StopTunnels => CleanStep::FindTerraformState,
        CleanStep::FindTerraformState => if ok {
            CleanStep::DestroyInfra { yes: true }
        } else {
            CleanStep::FindTestnetDir
        },
        CleanStep::DestroyInfra { .. } => CleanStep::FindTestnetDir,
        CleanStep::FindTestnetDir => if ok {
            CleanStep::RemoveTestnetDir
        } else {
            CleanStep::Finished
        },
        CleanStep::FindNodes => if ok {
            CleanStep::CleanNodeData
        } else {
            CleanStep::Finished
        },
        CleanStep::RemoveTestnetDir
        | CleanStep::CleanNodeData
        | CleanStep::Finished => CleanStep::Finished,
    }
}

/// The first step that concerns the nodes themselves.
fn first_node_step(job: CleanJob) -> (r: CleanStep)
    ensures
        r == node_step(job),
{
    match job.mode {
        CleanScope::Skip => CleanStep::Finished,
        CleanScope::Full => match job.infra {
            InfraType::Remote => CleanStep::FindRemoteInfra,
            InfraType::Local => CleanStep::FindTestnetDir,
        },
        CleanScope::ExecutionData | CleanScope::ConsensusData | CleanScope::Data => {
            CleanStep::FindNodes
        },
    }
}

/// Clean up testnet-related files, directories, infrastructure, and running processes.
///
/// A clean-up starts with [`begin_clean`]. Whoever runs it performs the step, passes in how it
/// went, and goes on with the step returned until it is [`CleanStep::Finished`]. `job.mode`
/// controls which node data is removed; `job.include_monitoring` is orthogonal: any mode can be
/// combined with monitoring cleanup.
pub fn clean(job: CleanJob, step: CleanStep, ok: bool) -> (r: CleanStep)
    ensures
        r == next_step(job, step, ok),
        step != CleanStep::Finished ==> r.rank() < step.rank(),
{
    match step {
        CleanStep::StopContainers { .. } => if job.include_monitoring {
            CleanStep::FindMonitoring
        } else {
            first_node_step(job)
        },
        CleanStep::FindMonitoring => if ok {
            CleanStep::StopMonitoring
        } else {
            first_node_step(job)
        },
        CleanStep::StopMonitoring => CleanStep::CleanMonitoring,
        CleanStep::CleanMonitoring => first_node_step(job),
        CleanStep::FindRemoteInfra => if ok {
            CleanStep::StopTunnels
        } else {
            CleanStep::FindTestnetDir
        },
        CleanStep::StopTunnels => CleanStep::FindTerraformState,
        CleanStep::FindTerraformState => if ok {
            CleanStep::DestroyInfra { yes: true }
        } else {
            CleanStep::FindTestnetDir
        },
        CleanStep::DestroyInfra { .. } => CleanStep::FindTestnetDir,
        CleanStep::FindTestnetDir => if ok {
            CleanStep::RemoveTestnetDir
        } else {
            CleanStep::Finished
        },
        CleanStep::FindNodes => if ok {
            CleanStep::CleanNodeData
        } else {
            CleanStep::Finished
        },
        CleanStep::RemoveTestnetDir => CleanStep::Finished,
        CleanStep::CleanNodeData => CleanStep::Finished,
        CleanStep::Finished => CleanStep::Finished,
    }
}

/// The actions of a clean-up from `step` on, in order, where `ok` says how each step goes.
pub open spec fn actions_from(
    job: CleanJob,
    step: CleanStep,
    ok: spec_fn(CleanStep) -> bool,
) -> Seq<CleanStep>
    decreases step.rank(),
{
    if step == CleanStep::Finished {
        Seq::empty()
    } else {
        let rest = actions_from(job, next_step(job, step, ok(step)), ok);
        if step.acts() {
            seq![step] + rest
        } else {
            rest
        }
    }
}

/// The actions of a whole clean-up.
pub open spec fn actions(job: CleanJob, ok: spec_fn(CleanStep) -> bool) -> Seq<CleanStep> {
    actions_from(job, first_step(), ok)
}

/// `steps` where `condition` holds, else nothing.
pub open spec fn only_if(condition: bool, steps: Seq<CleanStep>) -> Seq<CleanStep> {
    if condition {
        steps
    } else {
        Seq::empty()
    }
}

/// The actions of a clean-up that concern the nodes.
pub open spec fn node_actions(job: CleanJob, ok: spec_fn(CleanStep) -> bool) -> Seq<CleanStep> {
    match job.mode {
        CleanScope::Skip => Seq::empty(),
        CleanScope::Full => {
            let remote = job.infra == InfraType::Remote && ok(CleanStep::FindRemoteInfra);
            only_if(remote, seq![CleanStep::StopTunnels])
                + only_if(remote && ok(CleanStep::FindTerraformState), seq![CleanStep::DestroyInfra { yes: true }])
                + only_if(ok(CleanStep::FindTestnetDir), seq![CleanStep::RemoveTestnetDir])
        },
        _ => only_if(ok(CleanStep::FindNodes), seq![CleanStep::CleanNodeData]),
    }
}

/// From the first step about the nodes on, a clean-up performs the actions about the nodes.
proof fn lemma_node_actions(job: CleanJob, ok: spec_fn(CleanStep) -> bool)
    ensures
        actions_from(job, node_step(job), ok) == node_actions(job, ok),
{
    reveal_with_fuel(actions_from, 7);
    assert(actions_from(job, node_step(job), ok) =~= node_actions(job, ok));
}

/// A clean-up stops the containers first; then, where it is asked to and can, it stops the
/// monitoring services and removes their data; then it does what its mode says about the
/// nodes. No failure of an action keeps it from the actions that follow.
pub proof fn law_clean_actions(job: CleanJob, ok: spec_fn(CleanStep) -> bool)
    ensures
        actions(job, ok) == seq![first_step()] + only_if(
            job.include_monitoring && ok(CleanStep::FindMonitoring),
            seq![CleanStep::StopMonitoring, CleanStep::CleanMonitoring],
        ) + node_actions(job, ok),
{
    lemma_node_actions(job, ok);
    reveal_with_fuel(actions_from, 5);
    assert(actions(job, ok) =~= seq![first_step()] + only_if(
        job.include_monitoring && ok(CleanStep::FindMonitoring),
        seq![CleanStep::StopMonitoring, CleanStep::CleanMonitoring],
    ) + node_actions(job, ok));
}

/// Monitoring is orthogonal to the mode: without its monitoring actions, a clean-up that
/// includes monitoring is the clean-up that does not.
pub proof fn law_monitoring_is_orthogonal(
    infra: InfraType,
    mode: CleanScope,
    ok: spec_fn(CleanStep) -> bool,
)
    ensures
        ({
            let with = actions(CleanJob { infra, mode, include_monitoring: true }, ok);
            let without = actions(CleanJob { infra, mode, include_monitoring: false }, ok);
            let extra: int = if ok(CleanStep::FindMonitoring) { 2 } else { 0 };
            &&& without == with.take(1) + with.skip(1 + extra)
            &&& forall|i: int| 1 <= i < 1 + extra ==> (#[trigger] with[i]).is_monitoring()
            &&& forall|i: int| 0 <= i < without.len() ==> !(#[trigger] without[i]).is_monitoring()
        }),
{
    let with_job = CleanJob { infra, mode, include_monitoring: true };
    let without_job = CleanJob { infra, mode, include_monitoring: false };
    law_clean_actions(with_job, ok);
    law_clean_actions(without_job, ok);
    assert(node_actions(with_job, ok) == node_actions(without_job, ok));
    let with = actions(with_job, ok);
    let without = actions(without_job, ok);
    let extra: int = if ok(CleanStep::FindMonitoring) { 2 } else { 0 };
    assert(without =~= with.take(1) + with.skip(1 + extra));
}

/// Only a full clean-up removes the directory of the testnet, closes the tunnels or destroys
/// remote resources, the latter two on remote infrastructure only, and the last without asking
/// for confirmation; only a scope that names data removes the data of nodes.
pub proof fn law_scope_confines_actions(job: CleanJob, ok: spec_fn(CleanStep) -> bool, yes: bool)
    ensures
        actions(job, ok).contains(CleanStep::RemoveTestnetDir) <==> job.mode == CleanScope::Full
            && ok(CleanStep::FindTestnetDir),
        actions(job, ok).contains(CleanStep::StopTunnels) <==> job.mode == CleanScope::Full
            && job.infra == InfraType::Remote && ok(CleanStep::FindRemoteInfra),
        actions(job, ok).contains(CleanStep::DestroyInfra { yes }) <==> yes && job.mode
            == CleanScope::Full && job.infra == InfraType::Remote && ok(CleanStep::FindRemoteInfra) && ok(
            CleanStep::FindTerraformState,
        ),
        actions(job, ok).contains(CleanStep::CleanNodeData) <==> job.mode.is_data() && ok(
            CleanStep::FindNodes,
        ),
{
    law_clean_actions(job, ok);
    let monitoring = only_if(
        job.include_monitoring && ok(CleanStep::FindMonitoring),
        seq![CleanStep::StopMonitoring, CleanStep::CleanMonitoring],
    );
    let nodes = node_actions(job, ok);
    let all = actions(job, ok);
    assert forall|s: CleanStep| nodes.contains(s) implies all.contains(s) by {
        let k = choose|k: int| 0 <= k < nodes.len() && nodes[k] == s;
        assert(all[1 + monitoring.len() + k] == s);
    }
    if job.mode == CleanScope::Full {
        let remote = job.infra == InfraType::Remote && ok(CleanStep::FindRemoteInfra);
        let tunnels = only_if(remote, seq![CleanStep::StopTunnels]);
        let resources = only_if(
            remote && ok(CleanStep::FindTerraformState),
            seq![CleanStep::DestroyInfra { yes: true }],
        );
        if remote {
            assert(nodes[0] == CleanStep::StopTunnels);
        }
        if remote && ok(CleanStep::FindTerraformState) {
            assert(nodes[1] == CleanStep::DestroyInfra { yes: true });
        }
        if ok(CleanStep::FindTestnetDir) {
            assert(nodes[(tunnels.len() + resources.len()) as int] == CleanStep::RemoveTestnetDir);
        }
    } else if job.mode.is_data() && ok(CleanStep::FindNodes) {
        assert(nodes[0] == CleanStep::CleanNodeData);
    }
}

/// A flag that names data is answered with the data that the flags name and nothing else; the
/// testnet is removed as a whole only where no flag is given.
pub proof fn law_scope_follows_flags(
    data: bool,
    execution_data: bool,
    consensus_data: bool,
    monitoring: bool,
)
    ensures
        ({
            let scope = scope_of(data, execution_data, consensus_data, monitoring);
            &&& scope.is_data() <==> data || execution_data || consensus_data
            &&& scope.layers().contains(Layer::Execution) <==> data || execution_data
            &&& scope.layers().contains(Layer::Consensus) <==> data || consensus_data
            &&& scope == CleanScope::Full <==> !data && !execution_data && !consensus_data
                && !monitoring
        }),
{
    assert(seq![Layer::Execution, Layer::Consensus][0] == Layer::Execution);
    assert(seq![Layer::Execution, Layer::Consensus][1] == Layer::Consensus);
    assert(seq![Layer::Execution][0] == Layer::Execution);
    assert(seq![Layer::Consensus][0] == Layer::Consensus);
}

/// The data of one layer of one node, to be removed.
#[derive(Debug)]
pub struct NodeCleanup {
    pub node: String,
    pub layer: Layer,
}

impl View for NodeCleanup {
    type V = (Seq<char>, Layer);

    open spec fn view(&self) -> (Seq<char>, Layer) {
        (self.node@, self.layer)
    }
}

/// The given layers of every node: the nodes in their order, and the layers of one node
/// together.
pub open spec fn node_cleanups(nodes: Seq<Seq<char>>, layers: Seq<Layer>) -> Seq<
    (Seq<char>, Layer),
>
    decreases nodes.len(),
{
    if nodes.len() == 0 {
        Seq::empty()
    } else {
        node_cleanups(nodes.drop_last(), layers) + Seq::new(
            layers.len(),
            |k: int| (nodes.last(), layers[k]),
        )
    }
}

/// Lists the per-node data to remove according to `mode`, leaving all configuration intact.
pub fn clean_node_data(nodes: &Vec<String>, mode: &CleanScope) -> (r: Vec<NodeCleanup>)
    requires
        nodes@.len() > 0 ==> mode.is_data(),
    ensures
        r@.map_values(|c: NodeCleanup| c@) == node_cleanups(text::texts(nodes@), mode.layers()),
{
    let layers = if nodes.len() > 0 {
        clean_remote_node_data(mode)
    } else {
        Vec::new()
    };
    let ghost names = text::texts(nodes@);
    let ghost of = |c: NodeCleanup| c@;
    let mut r: Vec<NodeCleanup> = Vec::new();
    let mut i: usize = 0;
    assert(r@.map_values(of) =~= node_cleanups(names.take(0), mode.layers()));
    while i < nodes.len()
        invariant
            i <= nodes.len(),
            names == text::texts(nodes@),
            nodes@.len() > 0 ==> layers@ == mode.layers(),
            of == (|c: NodeCleanup| c@),
            r@.map_values(of) == node_cleanups(names.take(i as int), mode.layers()),
        decreases nodes.len() - i,
    {
        let ghost done = r@.map_values(of);
        let mut k: usize = 0;
        while k < layers.len()
            invariant
                i < nodes.len(),
                k <= layers.len(),
                names == text::texts(nodes@),
                of == (|c: NodeCleanup| c@),
                r@.map_values(of) == done + Seq::new(
                    k as nat,
                    |k: int| (names[i as int], layers@[k]),
                ),
            decreases layers.len() - k,
        {
            let ghost before = r@;
            let cleanup = NodeCleanup { node: nodes[i].clone(), layer: layers[k] };
            assert(of(cleanup) == (names[i as int], layers@[k as int]));
            r.push(cleanup);
            k = k + 1;
            assert(r@.map_values(of) =~= before.map_values(of).push(of(cleanup)));
            assert(r@.map_values(of) =~= done + Seq::new(
                k as nat,
                |k: int| (names[i as int], layers@[k]),
            ));
        }
        i = i + 1;
        assert(names.take(i as int).drop_last() =~= names.take(i - 1));
        assert(Seq::new(layers@.len(), |k: int| (names[i - 1], layers@[k])) =~= Seq::new(
            mode.layers().len(),
            |k: int| (names.take(i as int).last(), mode.layers()[k]),
        ));
    }
    assert(names.take(nodes@.len() as int) =~= names);
    r
}

/// Lists the layers whose data to remove on all remote nodes according to `mode`, leaving all
/// configuration intact.
pub fn clean_remote_node_data(mode: &CleanScope) -> (r: Vec<Layer>)
    requires
        mode.is_data(),
    ensures
        r@ == mode.layers(),
{
    let mut r: Vec<Layer> = Vec::new();
    match mode {
        CleanScope::ExecutionData => {
            r.push(Layer::Execution);
        },
        CleanScope::ConsensusData => {
            r.push(Layer::Consensus);
        },
        _ => {
            r.push(Layer::Execution);
            r.push(Layer::Consensus);
        },
    }
    r
}

/// Data to be removed: of one node, or of all remote nodes at once.
#[derive(Debug)]
pub struct Removal {
    pub node: Option<String>,
    pub layer: Layer,
}

impl View for Removal {
    type V = (Option<Seq<char>>, Layer);

    open spec fn view(&self) -> (Option<Seq<char>>, Layer) {
        (
            match self.node {
                Some(node) => Some(node@),
                None => None,
            },
            self.layer,
        )
    }
}

/// What a clean-up of node data removes, in order: locally the layers of each node, remotely the
/// layers of all nodes at once.
pub open spec fn removals(job: CleanJob, nodes: Seq<Seq<char>>) -> Seq<(Option<Seq<char>>, Layer)> {
    match job.infra {
        InfraType::Local => node_cleanups(nodes, job.mode.layers()).map_values(
            |c: (Seq<char>, Layer)| (Some(c.0), c.1),
        ),
        InfraType::Remote => job.mode.layers().map_values(|layer: Layer| (None, layer)),
    }
}

/// Lists what [`CleanStep::CleanNodeData`] removes.
pub fn node_data_removals(job: CleanJob, nodes: &Vec<String>) -> (r: Vec<Removal>)
    requires
        job.mode.is_data() || job.infra == InfraType::Local && nodes@.len() == 0,
    ensures
        r@.map_values(|removal: Removal| removal@) == removals(job, text::texts(nodes@)),
{
    let ghost of = |removal: Removal| removal@;
    let mut r: Vec<Removal> = Vec::new();
    match job.infra {
        InfraType::Local => {
            let cleanups = clean_node_data(nodes, &job.mode);
            let ghost names = cleanups@.map_values(|c: NodeCleanup| c@);
            let ghost to = |c: (Seq<char>, Layer)| (Some(c.0), c.1);
            assert(r@.map_values(of) =~= names.take(0).map_values(to));
            let mut i: usize = 0;
            while i < cleanups.len()
                invariant
                    i <= cleanups.len(),
                    names == cleanups@.map_values(|c: NodeCleanup| c@),
                    of == (|removal: Removal| removal@),
                    to == (|c: (Seq<char>, Layer)| (Some(c.0), c.1)),
                    r@.map_values(of) == names.take(i as int).map_values(to),
                decreases cleanups.len() - i,
            {
                let ghost before = r@;
                let removal = Removal {
                    node: Some(cleanups[i].node.clone()),
                    layer: cleanups[i].layer,
                };
                assert(of(removal) == to(names[i as int]));
                r.push(removal);
                i = i + 1;
                assert(r@.map_values(of) =~= before.map_values(of).push(of(removal)));
                assert(r@.map_values(of) =~= names.take(i as int).map_values(to));
            }
            assert(names.take(names.len() as int) =~= names);
        },
        InfraType::Remote => {
            let layers = clean_remote_node_data(&job.mode);
            let ghost to = |layer: Layer| (None::<Seq<char>>, layer);
            assert(r@.map_values(of) =~= layers@.take(0).map_values(to));
            let mut i: usize = 0;
            while i < layers.len()
                invariant
                    i <= layers.len(),
                    of == (|removal: Removal| removal@),
                    to == (|layer: Layer| (None::<Seq<char>>, layer)),
                    r@.map_values(of) == layers@.take(i as int).map_values(to),
                decreases layers.len() - i,
            {
                let ghost before = r@;
                let removal = Removal { node: None, layer: layers[i] };
                assert(of(removal) == to(layers@[i as int]));
                r.push(removal);
                i = i + 1;
                assert(r@.map_values(of) =~= before.map_values(of).push(of(removal)));
                assert(r@.map_values(of) =~= layers@.take(i as int).map_values(to));
            }
            assert(layers@.take(layers@.len() as int) =~= layers@);
        },
    }
    r
}

// ── Laws ────────────────────────────────────────────────────────────────

/// A scope names a layer where the data of that layer is to be removed: the execution layer for
/// execution data, the consensus layer for consensus data, both for data, the former first. A
/// scope that removes no data or everything names none.
pub proof fn law_scopes_name_their_layers(mode: CleanScope)
    ensures
        mode.layers().contains(Layer::Execution) <==> mode == CleanScope::ExecutionData || mode
            == CleanScope::Data,
        mode.layers().contains(Layer::Consensus) <==> mode == CleanScope::ConsensusData || mode
            == CleanScope::Data,
        mode.layers().len() == if mode == CleanScope::Data {
            2nat
        } else if mode == CleanScope::Skip || mode == CleanScope::Full {
            0
        } else {
            1
        },
        mode == CleanScope::Data ==> mode.layers()[0] == Layer::Execution,
        mode.is_data() <==> mode != CleanScope::Skip && mode != CleanScope::Full,
{
    assert(seq![Layer::Execution, Layer::Consensus][0] == Layer::Execution);
    assert(seq![Layer::Execution, Layer::Consensus][1] == Layer::Consensus);
    assert(seq![Layer::Execution][0] == Layer::Execution);
    assert(seq![Layer::Consensus][0] == Layer::Consensus);
}

/// Where the layers of a node stand among the clean-ups of all nodes.
proof fn lemma_node_cleanups(nodes: Seq<Seq<char>>, layers: Seq<Layer>)
    requires
        layers.len() <= 2,
    ensures
        node_cleanups(nodes, layers).len() == nodes.len() * layers.len(),
        layers.len() == 1 ==> forall|i: int|
            0 <= i < nodes.len() ==> #[trigger] node_cleanups(nodes, layers)[i] == (
                nodes[i],
                layers[0],
            ),
        layers.len() == 2 ==> forall|i: int|
            #![trigger nodes[i]]
            0 <= i < nodes.len() ==> node_cleanups(nodes, layers)[2 * i] == (nodes[i], layers[0])
                && node_cleanups(nodes, layers)[2 * i + 1] == (nodes[i], layers[1]),
    decreases nodes.len(),
{
    if nodes.len() > 0 {
        let fewer = nodes.drop_last();
        lemma_node_cleanups(fewer, layers);
        let all = node_cleanups(nodes, layers);
        let before = node_cleanups(fewer, layers);
        assert(fewer.len() * layers.len() + layers.len() == nodes.len() * layers.len())
            by (nonlinear_arith)
            requires
                nodes.len() == fewer.len() + 1,
        ;
        if layers.len() == 1 {
            assert forall|i: int| 0 <= i < nodes.len() implies #[trigger] all[i] == (
                nodes[i],
                layers[0],
            ) by {
                if i < fewer.len() {
                    assert(all[i] == before[i]);
                    assert(fewer[i] == nodes[i]);
                }
            }
        }
        if layers.len() == 2 {
            assert forall|i: int|
                #![trigger nodes[i]]
                0 <= i < nodes.len() implies all[2 * i] == (nodes[i], layers[0]) && all[2 * i + 1]
                == (nodes[i], layers[1]) by {
                if i < fewer.len() {
                    assert(fewer[i] == nodes[i]);
                    assert(all[2 * i] == before[2 * i]);
                    assert(all[2 * i + 1] == before[2 * i + 1]);
                }
            }
        }
    }
}

/// What is removed of node data. Locally the data of each node goes, in the order of the nodes:
/// that of the one layer that the scope names, or that of the execution layer and then that of
/// the consensus layer. Remotely the same layers go for all nodes at once.
pub proof fn law_removals_are_those_of_the_scope(
    infra: InfraType,
    mode: CleanScope,
    include_monitoring: bool,
    nodes: Seq<Seq<char>>,
    i: int,
)
    requires
        mode != CleanScope::Skip,
        mode != CleanScope::Full,
    ensures
        ({
            let all = removals(CleanJob { infra, mode, include_monitoring }, nodes);
            let single = if mode == CleanScope::ExecutionData {
                Layer::Execution
            } else {
                Layer::Consensus
            };
            &&& infra == InfraType::Local && mode == CleanScope::Data ==> all.len() == 2
                * nodes.len()
            &&& infra == InfraType::Local && mode == CleanScope::Data && 0 <= i < nodes.len()
                ==> all[2 * i] == (Some(nodes[i]), Layer::Execution) && all[2 * i + 1] == (
                Some(nodes[i]),
                Layer::Consensus,
            )
            &&& infra == InfraType::Local && mode != CleanScope::Data ==> all.len() == nodes.len()
            &&& infra == InfraType::Local && mode != CleanScope::Data && 0 <= i < nodes.len()
                ==> all[i] == (Some(nodes[i]), single)
            &&& infra == InfraType::Remote && mode == CleanScope::Data ==> all == seq![
                (None::<Seq<char>>, Layer::Execution),
                (None, Layer::Consensus),
            ]
            &&& infra == InfraType::Remote && mode != CleanScope::Data ==> all == seq![
                (None::<Seq<char>>, single),
            ]
        }),
{
    let job = CleanJob { infra, mode, include_monitoring };
    let all = removals(job, nodes);
    lemma_node_cleanups(nodes, mode.layers());
    if infra == InfraType::Local {
        let cleanups = node_cleanups(nodes, mode.layers());
        assert(nodes.len() * 2 == 2 * nodes.len());
        assert(nodes.len() * 1 == nodes.len());
        if 0 <= i < nodes.len() {
            assert(nodes[i] == nodes[i]);
            if mode == CleanScope::Data {
                assert(all[2 * i] == (Some(cleanups[2 * i].0), cleanups[2 * i].1));
                assert(all[2 * i + 1] == (Some(cleanups[2 * i + 1].0), cleanups[2 * i + 1].1));
            } else {
                assert(all[i] == (Some(cleanups[i].0), cleanups[i].1));
            }
        }
    } else if mode == CleanScope::Data {
        assert(all =~= seq![(None::<Seq<char>>, Layer::Execution), (None, Layer::Consensus)]);
    } else {
        assert(all.len() == 1);
        assert(all =~= seq![all[0]]);
    }
}

/// A layer is among the removals exactly where the scope names it: locally for every node and
/// for nothing else, remotely for all nodes at once and for no single one.
pub proof fn law_removals_are_exact(
    infra: InfraType,
    mode: CleanScope,
    include_monitoring: bool,
    nodes: Seq<Seq<char>>,
    node: Seq<char>,
    layer: Layer,
)
    requires
        mode != CleanScope::Skip,
        mode != CleanScope::Full,
    ensures
        ({
            let all = removals(CleanJob { infra, mode, include_monitoring }, nodes);
            let named = mode == CleanScope::Data || layer == Layer::Execution && mode
                == CleanScope::ExecutionData || layer == Layer::Consensus && mode
                == CleanScope::ConsensusData;
            &&& all.contains((Some(node), layer)) <==> infra == InfraType::Local && named
                && nodes.contains(node)
            &&& all.contains((None, layer)) <==> infra == InfraType::Remote && named
        }),
{
    let all = removals(CleanJob { infra, mode, include_monitoring }, nodes);
    law_removals_are_those_of_the_scope(infra, mode, include_monitoring, nodes, 0);
    if infra == InfraType::Local {
        if nodes.contains(node) {
            let k = choose|k: int| 0 <= k < nodes.len() && nodes[k] == node;
            law_removals_are_those_of_the_scope(infra, mode, include_monitoring, nodes, k);
            if mode == CleanScope::Data {
                assert(all.contains(all[2 * k]));
                assert(all.contains(all[2 * k + 1]));
            } else {
                assert(all.contains(all[k]));
            }
        }
        if all.contains((Some(node), layer)) {
            let k = choose|k: int| 0 <= k < all.len() && all[k] == (Some(node), layer);
            let i = if mode == CleanScope::Data {
                k / 2
            } else {
                k
            };
            law_removals_are_those_of_the_scope(infra, mode, include_monitoring, nodes, i);
            assert(nodes[i] == node);
        }
        if all.contains((None, layer)) {
            let k = choose|k: int| 0 <= k < all.len() && all[k] == (None::<Seq<char>>, layer);
            let i = if mode == CleanScope::Data {
                k / 2
            } else {
                k
            };
            law_removals_are_those_of_the_scope(infra, mode, include_monitoring, nodes, i);
        }
    } else {
        if mode == CleanScope::Data {
            assert(all[0] == (None::<Seq<char>>, Layer::Execution));
            assert(all[1] == (None::<Seq<char>>, Layer::Consensus));
        } else {
            assert(all[0].0 is None);
        }
    }
}

/// Clean-ups and removals are told whole: the node, if there is one, and the layer.
pub proof fn law_removals_are_told(cleanup: NodeCleanup, removal: Removal)
    ensures
        cleanup@ == (cleanup.node@, cleanup.layer),
        removal@.1 == removal.layer,
        removal@.0 is Some <==> removal.node is Some,
        removal.node matches Some(node) ==> removal@.0 == Some(node@),
{
}

/// A whole clean-up, from what was asked for to what is done, in order. Containers are stopped
/// first. Monitoring follows where it is included and at hand. A full clean-up closes the
/// tunnels, destroys the resources there is a record of, without asking, and removes the
/// directory if it exists; a scope that names data has it removed where the nodes are at hand.
/// How an action goes makes no difference.
pub proof fn law_clean_does_what_was_asked(
    infra: InfraType,
    mode: CleanScope,
    include_monitoring: bool,
    ok: spec_fn(CleanStep) -> bool,
)
    ensures
        ({
            let remote = infra == InfraType::Remote && ok(CleanStep::FindRemoteInfra);
            let monitoring = if include_monitoring && ok(CleanStep::FindMonitoring) {
                seq![CleanStep::StopMonitoring, CleanStep::CleanMonitoring]
            } else {
                Seq::<CleanStep>::empty()
            };
            let tunnels = if mode == CleanScope::Full && remote {
                seq![CleanStep::StopTunnels]
            } else {
                Seq::<CleanStep>::empty()
            };
            let resources = if mode == CleanScope::Full && remote && ok(
                CleanStep::FindTerraformState,
            ) {
                seq![CleanStep::DestroyInfra { yes: true }]
            } else {
                Seq::<CleanStep>::empty()
            };
            let directory = if mode == CleanScope::Full && ok(CleanStep::FindTestnetDir) {
                seq![CleanStep::RemoveTestnetDir]
            } else {
                Seq::<CleanStep>::empty()
            };
            let data = if mode != CleanScope::Full && mode != CleanScope::Skip && ok(
                CleanStep::FindNodes,
            ) {
                seq![CleanStep::CleanNodeData]
            } else {
                Seq::<CleanStep>::empty()
            };
            actions(CleanJob { infra, mode, include_monitoring }, ok) == seq![
                CleanStep::StopContainers { names: NO_NAMES },
            ] + monitoring + tunnels + resources + directory + data
        }),
{
    let job = CleanJob { infra, mode, include_monitoring };
    law_clean_actions(job, ok);
    let remote = infra == InfraType::Remote && ok(CleanStep::FindRemoteInfra);
    let monitoring = if include_monitoring && ok(CleanStep::FindMonitoring) {
        seq![CleanStep::StopMonitoring, CleanStep::CleanMonitoring]
    } else {
        Seq::<CleanStep>::empty()
    };
    let tunnels = if mode == CleanScope::Full && remote {
        seq![CleanStep::StopTunnels]
    } else {
        Seq::<CleanStep>::empty()
    };
    let resources = if mode == CleanScope::Full && remote && ok(CleanStep::FindTerraformState) {
        seq![CleanStep::DestroyInfra { yes: true }]
    } else {
        Seq::<CleanStep>::empty()
    };
    let directory = if mode == CleanScope::Full && ok(CleanStep::FindTestnetDir) {
        seq![CleanStep::RemoveTestnetDir]
    } else {
        Seq::<CleanStep>::empty()
    };
    let data = if mode != CleanScope::Full && mode != CleanScope::Skip && ok(CleanStep::FindNodes) {
        seq![CleanStep::CleanNodeData]
    } else {
        Seq::<CleanStep>::empty()
    };
    assert(actions(job, ok) =~= seq![first_step()] + monitoring + tunnels + resources + directory
        + data);
}

/// A step of a clean-up is an action exactly where it does not ask a question and is not the end.
pub proof fn law_questions_are_no_actions(step: CleanStep)
    ensures
        !step.acts() <==> step == CleanStep::FindMonitoring || step == CleanStep::FindRemoteInfra
            || step == CleanStep::FindTerraformState || step == CleanStep::FindTestnetDir || step
            == CleanStep::FindNodes || step == CleanStep::Finished,
        step.is_monitoring() <==> step == CleanStep::FindMonitoring || step
            == CleanStep::StopMonitoring || step == CleanStep::CleanMonitoring,
{
}

/// What leads to each step of a clean-up, whatever came before. Monitoring is looked for only
/// where it is included. It is stopped only where it was found, and cleaned only once it was
/// stopped. The tunnels, the record of resources and the resources follow one another, and the
/// resources go only where the record was found. The directory and the data of nodes go only
/// where they were found. Nothing follows the end.
pub proof fn law_steps_have_their_reasons(
    infra: InfraType,
    mode: CleanScope,
    include_monitoring: bool,
    step: CleanStep,
    ok: bool,
)
    ensures
        ({
            let next = next_step(CleanJob { infra, mode, include_monitoring }, step, ok);
            let data = mode != CleanScope::Skip && mode != CleanScope::Full;
            // The step is the last one before those about the nodes.
            let nodes_next = step is StopContainers && !include_monitoring || step
                == CleanStep::FindMonitoring && !ok || step == CleanStep::CleanMonitoring;
            &&& next !is StopContainers
            &&& next == CleanStep::FindMonitoring <==> step is StopContainers && include_monitoring
            &&& next == CleanStep::StopMonitoring <==> step == CleanStep::FindMonitoring && ok
            &&& next == CleanStep::CleanMonitoring <==> step == CleanStep::StopMonitoring
            &&& next == CleanStep::FindRemoteInfra <==> nodes_next && mode == CleanScope::Full
                && infra == InfraType::Remote
            &&& next == CleanStep::StopTunnels <==> step == CleanStep::FindRemoteInfra && ok
            &&& next == CleanStep::FindTerraformState <==> step == CleanStep::StopTunnels
            &&& next == CleanStep::DestroyInfra { yes: true } <==> step
                == CleanStep::FindTerraformState && ok
            &&& next is DestroyInfra ==> next->yes
            &&& next == CleanStep::FindTestnetDir <==> nodes_next && mode == CleanScope::Full
                && infra == InfraType::Local || step == CleanStep::FindRemoteInfra && !ok || step
                == CleanStep::FindTerraformState && !ok || step is DestroyInfra
            &&& next == CleanStep::RemoveTestnetDir <==> step == CleanStep::FindTestnetDir && ok
            &&& next == CleanStep::FindNodes <==> nodes_next && data
            &&& next == CleanStep::CleanNodeData <==> step == CleanStep::FindNodes && ok
        }),
{
}

} // verus!
