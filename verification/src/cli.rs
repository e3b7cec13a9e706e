//! The command line: what each command asks for, and in which order.

use vstd::prelude::*;
use vstd::string::*;

use crate::clean;
use crate::clean::{clean_scope, CleanScope};
use crate::duration::Span;
use crate::error;
use crate::error::CliError;
use crate::prestart;
use crate::prestart::{setup_task, InfraArgs, PreStart, SetupArgs, SetupTask};
use crate::text;
use crate::tools;
use crate::tools::{CleanParams, CleanRequest};

verus! {

// ── Arguments ───────────────────────────────────────────────────────────

/// What the command line says about cleaning up.
#[derive(Debug, Clone, Copy, PartialEq, Eq, Structural)]
pub struct CleanArgs {
    /// Remove all data, including the testnet directory and monitoring services
    pub all: bool,
    /// Stop monitoring services and remove their data
    pub monitoring: bool,
    /// Remove only execution and consensus layer data, preserving configuration
    pub data: bool,
    /// Remove only execution layer data, preserving configuration
    pub execution_data: bool,
    /// Remove only consensus layer data, preserving configuration
    pub consensus_data: bool,
}

impl CleanArgs {
    /// Whether the flags may stand together: `all` stands alone, and `data` does not stand with
    /// the flags of a single layer.
    pub open spec fn valid(self) -> bool {
        &&& self.all ==> !self.monitoring && !self.data && !self.execution_data
            && !self.consensus_data
        &&& self.data ==> !self.execution_data && !self.consensus_data
    }

    /// The clean-up that the flags ask for.
    pub open spec fn asks_for(self) -> CleanRequest {
        CleanRequest {
            mode: clean::scope_of(
                self.data,
                self.execution_data,
                self.consensus_data,
                self.monitoring,
            ),
            include_monitoring: self.all || self.monitoring,
        }
    }

    /// The same flags as parameters of the clean_testnet tool.
    pub open spec fn params(self) -> CleanParams {
        CleanParams {
            all: Some(self.all),
            monitoring: Some(self.monitoring),
            data: Some(self.data),
            execution_data: Some(self.execution_data),
            consensus_data: Some(self.consensus_data),
        }
    }

    /// Which node data the flags ask to remove.
    pub fn scope(&self) -> (r: CleanScope)
        ensures
            r == self.asks_for().mode,
    {
        clean_scope(self.data, self.execution_data, self.consensus_data, self.monitoring)
    }

    /// The clean-up that the flags ask for.
    pub fn request(&self) -> (r: CleanRequest)
        ensures
            r == self.asks_for(),
    {
        CleanRequest { mode: self.scope(), include_monitoring: self.all || self.monitoring }
    }
}

/// What the command line says about starting a testnet.
#[derive(Debug, Clone, Copy, PartialEq, Eq)]
pub struct StartArgs<'a> {
    /// Names of the nodes or containers to start (all nodes if not specified)
    pub nodes_or_containers: &'a Vec<String>,
    /// Create the testnet in remote infrastructure and start it immediately (no confirmation
    /// asked)
    pub remote: bool,
    pub setup_args: SetupArgs,
    /// Build artifacts with the specified profile
    pub profile: Option<&'a str>,
    pub infra_args: InfraArgs<'a>,
}

/// What is to be waited for.
#[derive(Debug, Clone, Copy, PartialEq, Eq)]
pub enum WaitSubcommand<'a> {
    /// Wait for nodes to reach a specific block height
    Height { height: u64, nodes: &'a Vec<String>, timeout: u64 },
    /// Wait for nodes to finish syncing (eth_syncing returns false)
    Sync { nodes: &'a Vec<String>, timeout: u64, max_retries: u32 },
    /// Wait for consensus rounds to settle at 0
    Rounds { consecutive: u64, timeout: u64 },
}

/// What is to be done in remote infrastructure.
#[derive(Debug, Clone, Copy, PartialEq, Eq, Structural)]
pub enum RemoteSubcommand {
    /// Initialize Terraform state (run only once)
    Preinit,
    /// Create nodes and a Control Server in the remote infrastructure
    Create,
    /// Show the status of the infrastructure
    Status,
    /// Monitor health of all nodes and the Control Center
    Monitor,
    /// Upload testnet files to the Control Center server
    Provision,
    /// Manage SSM sessions, required for RPC and SSH access to nodes and monitoring services
    Ssm,
    /// Destroy the created infrastructure
    Destroy,
    /// SSH to a remote node or the Control Center (CC) server
    Ssh,
    /// Send transaction load from the Control Center (backpressure mode)
    Load,
    /// Send transaction load from the Control Center (fire-and-forget mode)
    Spam,
    /// Export a JSON file with everything needed for another user to access this remote testnet
    Export,
    /// Import an exported JSON file to set up local state for an existing remote testnet
    Import,
}

/// A command. The arguments of perturbations, remote commands, reports, loads and changes of the
/// validators are passed on as they are, and are not listed here.
#[derive(Debug, Clone, Copy, PartialEq, Eq)]
pub enum Commands<'a> {
    /// Generate from manifest all required files to run the testnet
    Setup { args: SetupArgs },
    /// Build the testnet Docker images
    Build { profile: Option<&'a str> },
    /// Start the testnet or a subset of CL and/or EL containers.
    Start { start_args: StartArgs<'a> },
    /// Stop the testnet or a subset of CL and/or EL containers.
    Stop { nodes_or_containers: &'a Vec<String> },
    /// Stop all nodes and remove testnet-related files (including databases).
    Clean { clean_args: CleanArgs },
    /// Clean and start the testnet.
    Restart { clean_args: CleanArgs, start_args: StartArgs<'a> },
    /// Apply a perturbation (disconnect, kill, pause, or restart) to nodes and/or containers.
    Perturb,
    /// Output logs of all containers or a specific container
    Logs { names: &'a Vec<String>, follow: bool },
    /// Show the state of the testnet and metadata
    Info,
    /// Deploy and manage the testnet in remote infrastructure
    Remote(RemoteSubcommand),
    /// Send transaction load to the testnet (backpressure mode: waits for each
    /// response and only advances the nonce on success).
    Load,
    /// Send transaction load to the testnet (fire-and-forget mode: pushes
    /// transactions into a buffer and sends without waiting for responses).
    Spam,
    /// Modify the voting power of the testnet's validators.
    ValSet,
    /// Wait for nodes to reach a height or finish syncing
    Wait(WaitSubcommand<'a>),
    /// Run tests against the testnet (or list with --dry-run)
    Test {
        /// Test specification: empty for all.
        filter: &'a str,
        dry_run: bool,
        rpc_timeout: Span,
        params: &'a Vec<(String, String)>,
    },
    /// Generate random manifests
    Generate,
    /// Start an MCP (Model Context Protocol) server for AI-assisted testnet management.
    Mcp { http: bool, port: u16 },
}

/// What a key-value argument comes to.
pub open spec fn key_value(t: Seq<char>) -> Result<
    (Seq<char>, Seq<char>),
    (Seq<char>, Option<Seq<char>>),
> {
    if t.contains('=') {
        Ok((text::before(t, '='), text::behind(t, '=')))
    } else {
        Err(("expected key=value, got: "@ + t, None))
    }
}

/// Splits an argument at its first `=`.
pub fn parse_key_value(t: &str) -> (r: Result<(String, String), CliError>)
    ensures
        match r {
            Ok(pair) => Ok((pair.0@, pair.1@)),
            Err(e) => Err(e@),
        } == key_value(t@),
{
    let len = t.unicode_len();
    let at = text::find(t, '=');
    proof {
        text::lemma_position_finds(t@, '=');
    }
    if at < len {
        let key = String::from_str(t.substring_char(0, at));
        let value = String::from_str(t.substring_char(at + 1, len));
        assert(key@ =~= text::before(t@, '='));
        assert(value@ =~= text::behind(t@, '='));
        Ok((key, value))
    } else {
        let mut message = String::from_str("expected key=value, got: ");
        message.append(t);
        Err(CliError { message, cause: None })
    }
}

// ── Loading the testnet ─────────────────────────────────────────────────

/// What is done before anything else.
#[derive(Debug, Clone, Copy, PartialEq, Eq, Structural)]
pub enum Opening {
    /// Generate manifests, and nothing more.
    GenerateManifests,
    /// Import a shared testnet; then load it.
    ImportTestnet,
    /// Load the testnet of the manifest.
    LoadTestnet,
}

/// What is done before anything else, where `unix` says whether private key files can be
/// protected on this platform.
pub open spec fn opening(command: Commands<'_>, unix: bool) -> Result<
    Opening,
    (Seq<char>, Option<Seq<char>>),
> {
    match command {
        Commands::Generate => Ok(Opening::GenerateManifests),
        Commands::Remote(RemoteSubcommand::Import) => if unix {
            Ok(Opening::ImportTestnet)
        } else {
            Err(
                (
                    "`quake remote import` is only supported on Unix-like platforms because SSH private key permissions (0600) cannot be enforced"@,
                    None,
                ),
            )
        },
        _ => Ok(Opening::LoadTestnet),
    }
}

/// Begins with a command.
pub fn open(command: Commands<'_>, unix: bool) -> (r: Result<Opening, CliError>)
    ensures
        error::cli_outcome(r) == opening(command, unix),
{
    match command {
        Commands::Generate => Ok(Opening::GenerateManifests),
        Commands::Remote(RemoteSubcommand::Import) => if unix {
            Ok(Opening::ImportTestnet)
        } else {
            Err(
                CliError {
                    message: String::from_str(
                        "`quake remote import` is only supported on Unix-like platforms because SSH private key permissions (0600) cannot be enforced",
                    ),
                    cause: None,
                },
            )
        },
        _ => Ok(Opening::LoadTestnet),
    }
}

/// Whether the testnet is loaded in remote mode whatever its manifest says.
pub open spec fn forces_remote(command: Commands<'_>) -> bool {
    match command {
        Commands::Remote(command) => command is Preinit || command is Create
            || command is Destroy || command is Status || command is Monitor,
        Commands::Start { start_args } => start_args.remote,
        Commands::Restart { start_args, .. } => start_args.remote,
        _ => false,
    }
}

/// Forces the use of remote mode on certain sub-commands.
pub fn force_remote(command: Commands<'_>) -> (r: bool)
    ensures
        r == forces_remote(command),
{
    match command {
        Commands::Remote(command) => match command {
            RemoteSubcommand::Preinit
            | RemoteSubcommand::Create
            | RemoteSubcommand::Destroy
            | RemoteSubcommand::Status
            | RemoteSubcommand::Monitor => true,
            _ => false,
        },
        Commands::Start { start_args } => start_args.remote,
        Commands::Restart { start_args, .. } => start_args.remote,
        _ => false,
    }
}

/// How loading the testnet went.
#[derive(Debug, Clone, Copy, PartialEq, Eq, Structural)]
pub enum Loading {
    Loaded,
    /// There is no manifest, and so no testnet.
    NoManifestFound,
    Failed,
}

/// What follows the loading of the testnet.
#[derive(Debug, Clone, Copy, PartialEq, Eq, Structural)]
pub enum AfterLoading {
    /// The command is run.
    Run,
    /// The command ends well: no existing testnet to clean.
    NothingToClean,
    /// The command ends with the error of the loading.
    Fail,
}

/// What follows the loading of the testnet. A testnet that does not exist need not be cleaned.
pub open spec fn after_loading(command: Commands<'_>, loading: Loading) -> AfterLoading {
    match loading {
        Loading::Loaded => AfterLoading::Run,
        Loading::NoManifestFound => if command is Clean {
            AfterLoading::NothingToClean
        } else {
            AfterLoading::Fail
        },
        Loading::Failed => AfterLoading::Fail,
    }
}

/// Goes on after the testnet was loaded, or was not.
pub fn loaded(command: Commands<'_>, loading: Loading) -> (r: AfterLoading)
    ensures
        r == after_loading(command, loading),
{
    match (loading, command) {
        (Loading::Loaded, _) => AfterLoading::Run,
        (Loading::NoManifestFound, Commands::Clean { .. }) => AfterLoading::NothingToClean,
        (_, _) => AfterLoading::Fail,
    }
}

// ── Running a command ───────────────────────────────────────────────────

/// What a command needs to know of the testnet and of the other arguments.
#[derive(Debug, Clone, Copy, PartialEq, Eq, Structural)]
pub struct Setting {
    /// Whether the testnet runs in remote infrastructure.
    pub remote: bool,
    /// Whether the manifest asks for RPC as the Engine API connection.
    pub rpc_manifest: bool,
    /// Seed for deterministic execution
    pub seed: Option<u64>,
}

/// A part of a command.
#[derive(Debug, Clone, Copy, PartialEq, Eq)]
pub enum Task<'a> {
    Setup(SetupTask),
    /// Go on only if the infrastructure is set up.
    RequireSetup,
    /// Build the Docker images with this profile.
    Build(Option<&'a str>),
    PreStart(PreStart<'a>),
    /// Start these nodes or containers; all nodes where there are none.
    Start(&'a Vec<String>),
    /// Stop these nodes or containers; all of them where there are none.
    Stop(&'a Vec<String>),
    Clean(CleanRequest),
    Perturb { seed: Option<u64> },
    Logs { names: &'a Vec<String>, follow: bool },
    Info,
    Remote,
    /// Check the configuration of the load, and send the load.
    SendLoad { fire_and_forget: bool },
    UpdateValset,
    RunTests {
        filter: &'a str,
        dry_run: bool,
        rpc_timeout: Span,
        params: &'a Vec<(String, String)>,
    },
    WaitHeight { height: u64, nodes: &'a Vec<String>, timeout: Span },
    WaitSync { nodes: &'a Vec<String>, timeout: Span, max_retries: u32 },
    WaitRounds { consecutive: u64, timeout: Span },
    Serve { http: bool, port: u16 },
}

/// The preparation of a start.
pub open spec fn preparation<'a>(args: StartArgs<'a>, setting: Setting) -> PreStart<'a> {
    PreStart {
        remote: args.remote,
        nodes_or_containers: args.nodes_or_containers,
        setup: prestart::setup_of(args.setup_args, setting.rpc_manifest, setting.seed),
        infra_args: args.infra_args,
        profile: args.profile,
    }
}

/// What is waited for; timeouts are in seconds.
pub open spec fn waiting<'a>(command: WaitSubcommand<'a>) -> Task<'a> {
    match command {
        WaitSubcommand::Height { height, nodes, timeout } => Task::WaitHeight {
            height,
            nodes,
            timeout: Span::of_secs(timeout),
        },
        WaitSubcommand::Sync { nodes, timeout, max_retries } => Task::WaitSync {
            nodes,
            timeout: Span::of_secs(timeout),
            max_retries,
        },
        WaitSubcommand::Rounds { consecutive, timeout } => Task::WaitRounds {
            consecutive,
            timeout: Span::of_secs(timeout),
        },
    }
}

/// The message of a command that remote infrastructure does not support.
pub open spec fn remote_refusal(name: Seq<char>) -> Seq<char> {
    "Remote infrastructure does not support the `"@ + name + "` command. Please run `remote "@
        + name + "` instead."@
}

/// What a command does once the testnet is loaded, in order; or why it is refused. A task that
/// fails ends the command.
pub open spec fn tasks<'a>(command: Commands<'a>, setting: Setting) -> Result<
    Seq<Task<'a>>,
    (Seq<char>, Option<Seq<char>>),
> {
    match command {
        Commands::Setup { args } => Ok(
            seq![Task::Setup(prestart::setup_of(args, setting.rpc_manifest, setting.seed))],
        ),
        Commands::Build { profile } => Ok(seq![Task::RequireSetup, Task::Build(profile)]),
        Commands::Start { start_args } => Ok(
            seq![
                Task::PreStart(preparation(start_args, setting)),
                Task::Start(start_args.nodes_or_containers),
            ],
        ),
        Commands::Stop { nodes_or_containers } => Ok(seq![Task::Stop(nodes_or_containers)]),
        Commands::Clean { clean_args } => Ok(seq![Task::Clean(clean_args.asks_for())]),
        Commands::Restart { clean_args, start_args } => Ok(
            seq![
                Task::Clean(clean_args.asks_for()),
                Task::PreStart(preparation(start_args, setting)),
                Task::Start(start_args.nodes_or_containers),
            ],
        ),
        Commands::Perturb => Ok(seq![Task::Perturb { seed: setting.seed }]),
        Commands::Logs { names, follow } => Ok(seq![Task::Logs { names, follow }]),
        Commands::Info => Ok(seq![Task::Info]),
        Commands::Remote(_) => Ok(seq![Task::Remote]),
        Commands::Load => if setting.remote {
            Err((remote_refusal("load"@), None))
        } else {
            Ok(seq![Task::SendLoad { fire_and_forget: false }])
        },
        Commands::Spam => if setting.remote {
            Err((remote_refusal("spam"@), None))
        } else {
            Ok(seq![Task::SendLoad { fire_and_forget: true }])
        },
        Commands::ValSet => Ok(seq![Task::UpdateValset]),
        Commands::Wait(command) => Ok(seq![waiting(command)]),
        Commands::Test { filter, dry_run, rpc_timeout, params } => Ok(
            seq![Task::RunTests { filter, dry_run, rpc_timeout, params }],
        ),
        Commands::Generate => Ok(seq![]),
        Commands::Mcp { http, port } => Ok(seq![Task::Serve { http, port }]),
    }
}

/// What a plan comes to: its tasks, or the refusal.
pub open spec fn planned<'a>(r: Result<Vec<Task<'a>>, CliError>) -> Result<
    Seq<Task<'a>>,
    (Seq<char>, Option<Seq<char>>),
> {
    match r {
        Ok(plan) => Ok(plan@),
        Err(e) => Err(e@),
    }
}

/// The preparation of a start.
fn prepare<'a>(args: StartArgs<'a>, setting: Setting) -> (r: Task<'a>)
    ensures
        r == Task::PreStart(preparation(args, setting)),
{
    let setup = setup_task(args.setup_args, setting.rpc_manifest, setting.seed);
    Task::PreStart(
        PreStart {
            remote: args.remote,
            nodes_or_containers: args.nodes_or_containers,
            setup,
            infra_args: args.infra_args,
            profile: args.profile,
        },
    )
}

/// The error of a command that remote infrastructure does not support.
fn refuse_remote(name: &str) -> (r: CliError)
    ensures
        r@ == (remote_refusal(name@), None::<Seq<char>>),
{
    let mut message = String::from_str("Remote infrastructure does not support the `");
    message.append(name);
    message.append("` command. Please run `remote ");
    message.append(name);
    message.append("` instead.");
    CliError { message, cause: None }
}

/// What is waited for.
fn wait_task<'a>(command: WaitSubcommand<'a>) -> (r: Task<'a>)
    ensures
        r == waiting(command),
{
    match command {
        WaitSubcommand::Height { height, nodes, timeout } => Task::WaitHeight {
            height,
            nodes,
            timeout: Span::from_secs(timeout),
        },
        WaitSubcommand::Sync { nodes, timeout, max_retries } => Task::WaitSync {
            nodes,
            timeout: Span::from_secs(timeout),
            max_retries,
        },
        WaitSubcommand::Rounds { consecutive, timeout } => Task::WaitRounds {
            consecutive,
            timeout: Span::from_secs(timeout),
        },
    }
}

/// Plans a command once the testnet is loaded.
pub fn plan<'a>(command: Commands<'a>, setting: Setting) -> (r: Result<Vec<Task<'a>>, CliError>)
    ensures
        planned(r) == tasks(command, setting),
        command matches Commands::Test { filter, dry_run, rpc_timeout, params } ==> r is Ok
            && r->Ok_0@ == seq![Task::RunTests { filter, dry_run, rpc_timeout, params }],
        command matches Commands::Start { start_args } ==> r is Ok && r->Ok_0@.len() == 2 && (
        r->Ok_0@[0] matches Task::PreStart(job) && job.remote == start_args.remote
            && job.nodes_or_containers == start_args.nodes_or_containers) && r->Ok_0@[1]
            == Task::Start(start_args.nodes_or_containers),
        command matches Commands::Restart { start_args, .. } ==> r is Ok && r->Ok_0@.len() == 3 && (
        r->Ok_0@[1] matches Task::PreStart(job) && job.remote == start_args.remote
            && job.nodes_or_containers == start_args.nodes_or_containers) && r->Ok_0@[2]
            == Task::Start(start_args.nodes_or_containers),
{
    let mut plan: Vec<Task<'a>> = Vec::new();
    match command {
        Commands::Setup { args } => {
            plan.push(Task::Setup(setup_task(args, setting.rpc_manifest, setting.seed)));
        },
        Commands::Build { profile } => {
            plan.push(Task::RequireSetup);
            plan.push(Task::Build(profile));
        },
        Commands::Start { start_args } => {
            plan.push(prepare(start_args, setting));
            plan.push(Task::Start(start_args.nodes_or_containers));
        },
        Commands::Stop { nodes_or_containers } => {
            plan.push(Task::Stop(nodes_or_containers));
        },
        Commands::Clean { clean_args } => {
            plan.push(Task::Clean(clean_args.request()));
        },
        Commands::Restart { clean_args, start_args } => {
            plan.push(Task::Clean(clean_args.request()));
            plan.push(prepare(start_args, setting));
            plan.push(Task::Start(start_args.nodes_or_containers));
        },
        Commands::Perturb => {
            plan.push(Task::Perturb { seed: setting.seed });
        },
        Commands::Logs { names, follow } => {
            plan.push(Task::Logs { names, follow });
        },
        Commands::Info => {
            plan.push(Task::Info);
        },
        Commands::Remote(_) => {
            plan.push(Task::Remote);
        },
        Commands::Load => {
            if setting.remote {
                return Err(refuse_remote("load"));
            }
            plan.push(Task::SendLoad { fire_and_forget: false });
        },
        Commands::Spam => {
            if setting.remote {
                return Err(refuse_remote("spam"));
            }
            plan.push(Task::SendLoad { fire_and_forget: true });
        },
        Commands::ValSet => {
            plan.push(Task::UpdateValset);
        },
        Commands::Wait(command) => {
            plan.push(wait_task(command));
        },
        Commands::Test { filter, dry_run, rpc_timeout, params } => {
            plan.push(Task::RunTests { filter, dry_run, rpc_timeout, params });
        },
        Commands::Generate => {},
        Commands::Mcp { http, port } => {
            plan.push(Task::Serve { http, port });
        },
    }
    assert(tasks(command, setting) is Ok);
    assert(plan@ =~= tasks(command, setting)->Ok_0);
    Ok(plan)
}

/// What a build comes to that needs the infrastructure set up.
pub fn require_setup(found: Result<(), String>) -> (r: Result<(), CliError>)
    ensures
        error::cli_outcome(r) == match found {
            Ok(_) => Ok(()),
            Err(e) => Err(
                (
                    "Infra is not set up: "@ + e@
                        + ": run `quake setup` first to create the testnet infrastructure"@,
                    None::<Seq<char>>,
                ),
            ),
        },
{
    match found {
        Ok(_) => Ok(()),
        Err(e) => {
            let mut message = String::from_str("Infra is not set up: ");
            message.append(e.as_str());
            message.append(": run `quake setup` first to create the testnet infrastructure");
            Err(CliError { message, cause: None })
        },
    }
}

// ── Laws ────────────────────────────────────────────────────────────────

/// A key-value argument is its key, an `=` and its value. The key has no `=` of its own.
pub proof fn law_key_value_is_whole(t: Seq<char>)
    ensures
        key_value(t) is Ok <==> t.contains('='),
        key_value(t) matches Ok(pair) ==> pair.0.push('=') + pair.1 == t && !pair.0.contains('='),
{
    text::lemma_position_finds(t, '=');
    if t.contains('=') {
        assert(text::before(t, '=').push('=') + text::behind(t, '=') =~= t);
    }
}

/// A key without `=` and any value are read back from the argument that they make.
pub proof fn law_key_value_reads_back(key: Seq<char>, value: Seq<char>)
    requires
        !key.contains('='),
    ensures
        key_value(key.push('=') + value) == Ok::<_, (Seq<char>, Option<Seq<char>>)>((key, value)),
{
    let t = key.push('=') + value;
    assert(t[key.len() as int] == '=');
    assert forall|j: int| 0 <= j < key.len() implies t[j] != '=' by {
        assert(t[j] == key[j]);
    }
    text::lemma_position(t, '=', key.len() as int);
    assert(text::before(t, '=') =~= key);
    assert(text::behind(t, '=') =~= value);
}

/// Flags that may stand together on the command line ask for the same clean-up as the same flags
/// of the clean_testnet tool.
pub proof fn law_clean_asks_alike(args: CleanArgs)
    requires
        args.valid(),
    ensures
        tools::requested_clean(args.params()) == Ok::<_, (error::ErrorKind, Seq<char>)>(
            args.asks_for(),
        ),
{
}

/// A restart does what a clean-up does, and then what a start does.
pub proof fn law_restart_cleans_and_starts(
    clean_args: CleanArgs,
    start_args: StartArgs<'_>,
    setting: Setting,
)
    ensures
        tasks(Commands::Restart { clean_args, start_args }, setting)->Ok_0 == tasks(
            Commands::Clean { clean_args },
            setting,
        )->Ok_0 + tasks(Commands::Start { start_args }, setting)->Ok_0,
        tasks(Commands::Restart { clean_args, start_args }, setting) is Ok,
        forces_remote(Commands::Restart { clean_args, start_args }) == forces_remote(
            Commands::Start { start_args },
        ),
{
    assert(tasks(Commands::Restart { clean_args, start_args }, setting)->Ok_0 =~= tasks(
        Commands::Clean { clean_args },
        setting,
    )->Ok_0 + tasks(Commands::Start { start_args }, setting)->Ok_0);
}

/// What a start sets up where nothing is set up yet is what the setup command sets up with the
/// same arguments.
pub proof fn law_start_sets_up_alike(start_args: StartArgs<'_>, setting: Setting)
    ensures
        tasks(Commands::Setup { args: start_args.setup_args }, setting)->Ok_0 == seq![
            Task::Setup(preparation(start_args, setting).setup),
        ],
        tasks(Commands::Start { start_args }, setting)->Ok_0 == seq![
            Task::PreStart(preparation(start_args, setting)),
            Task::Start(start_args.nodes_or_containers),
        ],
{
}

/// What a start builds where images are missing is what the build command builds with the same
/// profile.
pub proof fn law_start_builds_alike(start_args: StartArgs<'_>, setting: Setting)
    ensures
        tasks(Commands::Build { profile: start_args.profile }, setting)->Ok_0.last()
            == Task::Build(preparation(start_args, setting).profile),
        prestart::next_step(
            preparation(start_args, setting),
            prestart::PreStartStep::FindImages,
            false,
        ) == prestart::PreStartStep::BuildImages(start_args.profile),
{
}

/// Only a load is refused, and only for remote infrastructure.
pub proof fn law_only_remote_load_is_refused(command: Commands<'_>, setting: Setting)
    ensures
        tasks(command, setting) is Err <==> setting.remote && (command is Load || command is Spam),
{
}

/// A start is planned from its own arguments alone. The preparation is remote exactly where the
/// flag is given, for the names, the instance sizes and the profile given, with the setup given;
/// then the same names are started.
pub proof fn law_start_follows_its_arguments(args: StartArgs<'_>, setting: Setting)
    ensures
        tasks(Commands::Start { start_args: args }, setting) matches Ok(plan) && plan.len() == 2 && (
        plan[0] matches Task::PreStart(job) && {
            &&& job.remote == args.remote
            &&& job.nodes_or_containers == args.nodes_or_containers
            &&& job.infra_args == args.infra_args
            &&& job.profile == args.profile
            &&& job.setup.force == args.setup_args.force
            &&& job.setup.rpc == (args.setup_args.rpc || setting.rpc_manifest)
            &&& job.setup.num_extra_accounts == args.setup_args.num_extra_accounts
            &&& job.setup.seed == setting.seed
        }) && plan[1] == Task::Start(args.nodes_or_containers),
{
}

/// A restart is planned from its own arguments alone: the clean-up that its flags ask for, then
/// a preparation that is remote exactly where the flag is given, and the start of the same names.
pub proof fn law_restart_follows_its_arguments(
    clean_args: CleanArgs,
    args: StartArgs<'_>,
    setting: Setting,
)
    ensures
        tasks(Commands::Restart { clean_args, start_args: args }, setting) matches Ok(plan)
            && plan.len() == 3 && (plan[0] matches Task::Clean(request) && request
            == clean_args.asks_for() && request.include_monitoring == (clean_args.all
            || clean_args.monitoring)) && (
        plan[1] matches Task::PreStart(job) && {
            &&& job.remote == args.remote
            &&& job.nodes_or_containers == args.nodes_or_containers
            &&& job.infra_args == args.infra_args
            &&& job.profile == args.profile
            &&& job.setup.force == args.setup_args.force
            &&& job.setup.rpc == (args.setup_args.rpc || setting.rpc_manifest)
            &&& job.setup.num_extra_accounts == args.setup_args.num_extra_accounts
            &&& job.setup.seed == setting.seed
        }) && plan[2] == Task::Start(args.nodes_or_containers),
{
}

/// Without the remote flag, no run of what a start or a restart prepares looks for remote
/// infrastructure or creates it. With the flag, it is looked for first, and created, for real and
/// with the sizes given, exactly where it is not there.
pub proof fn law_only_the_flag_leads_to_remote_infrastructure<'a>(
    clean_args: CleanArgs,
    args: StartArgs<'a>,
    setting: Setting,
    restart: bool,
    ok: spec_fn(prestart::PreStartStep<'a>) -> bool,
    create: prestart::InfraCreation<'a>,
)
    ensures
        ({
            let command = if restart {
                Commands::Restart { clean_args, start_args: args }
            } else {
                Commands::Start { start_args: args }
            };
            let at: int = if restart {
                1
            } else {
                0
            };
            tasks(command, setting) matches Ok(plan) && at < plan.len() && (
            plan[at] matches Task::PreStart(job) && {
                let steps = prestart::steps(job, ok);
                &&& steps.contains(prestart::PreStartStep::FindInfraData) <==> args.remote
                &&& steps.contains(prestart::PreStartStep::CreateInfra(create)) <==> args.remote
                    && !ok(prestart::PreStartStep::FindInfraData) && !create.dry_run && create.yes
                    && create.infra_args == args.infra_args
            })
        }),
{
    let command = if restart {
        Commands::Restart { clean_args, start_args: args }
    } else {
        Commands::Start { start_args: args }
    };
    let at: int = if restart {
        1
    } else {
        0
    };
    let job = tasks(command, setting)->Ok_0[at]->PreStart_0;
    let setup = job.setup;
    prestart::law_pre_start_makes_what_is_missing(job, ok, create, setup, job.profile);
    if args.remote {
        assert(prestart::steps(job, ok)[0] == prestart::PreStartStep::FindInfraData);
    } else {
        prestart::law_local_preparations_stay_local(job, ok, create, true);
    }
}

/// A test command runs tests as it was told: with its filter, its RPC timeout and its
/// parameters, and without running them exactly where it is a dry run.
pub proof fn law_tests_run_as_told<'a>(
    filter: &'a str,
    dry_run: bool,
    rpc_timeout: Span,
    params: &'a Vec<(String, String)>,
    setting: Setting,
)
    ensures
        tasks(Commands::Test { filter, dry_run, rpc_timeout, params }, setting) matches Ok(plan)
            && plan.len() == 1 && (plan[0] matches Task::RunTests {
            filter: f,
            dry_run: d,
            rpc_timeout: t,
            params: p,
        } && f == filter && d == dry_run && t == rpc_timeout && p == params),
{
}

/// Setups, builds, stops, clean-ups and logs are planned from their arguments alone. A build asks
/// first whether the infrastructure is set up.
pub proof fn law_plans_follow_their_arguments<'a>(
    args: SetupArgs,
    profile: Option<&'a str>,
    names: &'a Vec<String>,
    clean_args: CleanArgs,
    follow: bool,
    setting: Setting,
)
    ensures
        tasks(Commands::Setup { args }, setting) matches Ok(plan) && plan.len() == 1 && (
        plan[0] matches Task::Setup(setup) && setup.force == args.force && setup.rpc == (args.rpc
            || setting.rpc_manifest) && setup.num_extra_accounts == args.num_extra_accounts
            && setup.seed == setting.seed),
        tasks(Commands::Build { profile }, setting) matches Ok(plan) && plan.len() == 2 && plan[0]
            == Task::RequireSetup && plan[1] == Task::Build(profile),
        tasks(Commands::Stop { nodes_or_containers: names }, setting) matches Ok(plan)
            && plan.len() == 1 && plan[0] == Task::Stop(names),
        tasks(Commands::Clean { clean_args }, setting) matches Ok(plan) && plan.len() == 1 && (
        plan[0] matches Task::Clean(request) && request == clean_args.asks_for()),
        tasks(Commands::Logs { names, follow }, setting) matches Ok(plan) && plan.len() == 1
            && plan[0] == (Task::Logs { names, follow }),
{
}

/// Perturbations, reports, remote commands, changes of validators and servers are planned as they
/// are asked for; a perturbation takes the seed. No manifest is needed to generate manifests.
pub proof fn law_other_plans_follow_their_arguments<'a>(
    command: RemoteSubcommand,
    http: bool,
    port: u16,
    setting: Setting,
)
    ensures
        tasks(Commands::Perturb, setting) matches Ok(plan) && plan.len() == 1 && plan[0] == (
        Task::Perturb { seed: setting.seed }),
        tasks(Commands::Info, setting) matches Ok(plan) && plan.len() == 1 && plan[0] == Task::Info,
        tasks(Commands::Remote(command), setting) matches Ok(plan) && plan.len() == 1 && plan[0]
            == Task::Remote,
        tasks(Commands::ValSet, setting) matches Ok(plan) && plan.len() == 1 && plan[0]
            == Task::UpdateValset,
        tasks(Commands::Mcp { http, port }, setting) matches Ok(plan) && plan.len() == 1 && plan[0]
            == (Task::Serve { http, port }),
        tasks(Commands::Generate, setting) matches Ok(plan) && plan.len() == 0,
{
}

/// A wait is for what was asked: the same height, nodes, retries or rounds, and as many seconds
/// as the timeout says.
pub proof fn law_waits_follow_their_arguments<'a>(
    height: u64,
    nodes: &'a Vec<String>,
    timeout: u64,
    max_retries: u32,
    consecutive: u64,
    setting: Setting,
)
    ensures
        tasks(
            Commands::Wait(WaitSubcommand::Height { height, nodes, timeout }),
            setting,
        ) matches Ok(plan) && plan.len() == 1 && (plan[0] matches Task::WaitHeight {
            height: h,
            nodes: n,
            timeout: t,
        } && h == height && n == nodes && t.secs == timeout && t.nanos == 0),
        tasks(
            Commands::Wait(WaitSubcommand::Sync { nodes, timeout, max_retries }),
            setting,
        ) matches Ok(plan) && plan.len() == 1 && (plan[0] matches Task::WaitSync {
            nodes: n,
            timeout: t,
            max_retries: m,
        } && n == nodes && t.secs == timeout && t.nanos == 0 && m == max_retries),
        tasks(
            Commands::Wait(WaitSubcommand::Rounds { consecutive, timeout }),
            setting,
        ) matches Ok(plan) && plan.len() == 1 && (plan[0] matches Task::WaitRounds {
            consecutive: c,
            timeout: t,
        } && c == consecutive && t.secs == timeout && t.nanos == 0),
{
}

/// Load is sent locally only: with back-pressure for a load, without waiting for responses for
/// spam. For remote infrastructure the refusal names the command and its remote form.
pub proof fn law_load_is_local(setting: Setting)
    ensures
        !setting.remote ==> (tasks(Commands::Load, setting) matches Ok(plan) && plan.len() == 1
            && plan[0] == (Task::SendLoad { fire_and_forget: false })),
        !setting.remote ==> (tasks(Commands::Spam, setting) matches Ok(plan) && plan.len() == 1
            && plan[0] == (Task::SendLoad { fire_and_forget: true })),
        setting.remote ==> tasks(Commands::Load, setting) is Err && tasks(
            Commands::Load,
            setting,
        )->Err_0 == (
            "Remote infrastructure does not support the `"@ + "load"@
                + "` command. Please run `remote "@ + "load"@ + "` instead."@,
            None::<Seq<char>>,
        ),
        setting.remote ==> tasks(Commands::Spam, setting) is Err && tasks(
            Commands::Spam,
            setting,
        )->Err_0 == (
            "Remote infrastructure does not support the `"@ + "spam"@
                + "` command. Please run `remote "@ + "spam"@ + "` instead."@,
            None::<Seq<char>>,
        ),
{
}

/// The flags of a clean-up ask for the data that they name and nothing else, for everything where
/// there is none, and for monitoring with `all` and with `monitoring`.
pub proof fn law_clean_flags_are_followed(args: CleanArgs)
    ensures
        ({
            let request = args.asks_for();
            let execution = args.data || args.execution_data;
            let consensus = args.data || args.consensus_data;
            &&& request.include_monitoring <==> args.all || args.monitoring
            &&& request.mode == CleanScope::Data <==> execution && consensus
            &&& request.mode == CleanScope::ExecutionData <==> execution && !consensus
            &&& request.mode == CleanScope::ConsensusData <==> !execution && consensus
            &&& request.mode == CleanScope::Skip <==> !execution && !consensus && args.monitoring
            &&& request.mode == CleanScope::Full <==> !execution && !consensus && !args.monitoring
            &&& args.params() == (CleanParams {
                all: Some(args.all),
                monitoring: Some(args.monitoring),
                data: Some(args.data),
                execution_data: Some(args.execution_data),
                consensus_data: Some(args.consensus_data),
            })
        }),
{
}

/// The flags that may stand together are those of which no two exclude each other.
pub proof fn law_flags_exclude_each_other(args: CleanArgs)
    ensures
        args.valid() <==> !(args.all && args.monitoring) && !(args.all && args.data) && !(args.all
            && args.execution_data) && !(args.all && args.consensus_data) && !(args.data
            && args.execution_data) && !(args.data && args.consensus_data),
{
}

/// A command begins with generating manifests or with an import exactly where that is what it is
/// for. An import needs a platform that protects private keys; nothing else does.
pub proof fn law_openings_fit_their_commands(command: Commands<'_>, unix: bool)
    ensures
        ({
            let import = command == Commands::Remote(RemoteSubcommand::Import);
            let opened = opening(command, unix);
            &&& opened is Err <==> import && !unix
            &&& opened matches Ok(first) ==> (first == Opening::GenerateManifests <==> command
                == Commands::Generate) && (first == Opening::ImportTestnet <==> import)
            &&& opened matches Err(e) ==> e == (
                "`quake remote import` is only supported on Unix-like platforms because SSH private key permissions (0600) cannot be enforced"@,
                None::<Seq<char>>,
            )
        }),
{
}

/// The testnet is loaded in remote mode for starts and restarts with the flag, for the remote
/// commands that create, destroy or watch infrastructure, and for nothing else.
pub proof fn law_remote_mode_is_forced_where_needed(
    command: Commands<'_>,
    args: StartArgs<'_>,
    clean_args: CleanArgs,
    remote: RemoteSubcommand,
)
    ensures
        forces_remote(Commands::Start { start_args: args }) == args.remote,
        forces_remote(Commands::Restart { clean_args, start_args: args }) == args.remote,
        forces_remote(Commands::Remote(remote)) <==> remote == RemoteSubcommand::Preinit || remote
            == RemoteSubcommand::Create || remote == RemoteSubcommand::Destroy || remote
            == RemoteSubcommand::Status || remote == RemoteSubcommand::Monitor,
        forces_remote(command) ==> command is Start || command is Restart || command is Remote,
{
}

/// A command is run exactly where the testnet is loaded. Where there is none, a clean-up ends
/// well, and everything else fails.
pub proof fn law_only_clean_needs_no_testnet(command: Commands<'_>, loading: Loading)
    ensures
        after_loading(command, loading) == AfterLoading::Run <==> loading == Loading::Loaded,
        after_loading(command, loading) == AfterLoading::NothingToClean <==> loading
            == Loading::NoManifestFound && command is Clean,
{
}

/// A plan is told whole: its tasks in order, or the message and the cause of the refusal.
pub proof fn law_plans_are_told<'a>(plan: Vec<Task<'a>>, error: CliError)
    ensures
        planned(Ok(plan)) == Ok::<Seq<Task<'a>>, (Seq<char>, Option<Seq<char>>)>(plan@),
        planned(Err::<Vec<Task<'a>>, CliError>(error)) is Err,
        planned(Err::<Vec<Task<'a>>, CliError>(error))->Err_0 == error@,
{
}

/// An argument without `=` is refused with an error that quotes it.
pub proof fn law_arguments_without_value_are_refused(t: Seq<char>)
    requires
        !t.contains('='),
    ensures
        key_value(t) is Err,
        key_value(t)->Err_0 == ("expected key=value, got: "@ + t, None::<Seq<char>>),
{
}

} // verus!
