use quake::clean::CleanScope;
use quake::cli::{
    force_remote, loaded, open, parse_key_value, plan, require_setup, AfterLoading, CleanArgs,
    Commands, Loading, Opening, RemoteSubcommand, Setting, StartArgs, Task, WaitSubcommand,
};
use quake::duration::Span;
use quake::prestart::{
    begin_pre_start, pre_start, setup_task, InfraArgs, InfraCreation, PreStart, PreStartStep,
    SetupArgs, SetupTask, DEFAULT_NUM_EXTRA_PREFUNDED_ACCOUNTS,
};
use quake::tools::{clean_testnet, ensure_ssm_tunnels, CleanParams, CleanRequest};

const NO_FLAGS: CleanArgs = CleanArgs {
    all: false,
    monitoring: false,
    data: false,
    execution_data: false,
    consensus_data: false,
};

const SETUP: SetupArgs = SetupArgs {
    force: false,
    rpc: false,
    num_extra_accounts: DEFAULT_NUM_EXTRA_PREFUNDED_ACCOUNTS,
};

const NO_NAMES: &Vec<String> = &Vec::new();

const SIZES: InfraArgs<'static> = InfraArgs { node_size: Some("t3.large"), cc_size: None };

fn start(remote: bool, nodes_or_containers: &Vec<String>) -> StartArgs<'_> {
    StartArgs {
        nodes_or_containers,
        remote,
        setup_args: SETUP,
        profile: Some("release"),
        infra_args: SIZES,
    }
}

fn setting(remote: bool) -> Setting {
    Setting { remote, rpc_manifest: false, seed: Some(7) }
}

const ALL_REMOTE: [RemoteSubcommand; 12] = [
    RemoteSubcommand::Preinit,
    RemoteSubcommand::Create,
    RemoteSubcommand::Status,
    RemoteSubcommand::Monitor,
    RemoteSubcommand::Provision,
    RemoteSubcommand::Ssm,
    RemoteSubcommand::Destroy,
    RemoteSubcommand::Ssh,
    RemoteSubcommand::Load,
    RemoteSubcommand::Spam,
    RemoteSubcommand::Export,
    RemoteSubcommand::Import,
];

#[test]
fn key_values() {
    let pair = |t: &str| parse_key_value(t).unwrap();
    assert_eq!(pair("arc_node=full1"), ("arc_node".to_string(), "full1".to_string()));
    assert_eq!(pair("a=b=c"), ("a".to_string(), "b=c".to_string()));
    assert_eq!(pair("="), (String::new(), String::new()));
    assert_eq!(pair("\u{e9}=\u{e8}"), ("\u{e9}".to_string(), "\u{e8}".to_string()));
    for t in ["a=b", "=", "x==y", "key="] {
        let (key, value) = pair(t);
        assert_eq!(format!("{key}={value}"), t);
        assert!(!key.contains('='));
    }
    let e = parse_key_value("novalue").unwrap_err();
    assert_eq!(e.message, "expected key=value, got: novalue");
    assert_eq!(e.cause, None);
}

#[test]
fn clean_flags() {
    let request = |mode, include_monitoring| CleanRequest { mode, include_monitoring };
    assert_eq!(NO_FLAGS.scope(), CleanScope::Full);
    assert_eq!(NO_FLAGS.request(), request(CleanScope::Full, false));
    let all = CleanArgs { all: true, ..NO_FLAGS };
    assert_eq!(all.request(), request(CleanScope::Full, true));
    let monitoring = CleanArgs { monitoring: true, ..NO_FLAGS };
    assert_eq!(monitoring.request(), request(CleanScope::Skip, true));
    let both = CleanArgs { monitoring: true, data: true, ..NO_FLAGS };
    assert_eq!(both.request(), request(CleanScope::Data, true));
    let execution = CleanArgs { execution_data: true, ..NO_FLAGS };
    assert_eq!(execution.scope(), CleanScope::ExecutionData);
    let consensus = CleanArgs { consensus_data: true, ..NO_FLAGS };
    assert_eq!(consensus.scope(), CleanScope::ConsensusData);
}

#[test]
fn command_line_and_tool_clean_alike() {
    let ready = ensure_ssm_tunnels(&Err("local".to_string()), None).unwrap();
    for flags in 0u8..32 {
        let args = CleanArgs {
            all: flags & 1 != 0,
            monitoring: flags & 2 != 0,
            data: flags & 4 != 0,
            execution_data: flags & 8 != 0,
            consensus_data: flags & 16 != 0,
        };
        let params = CleanParams {
            all: Some(args.all),
            monitoring: Some(args.monitoring),
            data: Some(args.data),
            execution_data: Some(args.execution_data),
            consensus_data: Some(args.consensus_data),
        };
        if args.all && flags != 1 {
            assert!(clean_testnet(&ready, params).is_err());
        } else {
            assert_eq!(clean_testnet(&ready, params).unwrap(), args.request());
        }
    }
}

#[test]
fn remote_mode_is_forced() {
    for command in ALL_REMOTE {
        let forced = matches!(
            command,
            RemoteSubcommand::Preinit
                | RemoteSubcommand::Create
                | RemoteSubcommand::Destroy
                | RemoteSubcommand::Status
                | RemoteSubcommand::Monitor
        );
        assert_eq!(force_remote(Commands::Remote(command)), forced);
    }
    for remote in [false, true] {
        let start_args = start(remote, NO_NAMES);
        assert_eq!(force_remote(Commands::Start { start_args }), remote);
        assert_eq!(force_remote(Commands::Restart { clean_args: NO_FLAGS, start_args }), remote);
    }
    assert!(!force_remote(Commands::Stop { nodes_or_containers: NO_NAMES }));
}

#[test]
fn openings() {
    assert_eq!(open(Commands::Generate, true).unwrap(), Opening::GenerateManifests);
    assert_eq!(open(Commands::Info, false).unwrap(), Opening::LoadTestnet);
    for command in ALL_REMOTE {
        let expected = if command == RemoteSubcommand::Import {
            Opening::ImportTestnet
        } else {
            Opening::LoadTestnet
        };
        assert_eq!(open(Commands::Remote(command), true).unwrap(), expected);
    }
    let e = open(Commands::Remote(RemoteSubcommand::Import), false).unwrap_err();
    assert_eq!(
        e.message,
        "`quake remote import` is only supported on Unix-like platforms because SSH private key \
         permissions (0600) cannot be enforced"
    );
}

#[test]
fn loading() {
    let clean = Commands::Clean { clean_args: NO_FLAGS };
    let restart = Commands::Restart { clean_args: NO_FLAGS, start_args: start(false, NO_NAMES) };
    assert_eq!(loaded(clean, Loading::Loaded), AfterLoading::Run);
    assert_eq!(loaded(clean, Loading::NoManifestFound), AfterLoading::NothingToClean);
    assert_eq!(loaded(clean, Loading::Failed), AfterLoading::Fail);
    assert_eq!(loaded(restart, Loading::NoManifestFound), AfterLoading::Fail);
    assert_eq!(loaded(Commands::Info, Loading::NoManifestFound), AfterLoading::Fail);
    assert_eq!(loaded(Commands::Info, Loading::Loaded), AfterLoading::Run);
}

#[test]
fn setup_uses_rpc_where_either_asks_for_it() {
    for (args_rpc, rpc_manifest) in [(false, false), (false, true), (true, false), (true, true)] {
        let args = SetupArgs { rpc: args_rpc, force: true, num_extra_accounts: 3 };
        let expected = SetupTask {
            force: true,
            rpc: args_rpc || rpc_manifest,
            num_extra_accounts: 3,
            seed: None,
        };
        assert_eq!(setup_task(args, rpc_manifest, None), expected);
        let setting = Setting { remote: false, rpc_manifest, seed: None };
        assert_eq!(plan(Commands::Setup { args }, setting).unwrap(), vec![Task::Setup(expected)]);
    }
    assert_eq!(DEFAULT_NUM_EXTRA_PREFUNDED_ACCOUNTS, 100);
}

#[test]
fn plans_of_single_tasks() {
    let here = setting(false);
    let names = &vec!["full1".to_string()];
    let params = &vec![("arc_node".to_string(), "full1".to_string())];
    let rpc_timeout = Span::from_secs(1);
    for (command, task) in [
        (Commands::Stop { nodes_or_containers: names }, Task::Stop(names)),
        (Commands::Perturb, Task::Perturb { seed: Some(7) }),
        (Commands::Logs { names, follow: true }, Task::Logs { names, follow: true }),
        (Commands::Info, Task::Info),
        (Commands::Remote(RemoteSubcommand::Ssh), Task::Remote),
        (Commands::Load, Task::SendLoad { fire_and_forget: false }),
        (Commands::Spam, Task::SendLoad { fire_and_forget: true }),
        (Commands::ValSet, Task::UpdateValset),
        (
            Commands::Test { filter: "probe", dry_run: true, rpc_timeout, params },
            Task::RunTests { filter: "probe", dry_run: true, rpc_timeout, params },
        ),
        (Commands::Mcp { http: true, port: 8080 }, Task::Serve { http: true, port: 8080 }),
        (
            Commands::Wait(WaitSubcommand::Height { height: 5, nodes: names, timeout: 30 }),
            Task::WaitHeight { height: 5, nodes: names, timeout: Span::from_secs(30) },
        ),
        (
            Commands::Wait(WaitSubcommand::Sync { nodes: names, timeout: 180, max_retries: 3 }),
            Task::WaitSync { nodes: names, timeout: Span::from_secs(180), max_retries: 3 },
        ),
        (
            Commands::Wait(WaitSubcommand::Rounds { consecutive: 10, timeout: 120 }),
            Task::WaitRounds { consecutive: 10, timeout: Span::from_secs(120) },
        ),
    ] {
        assert_eq!(plan(command, here).unwrap(), vec![task]);
    }
    assert_eq!(plan(Commands::Generate, here).unwrap(), vec![]);
}

#[test]
fn plans_of_several_tasks() {
    let here = setting(true);
    let names = &vec!["validator1".to_string(), "full*".to_string()];
    let start_args = start(true, names);
    let clean_args = CleanArgs { data: true, ..NO_FLAGS };
    let prepare = Task::PreStart(PreStart {
        remote: true,
        nodes_or_containers: names,
        setup: SetupTask { force: false, rpc: false, num_extra_accounts: 100, seed: Some(7) },
        infra_args: SIZES,
        profile: Some("release"),
    });
    let clean =
        Task::Clean(CleanRequest { mode: CleanScope::Data, include_monitoring: false });
    assert_eq!(
        plan(Commands::Build { profile: Some("debug") }, here).unwrap(),
        vec![Task::RequireSetup, Task::Build(Some("debug"))]
    );
    assert_eq!(
        plan(Commands::Start { start_args }, here).unwrap(),
        vec![prepare, Task::Start(names)]
    );
    assert_eq!(plan(Commands::Clean { clean_args }, here).unwrap(), vec![clean]);
    assert_eq!(
        plan(Commands::Restart { clean_args, start_args }, here).unwrap(),
        vec![clean, prepare, Task::Start(names)]
    );
}

#[test]
fn remote_testnets_refuse_local_load() {
    let e = plan(Commands::Load, setting(true)).unwrap_err();
    assert_eq!(
        e.message,
        "Remote infrastructure does not support the `load` command. Please run `remote load` instead."
    );
    let e = plan(Commands::Spam, setting(true)).unwrap_err();
    assert_eq!(
        e.message,
        "Remote infrastructure does not support the `spam` command. Please run `remote spam` instead."
    );
    assert!(plan(Commands::Stop { nodes_or_containers: NO_NAMES }, setting(true)).is_ok());
}

#[test]
fn a_build_needs_a_setup() {
    assert!(require_setup(Ok(())).is_ok());
    let e = require_setup(Err("no compose file".to_string())).unwrap_err();
    assert_eq!(
        e.message,
        "Infra is not set up: no compose file: run `quake setup` first to create the testnet \
         infrastructure"
    );
}

const CREATE: PreStartStep<'static> =
    PreStartStep::CreateInfra(InfraCreation { dry_run: false, yes: true, infra_args: SIZES });
const RELOAD: PreStartStep<'static> = PreStartStep::ReloadTestnet { force_remote: true };
const EXPAND: PreStartStep<'static> = PreStartStep::ExpandNodes(NO_NAMES);
const BUILD: PreStartStep<'static> = PreStartStep::BuildImages(Some("release"));

/// Runs a preparation in which the steps of `no` answer no or fail, and lists its steps.
fn preparation(remote: bool, no: &[PreStartStep<'static>]) -> Vec<PreStartStep<'static>> {
    let job = PreStart {
        remote,
        nodes_or_containers: NO_NAMES,
        setup: setup_task(SETUP, true, None),
        infra_args: SIZES,
        profile: Some("release"),
    };
    let mut steps = Vec::new();
    let mut step = begin_pre_start(job);
    loop {
        steps.push(step);
        if step == PreStartStep::Ready || step == PreStartStep::Failed {
            return steps;
        }
        step = pre_start(job, step, !no.contains(&step));
    }
}

#[test]
fn a_complete_testnet_needs_no_preparation() {
    assert_eq!(
        preparation(false, &[]),
        vec![
            EXPAND,
            PreStartStep::FindSetup,
            PreStartStep::FindLocal,
            PreStartStep::FindImages,
            PreStartStep::Ready,
        ]
    );
}

#[test]
fn what_is_missing_is_made() {
    let setup = PreStartStep::Setup(setup_task(SETUP, true, None));
    assert_eq!(
        preparation(false, &[PreStartStep::FindSetup, PreStartStep::FindImages]),
        vec![
            EXPAND,
            PreStartStep::FindSetup,
            setup,
            PreStartStep::FindLocal,
            PreStartStep::FindImages,
            BUILD,
            PreStartStep::Ready,
        ]
    );
    assert_eq!(
        preparation(true, &[PreStartStep::FindInfraData, PreStartStep::FindLocal]),
        vec![
            PreStartStep::FindInfraData,
            CREATE,
            RELOAD,
            EXPAND,
            PreStartStep::FindSetup,
            PreStartStep::FindLocal,
            PreStartStep::Ready,
        ]
    );
    assert_eq!(preparation(true, &[])[..2], [PreStartStep::FindInfraData, EXPAND]);
}

#[test]
fn a_failed_step_ends_a_preparation() {
    let setup = PreStartStep::Setup(setup_task(SETUP, true, None));
    let missing = [PreStartStep::FindInfraData, PreStartStep::FindSetup, PreStartStep::FindImages];
    for failing in [CREATE, RELOAD, EXPAND, setup, BUILD] {
        let mut no = missing.to_vec();
        no.push(failing);
        let steps = preparation(true, &no);
        assert_eq!(steps[steps.len() - 2..], [failing, PreStartStep::Failed]);
    }
}
