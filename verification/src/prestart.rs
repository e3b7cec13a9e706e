//! Getting a testnet ready to be started.

use vstd::prelude::*;

verus! {

/// Number of extra pre-funded accounts that are generated unless another number is asked for.
pub const DEFAULT_NUM_EXTRA_PREFUNDED_ACCOUNTS: usize = 100;

/// What the command line says about setting a testnet up.
#[derive(Debug, Clone, Copy, PartialEq, Eq, Structural)]
pub struct SetupArgs {
    /// Force the creation of the testnet files even if they already exist
    pub force: bool,
    /// Use auth RPC connection between Consensus Layer (CL) and Execution Layer (EL) instead of
    /// IPC
    pub rpc: bool,
    /// Number of extra pre-funded accounts to generate in the genesis file
    pub num_extra_accounts: usize,
}

/// A testnet to be set up.
#[derive(Debug, Clone, Copy, PartialEq, Eq, Structural)]
pub struct SetupTask {
    pub force: bool,
    pub rpc: bool,
    pub num_extra_accounts: usize,
    pub seed: Option<u64>,
}

/// The setup that the command line and the manifest ask for: RPC where either does.
pub open spec fn setup_of(args: SetupArgs, rpc_manifest: bool, seed: Option<u64>) -> SetupTask {
    SetupTask {
        force: args.force,
        rpc: args.rpc || rpc_manifest,
        num_extra_accounts: args.num_extra_accounts,
        seed,
    }
}

/// The setup that the command line and the manifest ask for.
pub fn setup_task(args: SetupArgs, rpc_manifest: bool, seed: Option<u64>) -> (r: SetupTask)
    ensures
        r == setup_of(args, rpc_manifest, seed),
{
    SetupTask {
        force: args.force,
        rpc: args.rpc || rpc_manifest,
        num_extra_accounts: args.num_extra_accounts,
        seed,
    }
}

/// EC2 instance size overrides for remote infrastructure.
#[derive(Debug, Clone, Copy, PartialEq, Eq)]
pub struct InfraArgs<'a> {
    /// EC2 instance type for nodes
    pub node_size: Option<&'a str>,
    /// EC2 instance type for the Control Center
    pub cc_size: Option<&'a str>,
}

/// Remote infrastructure to be created.
#[derive(Debug, Clone, Copy, PartialEq, Eq)]
pub struct InfraCreation<'a> {
    pub dry_run: bool,
    /// Whether no confirmation is asked for.
    pub yes: bool,
    pub infra_args: InfraArgs<'a>,
}

/// A testnet that is to be started.
#[derive(Debug, Clone, Copy, PartialEq, Eq)]
pub struct PreStart<'a> {
    /// Whether the testnet is to run in remote infrastructure.
    pub remote: bool,
    /// Names of the nodes or containers to start (all nodes if there are none)
    pub nodes_or_containers: &'a Vec<String>,
    pub setup: SetupTask,
    pub infra_args: InfraArgs<'a>,
    /// The profile to build images with; the default one where it is `None`.
    pub profile: Option<&'a str>,
}

/// A step towards a testnet that can be started.
#[derive(Debug, Clone, Copy, PartialEq, Eq)]
pub enum PreStartStep<'a> {
    /// Does the file that describes the created infrastructure exist?
    FindInfraData,
    /// Create the remote infrastructure.
    CreateInfra(InfraCreation<'a>),
    /// Load the testnet again with the infrastructure just created.
    ReloadTestnet { force_remote: bool },
    /// Expand the names to the nodes they stand for.
    ExpandNodes(&'a Vec<String>),
    /// Are those nodes set up?
    FindSetup,
    /// Set the testnet up.
    Setup(SetupTask),
    /// Does the testnet run in local infrastructure?
    FindLocal,
    /// Do the Docker images exist?
    FindImages,
    /// Build the Docker images with this profile.
    BuildImages(Option<&'a str>),
    /// The testnet can be started.
    Ready,
    /// The last step failed, and its error ends the command.
    Failed,
}

impl<'a> PreStartStep<'a> {
    /// Whether nothing follows.
    pub open spec fn is_last(self) -> bool {
        self is Ready || self is Failed
    }

    /// How many steps may still follow.
    pub open spec fn rank(self) -> nat {
        match self {
            PreStartStep::FindInfraData => 9,
            PreStartStep::CreateInfra(_) => 8,
            PreStartStep::ReloadTestnet { .. } => 7,
            PreStartStep::ExpandNodes(_) => 6,
            PreStartStep::FindSetup => 5,
            PreStartStep::Setup(_) => 4,
            PreStartStep::FindLocal => 3,
            PreStartStep::FindImages => 2,
            PreStartStep::BuildImages(_) => 1,
            PreStartStep::Ready => 0,
            PreStartStep::Failed => 0,
        }
    }
}

/// `step` where the last one succeeded.
pub open spec fn unless_failed<'a>(ok: bool, step: PreStartStep<'a>) -> PreStartStep<'a> {
    if ok {
        step
    } else {
        PreStartStep::Failed
    }
}

/// The infrastructure that is created: for real, without asking for confirmation, and with the
/// instance sizes that were asked for.
pub open spec fn creation<'a>(job: PreStart<'a>) -> InfraCreation<'a> {
    InfraCreation { dry_run: false, yes: true, infra_args: job.infra_args }
}

/// The first step.
pub open spec fn first_step<'a>(job: PreStart<'a>) -> PreStartStep<'a> {
    if job.remote {
        PreStartStep::FindInfraData
    } else {
        PreStartStep::ExpandNodes(job.nodes_or_containers)
    }
}

/// The step that follows `step`; `ok` says that it succeeded or, where it asks a question, that
/// the answer was yes.
pub open spec fn next_step<'a>(
    job: PreStart<'a>,
    step: PreStartStep<'a>,
    ok: bool,
) -> PreStartStep<'a> {
    match step {
        PreStartStep::FindInfraData => if ok {
            PreStartStep::ExpandNodes(job.nodes_or_containers)
        } else {
            PreStartStep::CreateInfra(creation(job))
        },
        PreStartStep::CreateInfra(_) => unless_failed(
            ok,
            PreStartStep::ReloadTestnet { force_remote: true },
        ),
        PreStartStep::ReloadTestnet { .. } => unless_failed(
            ok,
            PreStartStep::ExpandNodes(job.nodes_or_containers),
        ),
        PreStartStep::ExpandNodes(_) => unless_failed(ok, PreStartStep::FindSetup),
        PreStartStep::FindSetup => if ok {
            PreStartStep::FindLocal
        } else {
            PreStartStep::Setup(job.setup)
        },
        PreStartStep::Setup(_) => unless_failed(ok, PreStartStep::FindLocal),
        PreStartStep::FindLocal => if ok {
            PreStartStep::FindImages
        } else {
            PreStartStep::Ready
        },
        PreStartStep::FindImages => if ok {
            PreStartStep::Ready
        } else {
            PreStartStep::BuildImages(job.profile)
        },
        PreStartStep::BuildImages(_) => unless_failed(ok, PreStartStep::Ready),
        PreStartStep::Ready => PreStartStep::Ready,
        PreStartStep::Failed => PreStartStep::Failed,
    }
}

/// Begins to prepare a testnet.
pub fn begin_pre_start<'a>(job: PreStart<'a>) -> (r: PreStartStep<'a>)
    ensures
        r == first_step(job),
{
    if job.remote {
        PreStartStep::FindInfraData
    } else {
        PreStartStep::ExpandNodes(job.nodes_or_containers)
    }
}

/// Prepare the testnet before starting it
///
/// If the remote flag is set, it will create the remote infrastructure and reload the testnet.
/// If the testnet is not set up, it will run `quake setup` to set it up.
/// If the Docker images do not exist, it will run `quake build` to build them.
///
/// Whoever prepares a testnet performs the step, passes in how it went, and goes on with the step
/// returned until it is [`PreStartStep::Ready`] or [`PreStartStep::Failed`].
pub fn pre_start<'a>(job: PreStart<'a>, step: PreStartStep<'a>, ok: bool) -> (r: PreStartStep<'a>)
    ensures
        r == next_step(job, step, ok),
        !step.is_last() ==> r.rank() < step.rank(),
{
    match step {
        PreStartStep::FindInfraData => if ok {
            PreStartStep::ExpandNodes(job.nodes_or_containers)
        } else {
            PreStartStep::CreateInfra(
                InfraCreation { dry_run: false, yes: true, infra_args: job.infra_args },
            )
        },
        PreStartStep::FindSetup => if ok {
            PreStartStep::FindLocal
        } else {
            PreStartStep::Setup(job.setup)
        },
        PreStartStep::FindLocal => if ok {
            PreStartStep::FindImages
        } else {
            PreStartStep::Ready
        },
        PreStartStep::FindImages => if ok {
            PreStartStep::Ready
        } else {
            PreStartStep::BuildImages(job.profile)
        },
        PreStartStep::Ready => PreStartStep::Ready,
        PreStartStep::Failed => PreStartStep::Failed,
        step => {
            if !ok {
                return PreStartStep::Failed;
            }
            match step {
                PreStartStep::CreateInfra(_) => PreStartStep::ReloadTestnet { force_remote: true },
                PreStartStep::ReloadTestnet { .. } => PreStartStep::ExpandNodes(
                    job.nodes_or_containers,
                ),
                PreStartStep::ExpandNodes(_) => PreStartStep::FindSetup,
                PreStartStep::Setup(_) => PreStartStep::FindLocal,
                _ => PreStartStep::Ready,
            }
        },
    }
}

/// The steps from `step` on, in order, where `ok` says how each goes.
pub open spec fn steps_from<'a>(
    job: PreStart<'a>,
    step: PreStartStep<'a>,
    ok: spec_fn(PreStartStep<'a>) -> bool,
) -> Seq<PreStartStep<'a>>
    decreases step.rank(),
{
    if step.is_last() {
        seq![step]
    } else {
        seq![step] + steps_from(job, next_step(job, step, ok(step)), ok)
    }
}

/// The steps of the whole preparation.
pub open spec fn steps<'a>(job: PreStart<'a>, ok: spec_fn(PreStartStep<'a>) -> bool) -> Seq<PreStartStep<'a>> {
    steps_from(job, first_step(job), ok)
}

/// Whether the infrastructure asked for is there: remote infrastructure has to exist already or
/// be created and loaded.
pub open spec fn infra_ready<'a>(job: PreStart<'a>, ok: spec_fn(PreStartStep<'a>) -> bool) -> bool {
    job.remote ==> ok(PreStartStep::FindInfraData) || (ok(PreStartStep::CreateInfra(creation(job))) && ok(
        PreStartStep::ReloadTestnet { force_remote: true },
    ))
}

/// Whether the nodes are known and set up, before or by the preparation.
pub open spec fn nodes_ready<'a>(job: PreStart<'a>, ok: spec_fn(PreStartStep<'a>) -> bool) -> bool {
    &&& ok(PreStartStep::ExpandNodes(job.nodes_or_containers))
    &&& ok(PreStartStep::FindSetup) || ok(PreStartStep::Setup(job.setup))
}

/// Whether the nodes have images, before or by the preparation. Remote nodes need none.
pub open spec fn images_ready<'a>(job: PreStart<'a>, ok: spec_fn(PreStartStep<'a>) -> bool) -> bool {
    ok(PreStartStep::FindLocal) ==> ok(PreStartStep::FindImages) || ok(PreStartStep::BuildImages(job.profile))
}

/// Whether `wanted` is among the steps from `step` on.
spec fn comes_to<'a>(
    job: PreStart<'a>,
    step: PreStartStep<'a>,
    ok: spec_fn(PreStartStep<'a>) -> bool,
    wanted: PreStartStep<'a>,
) -> bool
    decreases step.rank(),
{
    step == wanted || (!step.is_last() && comes_to(
        job,
        next_step(job, step, ok(step)),
        ok,
        wanted,
    ))
}

/// The steps from `step` on are the steps that it comes to.
proof fn lemma_comes_to<'a>(
    job: PreStart<'a>,
    step: PreStartStep<'a>,
    ok: spec_fn(PreStartStep<'a>) -> bool,
    wanted: PreStartStep<'a>,
)
    ensures
        steps_from(job, step, ok).contains(wanted) == comes_to(job, step, ok, wanted),
    decreases step.rank(),
{
    let all = steps_from(job, step, ok);
    assert(all[0] == step);
    if !step.is_last() {
        let rest = steps_from(job, next_step(job, step, ok(step)), ok);
        lemma_comes_to(job, next_step(job, step, ok(step)), ok, wanted);
        if rest.contains(wanted) {
            let k = choose|k: int| 0 <= k < rest.len() && rest[k] == wanted;
            assert(all[k + 1] == wanted);
        }
        if all.contains(wanted) && step != wanted {
            let k = choose|k: int| 0 <= k < all.len() && all[k] == wanted;
            assert(rest[k - 1] == wanted);
        }
    }
}

/// A preparation ends with a testnet that can be started if and only if all that was missing
/// could be made up for, and with a failure otherwise.
pub proof fn law_pre_start_end<'a>(job: PreStart<'a>, ok: spec_fn(PreStartStep<'a>) -> bool)
    ensures
        steps(job, ok).len() > 0,
        steps(job, ok).last() == if infra_ready(job, ok) && nodes_ready(job, ok) && images_ready(
            job,
            ok,
        ) {
            PreStartStep::Ready
        } else {
            PreStartStep::Failed
        },
{
    reveal_with_fuel(steps_from, 10);
}

/// Only what is missing is made, and as it was asked for. Remote infrastructure is created
/// exactly where it is asked for and not there, with the sizes asked for. The testnet is set up
/// exactly where it is not, once the infrastructure is there. Images are built exactly where they
/// do not exist, for local infrastructure only, once the nodes are set up, and with the profile
/// asked for.
pub proof fn law_pre_start_makes_what_is_missing<'a>(
    job: PreStart<'a>,
    ok: spec_fn(PreStartStep<'a>) -> bool,
    create: InfraCreation<'a>,
    setup: SetupTask,
    profile: Option<&'a str>,
)
    ensures
        steps(job, ok).contains(PreStartStep::CreateInfra(create)) <==> create == creation(job)
            && job.remote && !ok(PreStartStep::FindInfraData),
        steps(job, ok).contains(PreStartStep::Setup(setup)) <==> setup == job.setup && infra_ready(
            job,
            ok,
        ) && ok(PreStartStep::ExpandNodes(job.nodes_or_containers)) && !ok(PreStartStep::FindSetup),
        steps(job, ok).contains(PreStartStep::BuildImages(profile)) <==> profile == job.profile
            && infra_ready(job, ok) && nodes_ready(job, ok) && ok(PreStartStep::FindLocal) && !ok(
            PreStartStep::FindImages,
        ),
{
    reveal_with_fuel(comes_to, 10);
    lemma_comes_to(job, first_step(job), ok, PreStartStep::CreateInfra(create));
    lemma_comes_to(job, first_step(job), ok, PreStartStep::Setup(setup));
    lemma_comes_to(job, first_step(job), ok, PreStartStep::BuildImages(profile));
}

/// What is set up is what the command line asks for: whether to force it, how many accounts, the
/// seed, and RPC where the command line or the manifest asks for it.
pub proof fn law_setup_is_as_asked(args: SetupArgs, rpc_manifest: bool, seed: Option<u64>)
    ensures
        setup_of(args, rpc_manifest, seed).force == args.force,
        setup_of(args, rpc_manifest, seed).rpc <==> args.rpc || rpc_manifest,
        setup_of(args, rpc_manifest, seed).num_extra_accounts == args.num_extra_accounts,
        setup_of(args, rpc_manifest, seed).seed == seed,
{
}

/// What leads to each step of a preparation, whatever came before. Remote infrastructure is
/// looked for at the start, and only where it is asked for. It is created only where it was not
/// found, for real and without asking, with the sizes asked for, and then the testnet is loaded
/// again in remote mode. The setup and the build are those asked for, and follow only the
/// question whether they are missing. A failure leads to the end at once.
pub proof fn law_pre_start_steps_have_their_reasons<'a>(
    job: PreStart<'a>,
    step: PreStartStep<'a>,
    ok: bool,
)
    ensures
        first_step(job) == PreStartStep::FindInfraData <==> job.remote,
        !job.remote ==> first_step(job) == PreStartStep::ExpandNodes(job.nodes_or_containers),
        ({
            let next = next_step(job, step, ok);
            let acts = step is CreateInfra || step is ReloadTestnet || step is ExpandNodes
                || step is Setup || step is BuildImages;
            &&& next != PreStartStep::FindInfraData
            &&& next is CreateInfra <==> step == PreStartStep::FindInfraData && !ok
            &&& next matches PreStartStep::CreateInfra(create) ==> !create.dry_run && create.yes
                && create.infra_args.node_size == job.infra_args.node_size
                && create.infra_args.cc_size == job.infra_args.cc_size
            &&& next is ReloadTestnet <==> step is CreateInfra && ok
            &&& next is ReloadTestnet ==> next->force_remote
            &&& next is ExpandNodes <==> step == PreStartStep::FindInfraData && ok
                || step is ReloadTestnet && ok
            &&& next matches PreStartStep::ExpandNodes(names) ==> names == job.nodes_or_containers
            &&& next == PreStartStep::FindSetup <==> step is ExpandNodes && ok
            &&& next is Setup <==> step == PreStartStep::FindSetup && !ok
            &&& next matches PreStartStep::Setup(setup) ==> setup == job.setup
            &&& next == PreStartStep::FindLocal <==> step == PreStartStep::FindSetup && ok
                || step is Setup && ok
            &&& next == PreStartStep::FindImages <==> step == PreStartStep::FindLocal && ok
            &&& next is BuildImages <==> step == PreStartStep::FindImages && !ok
            &&& next matches PreStartStep::BuildImages(profile) ==> profile == job.profile
            &&& next == PreStartStep::Ready <==> step == PreStartStep::FindLocal && !ok || step
                == PreStartStep::FindImages && ok || step is BuildImages && ok || step
                == PreStartStep::Ready
            &&& next == PreStartStep::Failed <==> acts && !ok || step == PreStartStep::Failed
        }),
{
}

/// No run of a preparation that does not ask for remote infrastructure looks for it, creates it
/// or loads the testnet again.
pub proof fn law_local_preparations_stay_local<'a>(
    job: PreStart<'a>,
    ok: spec_fn(PreStartStep<'a>) -> bool,
    create: InfraCreation<'a>,
    force_remote: bool,
)
    requires
        !job.remote,
    ensures
        !steps(job, ok).contains(PreStartStep::FindInfraData),
        !steps(job, ok).contains(PreStartStep::CreateInfra(create)),
        !steps(job, ok).contains(PreStartStep::ReloadTestnet { force_remote }),
        steps(job, ok)[0] == PreStartStep::ExpandNodes(job.nodes_or_containers),
{
    reveal_with_fuel(comes_to, 10);
    lemma_comes_to(job, first_step(job), ok, PreStartStep::FindInfraData);
    lemma_comes_to(job, first_step(job), ok, PreStartStep::CreateInfra(create));
    lemma_comes_to(job, first_step(job), ok, PreStartStep::ReloadTestnet { force_remote });
}

} // verus!
