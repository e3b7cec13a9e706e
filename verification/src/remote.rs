//! The tools for remote testnets: commands over SSH, tunnels and provisioning.

use vstd::prelude::*;
use vstd::string::*;

use crate::error;
use crate::error::{operation_failed, ErrorKind, ToolError};
use crate::text;
use crate::tools::TunnelsReady;

verus! {

/// Timeout for SSH commands, in seconds. Longer than that of queries because SSH involves
/// connection setup, nested hops through the Control Center, and arbitrary commands.
pub const SSH_TIMEOUT_SECS: u64 = 60;

/// The name of the Control Center among the instances of a remote testnet.
pub const CC_INSTANCE: &'static str = "cc";

/// A tool for remote testnets only.
#[derive(Debug, Clone, Copy, PartialEq, Eq, Structural)]
pub enum RemoteTool {
    Ssh,
    Ssm,
    Provision,
}

impl RemoteTool {
    /// The name of the tool.
    pub open spec fn name(self) -> Seq<char> {
        match self {
            RemoteTool::Ssh => "remote_ssh"@,
            RemoteTool::Ssm => "remote_ssm"@,
            RemoteTool::Provision => "remote_provision"@,
        }
    }
}

/// The error of a caller.
pub open spec fn caller_error(message: Seq<char>) -> (ErrorKind, Seq<char>) {
    (ErrorKind::InvalidParams, message)
}

/// The error of a tool for remote testnets on a testnet that is not remote.
pub open spec fn not_remote(tool: RemoteTool, cause: Seq<char>) -> (ErrorKind, Seq<char>) {
    caller_error(tool.name() + " requires a remote testnet: "@ + cause)
}

/// Goes on with a tool for remote testnets only where the testnet is one; `found` says whether
/// the remote infrastructure is at hand.
fn require_remote(tool: RemoteTool, found: Result<(), String>) -> (r: Result<(), ToolError>)
    ensures
        error::outcome(r) == match found {
            Ok(_) => Ok(()),
            Err(e) => Err(not_remote(tool, e@)),
        },
{
    match found {
        Ok(_) => Ok(()),
        Err(e) => {
            let name = match tool {
                RemoteTool::Ssh => "remote_ssh",
                RemoteTool::Ssm => "remote_ssm",
                RemoteTool::Provision => "remote_provision",
            };
            let mut message = String::from_str(name);
            message.append(" requires a remote testnet: ");
            message.append(e.as_str());
            Err(ToolError::invalid_params(message))
        },
    }
}

// ── Commands ────────────────────────────────────────────────────────────

/// Parameters for the remote_ssh tool.
#[derive(Debug)]
pub struct RemoteSshParams {
    /// Node name (e.g. "validator-blue") or "cc" for the Control Center server.
    pub node: String,
    /// Command to execute on the remote host via SSH.
    pub command: String,
}

/// A command to be run, once the instance that is to run it is known to exist.
#[derive(Debug)]
pub struct SshCommand {
    pub node: String,
    pub command: String,
}

/// A command to be run on an instance that exists.
#[derive(Debug)]
pub struct SshCall {
    pub node: String,
    pub command: String,
    /// Whether the command goes to the Control Center itself, rather than through it to a node.
    pub to_control_center: bool,
}

/// How a command went.
#[derive(Debug)]
pub enum SshOutcome {
    Output(String),
    Failed(String),
    /// The task that ran the command panicked.
    Panicked(String),
    /// The command took longer than [`SSH_TIMEOUT_SECS`].
    TimedOut,
}

/// What a call comes to before any instance is looked up: the node and the command. The testnet
/// has to be remote, and neither the node nor the command may be blank.
pub open spec fn ssh_request(found: Result<(), String>, params: RemoteSshParams) -> Result<
    (Seq<char>, Seq<char>),
    (ErrorKind, Seq<char>),
> {
    match found {
        Err(e) => Err(not_remote(RemoteTool::Ssh, e@)),
        Ok(_) => if text::trimmed(params.node@).len() == 0 {
            Err(caller_error("node must be non-empty"@))
        } else if text::trimmed(params.command@).len() == 0 {
            Err(caller_error("command must be non-empty"@))
        } else {
            Ok((text::trimmed(params.node@), params.command@))
        },
    }
}

/// Runs a command on a remote node or the Control Center (CC) server via SSH
/// and returns the output. Only available for remote testnets.
///
/// Use a node name (e.g. "validator-blue") to reach a specific node, or
/// "cc" for the Control Center server. Next, the instance of the node is to be looked up.
pub fn remote_ssh(_ready: &TunnelsReady, found: Result<(), String>, params: RemoteSshParams) -> (r:
    Result<SshCommand, ToolError>)
    ensures
        match r {
            Ok(command) => Ok((command.node@, command.command@)),
            Err(e) => Err(e@),
        } == ssh_request(found, params),
        r is Ok <==> found is Ok && text::trimmed(params.node@).len() > 0 && text::trimmed(
            params.command@,
        ).len() > 0,
        r is Ok ==> r->Ok_0.node@ == text::trimmed(params.node@) && r->Ok_0.command
            == params.command,
        r is Err ==> r->Err_0.kind == ErrorKind::InvalidParams,
{
    match require_remote(RemoteTool::Ssh, found) {
        Err(e) => Err(e),
        Ok(_) => {
            let node = text::trim(params.node.as_str());
            if node.as_str().is_empty() {
                return Err(ToolError::invalid_params(String::from_str("node must be non-empty")));
            }
            if text::trim(params.command.as_str()).as_str().is_empty() {
                return Err(
                    ToolError::invalid_params(String::from_str("command must be non-empty")),
                );
            }
            Ok(SshCommand { node, command: params.command })
        },
    }
}

/// What a command comes to once the instance of its node has been looked up: the node, the
/// command, and whether it goes to the Control Center.
pub open spec fn ssh_route(
    node: Seq<char>,
    command: Seq<char>,
    instance: Result<(), String>,
) -> Result<(Seq<char>, Seq<char>, bool), (ErrorKind, Seq<char>)> {
    match instance {
        Err(e) => Err(
            caller_error(
                "Invalid node '"@ + node + "': "@ + e@ + ". Must be a node name or 'cc'"@,
            ),
        ),
        Ok(_) => Ok((node, command, node == CC_INSTANCE@)),
    }
}

/// Sends a command on its way once the instance of its node has been looked up: to the Control
/// Center, or through it to a node. An unknown instance is the caller's error.
pub fn route_ssh(command: SshCommand, instance: Result<(), String>) -> (r: Result<
    SshCall,
    ToolError,
>)
    ensures
        match r {
            Ok(call) => Ok((call.node@, call.command@, call.to_control_center)),
            Err(e) => Err(e@),
        } == ssh_route(command.node@, command.command@, instance),
        r is Ok <==> instance is Ok,
        r is Ok ==> r->Ok_0.node == command.node && r->Ok_0.command == command.command,
        r is Ok ==> (r->Ok_0.to_control_center <==> command.node@ == "cc"@),
        r is Err ==> r->Err_0.kind == ErrorKind::InvalidParams,
{
    match instance {
        Err(e) => {
            let mut message = String::from_str("Invalid node '");
            message.append(command.node.as_str());
            message.append("': ");
            message.append(e.as_str());
            message.append(". Must be a node name or 'cc'");
            Err(ToolError::invalid_params(message))
        },
        Ok(_) => {
            let cc = String::from_str(CC_INSTANCE);
            let to_control_center = command.node == cc;
            Ok(SshCall { node: command.node, command: command.command, to_control_center })
        },
    }
}

/// The answer to a command that was sent to a node.
pub open spec fn ssh_result(node: Seq<char>, outcome: SshOutcome) -> Result<
    Seq<char>,
    (ErrorKind, Seq<char>),
> {
    match outcome {
        SshOutcome::Output(output) => Ok(output@),
        SshOutcome::Panicked(e) => Err(error::failure("SSH task panicked: "@, e@)),
        SshOutcome::Failed(e) => Err(error::failure("SSH to "@ + node + " failed: "@, e@)),
        SshOutcome::TimedOut => Err(
            (
                ErrorKind::InternalError,
                "SSH to "@ + node + " timed out after "@ + text::decimal(SSH_TIMEOUT_SECS as nat)
                    + "s"@,
            ),
        ),
    }
}

/// Answers a command that was sent to a node.
pub fn ssh_answer(node: &str, outcome: SshOutcome) -> (r: Result<String, ToolError>)
    ensures
        error::answer(r) == ssh_result(node@, outcome),
{
    match outcome {
        SshOutcome::Output(output) => Ok(output),
        SshOutcome::Panicked(e) => Err(operation_failed("SSH task panicked: ", e.as_str())),
        SshOutcome::Failed(e) => {
            let mut what = String::from_str("SSH to ");
            what.append(node);
            what.append(" failed: ");
            Err(operation_failed(what.as_str(), e.as_str()))
        },
        SshOutcome::TimedOut => {
            let mut message = String::from_str("SSH to ");
            message.append(node);
            message.append(" timed out after ");
            message.append(text::decimal_text(SSH_TIMEOUT_SECS).as_str());
            message.append("s");
            Err(ToolError::internal_error(message))
        },
    }
}

/// The answer to a whole call.
pub open spec fn ssh_run(
    found: Result<(), String>,
    params: RemoteSshParams,
    instance: Result<(), String>,
    outcome: SshOutcome,
) -> Result<Seq<char>, (ErrorKind, Seq<char>)> {
    match ssh_request(found, params) {
        Err(e) => Err(e),
        Ok((node, command)) => match ssh_route(node, command, instance) {
            Err(e) => Err(e),
            Ok((node, _, _)) => ssh_result(node, outcome),
        },
    }
}

/// A call is answered with output if and only if the testnet is remote, the node and the command
/// are not blank, the node has an instance, and the command ran; the answer is then the output
/// of the command. What is wrong with the call comes back as the caller's error, before anything
/// is run.
pub proof fn law_ssh_run(
    found: Result<(), String>,
    params: RemoteSshParams,
    instance: Result<(), String>,
    outcome: SshOutcome,
)
    ensures
        ({
            let sound = found is Ok && text::trimmed(params.node@).len() > 0 && text::trimmed(
                params.command@,
            ).len() > 0 && instance is Ok;
            let answer = ssh_run(found, params, instance, outcome);
            &&& !sound ==> answer is Err && answer->Err_0.0 == ErrorKind::InvalidParams
            &&& sound ==> answer == ssh_result(text::trimmed(params.node@), outcome)
            &&& answer is Ok <==> sound && outcome is Output
            &&& answer is Ok ==> answer->Ok_0 == outcome->Output_0@
            &&& sound && answer is Err ==> answer->Err_0.0 == ErrorKind::InternalError
        }),
{
}

// ── Tunnels ─────────────────────────────────────────────────────────────

/// What is to be done to the tunnels.
#[derive(Debug, Clone, Copy, PartialEq, Eq, Structural)]
pub enum SSMSubcommand {
    /// Start SSM tunnels to the Control Center server
    Start,
    /// Stop all SSM tunnels
    Stop,
    /// List all active SSM tunnels
    List,
}

/// The answer to a call about the tunnels; `done` holds the list where one was asked for.
pub open spec fn ssm_result(action: SSMSubcommand, done: Result<String, String>) -> Result<
    Seq<char>,
    (ErrorKind, Seq<char>),
> {
    match (action, done) {
        (SSMSubcommand::Start, Ok(_)) => Ok("SSM tunnels started"@),
        (SSMSubcommand::Start, Err(e)) => Err(error::failure("Failed to start SSM tunnels: "@, e@)),
        (SSMSubcommand::Stop, Ok(_)) => Ok("SSM tunnels stopped"@),
        (SSMSubcommand::Stop, Err(e)) => Err(error::failure("Failed to stop SSM tunnels: "@, e@)),
        (SSMSubcommand::List, Ok(output)) => Ok(output@),
        (SSMSubcommand::List, Err(e)) => Err(error::failure("Failed to list SSM tunnels: "@, e@)),
    }
}

/// Manages SSM port-forwarding tunnels to the Control Center server.
/// Required for RPC and SSH access to remote nodes and monitoring services.
/// Only available for remote testnets. The action returned is to be done next.
///
/// Actions:
///   "start" — opens inactive tunnels (idempotent)
///   "stop"  — closes all active tunnels
///   "list"  — shows active tunnel status
pub fn remote_ssm(found: Result<(), String>, action: SSMSubcommand) -> (r: Result<
    SSMSubcommand,
    ToolError,
>)
    ensures
        error::outcome(r) == match found {
            Ok(_) => Ok(action),
            Err(e) => Err(not_remote(RemoteTool::Ssm, e@)),
        },
{
    match require_remote(RemoteTool::Ssm, found) {
        Ok(_) => Ok(action),
        Err(e) => Err(e),
    }
}

/// Answers a call about the tunnels; `done` holds the list where one was asked for.
pub fn ssm_answer(action: SSMSubcommand, done: Result<String, String>) -> (r: Result<
    String,
    ToolError,
>)
    ensures
        error::answer(r) == ssm_result(action, done),
{
    match (action, done) {
        (SSMSubcommand::Start, Ok(_)) => Ok(String::from_str("SSM tunnels started")),
        (SSMSubcommand::Start, Err(e)) => Err(
            operation_failed("Failed to start SSM tunnels: ", e.as_str()),
        ),
        (SSMSubcommand::Stop, Ok(_)) => Ok(String::from_str("SSM tunnels stopped")),
        (SSMSubcommand::Stop, Err(e)) => Err(
            operation_failed("Failed to stop SSM tunnels: ", e.as_str()),
        ),
        (SSMSubcommand::List, Ok(output)) => Ok(output),
        (SSMSubcommand::List, Err(e)) => Err(
            operation_failed("Failed to list SSM tunnels: ", e.as_str()),
        ),
    }
}

// ── Provisioning ────────────────────────────────────────────────────────

/// How provisioning went.
#[derive(Debug)]
pub enum ProvisionOutcome {
    Provisioned,
    Failed(String),
    /// The task that uploaded the files panicked.
    Panicked(String),
}

/// Uploads testnet configuration files (genesis, node configs, compose.yaml)
/// to the Control Center server. Nodes access these files via NFS.
/// Only available for remote testnets. The upload is to be done next.
pub fn remote_provision(_ready: &TunnelsReady, found: Result<(), String>) -> (r: Result<
    (),
    ToolError,
>)
    ensures
        error::outcome(r) == match found {
            Ok(_) => Ok(()),
            Err(e) => Err(not_remote(RemoteTool::Provision, e@)),
        },
{
    require_remote(RemoteTool::Provision, found)
}

/// Answers an upload.
pub fn provision_answer(outcome: ProvisionOutcome) -> (r: Result<String, ToolError>)
    ensures
        error::answer(r) == match outcome {
            ProvisionOutcome::Provisioned => Ok("Testnet files provisioned to Control Center"@),
            ProvisionOutcome::Failed(e) => Err(error::failure("Provisioning failed: "@, e@)),
            ProvisionOutcome::Panicked(e) => Err(
                error::failure("Provision task panicked: "@, e@),
            ),
        },
{
    match outcome {
        ProvisionOutcome::Provisioned => Ok(
            String::from_str("Testnet files provisioned to Control Center"),
        ),
        ProvisionOutcome::Failed(e) => Err(operation_failed("Provisioning failed: ", e.as_str())),
        ProvisionOutcome::Panicked(e) => Err(
            operation_failed("Provision task panicked: ", e.as_str()),
        ),
    }
}

// ── Laws ────────────────────────────────────────────────────────────────

/// A tool for remote testnets says, by its name and with the cause, that the testnet is not
/// remote, and that is the caller's error.
pub proof fn law_remote_tools_say_what_they_need(cause: Seq<char>, message: Seq<char>)
    ensures
        not_remote(RemoteTool::Ssh, cause) == (
            ErrorKind::InvalidParams,
            "remote_ssh"@ + " requires a remote testnet: "@ + cause,
        ),
        not_remote(RemoteTool::Ssm, cause) == (
            ErrorKind::InvalidParams,
            "remote_ssm"@ + " requires a remote testnet: "@ + cause,
        ),
        not_remote(RemoteTool::Provision, cause) == (
            ErrorKind::InvalidParams,
            "remote_provision"@ + " requires a remote testnet: "@ + cause,
        ),
        caller_error(message) == (ErrorKind::InvalidParams, message),
{
}

/// A command goes out as it was given, white space included, and to the node named without the
/// white space around it. What is wrong with a call is told in this order: the testnet is not
/// remote, the node is blank, the command is blank.
pub proof fn law_commands_go_out_as_given(
    found: Result<(), String>,
    params: RemoteSshParams,
)
    ensures
        ({
            let asked = ssh_request(found, params);
            let no_node = text::trimmed(params.node@).len() == 0;
            let no_command = text::trimmed(params.command@).len() == 0;
            &&& asked is Ok <==> found is Ok && !no_node && !no_command
            &&& asked matches Ok((node, command)) ==> node == text::trimmed(params.node@) && command
                == params.command@
            &&& found matches Err(e) ==> asked == Err::<(Seq<char>, Seq<char>), _>(
                (
                    ErrorKind::InvalidParams,
                    "remote_ssh"@ + " requires a remote testnet: "@ + e@,
                ),
            )
            &&& found is Ok && no_node ==> asked == Err::<(Seq<char>, Seq<char>), _>(
                (ErrorKind::InvalidParams, "node must be non-empty"@),
            )
            &&& found is Ok && !no_node && no_command ==> asked == Err::<
                (Seq<char>, Seq<char>),
                _,
            >((ErrorKind::InvalidParams, "command must be non-empty"@))
        }),
{
}

/// A command goes to the Control Center exactly where the node is called `cc`, and keeps its node
/// and its text. Where the node has no instance, the error names the node and gives the cause.
pub proof fn law_commands_go_to_their_node(node: Seq<char>, command: Seq<char>, e: String)
    ensures
        ssh_route(node, command, Ok(())) matches Ok((to, what, center)) && to == node && what
            == command && (center <==> node == seq!['c', 'c']),
        ssh_route(node, command, Err(e)) matches Err(told) && told == (
            ErrorKind::InvalidParams,
            "Invalid node '"@ + node + "': "@ + e@ + ". Must be a node name or 'cc'"@,
        ),
{
    reveal_strlit("cc");
    assert("cc"@ =~= seq!['c', 'c']);
}

/// A command is answered with its output. One that failed, whose task panicked or that took longer
/// than a minute is answered with an internal error; a failure and a timeout name the node.
pub proof fn law_commands_are_answered(node: Seq<char>, output: String, e: String)
    ensures
        ssh_result(node, SshOutcome::Output(output)) == Ok::<_, (ErrorKind, Seq<char>)>(output@),
        ssh_result(node, SshOutcome::Failed(e)) == Err::<Seq<char>, _>(
            (ErrorKind::InternalError, "SSH to "@ + node + " failed: "@ + e@),
        ),
        ssh_result(node, SshOutcome::Panicked(e)) == Err::<Seq<char>, _>(
            (ErrorKind::InternalError, "SSH task panicked: "@ + e@),
        ),
        ssh_result(node, SshOutcome::TimedOut) == Err::<Seq<char>, _>(
            (
                ErrorKind::InternalError,
                "SSH to "@ + node + " timed out after "@ + text::decimal(60) + "s"@,
            ),
        ),
{
}

/// Each action on the tunnels is answered for itself: a start and a stop with what was done, a
/// list with the list, and what failed with the cause.
pub proof fn law_tunnel_actions_are_answered(output: String, e: String)
    ensures
        ssm_result(SSMSubcommand::Start, Ok(output)) == Ok::<_, (ErrorKind, Seq<char>)>(
            "SSM tunnels started"@,
        ),
        ssm_result(SSMSubcommand::Stop, Ok(output)) == Ok::<_, (ErrorKind, Seq<char>)>(
            "SSM tunnels stopped"@,
        ),
        ssm_result(SSMSubcommand::List, Ok(output)) == Ok::<_, (ErrorKind, Seq<char>)>(output@),
        ssm_result(SSMSubcommand::Start, Err(e)) == Err::<Seq<char>, _>(
            (ErrorKind::InternalError, "Failed to start SSM tunnels: "@ + e@),
        ),
        ssm_result(SSMSubcommand::Stop, Err(e)) == Err::<Seq<char>, _>(
            (ErrorKind::InternalError, "Failed to stop SSM tunnels: "@ + e@),
        ),
        ssm_result(SSMSubcommand::List, Err(e)) == Err::<Seq<char>, _>(
            (ErrorKind::InternalError, "Failed to list SSM tunnels: "@ + e@),
        ),
{
}

} // verus!
