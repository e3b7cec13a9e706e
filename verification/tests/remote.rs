use quake::error::{ErrorKind, ToolError};
use quake::remote::{
    provision_answer, remote_provision, remote_ssh, remote_ssm, route_ssh, ssh_answer, ssm_answer,
    ProvisionOutcome, RemoteSshParams, SSMSubcommand, SshCommand, SshOutcome, CC_INSTANCE,
    SSH_TIMEOUT_SECS,
};
use quake::tools::{ensure_ssm_tunnels, TunnelsReady};

fn ready() -> TunnelsReady {
    ensure_ssm_tunnels(&Ok(()), Some(Ok(()))).unwrap()
}

fn params(node: &str, command: &str) -> RemoteSshParams {
    RemoteSshParams { node: node.to_string(), command: command.to_string() }
}

fn failed<T>(r: Result<T, ToolError>) -> (ErrorKind, String) {
    match r {
        Ok(_) => panic!("an error was expected"),
        Err(e) => (e.kind, e.message),
    }
}

#[test]
fn ssh_trims_the_node_and_keeps_the_command() {
    let command = remote_ssh(&ready(), Ok(()), params(" \tvalidator-blue\n", "  df -h ")).unwrap();
    assert_eq!(command.node, "validator-blue");
    assert_eq!(command.command, "  df -h ");
}

#[test]
fn ssh_refuses_what_is_wrong_with_the_call() {
    assert_eq!(
        failed(remote_ssh(&ready(), Err("local".to_string()), params("", ""))),
        (ErrorKind::InvalidParams, "remote_ssh requires a remote testnet: local".to_string())
    );
    assert_eq!(
        failed(remote_ssh(&ready(), Ok(()), params(" \u{3000}", ""))),
        (ErrorKind::InvalidParams, "node must be non-empty".to_string())
    );
    assert_eq!(
        failed(remote_ssh(&ready(), Ok(()), params("cc", " \r\n"))),
        (ErrorKind::InvalidParams, "command must be non-empty".to_string())
    );
    let command = SshCommand { node: "nobody".to_string(), command: "ls".to_string() };
    assert_eq!(
        failed(route_ssh(command, Err("not found".to_string()))),
        (
            ErrorKind::InvalidParams,
            "Invalid node 'nobody': not found. Must be a node name or 'cc'".to_string()
        )
    );
}

#[test]
fn ssh_routes_cc_to_the_control_center() {
    assert_eq!(CC_INSTANCE, "cc");
    for (node, to_control_center) in [("cc", true), ("validator-red", false), ("CC", false)] {
        let command = SshCommand { node: node.to_string(), command: "ls".to_string() };
        let call = route_ssh(command, Ok(())).unwrap();
        assert_eq!(call.node, node);
        assert_eq!(call.command, "ls");
        assert_eq!(call.to_control_center, to_control_center);
    }
}

#[test]
fn ssh_answers() {
    assert_eq!(SSH_TIMEOUT_SECS, 60);
    assert_eq!(ssh_answer("cc", SshOutcome::Output("ok\n".to_string())).unwrap(), "ok\n");
    assert_eq!(
        failed(ssh_answer("cc", SshOutcome::Failed("exit 1".to_string()))),
        (ErrorKind::InternalError, "SSH to cc failed: exit 1".to_string())
    );
    assert_eq!(
        failed(ssh_answer("cc", SshOutcome::Panicked("boom".to_string()))),
        (ErrorKind::InternalError, "SSH task panicked: boom".to_string())
    );
    assert_eq!(
        failed(ssh_answer("full1", SshOutcome::TimedOut)),
        (ErrorKind::InternalError, "SSH to full1 timed out after 60s".to_string())
    );
}

#[test]
fn tunnels() {
    for action in [SSMSubcommand::Start, SSMSubcommand::Stop, SSMSubcommand::List] {
        assert_eq!(remote_ssm(Ok(()), action).unwrap(), action);
        assert_eq!(
            failed(remote_ssm(Err("local".to_string()), action)),
            (ErrorKind::InvalidParams, "remote_ssm requires a remote testnet: local".to_string())
        );
    }
    let done = || Ok("a: active".to_string());
    let down = || Err("no session".to_string());
    assert_eq!(ssm_answer(SSMSubcommand::Start, done()).unwrap(), "SSM tunnels started");
    assert_eq!(ssm_answer(SSMSubcommand::Stop, done()).unwrap(), "SSM tunnels stopped");
    assert_eq!(ssm_answer(SSMSubcommand::List, done()).unwrap(), "a: active");
    assert_eq!(
        failed(ssm_answer(SSMSubcommand::Start, down())),
        (ErrorKind::InternalError, "Failed to start SSM tunnels: no session".to_string())
    );
    assert_eq!(
        failed(ssm_answer(SSMSubcommand::Stop, down())),
        (ErrorKind::InternalError, "Failed to stop SSM tunnels: no session".to_string())
    );
    assert_eq!(
        failed(ssm_answer(SSMSubcommand::List, down())),
        (ErrorKind::InternalError, "Failed to list SSM tunnels: no session".to_string())
    );
}

#[test]
fn provisioning() {
    assert!(remote_provision(&ready(), Ok(())).is_ok());
    assert_eq!(
        failed(remote_provision(&ready(), Err("local".to_string()))),
        (ErrorKind::InvalidParams, "remote_provision requires a remote testnet: local".to_string())
    );
    assert_eq!(
        provision_answer(ProvisionOutcome::Provisioned).unwrap(),
        "Testnet files provisioned to Control Center"
    );
    assert_eq!(
        failed(provision_answer(ProvisionOutcome::Failed("rsync".to_string()))),
        (ErrorKind::InternalError, "Provisioning failed: rsync".to_string())
    );
    assert_eq!(
        failed(provision_answer(ProvisionOutcome::Panicked("boom".to_string()))),
        (ErrorKind::InternalError, "Provision task panicked: boom".to_string())
    );
}
