use psm::bot_cmd::{check_cmd_auth, server_requests, BotCmd, Commands, RequestKind, ServerRequest};
use psm::config::{default_config, NpsAccessConfig, SshConfig, WhiteListConfig};
use psm::error::PSMError;
use psm::local_storage::{LocalSaveStorageConfig, LocalStorage, Side, Transfer};
use psm::psm::{retarget_firewall_rules, FirewallRule};
use psm::shell_manager::{Script, ShellAction, ShellEvent, ShellManager};
use psm::text::{eq_ignore_case, find_ignore_case, is_padded_zero, without_eol};

fn ssh() -> SshConfig {
    SshConfig { prikey: "/home/ubuntu/.ssh/id_ed25519".to_string(), user: "ubuntu".to_string() }
}

#[test]
fn script_run_launches_polls_and_fetches_the_log_tail() {
    let shell = ShellManager::new(ssh());
    let mut run = shell.run(Script::BackupSave);
    assert_eq!(
        run.step(ShellEvent::Start),
        ShellAction::Exec(
            "(sh /home/ubuntu/psm/scripts/backup_save.sh >> /tmp/shell_log.log 2>&1 &)".to_string()
        )
    );
    let poll = ShellAction::Exec("ps -ef | grep backup_save.sh | grep -v grep | wc -l".to_string());
    assert_eq!(run.step(ShellEvent::Output(Ok(String::new()))), poll);
    assert_eq!(run.step(ShellEvent::Output(Ok("1\n".to_string()))), ShellAction::Sleep(5));
    assert_eq!(run.step(ShellEvent::Slept), poll);
    assert_eq!(
        run.step(ShellEvent::Output(Ok("  0\n".to_string()))),
        ShellAction::Exec("tail -n 1 /tmp/shell_log.log".to_string())
    );
    assert_eq!(
        run.step(ShellEvent::Output(Ok("save-1\n".to_string()))),
        ShellAction::Finish(Ok("save-1\n".to_string()))
    );
}

#[test]
fn script_run_stops_on_failure() {
    let shell = ShellManager::new(ssh());
    let mut run = shell.run(Script::InstallServer);
    run.step(ShellEvent::Start);
    let err = PSMError::RemoteExecution("channel closed".to_string());
    assert_eq!(
        run.step(ShellEvent::Output(Err(err.clone()))),
        ShellAction::Finish(Err(err))
    );
}

#[test]
fn script_names() {
    assert_eq!(Script::InstallServer.file_name(), "install_server.sh");
    assert_eq!(Script::RestoreSave.file_name(), "restore_save.sh");
    assert_eq!(Script::StartServer.file_name(), "start_server.sh");
    assert_eq!(Script::BackupSave.file_name(), "backup_save.sh");
}

#[test]
fn transfer_plans() {
    let storage = LocalStorage::new(LocalSaveStorageConfig::new(
        "/srv/psm".to_string(),
        "/home/ubuntu/psm".to_string(),
    ));
    let plan = storage.upload_scripts(&ssh(), "5.6.7.8");
    assert_eq!(plan.endpoint, "ssh://ubuntu@5.6.7.8:22");
    assert_eq!(plan.local_root, "/srv/psm");
    assert_eq!(plan.remote_root, "/home/ubuntu/psm");
    let paths: Vec<&str> = plan.transfers.iter().map(|t| t.path.as_str()).collect();
    assert_eq!(
        paths,
        vec![
            "/scripts/install_server.sh",
            "/scripts/restore_save.sh",
            "/scripts/start_server.sh",
            "/scripts/backup_save.sh",
        ]
    );
    assert!(plan.transfers.iter().all(|t| t.from == Side::Local));
    let up = storage.upload_saves("save-1", &ssh(), "5.6.7.8");
    assert_eq!(up.transfers, vec![Transfer { from: Side::Local, path: "/saves/save-1".to_string() }]);
    let down = storage.download_saves("save-1", &ssh(), "5.6.7.8");
    assert_eq!(down.transfers, vec![Transfer { from: Side::Remote, path: "/saves/save-1".to_string() }]);
}

fn white_list() -> WhiteListConfig {
    WhiteListConfig { server: vec![123, 456], nps: vec![789] }
}

#[test]
fn command_authorisation() {
    let server = BotCmd {
        sub: Some(Commands::Server { status: Some("pal".into()), start: None, stop: None, save: None }),
    };
    let config = BotCmd { sub: Some(Commands::Config { kind: "all".into() }) };
    let nps = BotCmd { sub: Some(Commands::Nps { ip: "1.2.3.4".into() }) };
    let empty = BotCmd { sub: None };
    assert!(check_cmd_auth(&server, 456, 1, &white_list()));
    assert!(!check_cmd_auth(&server, 789, 1, &white_list()));
    assert!(check_cmd_auth(&config, 1, 1, &white_list()));
    assert!(!check_cmd_auth(&config, 123, 1, &white_list()));
    assert!(check_cmd_auth(&nps, 789, 1, &white_list()));
    assert!(!check_cmd_auth(&nps, 123, 1, &white_list()));
    assert!(!check_cmd_auth(&empty, 123, 123, &white_list()));
}

#[test]
fn server_requests_keep_their_order() {
    let r = server_requests(Some("a".into()), None, Some("b".into()), Some("c".into()));
    assert_eq!(
        r,
        vec![
            ServerRequest { kind: RequestKind::Status, server: "a".into() },
            ServerRequest { kind: RequestKind::Stop, server: "b".into() },
            ServerRequest { kind: RequestKind::Save, server: "c".into() },
        ]
    );
    assert!(server_requests(None, None, None, None).is_empty());
}

fn rule(protocol: &str, port: &str, cidr: &str) -> FirewallRule {
    FirewallRule {
        protocol: protocol.into(),
        port: port.into(),
        cidr_block: cidr.into(),
        action: "ACCEPT".into(),
        description: String::new(),
    }
}

#[test]
fn access_rule_is_retargeted() {
    let access = NpsAccessConfig {
        region: "ap-shanghai".into(),
        instance_id: "lhins-1".into(),
        protocol: "TCP".into(),
        port: "80".into(),
    };
    let rules = vec![rule("TCP", "80", "0.0.0.0/0"), rule("TCP", "22", "0.0.0.0/0"), rule("UDP", "80", "10.0.0.0/8")];
    let out = retarget_firewall_rules(&rules, "1.2.3.4", &access);
    assert_eq!(
        out,
        vec![rule("TCP", "80", "1.2.3.4"), rule("TCP", "22", "0.0.0.0/0"), rule("UDP", "80", "10.0.0.0/8")]
    );
}

#[test]
fn default_config_text() {
    let c = default_config();
    assert!(c.starts_with("csp:\n    tencent_cloud:\n"));
    assert!(c.contains("whitelist:\n    server: [123, 456]\n"));
    assert!(c.ends_with("nps: [123, 456]\n"));
}

#[test]
fn text_helpers() {
    assert!(eq_ignore_case("4C8G", "4c8g"));
    assert!(!eq_ignore_case("4c8", "4c8g"));
    assert!(find_ignore_case("sg-PALWORLD-1", "palworld"));
    assert!(!find_ignore_case("pal", "palworld"));
    assert!(find_ignore_case("anything", ""));
    assert!(is_padded_zero(" 0\n"));
    assert!(!is_padded_zero("10\n"));
    assert!(!is_padded_zero("0 0"));
    assert!(!is_padded_zero(""));
    assert_eq!(without_eol("save\r\n\n"), "save");
    assert_eq!(without_eol("a\nb"), "a\nb");
}

#[test]
fn error_text() {
    assert_eq!(PSMError::CSPClientError("x".into()).message(), "CSP client error: x");
    assert_eq!(PSMError::Timeout.message(), "query cvm create status and ip timeout");
}
