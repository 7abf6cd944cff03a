use psm::constant::{InstanceType, Region};
use psm::cvm_utils::{Price, Quote, SecurityGroup};
use psm::error::PSMError;
use psm::psm::{Action, Event, Notice, StartServer, StartStage, Step, StopServer, StopStage};
use psm::server_status::{Server, ServerManager, ServerManagerError, Status};
use psm::shell_manager::Script;

fn stopped(save: Option<&str>) -> Server {
    Server {
        name: "pal".to_string(),
        status: Status::Stopped,
        instance_type: "4C16G".to_string(),
        save: save.map(|s| s.to_string()),
        ip_port: None,
        region: None,
        instance_id: None,
    }
}

fn running() -> Server {
    Server {
        name: "pal".to_string(),
        status: Status::Running,
        instance_type: "4c16g".to_string(),
        save: None,
        ip_port: Some("1.2.3.4:8211".to_string()),
        region: Some("ap-nanjing".to_string()),
        instance_id: Some("ins-7".to_string()),
    }
}

fn store(s: Server) -> ServerManager {
    ServerManager::new("servers.yaml".to_string(), vec![s]).unwrap()
}

fn quote() -> Quote {
    Quote {
        price: Price { instance_price: 120_000, bandwidth_price: 800_000 },
        region: Region::Nanjing,
        zone: "ap-nanjing-1".to_string(),
        instance_type: InstanceType::SA2Large16,
    }
}

fn groups() -> Vec<SecurityGroup> {
    vec![
        SecurityGroup { security_group_id: "sg-1".into(), security_group_name: "default".into() },
        SecurityGroup { security_group_id: "sg-2".into(), security_group_name: "palworld".into() },
    ]
}

/// Steps the start through creation and the install script's run.
fn start_to_install(m: &mut ServerManager) -> (StartServer, Vec<Step>) {
    let mut steps = vec![];
    let mut w = StartServer::new("pal");
    let events = vec![
        Event::Begin,
        Event::Quote(Ok(quote())),
        Event::KeyIds(Ok(vec!["key-1".to_string()])),
        Event::SecurityGroups(Ok(groups())),
        Event::Created(Ok("ins-42".to_string())),
        Event::Address(Ok("5.6.7.8".to_string())),
        Event::Transferred(Ok(())),
    ];
    for e in events {
        let (next, step) = w.step(m, e);
        w = next;
        steps.push(step);
    }
    (w, steps)
}

#[test]
fn starting_a_running_slot_is_refused_without_changes() {
    let mut m = store(running());
    let (w, step) = StartServer::new("pal").step(&mut m, Event::Begin);
    assert_eq!(w.stage, StartStage::Done);
    assert_eq!(
        step.action,
        Action::Finish(Err(PSMError::ServerManagerError(
            ServerManagerError::ServerStatusNotMatch(Status::Running)
        )))
    );
    let s = &m.servers()[0];
    assert_eq!(s.status, Status::Running);
    assert_eq!(s.ip_port.as_deref(), Some("1.2.3.4:8211"));
    assert_eq!(s.instance_id.as_deref(), Some("ins-7"));
}

#[test]
fn stopping_a_stopped_slot_is_refused_without_changes() {
    let mut m = store(stopped(Some("old")));
    let (w, step) = StopServer::new("pal").step(&mut m, Event::Begin);
    assert_eq!(w.stage, StopStage::Done);
    assert_eq!(
        step.action,
        Action::Finish(Err(PSMError::ServerManagerError(
            ServerManagerError::ServerStatusNotMatch(Status::Stopped)
        )))
    );
    let s = &m.servers()[0];
    assert_eq!(s.status, Status::Stopped);
    assert_eq!(s.save.as_deref(), Some("old"));
}

#[test]
fn start_with_everything_succeeding_ends_running() {
    let mut m = store(stopped(None));
    let (w, steps) = start_to_install(&mut m);
    assert_eq!(
        steps[0].action,
        Action::FindCheapest {
            regions: vec![Region::Guangzhou, Region::Nanjing, Region::Shanghai],
            instance_types: vec![InstanceType::SA2Large16, InstanceType::SA3Large16],
        }
    );
    assert_eq!(steps[1].notice, Some(Notice::QuoteChosen(quote())));
    assert_eq!(
        steps[3].action,
        Action::CreateInstance {
            quote: quote(),
            key_ids: vec!["key-1".to_string()],
            security_group_ids: vec!["sg-2".to_string()],
        }
    );
    assert_eq!(steps[4].notice, Some(Notice::InstanceCreated("ins-42".to_string())));
    assert_eq!(
        steps[6].action,
        Action::RunScript { host: "5.6.7.8".to_string(), script: Script::InstallServer }
    );
    assert_eq!(m.servers()[0].status, Status::Creating);
    let (w, step) = w.step(&mut m, Event::ScriptDone(Ok("installed\n".to_string())));
    assert_eq!(
        step.action,
        Action::RunScript { host: "5.6.7.8".to_string(), script: Script::StartServer }
    );
    let (w, step) = w.step(&mut m, Event::ScriptDone(Ok("started\n".to_string())));
    assert_eq!(w.stage, StartStage::Done);
    assert_eq!(step.action, Action::Finish(Ok(())));
    assert_eq!(step.notice, Some(Notice::ServerCreated("5.6.7.8:8211".to_string())));
    let s = &m.servers()[0];
    assert_eq!(s.status, Status::Running);
    assert_eq!(s.ip_port.as_deref(), Some("5.6.7.8:8211"));
    assert_eq!(s.region.as_deref(), Some("ap-nanjing"));
    assert_eq!(s.instance_id.as_deref(), Some("ins-42"));
}

#[test]
fn start_with_a_save_restores_it_before_starting() {
    let mut m = store(stopped(Some("save-3")));
    let (w, _) = start_to_install(&mut m);
    let (w, step) = w.step(&mut m, Event::ScriptDone(Ok(String::new())));
    assert_eq!(
        step.action,
        Action::UploadSave { host: "5.6.7.8".to_string(), save_name: "save-3".to_string() }
    );
    let (w, step) = w.step(&mut m, Event::Transferred(Ok(())));
    assert_eq!(
        step.action,
        Action::RunScript { host: "5.6.7.8".to_string(), script: Script::RestoreSave }
    );
    let (w, step) = w.step(&mut m, Event::ScriptDone(Ok(String::new())));
    assert_eq!(step.notice, Some(Notice::SaveRestored("save-3".to_string())));
    assert_eq!(
        step.action,
        Action::RunScript { host: "5.6.7.8".to_string(), script: Script::StartServer }
    );
    let (_, step) = w.step(&mut m, Event::ScriptDone(Ok(String::new())));
    assert_eq!(step.action, Action::Finish(Ok(())));
    assert_eq!(m.servers()[0].status, Status::Running);
}

#[test]
fn start_without_a_save_never_restores() {
    let mut m = store(stopped(None));
    let (w, mut steps) = start_to_install(&mut m);
    let (w, step) = w.step(&mut m, Event::ScriptDone(Ok(String::new())));
    steps.push(step);
    let (_, step) = w.step(&mut m, Event::ScriptDone(Ok(String::new())));
    steps.push(step);
    for s in &steps {
        assert!(!matches!(s.action, Action::UploadSave { .. }));
        assert!(!matches!(s.action, Action::RunScript { script: Script::RestoreSave, .. }));
    }
}

#[test]
fn failed_install_rolls_back_once() {
    let mut m = store(stopped(None));
    let (w, mut steps) = start_to_install(&mut m);
    let err = PSMError::RemoteExecution("install failed".to_string());
    let (w, step) = w.step(&mut m, Event::ScriptDone(Err(err.clone())));
    assert_eq!(
        step.action,
        Action::Terminate { region: Region::Nanjing, instance_id: "ins-42".to_string() }
    );
    assert_eq!(m.servers()[0].status, Status::Stopped);
    steps.push(step);
    let (w, step) = w.step(&mut m, Event::Terminated(Ok(())));
    assert_eq!(step.action, Action::Finish(Err(err)));
    assert_eq!(w.stage, StartStage::Done);
    steps.push(step);
    let terminations = steps.iter().filter(|s| matches!(s.action, Action::Terminate { .. })).count();
    assert_eq!(terminations, 1);
    let s = &m.servers()[0];
    assert_eq!(s.status, Status::Stopped);
    assert_eq!(s.ip_port, None);
    assert_eq!(s.instance_id, None);
}

#[test]
fn failed_rollback_does_not_hide_the_error() {
    let mut m = store(stopped(None));
    let (w, _) = start_to_install(&mut m);
    let err = PSMError::Transfer("broken pipe".to_string());
    let (w, _) = w.step(&mut m, Event::ScriptDone(Err(err.clone())));
    let term = PSMError::CSPClientError("denied".to_string());
    let (_, step) = w.step(&mut m, Event::Terminated(Err(term.clone())));
    assert_eq!(step.action, Action::Finish(Err(err)));
    assert_eq!(step.notice, Some(Notice::RollbackFailed(term)));
}

#[test]
fn discovery_is_retried_then_given_up() {
    let mut m = store(stopped(None));
    let (mut w, _) = StartServer::new("pal").step(&mut m, Event::Begin);
    for attempt in 1..5u8 {
        let (next, step) = w.step(&mut m, Event::Quote(Err(PSMError::NoAvailableInstance)));
        assert!(matches!(step.action, Action::FindCheapest { .. }));
        assert_eq!(next.attempts, attempt);
        w = next;
    }
    let (w, step) = w.step(&mut m, Event::Quote(Err(PSMError::NoAvailableInstance)));
    assert_eq!(step.action, Action::Finish(Err(PSMError::NoAvailableInstance)));
    assert_eq!(w.stage, StartStage::Done);
    assert_eq!(m.servers()[0].status, Status::Stopped);
}

#[test]
fn unknown_class_puts_slot_back() {
    let mut s = stopped(None);
    s.instance_type = "3c3g".to_string();
    let mut m = store(s);
    let (_, step) = StartServer::new("pal").step(&mut m, Event::Begin);
    assert_eq!(step.action, Action::Finish(Err(PSMError::InvalidInstanceType)));
    assert_eq!(m.servers()[0].status, Status::Stopped);
}

#[test]
fn stop_records_save_before_terminating_and_clears() {
    let mut m = store(running());
    let (w, step) = StopServer::new("pal").step(&mut m, Event::Begin);
    assert_eq!(
        step.action,
        Action::RunScript { host: "1.2.3.4".to_string(), script: Script::BackupSave }
    );
    let (w, step) = w.step(&mut m, Event::ScriptDone(Ok("save-20240101\n".to_string())));
    assert_eq!(
        step.action,
        Action::DownloadSave { host: "1.2.3.4".to_string(), save_name: "save-20240101".to_string() }
    );
    let (w, step) = w.step(&mut m, Event::Transferred(Ok(())));
    assert_eq!(
        step.action,
        Action::Terminate { region: Region::Nanjing, instance_id: "ins-7".to_string() }
    );
    assert_eq!(m.servers()[0].save.as_deref(), Some("save-20240101"));
    assert_eq!(m.servers()[0].status, Status::Stopping);
    let (w, step) = w.step(&mut m, Event::Terminated(Ok(())));
    assert_eq!(step.action, Action::Finish(Ok(())));
    assert_eq!(
        step.notice,
        Some(Notice::ServerDeleted("pal".to_string(), "ins-7".to_string()))
    );
    assert_eq!(w.stage, StopStage::Done);
    let s = &m.servers()[0];
    assert_eq!(s.status, Status::Stopped);
    assert_eq!(s.ip_port, None);
    assert_eq!(s.region, None);
    assert_eq!(s.instance_id, None);
    assert_eq!(s.save.as_deref(), Some("save-20240101"));
}

#[test]
fn failed_termination_puts_slot_back_to_running() {
    let mut m = store(running());
    let (w, _) = StopServer::new("pal").step(&mut m, Event::Begin);
    let (w, _) = w.step(&mut m, Event::ScriptDone(Ok("s1".to_string())));
    let (w, _) = w.step(&mut m, Event::Transferred(Ok(())));
    let err = PSMError::CSPClientError("busy".to_string());
    let (_, step) = w.step(&mut m, Event::Terminated(Err(err.clone())));
    assert_eq!(step.action, Action::Finish(Err(err)));
    assert_eq!(m.servers()[0].status, Status::Running);
    assert_eq!(m.servers()[0].instance_id.as_deref(), Some("ins-7"));
}

#[test]
fn failed_backup_leaves_slot_running() {
    let mut m = store(running());
    let (w, _) = StopServer::new("pal").step(&mut m, Event::Begin);
    let err = PSMError::RemoteExecution("auth".to_string());
    let (_, step) = w.step(&mut m, Event::ScriptDone(Err(err.clone())));
    assert_eq!(step.action, Action::Finish(Err(err)));
    assert_eq!(m.servers()[0].status, Status::Running);
    assert_eq!(m.servers()[0].save, None);
}

#[test]
fn backup_keeps_slot_running() {
    let mut m = store(running());
    let (w, _) = StopServer::backup("pal").step(&mut m, Event::Begin);
    let (w, _) = w.step(&mut m, Event::ScriptDone(Ok("s9\r\n".to_string())));
    let (_, step) = w.step(&mut m, Event::Transferred(Ok(())));
    assert_eq!(step.notice, Some(Notice::BackupTaken("s9".to_string())));
    assert_eq!(step.action, Action::Finish(Ok(())));
    assert_eq!(m.servers()[0].status, Status::Running);
    assert_eq!(m.servers()[0].save, None);
}

#[test]
fn unknown_region_puts_slot_back_to_running() {
    let mut s = running();
    s.region = Some("ap-mars".to_string());
    let mut m = store(s);
    let (w, _) = StopServer::new("pal").step(&mut m, Event::Begin);
    let (w, _) = w.step(&mut m, Event::ScriptDone(Ok("s1".to_string())));
    let (_, step) = w.step(&mut m, Event::Transferred(Ok(())));
    assert_eq!(step.action, Action::Finish(Err(PSMError::UnknownRegion)));
    assert_eq!(m.servers()[0].status, Status::Running);
    assert_eq!(m.servers()[0].save.as_deref(), Some("s1"));
}
