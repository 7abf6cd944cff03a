use psm::server_status::{Server, ServerManager, ServerManagerError, Status};

fn slot(name: &str, status: Status) -> Server {
    let running = matches!(status, Status::Running | Status::Stopping);
    Server {
        name: name.to_string(),
        status,
        instance_type: "4c16g".to_string(),
        save: None,
        ip_port: if running { Some("1.2.3.4:8211".to_string()) } else { None },
        region: if running { Some("ap-guangzhou".to_string()) } else { None },
        instance_id: if running { Some("ins-1".to_string()) } else { None },
    }
}

fn store(servers: Vec<Server>) -> ServerManager {
    ServerManager::new("servers.yaml".to_string(), servers).unwrap()
}

#[test]
fn new_refuses_inconsistent_record() {
    let mut bad = slot("pal", Status::Stopped);
    bad.region = Some("ap-guangzhou".to_string());
    let r = ServerManager::new("servers.yaml".to_string(), vec![bad]);
    assert!(matches!(r, Err(ServerManagerError::ServerRecordInvalid)));
}

#[test]
fn reload_refuses_inconsistent_record_and_keeps_old() {
    let mut m = store(vec![slot("pal", Status::Stopped)]);
    let mut bad = slot("pal", Status::Running);
    bad.ip_port = None;
    assert_eq!(m.reload_servers(vec![bad]), Err(ServerManagerError::ServerRecordInvalid));
    assert_eq!(m.servers()[0].status, Status::Stopped);
    assert!(m.reload_servers(vec![slot("pal", Status::Running)]).is_ok());
    assert_eq!(m.servers()[0].status, Status::Running);
}

#[test]
fn unknown_slot_is_not_found() {
    let mut m = store(vec![slot("pal", Status::Stopped)]);
    assert_eq!(m.create_server("other"), Err(ServerManagerError::ServerNotFound));
    assert_eq!(m.get_instance_type("other"), Err(ServerManagerError::ServerNotFound));
    assert_eq!(m.list("other"), Err(ServerManagerError::ServerNotFound));
}

#[test]
fn full_lifecycle_of_a_slot() {
    let mut m = store(vec![slot("a", Status::Stopped), slot("pal", Status::Stopped)]);
    assert_eq!(m.create_server("pal"), Ok(()));
    assert_eq!(m.servers()[1].status, Status::Creating);
    assert_eq!(m.servers()[0].status, Status::Stopped);
    assert_eq!(
        m.finish_creating_server("pal", "5.6.7.8:8211", "ap-nanjing", "ins-9"),
        Ok(())
    );
    let s = &m.servers()[1];
    assert_eq!(s.status, Status::Running);
    assert_eq!(s.ip_port.as_deref(), Some("5.6.7.8:8211"));
    assert_eq!(m.get_server_ip("pal"), Ok(Some("5.6.7.8".to_string())));
    assert_eq!(m.update_save_name("pal", "save-1"), Ok(()));
    assert_eq!(m.get_save_name("pal"), Ok(Some("save-1".to_string())));
    assert_eq!(
        m.stop_server("pal"),
        Ok(("ap-nanjing".to_string(), "ins-9".to_string()))
    );
    assert_eq!(m.servers()[1].status, Status::Stopping);
    assert_eq!(m.failed_stop_server("pal"), Ok(()));
    assert_eq!(m.servers()[1].status, Status::Running);
    assert!(m.stop_server("pal").is_ok());
    assert_eq!(m.finish_stopping_server("pal"), Ok(()));
    let s = &m.servers()[1];
    assert_eq!(s.status, Status::Stopped);
    assert_eq!(s.ip_port, None);
    assert_eq!(s.region, None);
    assert_eq!(s.instance_id, None);
    assert_eq!(s.save.as_deref(), Some("save-1"));
}

#[test]
fn transitions_check_status_and_change_nothing_on_mismatch() {
    let mut m = store(vec![slot("pal", Status::Running)]);
    assert_eq!(
        m.create_server("pal"),
        Err(ServerManagerError::ServerStatusNotMatch(Status::Running))
    );
    assert_eq!(
        m.finish_stopping_server("pal"),
        Err(ServerManagerError::ServerStatusNotMatch(Status::Running))
    );
    assert_eq!(
        m.failed_create_server("pal"),
        Err(ServerManagerError::ServerStatusNotMatch(Status::Running))
    );
    assert_eq!(m.servers()[0].status, Status::Running);
    assert_eq!(m.servers()[0].ip_port.as_deref(), Some("1.2.3.4:8211"));
    assert_eq!(
        m.check_server_status("pal", &Status::Stopped),
        Err(ServerManagerError::ServerStatusNotMatch(Status::Running))
    );
    assert_eq!(m.check_server_status("pal", &Status::Running), Ok(()));
}

#[test]
fn rollback_create_clears_back_to_stopped() {
    let mut m = store(vec![slot("pal", Status::Stopped)]);
    m.create_server("pal").unwrap();
    assert_eq!(m.failed_create_server("pal"), Ok((None, None)));
    assert_eq!(m.servers()[0].status, Status::Stopped);
}

#[test]
fn first_slot_of_a_name_is_the_one_used() {
    let mut m = store(vec![slot("pal", Status::Stopped), slot("pal", Status::Running)]);
    assert_eq!(m.create_server("pal"), Ok(()));
    assert_eq!(m.servers()[0].status, Status::Creating);
    assert_eq!(m.servers()[1].status, Status::Running);
}

#[test]
fn server_ip_without_port_is_empty() {
    let mut s = slot("pal", Status::Running);
    s.ip_port = Some("1.2.3.4".to_string());
    let m = store(vec![s]);
    assert_eq!(m.get_server_ip("pal"), Ok(Some(String::new())));
}

#[test]
fn list_renders_slot() {
    let mut s = slot("pal", Status::Running);
    s.save = Some("save-1".to_string());
    let m = store(vec![s, slot("b", Status::Stopped)]);
    assert_eq!(
        m.list("pal").unwrap(),
        "存档pal(当前服务器状态: Running) ip: 1.2.3.4:8211 type: 4c16g\n存档文件save-1\n"
    );
    assert_eq!(
        m.list("b").unwrap(),
        "存档b(当前服务器状态: Stopped) ip: 无 type: 4c16g\n存档文件无\n"
    );
}

#[test]
fn error_messages() {
    assert_eq!(ServerManagerError::ServerNotFound.message(), "Server not found");
    assert_eq!(
        ServerManagerError::ServerStatusNotMatch(Status::Stopping).message(),
        "Server status not match, current status: Stopping"
    );
    assert_eq!(Status::Creating.name(), "Creating");
}

#[test]
fn list_all_renders_every_slot_in_order() {
    let m = store(vec![slot("a", Status::Stopped), slot("b", Status::Running)]);
    assert_eq!(
        m.list_all(),
        "存档a(当前服务器状态: Stopped) ip: 无 type: 4c16g\n存档文件无\n\
         存档b(当前服务器状态: Running) ip: 1.2.3.4:8211 type: 4c16g\n存档文件无\n"
    );
    assert_eq!(store(vec![]).list_all(), "");
}
