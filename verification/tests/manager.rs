use systemd_service::{Error, ServiceConfig, SystemdService, validate_root_privileges};

fn service(name: &str) -> SystemdService {
    SystemdService::new(ServiceConfig::new(name, "/bin/true", "A Service"))
}

#[test]
fn test_validate_root_privileges() {
    assert!(validate_root_privileges(true).is_ok());
    match validate_root_privileges(false) {
        Err(Error::Permission(m)) => assert_eq!(m, "need root privileges"),
        _ => panic!("expected a permission error"),
    }
}

#[test]
fn test_privilege_gating() {
    let svc = service("gated");
    match svc.write(false) {
        Err(Error::Permission(m)) => assert_eq!(m, "need root privileges"),
        _ => panic!("write must fail without privilege"),
    }
    match svc.enable(false, true) {
        Err(Error::Permission(m)) => assert_eq!(m, "need root privileges"),
        _ => panic!("enable must fail without privilege"),
    }
    match svc.start(false, true) {
        Err(Error::Permission(m)) => assert_eq!(m, "need root privileges"),
        _ => panic!("start must fail without privilege"),
    }
    match SystemdService::reload_systemd(false, true) {
        Err(Error::Permission(m)) => assert_eq!(m, "need root privileges"),
        _ => panic!("reload must fail without privilege"),
    }
    match svc.install_and_enable(false, false, None, true, true) {
        Err(Error::Permission(m)) => assert_eq!(m, "need root privileges"),
        _ => panic!("install must fail without privilege"),
    }
}

#[test]
fn test_write_yields_generated_text() {
    let svc = service("writer");
    match svc.write(true) {
        Ok(content) => assert_eq!(content, svc.generate()),
        Err(_) => panic!("privileged write must succeed"),
    }
}

#[test]
fn test_service_file_path() {
    let svc = service("myapp");
    assert_eq!(svc.service_file_path(), "/etc/systemd/system/myapp.service");
    match svc.get_service_file_path(false) {
        Ok(p) => assert_eq!(p, "/etc/systemd/system/myapp.service"),
        _ => panic!("fresh path must resolve"),
    }
}

#[test]
fn test_anti_clobber() {
    let svc = service("clobber");
    match svc.get_service_file_path(true) {
        Err(Error::Io(m)) => assert_eq!(m, "Service file exists"),
        _ => panic!("existing file must be refused"),
    }
    match svc.install_and_enable(true, true, None, true, true) {
        Err(Error::Io(m)) => assert_eq!(m, "Service file exists"),
        _ => panic!("install onto an existing file must be refused"),
    }
}

#[test]
fn test_command_outcomes() {
    let svc = service("myapp");
    assert!(svc.enable(true, true).is_ok());
    assert!(svc.start(true, true).is_ok());
    assert!(SystemdService::reload_systemd(true, true).is_ok());
    match svc.enable(true, false) {
        Err(Error::Command(m)) => assert_eq!(m, "enable 'myapp' failed"),
        _ => panic!("failed enable must be a command error"),
    }
    match svc.start(true, false) {
        Err(Error::Command(m)) => assert_eq!(m, "start 'myapp' failed"),
        _ => panic!("failed start must be a command error"),
    }
    match SystemdService::reload_systemd(true, false) {
        Err(Error::Command(m)) => assert_eq!(m, "systemctl daemon-reload failed"),
        _ => panic!("failed reload must be a command error"),
    }
}

#[test]
fn test_install_sequence_outcomes() {
    let svc = service("seq");
    assert!(svc.install_and_enable(true, false, None, true, true).is_ok());
    match svc.install_and_enable(true, false, Some("disk full".to_string()), true, true) {
        Err(Error::Io(m)) => assert_eq!(m, "disk full"),
        _ => panic!("a failed write must surface as an I/O error"),
    }
    match svc.install_and_enable(true, false, None, false, true) {
        Err(Error::Command(m)) => assert_eq!(m, "systemctl daemon-reload failed"),
        _ => panic!("a failed reload must surface as a command error"),
    }
    match svc.install_and_enable(true, false, None, true, false) {
        Err(Error::Command(m)) => assert_eq!(m, "enable 'seq' failed"),
        _ => panic!("a failed enable must surface as a command error"),
    }
}

#[test]
fn test_error_messages() {
    assert_eq!(Error::Io("boom".to_string()).message(), "I/O error: boom");
    assert_eq!(
        Error::Permission("need root privileges".to_string()).message(),
        "Permission error: need root privileges"
    );
    assert_eq!(
        Error::Command("enable 'x' failed".to_string()).message(),
        "Command error: enable 'x' failed"
    );
}
