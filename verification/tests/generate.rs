use systemd_service::{ServiceConfig, SystemdService};

#[test]
fn test_generate_service_file() {
    let config = ServiceConfig::new(
        "myapp",
        "/usr/local/bin/myapp --daemon",
        "My Application Service",
    )
    .working_directory("/var/lib/myapp")
    .user("myapp")
    .group("myapp")
    .after(vec![
        "network.target".to_string(),
        "postgresql.service".to_string(),
    ])
    .environment(vec![
        ("RUST_LOG".to_string(), "info".to_string()),
        (
            "DATABASE_URL".to_string(),
            "postgresql://localhost/myapp".to_string(),
        ),
    ]);
    let systemd = SystemdService::new(config);
    let service_content = systemd.generate();
    println!("{}", service_content);

    assert!(service_content.contains("Description=My Application Service"));
    assert!(service_content.contains("ExecStart=/usr/local/bin/myapp --daemon"));
    assert!(service_content.contains("User=myapp"));
    assert!(service_content.contains("After=network.target postgresql.service"));
    assert!(service_content.contains("Environment=\"RUST_LOG=info\""));
}

#[test]
fn test_minimal_service() {
    let config = ServiceConfig::new("minimal", "/usr/bin/sleep infinity", "Minimal Service");

    let systemd = SystemdService::new(config);
    let service_content = systemd.generate();
    println!("{}", service_content);

    assert!(service_content.contains("Description=Minimal Service"));
    assert!(service_content.contains("ExecStart=/usr/bin/sleep infinity"));
    assert!(service_content.contains("Restart=always")); // default value
    assert!(service_content.contains("WantedBy=multi-user.target")); // default value
}

#[test]
fn test_build_deterministic() {
    let make = || {
        ServiceConfig::new("det", "/bin/true", "Deterministic")
            .user("u")
            .environment(vec![("A".to_string(), "1".to_string())])
            .log_file("/var/log/det.log")
    };
    let a = SystemdService::new(make()).generate();
    let b = SystemdService::new(make()).generate();
    assert_eq!(a, b);
}

#[test]
fn test_exact_full_output() {
    let config = ServiceConfig::new("full", "/usr/bin/app", "Full Service")
        .working_directory("/srv/app")
        .user("svc")
        .group("svcgrp")
        .restart("on-failure")
        .restart_sec(30)
        .wanted_by("default.target")
        .after(vec!["network.target".to_string()])
        .environment(vec![("PORT".to_string(), "80".to_string())])
        .log_file("/var/log/app.log");
    let text = SystemdService::new(config).generate();
    let expected = "[Unit]\n\
Description=Full Service\n\
After=network.target\n\
\n\
[Service]\n\
WorkingDirectory=/srv/app\n\
User=svc\n\
Group=svcgrp\n\
Restart=on-failure\n\
RestartSec=30\n\
ExecStart=/usr/bin/app\n\
StandardOutput=append:/var/log/app.log\n\
StandardError=inherit\n\
Environment=\"PORT=80\"\n\
\n\
[Install]\n\
WantedBy=default.target\n";
    assert_eq!(text, expected);
}

#[test]
fn test_absent_fields_not_rendered() {
    let config = ServiceConfig::new("bare", "/bin/true", "Bare");
    let text = SystemdService::new(config).generate();
    assert!(!text.contains("User="));
    assert!(!text.contains("Group="));
    assert!(!text.contains("WorkingDirectory="));
    assert!(!text.contains("StandardOutput="));
    assert!(!text.contains("StandardError="));
    assert!(!text.contains("Environment="));
    assert!(!text.contains("After="));
}

#[test]
fn test_defaults_present() {
    let config = ServiceConfig::new("dflt", "/bin/true", "Defaults");
    let text = SystemdService::new(config).generate();
    assert!(text.contains("Restart=always"));
    assert!(text.contains("RestartSec=5"));
    assert!(text.contains("WantedBy=multi-user.target"));
}

#[test]
fn test_after_order_preserved() {
    let config = ServiceConfig::new("ord", "/bin/true", "Order").after(vec![
        "zeta.service".to_string(),
        "alpha.service".to_string(),
        "zeta.service".to_string(),
    ]);
    let text = SystemdService::new(config).generate();
    // order kept, not sorted, duplicates kept
    assert!(text.contains("After=zeta.service alpha.service zeta.service"));
}

#[test]
fn test_environment_order_preserved() {
    let config = ServiceConfig::new("env", "/bin/true", "Env").environment(vec![
        ("K".to_string(), "later".to_string()),
        ("B".to_string(), "2".to_string()),
        ("K".to_string(), "earlier".to_string()),
    ]);
    let text = SystemdService::new(config).generate();
    let i0 = text.find("Environment=\"K=later\"").unwrap();
    let i1 = text.find("Environment=\"B=2\"").unwrap();
    let i2 = text.find("Environment=\"K=earlier\"").unwrap();
    assert!(i0 < i1 && i1 < i2);
}

#[test]
fn test_log_file_pairing() {
    let with_log = ServiceConfig::new("log", "/bin/true", "Log").log_file("/var/log/x.log");
    let text = SystemdService::new(with_log).generate();
    assert!(text.contains("StandardOutput=append:/var/log/x.log"));
    assert!(text.contains("StandardError=inherit"));

    let without_log = ServiceConfig::new("log", "/bin/true", "Log");
    let text2 = SystemdService::new(without_log).generate();
    assert!(!text2.contains("StandardError=inherit"));
    assert!(!text2.contains("StandardOutput="));
}

#[test]
fn test_empty_after_not_rendered() {
    let config = ServiceConfig::new("e", "/bin/true", "Empty").after(vec![]);
    let text = SystemdService::new(config).generate();
    assert!(!text.contains("After="));
}

#[test]
fn test_end_to_end_scenario() {
    let config = ServiceConfig::new(
        "myapp",
        "/usr/local/bin/myapp --run",
        "My Application Service",
    )
    .user("myapp-user")
    .after(vec!["network.target".to_string()])
    .environment(vec![("PORT".to_string(), "8080".to_string())]);
    let text = SystemdService::new(config).generate();
    assert!(text.contains("Description=My Application Service"));
    assert!(text.contains("After=network.target"));
    assert!(text.contains("User=myapp-user"));
    assert!(text.contains("ExecStart=/usr/local/bin/myapp --run"));
    assert!(text.contains("Environment=\"PORT=8080\""));
    assert!(text.contains("WantedBy=multi-user.target"));
}

#[test]
fn test_minimal_scenario() {
    let config = ServiceConfig::new("mini", "/bin/true", "Mini");
    let text = SystemdService::new(config).generate();
    assert!(text.contains("Restart=always"));
    assert!(text.contains("RestartSec=5"));
    assert!(!text.contains("User="));
    assert!(!text.contains("Group="));
    assert!(!text.contains("WorkingDirectory="));
}

#[test]
fn test_builder_fields() {
    let config = ServiceConfig::new("b", "/bin/x", "B")
        .working_directory("/w")
        .user("u")
        .group("g")
        .restart("no")
        .restart_sec(0)
        .wanted_by("w.target")
        .log_file("/l");
    assert_eq!(config.name, "b");
    assert_eq!(config.exec_start, "/bin/x");
    assert_eq!(config.description, "B");
    assert_eq!(config.working_directory.as_deref(), Some("/w"));
    assert_eq!(config.user.as_deref(), Some("u"));
    assert_eq!(config.group.as_deref(), Some("g"));
    assert_eq!(config.restart.as_deref(), Some("no"));
    assert_eq!(config.restart_sec, Some(0));
    assert_eq!(config.wanted_by.as_deref(), Some("w.target"));
    assert_eq!(config.log_file.as_deref(), Some("/l"));
    let text = SystemdService::new(config).generate();
    assert!(text.contains("RestartSec=0"));
    assert!(text.contains("Restart=no"));
}

#[test]
fn test_large_restart_sec() {
    let config = ServiceConfig::new("big", "/bin/true", "Big").restart_sec(4294967295);
    let text = SystemdService::new(config).generate();
    assert!(text.contains("RestartSec=4294967295"));
}
