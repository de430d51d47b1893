use service_manager::config::{SystemdInstallConfig, SystemdServiceRestartType};
use service_manager::context::ServiceInstallCtx;
use service_manager::generator::make_service;
use service_manager::label::ServiceLabel;

fn base_ctx() -> ServiceInstallCtx {
    ServiceInstallCtx {
        label: ServiceLabel { name: String::from("demo") },
        program: String::from("/usr/bin/demo"),
        args: vec![String::from("--flag")],
        working_directory: None,
        environment: None,
        username: None,
        contents: None,
        autostart: true,
        disable_restart_on_failure: false,
        requires_network: false,
    }
}

#[test]
fn default_system_level_document() {
    let config = SystemdInstallConfig::default();
    let ctx = base_ctx();
    let text = make_service(&config, "demo", &ctx, false, true, false, false);
    assert_eq!(
        text,
        "[Unit]\nDescription=demo\n[Service]\nExecStart=/usr/bin/demo --flag\n\
         Restart=on-failure\n[Install]\nWantedBy=multi-user.target"
    );
}

#[test]
fn blocks_appear_in_order() {
    let config = SystemdInstallConfig::default();
    let ctx = base_ctx();
    let text = make_service(&config, "demo", &ctx, false, true, false, false);
    let unit = text.find("[Unit]").unwrap();
    let desc = text.find("Description=demo").unwrap();
    let service = text.find("[Service]").unwrap();
    let exec = text.find("ExecStart=/usr/bin/demo --flag").unwrap();
    let restart = text.find("Restart=on-failure").unwrap();
    let install = text.find("[Install]").unwrap();
    let wanted = text.find("WantedBy=multi-user.target").unwrap();
    assert!(unit < desc && desc < service && service < exec);
    assert!(exec < restart && restart < install && install < wanted);
}

#[test]
fn generator_is_deterministic() {
    let config = SystemdInstallConfig {
        start_limit_interval_sec: Some(10),
        start_limit_burst: Some(2),
        restart: SystemdServiceRestartType::Always,
        restart_sec: Some(5),
    };
    let mut ctx = base_ctx();
    ctx.working_directory = Some(String::from("/var/lib/demo"));
    ctx.environment = Some(vec![
        (String::from("B"), String::from("2")),
        (String::from("A"), String::from("1")),
    ]);
    ctx.requires_network = true;
    let a = make_service(&config, "demo", &ctx, false, true, false, true);
    let b = make_service(&config, "demo", &ctx, false, true, false, true);
    assert_eq!(a, b);
}

#[test]
fn no_install_block_without_autostart() {
    let config = SystemdInstallConfig::default();
    let mut ctx = base_ctx();
    ctx.autostart = false;
    let text = make_service(&config, "demo", &ctx, false, false, false, false);
    assert!(!text.contains("[Install]"));
    assert!(!text.contains("WantedBy="));
    assert_eq!(
        text,
        "[Unit]\nDescription=demo\n[Service]\nExecStart=/usr/bin/demo --flag\n\
         Restart=on-failure"
    );
}

#[test]
fn user_level_never_emits_username() {
    let config = SystemdInstallConfig::default();
    let mut ctx = base_ctx();
    ctx.username = Some(String::from("svcuser"));
    let text = make_service(&config, "demo", &ctx, true, true, false, false);
    assert!(!text.contains("User="));
    assert!(!text.contains("svcuser"));
    assert!(text.contains("WantedBy=default.target"));
}

#[test]
fn system_level_emits_username() {
    let config = SystemdInstallConfig::default();
    let mut ctx = base_ctx();
    ctx.username = Some(String::from("svcuser"));
    let text = make_service(&config, "demo", &ctx, false, true, false, false);
    assert!(text.contains("\nUser=svcuser"));
}

#[test]
fn network_dependency_lines() {
    let config = SystemdInstallConfig::default();
    let mut ctx = base_ctx();
    ctx.requires_network = true;
    let text = make_service(&config, "demo", &ctx, false, true, false, true);
    assert!(text.contains(
        "[Unit]\nDescription=demo\nAfter=network-online.target\nRequires=network-online.target"
    ));
    let off = make_service(&config, "demo", &base_ctx(), false, true, false, false);
    assert!(!off.contains("After="));
    assert!(!off.contains("Requires="));
}

#[test]
fn start_limit_lines() {
    let config = SystemdInstallConfig {
        start_limit_interval_sec: Some(0),
        start_limit_burst: Some(4294967295),
        restart: SystemdServiceRestartType::OnFailure,
        restart_sec: None,
    };
    let ctx = base_ctx();
    let text = make_service(&config, "demo", &ctx, false, true, false, false);
    assert!(text.contains("StartLimitIntervalSec=0\n"));
    assert!(text.contains("StartLimitBurst=4294967295\n"));
    let off = make_service(&SystemdInstallConfig::default(), "demo", &ctx, false, true, false, false);
    assert!(!off.contains("StartLimit"));
}

#[test]
fn restart_policy_and_delay() {
    let config = SystemdInstallConfig {
        start_limit_interval_sec: None,
        start_limit_burst: None,
        restart: SystemdServiceRestartType::OnAbnormal,
        restart_sec: Some(12),
    };
    let ctx = base_ctx();
    let text = make_service(&config, "demo", &ctx, false, true, false, false);
    assert!(text.contains("Restart=on-abnormal\nRestartSec=12\n"));
}

#[test]
fn restart_policy_no_is_omitted() {
    let config = SystemdInstallConfig {
        start_limit_interval_sec: None,
        start_limit_burst: None,
        restart: SystemdServiceRestartType::No,
        restart_sec: Some(12),
    };
    let ctx = base_ctx();
    let text = make_service(&config, "demo", &ctx, false, true, false, false);
    assert!(!text.contains("Restart=no"));
    assert!(text.contains("RestartSec=12\n"));
}

#[test]
fn disable_restart_suppresses_both_lines() {
    let config = SystemdInstallConfig {
        start_limit_interval_sec: None,
        start_limit_burst: None,
        restart: SystemdServiceRestartType::Always,
        restart_sec: Some(3),
    };
    let mut ctx = base_ctx();
    ctx.disable_restart_on_failure = true;
    let text = make_service(&config, "demo", &ctx, false, true, true, false);
    assert!(!text.contains("Restart="));
    assert!(!text.contains("RestartSec="));
}

#[test]
fn environment_lines_keep_insertion_order() {
    let config = SystemdInstallConfig::default();
    let mut ctx = base_ctx();
    ctx.environment = Some(vec![
        (String::from("B"), String::from("2")),
        (String::from("A"), String::from("1")),
    ]);
    let text = make_service(&config, "demo", &ctx, false, true, false, false);
    assert!(text.contains("[Service]\nEnvironment=\"B=2\"\nEnvironment=\"A=1\"\nExecStart="));
}

#[test]
fn working_directory_line() {
    let config = SystemdInstallConfig::default();
    let mut ctx = base_ctx();
    ctx.working_directory = Some(String::from("/var/lib/demo"));
    let text = make_service(&config, "demo", &ctx, false, true, false, false);
    assert!(text.contains("[Service]\nWorkingDirectory=/var/lib/demo\nExecStart="));
}

#[test]
fn empty_args_leave_no_trailing_space() {
    let config = SystemdInstallConfig::default();
    let mut ctx = base_ctx();
    ctx.args = vec![];
    let text = make_service(&config, "demo", &ctx, false, true, false, false);
    assert!(text.contains("ExecStart=/usr/bin/demo\nRestart=on-failure"));
    assert!(!text.contains("ExecStart=/usr/bin/demo "));
}

#[test]
fn trailing_whitespace_is_trimmed() {
    let config = SystemdInstallConfig::default();
    let mut ctx = base_ctx();
    ctx.args = vec![String::from("--flag ")];
    ctx.autostart = false;
    ctx.disable_restart_on_failure = true;
    let text = make_service(&config, "demo", &ctx, false, false, true, false);
    assert_eq!(text, "[Unit]\nDescription=demo\n[Service]\nExecStart=/usr/bin/demo --flag");
}

#[test]
fn multiple_args_joined_by_single_spaces() {
    let config = SystemdInstallConfig::default();
    let mut ctx = base_ctx();
    ctx.args = vec![String::from("-a"), String::from("b"), String::from("--c=d")];
    let text = make_service(&config, "demo", &ctx, false, true, false, false);
    assert!(text.contains("ExecStart=/usr/bin/demo -a b --c=d\n"));
}

#[test]
fn restart_tokens_are_exhaustive() {
    assert_eq!(SystemdServiceRestartType::No.as_systemd_str(), "no");
    assert_eq!(SystemdServiceRestartType::Always.as_systemd_str(), "always");
    assert_eq!(SystemdServiceRestartType::OnSuccess.as_systemd_str(), "on-success");
    assert_eq!(SystemdServiceRestartType::OnFailure.as_systemd_str(), "on-failure");
    assert_eq!(SystemdServiceRestartType::OnAbnormal.as_systemd_str(), "on-abnormal");
    assert_eq!(SystemdServiceRestartType::OnAbort.as_systemd_str(), "on-abort");
    assert_eq!(SystemdServiceRestartType::OnWatch.as_systemd_str(), "on-watchdog");
}
