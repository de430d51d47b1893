use service_manager::config::{SystemdConfig, SystemdInstallConfig, SystemdServiceRestartType};
use service_manager::context::{
    ServiceInstallCtx, ServiceLevel, ServiceStartCtx, ServiceStatusCtx, ServiceStopCtx,
    ServiceUninstallCtx,
};
use service_manager::label::ServiceLabel;
use service_manager::context::ServiceError;
use service_manager::systemd::{
    script_path_in, systemctl_args, systemd_global_dir_path, user_dir_from_lookup,
    SystemdServiceManager,
};

fn label(name: &str) -> ServiceLabel {
    ServiceLabel { name: String::from(name) }
}

fn install_ctx(name: &str) -> ServiceInstallCtx {
    ServiceInstallCtx {
        label: label(name),
        program: String::from("/usr/bin/demo"),
        args: vec![String::from("--flag")],
        working_directory: None,
        environment: None,
        username: None,
        contents: None,
        autostart: true,
        disable_restart_on_failure: false,
        requires_network: false,
    }
}

#[test]
fn default_config_restarts_on_failure() {
    let c = SystemdInstallConfig::default();
    assert_eq!(c.start_limit_interval_sec, None);
    assert_eq!(c.start_limit_burst, None);
    assert_eq!(c.restart, SystemdServiceRestartType::OnFailure);
    assert_eq!(c.restart_sec, None);
    assert_eq!(SystemdServiceRestartType::default(), SystemdServiceRestartType::No);
}

#[test]
fn system_and_user_constructors() {
    assert_eq!(SystemdServiceManager::system().level(), ServiceLevel::System);
    assert_eq!(SystemdServiceManager::user().level(), ServiceLevel::User);
}

#[test]
fn level_round_trip_keeps_configuration() {
    let config = SystemdConfig {
        install: SystemdInstallConfig {
            start_limit_interval_sec: Some(7),
            start_limit_burst: Some(3),
            restart: SystemdServiceRestartType::Always,
            restart_sec: Some(1),
        },
    };
    let m = SystemdServiceManager::system().with_config(config.clone());
    let back = m.clone().into_user().into_system();
    assert_eq!(back, m);
    assert_eq!(back.config, config);

    let mut n = SystemdServiceManager::system().with_config(config.clone());
    assert!(n.set_level(ServiceLevel::User).is_ok());
    assert!(n.set_level(ServiceLevel::User).is_ok());
    assert_eq!(n.level(), ServiceLevel::User);
    assert!(n.set_level(ServiceLevel::System).is_ok());
    assert_eq!(n.level(), ServiceLevel::System);
    assert_eq!(n.config, config);
}

#[test]
fn with_config_replaces_wholesale() {
    let config = SystemdConfig {
        install: SystemdInstallConfig {
            start_limit_interval_sec: None,
            start_limit_burst: None,
            restart: SystemdServiceRestartType::No,
            restart_sec: None,
        },
    };
    let m = SystemdServiceManager::user().with_config(config.clone());
    assert_eq!(m.level(), ServiceLevel::User);
    assert_eq!(m.config, config);
}

#[test]
fn global_dir_is_fixed() {
    assert_eq!(systemd_global_dir_path(), "/etc/systemd/system");
}

#[test]
fn script_names_are_normalized() {
    assert_eq!(label("My Service!").to_script_name(), "my-service-");
    assert_eq!(label("Demo_01.x").to_script_name(), "demo_01.x");
    assert_eq!(label("already-safe").to_script_name(), "already-safe");
    assert_eq!(label("h\u{e9}llo").to_script_name(), "h-llo");
    assert_eq!(label("").to_script_name(), "");
}

#[test]
fn user_dir_follows_the_reported_base() {
    match user_dir_from_lookup(Some(String::from("/home/alice/.config"))) {
        Ok(p) => assert_eq!(p, "/home/alice/.config/systemd/user"),
        Err(_) => panic!("a reported base must resolve"),
    }
    assert!(matches!(
        user_dir_from_lookup(None),
        Err(ServiceError::UserConfigDirNotFound)
    ));
}

#[test]
fn script_path_layout() {
    assert_eq!(
        script_path_in("/etc/systemd/system", "demo"),
        "/etc/systemd/system/demo.service"
    );
}

#[test]
fn systemctl_args_layout() {
    assert_eq!(systemctl_args(false, "start", "demo"), vec!["start", "demo"]);
    assert_eq!(systemctl_args(true, "stop", "demo"), vec!["--user", "stop", "demo"]);
}

#[test]
fn system_install_plan() {
    let m = SystemdServiceManager::system();
    let ctx = install_ctx("My Demo");
    let plan = m.install_plan(&ctx).unwrap();
    assert_eq!(plan.dir_path, "/etc/systemd/system");
    assert_eq!(plan.script_path, "/etc/systemd/system/my-demo.service");
    assert!(plan.contents.contains("Description=my-demo"));
    let enable = plan.enable_args.unwrap();
    assert_eq!(
        enable,
        vec!["enable", "/etc/systemd/system/my-demo.service"]
    );
}

#[test]
fn install_plan_without_autostart_runs_nothing() {
    let m = SystemdServiceManager::system();
    let mut ctx = install_ctx("demo");
    ctx.autostart = false;
    let plan = m.install_plan(&ctx).unwrap();
    assert!(plan.enable_args.is_none());
    assert!(!plan.contents.contains("[Install]"));
}

#[test]
fn install_plan_uses_literal_contents_verbatim() {
    let m = SystemdServiceManager::system();
    let mut ctx = install_ctx("demo");
    ctx.contents = Some(String::from("[Unit]\nDescription=handwritten"));
    let plan = m.install_plan(&ctx).unwrap();
    assert_eq!(plan.contents, "[Unit]\nDescription=handwritten");
}

#[test]
fn install_and_uninstall_target_the_same_file() {
    let m = SystemdServiceManager::system();
    let ictx = install_ctx("demo");
    let uctx = ServiceUninstallCtx { label: label("demo") };
    let install = m.install_plan(&ictx).unwrap();
    let uninstall = m.uninstall_plan(&uctx).unwrap();
    assert_eq!(install.script_path, uninstall.script_path);
    assert_eq!(
        uninstall.disable_args,
        vec!["disable", "/etc/systemd/system/demo.service"]
    );
}

#[test]
fn start_stop_status_invocations() {
    let sys = SystemdServiceManager::system();
    let usr = SystemdServiceManager::user();
    assert_eq!(
        sys.start_args(&ServiceStartCtx { label: label("Demo") }),
        vec!["start", "demo"]
    );
    assert_eq!(
        usr.stop_args(&ServiceStopCtx { label: label("demo") }),
        vec!["--user", "stop", "demo"]
    );
    assert_eq!(
        usr.status_args(&ServiceStatusCtx { label: label("demo") }),
        vec!["--user", "status", "demo"]
    );
}
