//! Policy settings for services supervised by systemd: restart behaviour and
//! start rate-limiting, applied to every install performed by a manager.

use vstd::prelude::*;

verus! {

/// When systemd should automatically relaunch the service after it exits.
#[derive(Copy, Clone, Debug, PartialEq, Eq, Hash, Structural)]
pub enum SystemdServiceRestartType {
    No,
    Always,
    OnSuccess,
    OnFailure,
    OnAbnormal,
    OnAbort,
    OnWatch,
}

/// The exact token systemd's unit grammar uses for a restart policy.
pub open spec fn spec_restart_str(t: SystemdServiceRestartType) -> Seq<char> {
    match t {
        SystemdServiceRestartType::No => "no"@,
        SystemdServiceRestartType::Always => "always"@,
        SystemdServiceRestartType::OnSuccess => "on-success"@,
        SystemdServiceRestartType::OnFailure => "on-failure"@,
        SystemdServiceRestartType::OnAbnormal => "on-abnormal"@,
        SystemdServiceRestartType::OnAbort => "on-abort"@,
        SystemdServiceRestartType::OnWatch => "on-watchdog"@,
    }
}

impl SystemdServiceRestartType {
    /// Renders this policy as the token systemd's unit grammar expects.
    pub fn as_systemd_str(&self) -> (r: &str)
        ensures
            r@ == spec_restart_str(*self),
    {
        match self {
            SystemdServiceRestartType::No => "no",
            SystemdServiceRestartType::Always => "always",
            SystemdServiceRestartType::OnSuccess => "on-success",
            SystemdServiceRestartType::OnFailure => "on-failure",
            SystemdServiceRestartType::OnAbnormal => "on-abnormal",
            SystemdServiceRestartType::OnAbort => "on-abort",
            SystemdServiceRestartType::OnWatch => "on-watchdog",
        }
    }
}

impl Default for SystemdServiceRestartType {
    fn default() -> (r: Self)
        ensures
            r == SystemdServiceRestartType::No,
    {
        SystemdServiceRestartType::No
    }
}

/// Install-time policy for a systemd service.
#[derive(Clone, Debug, PartialEq, Eq)]
pub struct SystemdInstallConfig {
    /// Window, in seconds, over which start attempts are counted.
    pub start_limit_interval_sec: Option<u32>,
    /// How many start attempts are allowed within the window.
    pub start_limit_burst: Option<u32>,
    /// When systemd should relaunch the service.
    pub restart: SystemdServiceRestartType,
    /// Delay, in seconds, before a relaunch.
    pub restart_sec: Option<u32>,
}

/// The documented default policy: no start rate limit, restart on failure,
/// no restart delay.
pub open spec fn spec_default_install_config() -> SystemdInstallConfig {
    SystemdInstallConfig {
        start_limit_interval_sec: None,
        start_limit_burst: None,
        restart: SystemdServiceRestartType::OnFailure,
        restart_sec: None,
    }
}

impl Default for SystemdInstallConfig {
    fn default() -> (r: Self)
        ensures
            r == spec_default_install_config(),
    {
        SystemdInstallConfig {
            start_limit_interval_sec: None,
            start_limit_burst: None,
            restart: SystemdServiceRestartType::OnFailure,
            restart_sec: None,
        }
    }
}

/// Configuration settings tied to systemd services.
#[derive(Clone, Debug, PartialEq, Eq)]
pub struct SystemdConfig {
    /// Policy applied when a service is installed.
    pub install: SystemdInstallConfig,
}

impl Default for SystemdConfig {
    fn default() -> (r: Self)
        ensures
            r.install == spec_default_install_config(),
    {
        SystemdConfig { install: SystemdInstallConfig::default() }
    }
}

} // verus!
