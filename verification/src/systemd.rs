//! The systemd backend: resolves the control utility and the level-dependent
//! unit-file locations, generates or accepts unit text, phrases `systemctl`
//! invocations, and classifies their exit codes.

use vstd::prelude::*;
use crate::config::{spec_default_install_config, SystemdConfig};
use crate::context::{
    ServiceError, ServiceInstallCtx, ServiceLevel, ServiceStartCtx, ServiceStatus,
    ServiceStatusCtx, ServiceStopCtx, ServiceUninstallCtx,
};
use crate::generator::{make_service, spec_unit_text};
use crate::label::{spec_script_name, ServiceLabel};
use crate::text::concat2;

verus! {

/// Outcome of resolving the control utility on the search path.
pub enum UtilityLookup {
    /// The utility was found at the carried path.
    Found(String),
    /// No binary of that name is on the search path.
    NotFound,
    /// The search itself failed; carries the reported reason.
    Failed(String),
}

/// Relies on `which::which`: resolves a binary name against the search path,
/// returning its path, `Error::CannotFindBinaryPath` when no such binary
/// exists, and another error when the search itself cannot be made. The
/// outcome depends on the machine, so nothing is promised of it.
#[verifier::external_body]
fn lookup_utility(name: &str) -> (r: UtilityLookup) {
    match which::which(name) {
        Ok(path) => UtilityLookup::Found(path.to_string_lossy().into_owned()),
        Err(which::Error::CannotFindBinaryPath) => UtilityLookup::NotFound,
        Err(e) => UtilityLookup::Failed(e.to_string()),
    }
}

/// Classifies a lookup outcome the way `available` must: a resolved utility is
/// `true`, plain absence is `false` and not an error, and any other resolution
/// failure is surfaced as an error.
pub fn classify_lookup(r: UtilityLookup) -> (a: Result<bool, ServiceError>)
    ensures
        a == (match r {
            UtilityLookup::Found(_) => Ok::<bool, ServiceError>(true),
            UtilityLookup::NotFound => Ok::<bool, ServiceError>(false),
            UtilityLookup::Failed(msg) => Err::<bool, ServiceError>(
                ServiceError::LookupFailed(msg),
            ),
        }),
{
    match r {
        UtilityLookup::Found(_) => Ok(true),
        UtilityLookup::NotFound => Ok(false),
        UtilityLookup::Failed(msg) => Err(ServiceError::LookupFailed(msg)),
    }
}

/// The exit code an error report carries: the process's own code, or `-1` when
/// the process was ended without one.
pub open spec fn spec_code_or_default(code: Option<i32>) -> i32 {
    match code {
        Some(c) => c,
        None => -1i32,
    }
}

/// Classifies the exit of a status query: 0 is running, 3 stopped with no
/// reason, 4 not installed, and any other outcome an error carrying the code
/// and the captured error text.
pub fn interpret_status_exit(code: Option<i32>, stderr: String) -> (r: Result<
    ServiceStatus,
    ServiceError,
>)
    ensures
        code == Some(0i32) ==> r == Ok::<ServiceStatus, ServiceError>(ServiceStatus::Running),
        code == Some(3i32) ==> r == Ok::<ServiceStatus, ServiceError>(
            ServiceStatus::Stopped(None),
        ),
        code == Some(4i32) ==> r == Ok::<ServiceStatus, ServiceError>(
            ServiceStatus::NotInstalled,
        ),
        code != Some(0i32) && code != Some(3i32) && code != Some(4i32) ==> r == Err::<
            ServiceStatus,
            ServiceError,
        >((ServiceError::CommandFailed { code: spec_code_or_default(code), message: stderr })),
{
    match code {
        Some(4i32) => Ok(ServiceStatus::NotInstalled),
        Some(3i32) => Ok(ServiceStatus::Stopped(None)),
        Some(0i32) => Ok(ServiceStatus::Running),
        Some(c) => Err(ServiceError::CommandFailed { code: c, message: stderr }),
        None => Err(ServiceError::CommandFailed { code: -1, message: stderr }),
    }
}

/// Accepts a successful exit and rejects any other outcome with an error
/// carrying the exit code and the captured error text.
pub fn check_exit(code: Option<i32>, stderr: String) -> (r: Result<(), ServiceError>)
    ensures
        code == Some(0i32) ==> r == Ok::<(), ServiceError>(()),
        code != Some(0i32) ==> r == Err::<(), ServiceError>(
            (ServiceError::CommandFailed { code: spec_code_or_default(code), message: stderr }),
        ),
{
    match code {
        Some(0i32) => Ok(()),
        Some(c) => Err(ServiceError::CommandFailed { code: c, message: stderr }),
        None => Err(ServiceError::CommandFailed { code: -1, message: stderr }),
    }
}

/// The fixed directory where system-level unit files live.
pub fn systemd_global_dir_path() -> (r: String)
    ensures
        r@ == "/etc/systemd/system"@,
{
    String::from_str("/etc/systemd/system")
}

/// Relies on `dirs::config_dir`: the platform's configuration directory for
/// the current user, if the platform reports one. The outcome depends on the
/// environment, so nothing is promised of it.
#[verifier::external_body]
fn user_config_dir() -> (r: Option<String>) {
    dirs::config_dir().map(|p| p.to_string_lossy().into_owned())
}

/// The systemd user-unit directory under a given configuration directory.
pub fn user_dir_from_base(base: &str) -> (r: String)
    ensures
        r@ == base@ + "/systemd/user"@,
{
    concat2(base, "/systemd/user")
}

/// The user-unit directory for a reported configuration directory: the
/// directory extended by the fixed subpath. An absent configuration directory
/// is an error, not a silent fallback.
pub fn user_dir_from_lookup(base: Option<String>) -> (r: Result<String, ServiceError>)
    ensures
        base matches Some(b) ==> (r matches Ok(p) && p@ == b@ + "/systemd/user"@),
        base is None ==> r == Err::<String, ServiceError>(ServiceError::UserConfigDirNotFound),
{
    match base {
        Some(b) => Ok(user_dir_from_base(b.as_str())),
        None => Err(ServiceError::UserConfigDirNotFound),
    }
}

/// The directory of the current user's unit files: the configuration directory
/// the platform reports, extended by the fixed subpath.
pub fn systemd_user_dir_path() -> (r: Result<String, ServiceError>)
    ensures
        r matches Ok(p) ==> exists|base: Seq<char>| p@ == base + "/systemd/user"@,
        r is Err ==> r == Err::<String, ServiceError>(ServiceError::UserConfigDirNotFound),
{
    let base = user_config_dir();
    let ghost gbase = base;
    let r = user_dir_from_lookup(base);
    proof {
        if r is Ok {
            let b = gbase->Some_0;
            assert(r->Ok_0@ == b@ + "/systemd/user"@);
        }
    }
    r
}

/// The unit-description file's path: the directory, a separator, the derived
/// unit name and the fixed extension.
pub open spec fn spec_script_path(dir: Seq<char>, name: Seq<char>) -> Seq<char> {
    dir + "/"@ + name + ".service"@
}

/// Builds the unit-description file's path inside a directory.
pub fn script_path_in(dir: &str, script_name: &str) -> (r: String)
    ensures
        r@ == spec_script_path(dir@, script_name@),
{
    let mut r = String::from_str(dir);
    r.append("/");
    r.append(script_name);
    r.append(".service");
    r
}

/// The arguments of one control-utility invocation: the scope flag at user
/// level, then the subcommand, then its target.
pub open spec fn spec_systemctl_args(user: bool, cmd: Seq<char>, target: Seq<char>) -> Seq<
    Seq<char>,
> {
    (if user {
        seq!["--user"@]
    } else {
        Seq::<Seq<char>>::empty()
    }) + seq![cmd, target]
}

/// Builds the argument list for one control-utility invocation.
pub fn systemctl_args(user: bool, cmd: &str, target: &str) -> (r: Vec<String>)
    ensures
        r@.map_values(|s: String| s@) == spec_systemctl_args(user, cmd@, target@),
{
    let mut args: Vec<String> = Vec::new();
    if user {
        args.push(String::from_str("--user"));
    }
    args.push(String::from_str(cmd));
    args.push(String::from_str(target));
    proof {
        assert(args@.map_values(|s: String| s@) =~= spec_systemctl_args(user, cmd@, target@));
    }
    args
}

/// The manager with its level set: only the level changes, the stored
/// configuration is kept.
pub open spec fn spec_with_level(m: SystemdServiceManager, level: ServiceLevel)
    -> SystemdServiceManager {
    SystemdServiceManager { user: level is User, config: m.config }
}

/// Manages services through systemd: resolves level-dependent paths, generates
/// or accepts unit text, and phrases the control-utility invocations that the
/// lifecycle operations run.
#[derive(Clone, Debug, PartialEq, Eq)]
pub struct SystemdServiceManager {
    /// Whether this manager operates on the current user's services.
    pub user: bool,
    /// Configuration settings tied to systemd services.
    pub config: SystemdConfig,
}

impl Default for SystemdServiceManager {
    fn default() -> (r: Self)
        ensures
            r.user == false,
            r.config.install == spec_default_install_config(),
    {
        SystemdServiceManager { user: false, config: SystemdConfig::default() }
    }
}

impl SystemdServiceManager {
    /// Creates a manager working with system services.
    pub fn system() -> (r: Self)
        ensures
            r.user == false,
            r.config.install == spec_default_install_config(),
    {
        Self::default()
    }

    /// Creates a manager working with the current user's services.
    pub fn user() -> (r: Self)
        ensures
            r.user == true,
            r.config.install == spec_default_install_config(),
    {
        Self::default().into_user()
    }

    /// Changes the manager to work with system services.
    pub fn into_system(self) -> (r: Self)
        ensures
            r == spec_with_level(self, ServiceLevel::System),
    {
        SystemdServiceManager { config: self.config, user: false }
    }

    /// Changes the manager to work with the current user's services.
    pub fn into_user(self) -> (r: Self)
        ensures
            r == spec_with_level(self, ServiceLevel::User),
    {
        SystemdServiceManager { config: self.config, user: true }
    }

    /// Replaces the manager's configuration wholesale.
    pub fn with_config(self, config: SystemdConfig) -> (r: Self)
        ensures
            r.user == self.user,
            r.config == config,
    {
        SystemdServiceManager { config, user: self.user }
    }

    /// The level this manager registers services at.
    pub open spec fn spec_level(&self) -> ServiceLevel {
        if self.user {
            ServiceLevel::User
        } else {
            ServiceLevel::System
        }
    }

    /// Reports the manager's level; touches neither disk nor any subprocess.
    pub fn level(&self) -> (r: ServiceLevel)
        ensures
            r == self.spec_level(),
    {
        if self.user {
            ServiceLevel::User
        } else {
            ServiceLevel::System
        }
    }

    /// Sets the manager's level; touches neither disk nor any subprocess, never
    /// fails, and keeps the stored configuration.
    pub fn set_level(&mut self, level: ServiceLevel) -> (r: Result<(), ServiceError>)
        ensures
            *final(self) == spec_with_level(*old(self), level),
            r is Ok,
    {
        match level {
            ServiceLevel::System => {
                self.user = false;
            },
            ServiceLevel::User => {
                self.user = true;
            },
        }
        Ok(())
    }

    /// Whether the control utility is resolvable on the current system path:
    /// absence is a `false` result, any other resolution failure an error.
    pub fn available(&self) -> (r: Result<bool, ServiceError>)
        ensures
            r matches Err(e) ==> e is LookupFailed,
    {
        classify_lookup(lookup_utility("systemctl"))
    }

    /// The directory this manager's unit files live in: the fixed global
    /// directory at system level, the user-unit directory at user level.
    pub fn unit_dir_path(&self) -> (r: Result<String, ServiceError>)
        ensures
            !self.user ==> (r matches Ok(p) && p@ == "/etc/systemd/system"@),
            self.user ==> (r matches Ok(p) ==> exists|base: Seq<char>|
                p@ == base + "/systemd/user"@),
            r is Err ==> self.user && r == Err::<String, ServiceError>(
                ServiceError::UserConfigDirNotFound,
            ),
    {
        if self.user {
            systemd_user_dir_path()
        } else {
            Ok(systemd_global_dir_path())
        }
    }

    /// The text an install persists for this context: the caller's literal
    /// contents verbatim when given, else the generated document.
    pub open spec fn spec_install_contents(&self, ctx: ServiceInstallCtx) -> Seq<char> {
        match ctx.contents {
            Some(c) => c@,
            None => spec_unit_text(
                self.config.install,
                spec_script_name(ctx.label@),
                ctx,
                self.user,
                ctx.autostart,
                ctx.disable_restart_on_failure,
                ctx.requires_network,
            ),
        }
    }

    /// Lays out everything an install does, in order: create the directory,
    /// persist the text at the path, and — only when the context autostarts —
    /// run the enable invocation. At system level it cannot fail.
    pub fn install_plan(&self, ctx: &ServiceInstallCtx) -> (r: Result<InstallPlan, ServiceError>)
        ensures
            r matches Ok(p) ==> {
                &&& !self.user ==> p.dir_path@ == "/etc/systemd/system"@
                &&& self.user ==> exists|base: Seq<char>|
                    p.dir_path@ == base + "/systemd/user"@
                &&& p.script_path@ == spec_install_target(p.dir_path@, ctx.label@)
                &&& p.contents@ == self.spec_install_contents(*ctx)
                &&& ctx.autostart ==> (p.enable_args matches Some(a)
                    && a@.map_values(|s: String| s@) == spec_systemctl_args(
                    self.user,
                    "enable"@,
                    p.script_path@,
                ))
                &&& !ctx.autostart ==> p.enable_args is None
            },
            r is Err ==> self.user && r == Err::<InstallPlan, ServiceError>(
                ServiceError::UserConfigDirNotFound,
            ),
            !self.user ==> r is Ok,
    {
        let dir_path = match self.unit_dir_path() {
            Ok(d) => d,
            Err(e) => {
                return Err(e);
            },
        };
        let script_name = ctx.label.to_script_name();
        let script_path = script_path_in(dir_path.as_str(), script_name.as_str());
        let contents = match &ctx.contents {
            Some(c) => c.clone(),
            None => make_service(
                &self.config.install,
                script_name.as_str(),
                ctx,
                self.user,
                ctx.autostart,
                ctx.disable_restart_on_failure,
                ctx.requires_network,
            ),
        };
        let enable_args = if ctx.autostart {
            Some(systemctl_args(self.user, "enable", script_path.as_str()))
        } else {
            None
        };
        Ok(InstallPlan { dir_path, script_path, contents, enable_args })
    }

    /// Lays out everything an uninstall does, in order: run the disable
    /// invocation, then remove the unit file; deregistration comes first so it
    /// is attempted even if removal subsequently fails. At system level it
    /// cannot fail.
    pub fn uninstall_plan(&self, ctx: &ServiceUninstallCtx) -> (r: Result<
        UninstallPlan,
        ServiceError,
    >)
        ensures
            r matches Ok(p) ==> {
                &&& !self.user ==> p.dir_path@ == "/etc/systemd/system"@
                &&& self.user ==> exists|base: Seq<char>|
                    p.dir_path@ == base + "/systemd/user"@
                &&& p.script_path@ == spec_uninstall_target(p.dir_path@, ctx.label@)
                &&& p.disable_args@.map_values(|s: String| s@) == spec_systemctl_args(
                    self.user,
                    "disable"@,
                    p.script_path@,
                )
            },
            r is Err ==> self.user && r == Err::<UninstallPlan, ServiceError>(
                ServiceError::UserConfigDirNotFound,
            ),
            !self.user ==> r is Ok,
    {
        let dir_path = match self.unit_dir_path() {
            Ok(d) => d,
            Err(e) => {
                return Err(e);
            },
        };
        let script_name = ctx.label.to_script_name();
        let script_path = script_path_in(dir_path.as_str(), script_name.as_str());
        let disable_args = systemctl_args(self.user, "disable", script_path.as_str());
        Ok(UninstallPlan { dir_path, script_path, disable_args })
    }

    /// The start invocation for a label: no filesystem interaction.
    pub fn start_args(&self, ctx: &ServiceStartCtx) -> (r: Vec<String>)
        ensures
            r@.map_values(|s: String| s@) == spec_systemctl_args(
                self.user,
                "start"@,
                spec_script_name(ctx.label@),
            ),
    {
        let name = ctx.label.to_script_name();
        systemctl_args(self.user, "start", name.as_str())
    }

    /// The stop invocation for a label: no filesystem interaction.
    pub fn stop_args(&self, ctx: &ServiceStopCtx) -> (r: Vec<String>)
        ensures
            r@.map_values(|s: String| s@) == spec_systemctl_args(
                self.user,
                "stop"@,
                spec_script_name(ctx.label@),
            ),
    {
        let name = ctx.label.to_script_name();
        systemctl_args(self.user, "stop", name.as_str())
    }

    /// The status invocation for a label; its exit is classified by
    /// [`interpret_status_exit`].
    pub fn status_args(&self, ctx: &ServiceStatusCtx) -> (r: Vec<String>)
        ensures
            r@.map_values(|s: String| s@) == spec_systemctl_args(
                self.user,
                "status"@,
                spec_script_name(ctx.label@),
            ),
    {
        let name = ctx.label.to_script_name();
        systemctl_args(self.user, "status", name.as_str())
    }
}

/// Everything an install writes and runs: the directory that must exist, the
/// unit file's path and text, and the enable invocation when the service
/// autostarts.
pub struct InstallPlan {
    /// Directory created (with parents) before the file is written.
    pub dir_path: String,
    /// Path the unit-description text is persisted at.
    pub script_path: String,
    /// The unit-description text.
    pub contents: String,
    /// Arguments of the enable invocation, present exactly when the context
    /// autostarts; nothing is run otherwise.
    pub enable_args: Option<Vec<String>>,
}

/// Everything an uninstall runs and removes: the disable invocation, run
/// first, and the unit file's path, removed after.
pub struct UninstallPlan {
    /// Directory the unit file lives in.
    pub dir_path: String,
    /// Path of the unit-description file to remove.
    pub script_path: String,
    /// Arguments of the disable invocation.
    pub disable_args: Vec<String>,
}

/// The file an install writes in a directory, for a label.
pub open spec fn spec_install_target(dir: Seq<char>, label: Seq<char>) -> Seq<char> {
    spec_script_path(dir, spec_script_name(label))
}

/// The file an uninstall removes from a directory, for a label.
pub open spec fn spec_uninstall_target(dir: Seq<char>, label: Seq<char>) -> Seq<char> {
    spec_script_path(dir, spec_script_name(label))
}

/// Installing and then uninstalling touch exactly one file each, and for the
/// same directory and label they name the same file: the round trip removes
/// precisely the unit file the install wrote and leaves the directory
/// otherwise unchanged.
pub proof fn lemma_install_uninstall_same_file(dir: Seq<char>, label: Seq<char>)
    ensures
        spec_install_target(dir, label) == spec_uninstall_target(dir, label),
{
}

/// Switching level away and back is idempotent and never alters the stored
/// configuration: setting a level twice equals setting it once, switching a
/// system manager to user level and back restores it exactly (and the other
/// way round), and every switch keeps the configuration.
pub proof fn lemma_set_level_round_trip(m: SystemdServiceManager)
    ensures
        forall|l: ServiceLevel| #[trigger] spec_with_level(spec_with_level(m, l), l)
            == spec_with_level(m, l),
        m.user == false ==> spec_with_level(
            spec_with_level(m, ServiceLevel::User),
            ServiceLevel::System,
        ) == m,
        m.user == true ==> spec_with_level(
            spec_with_level(m, ServiceLevel::System),
            ServiceLevel::User,
        ) == m,
        forall|l: ServiceLevel| (#[trigger] spec_with_level(m, l)).config == m.config,
{
}

} // verus!
