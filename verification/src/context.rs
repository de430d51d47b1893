//! Plain data handed to each lifecycle operation, the status taxonomy the
//! control utility's exit codes are classified into, and the error channel
//! every operation reports through.

use vstd::prelude::*;
use crate::label::ServiceLabel;
use crate::text::{spec_decimal, push_decimal_u32};

verus! {

/// Whether a service is registered machine-wide or for the current user only.
#[derive(Copy, Clone, Debug, PartialEq, Eq, Structural)]
pub enum ServiceLevel {
    System,
    User,
}

/// The state of a service as the control utility reports it.
#[derive(Clone, Debug)]
pub enum ServiceStatus {
    /// No unit of that name is known to the supervisor.
    NotInstalled,
    /// The unit is known but not running, with an optional reason.
    Stopped(Option<String>),
    /// The unit is running.
    Running,
}

/// What a lifecycle operation can fail with.
#[derive(Clone, Debug)]
pub enum ServiceError {
    /// Resolving the control utility on the search path failed for a reason
    /// other than plain absence.
    LookupFailed(String),
    /// The platform reports no configuration directory for the current user.
    UserConfigDirNotFound,
    /// The control utility exited with a code the operation does not accept;
    /// carries that code and the utility's captured error-stream text.
    CommandFailed { code: i32, message: String },
}

/// The decimal form of a possibly negative exit code.
pub open spec fn spec_decimal_i32(n: int) -> Seq<char> {
    if n < 0 {
        seq!['-'] + spec_decimal((-n) as nat)
    } else {
        spec_decimal(n as nat)
    }
}

/// The display text of an error: for a failed command, the exit code and the
/// captured error text; for the others, a fixed sentence.
pub open spec fn spec_error_message(e: ServiceError) -> Seq<char> {
    match e {
        ServiceError::LookupFailed(msg) => "Failed to resolve the control utility: "@ + msg@,
        ServiceError::UserConfigDirNotFound => "Unable to locate home directory"@,
        ServiceError::CommandFailed { code, message } => "Command failed with exit code "@
            + spec_decimal_i32(code as int) + ": "@ + message@,
    }
}

impl ServiceError {
    /// Renders this error as one line of text.
    pub fn message(&self) -> (r: String)
        ensures
            r@ == spec_error_message(*self),
    {
        match self {
            ServiceError::LookupFailed(msg) => {
                let mut r = String::from_str("Failed to resolve the control utility: ");
                r.append(msg.as_str());
                r
            },
            ServiceError::UserConfigDirNotFound => {
                String::from_str("Unable to locate home directory")
            },
            ServiceError::CommandFailed { code, message } => {
                let mut r = String::from_str("Command failed with exit code ");
                let c: i32 = *code;
                if c < 0 {
                    r.push('-');
                    let m: u32 = if c == i32::MIN {
                        0x8000_0000u32
                    } else {
                        (-c) as u32
                    };
                    push_decimal_u32(&mut r, m);
                    proof {
                        assert(r@ == "Command failed with exit code "@ + seq!['-']
                            + spec_decimal((-(c as int)) as nat));
                        assert("Command failed with exit code "@ + seq!['-']
                            + spec_decimal((-(c as int)) as nat)
                            =~= "Command failed with exit code "@ + (seq!['-']
                            + spec_decimal((-(c as int)) as nat)));
                    }
                } else {
                    push_decimal_u32(&mut r, c as u32);
                }
                r.append(": ");
                r.append(message.as_str());
                r
            },
        }
    }
}

/// What to install: the label, the start command, optional placement and
/// environment, and the flags steering generation.
#[derive(Clone, Debug)]
pub struct ServiceInstallCtx {
    /// The caller-chosen name of the service.
    pub label: ServiceLabel,
    /// Path of the program to run.
    pub program: String,
    /// Arguments handed to the program, joined by single spaces in the start
    /// command; embedded characters meaningful to the unit grammar are the
    /// caller's responsibility.
    pub args: Vec<String>,
    /// Directory the program is started in, if any.
    pub working_directory: Option<String>,
    /// Environment variables, emitted in insertion order; keys unique.
    pub environment: Option<Vec<(String, String)>>,
    /// Account a system-level service runs as; never emitted at user level.
    pub username: Option<String>,
    /// A literal unit description used verbatim instead of generated text.
    pub contents: Option<String>,
    /// Whether to register the service for automatic start.
    pub autostart: bool,
    /// Suppresses the restart policy and delay lines entirely.
    pub disable_restart_on_failure: bool,
    /// Orders the service after network availability and requires it.
    pub requires_network: bool,
}

/// What to uninstall.
#[derive(Clone, Debug)]
pub struct ServiceUninstallCtx {
    /// The caller-chosen name of the service.
    pub label: ServiceLabel,
}

/// What to start.
#[derive(Clone, Debug)]
pub struct ServiceStartCtx {
    /// The caller-chosen name of the service.
    pub label: ServiceLabel,
}

/// What to stop.
#[derive(Clone, Debug)]
pub struct ServiceStopCtx {
    /// The caller-chosen name of the service.
    pub label: ServiceLabel,
}

/// What to query.
#[derive(Clone, Debug)]
pub struct ServiceStatusCtx {
    /// The caller-chosen name of the service.
    pub label: ServiceLabel,
}

} // verus!
