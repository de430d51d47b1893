//! Manage a long-running background process under the systemd init system:
//! generate unit-description text, resolve where the unit file lives for a
//! given service level, build `systemctl` invocations, and classify the
//! control utility's exit codes into a small status taxonomy.

pub mod config;
pub mod context;
pub mod generator;
pub mod label;
pub mod systemd;
pub mod text;
