//! Verified core of a CLI plugin lifecycle manager.
//!
//! The library models plugin manifests, selects the package for the running
//! operating system, gates installation on operator consent and checksum
//! integrity, derives the registry paths for installed plugins, checks
//! host/plugin version compatibility, and plans uninstallation and the
//! dispatch of unrecognized subcommands to installed plugin binaries.
//! All I/O (network, filesystem, child processes) is performed by a thin
//! unverified shell that drives the state machines defined here.

pub mod dispatch;
pub mod error;
pub mod install;
pub mod integrity;
pub mod json;
pub mod manifest;
pub mod prompt;
pub mod store;
pub mod text;
pub mod uninstall;
pub mod urls;
pub mod version_check;
