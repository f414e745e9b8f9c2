//! The error taxonomy of the plugin lifecycle manager.
//!
//! Every stage of the install / uninstall / dispatch pipelines returns a
//! typed result built from these variants. Declining the consent prompt and
//! uninstalling a plugin that is not installed are successful no-ops, so
//! neither appears here.

use vstd::prelude::*;
use vstd::string::StringExecFns;

verus! {

/// A failure reported by some stage of the plugin pipelines.
#[derive(Clone, Debug)]
pub enum PluginError {
    /// The manifest carries a schema version this tool does not understand.
    UnsupportedSchema,
    /// The manifest is structurally invalid (bad JSON, missing or ill-typed
    /// fields, an empty or duplicated package list, a bad checksum string).
    MalformedManifest,
    /// The manifest has no package for the running operating system.
    PlatformUnsupported,
    /// A network retrieval failed (non-2xx response or transport failure).
    FetchError { url: String, cause: String },
    /// The downloaded package bytes do not match the declared digest.
    IntegrityMismatch { expected: String, actual: String },
    /// Unpacking the downloaded archive failed.
    ExtractionError { cause: String },
    /// No installed-manifest record exists for the plugin: the canonical
    /// "plugin not installed" signal.
    ManifestNotFound,
    /// An installed-manifest record exists but cannot be parsed.
    ManifestCorrupt,
    /// The compatibility range expression (or a version string) is malformed.
    RangeParseError { expression: String },
    /// The range is well formed but the host version does not satisfy it.
    VersionIncompatible { required: String, actual: String },
    /// A filesystem operation outside extraction failed.
    FilesystemError { cause: String },
}

impl PluginError {
    /// A human-readable rendering of the error for the CLI boundary. An
    /// incompatibility names both the required range and the actual host
    /// version.
    pub fn message(&self) -> (r: String)
        ensures
            self matches PluginError::VersionIncompatible { required, actual } ==> r@
                == "plugin is compatible with host versions "@ + required@
                + " but this host is version "@ + actual@,
    {
        match self {
            PluginError::UnsupportedSchema => {
                String::from_str("the plugin manifest uses an unsupported schema version")
            },
            PluginError::MalformedManifest => {
                String::from_str("the plugin manifest is malformed")
            },
            PluginError::PlatformUnsupported => {
                String::from_str("the plugin does not support this operating system")
            },
            PluginError::FetchError { url, cause } => {
                let mut m = String::from_str("failed to fetch ");
                m.append(url.as_str());
                m.append(": ");
                m.append(cause.as_str());
                m
            },
            PluginError::IntegrityMismatch { expected, actual } => {
                let mut m = String::from_str("checksum mismatch: manifest declares ");
                m.append(expected.as_str());
                m.append(" but the download digests to ");
                m.append(actual.as_str());
                m
            },
            PluginError::ExtractionError { cause } => {
                let mut m = String::from_str("failed to unpack the plugin archive: ");
                m.append(cause.as_str());
                m
            },
            PluginError::ManifestNotFound => {
                String::from_str("the plugin is not installed")
            },
            PluginError::ManifestCorrupt => {
                String::from_str("the installed plugin manifest cannot be read")
            },
            PluginError::RangeParseError { expression } => {
                let mut m = String::from_str("could not parse ");
                m.append(expression.as_str());
                m.append(" as a semantic version requirement");
                m
            },
            PluginError::VersionIncompatible { required, actual } => {
                let mut m = String::from_str("plugin is compatible with host versions ");
                m.append(required.as_str());
                m.append(" but this host is version ");
                m.append(actual.as_str());
                proof {
                    assert(m@ =~= "plugin is compatible with host versions "@ + required@
                        + " but this host is version "@ + actual@);
                }
                m
            },
            PluginError::FilesystemError { cause } => {
                let mut m = String::from_str("filesystem operation failed: ");
                m.append(cause.as_str());
                m
            },
        }
    }
}

} // verus!
