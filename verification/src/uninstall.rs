//! Uninstallation planning.
//!
//! Uninstalling is an idempotent check-then-act: when no manifest record
//! exists the plugin is not installed and the operation succeeds as a no-op
//! with no filesystem change. Otherwise the plugin's directory is removed
//! first and the manifest record second, so that a failure partway through
//! leaves the record — the authoritative "installed" signal — pointing at
//! missing files rather than leaving an orphaned directory behind a deleted
//! record. The plan is an ordered sequence of actions, and its contract
//! pins that order.

use vstd::prelude::*;
use vstd::string::StringExecFns;

use crate::store::{
    spec_installed_manifest_path, spec_plugin_subdirectory_path, PluginStore,
};

verus! {

/// One step of an uninstall; the shell performs a plan's steps in sequence
/// order.
pub enum UninstallAction {
    /// Remove the plugin's directory and everything under it.
    RemovePluginDir { path: String },
    /// Remove the plugin's manifest record.
    RemoveManifestRecord { path: String },
    /// Report success with a "nothing to uninstall" message and touch
    /// nothing.
    ReportNothingToUninstall,
}

/// Settings for uninstalling a plugin.
pub struct PluginUninstaller {
    /// Name of the plugin to be uninstalled.
    pub plugin_name: String,
    /// Path to the directory where plugins are installed.
    pub plugins_dir: String,
}

impl PluginUninstaller {
    pub fn new(plugin_name: &str, plugins_dir: &str) -> (r: Self)
        ensures
            r.plugin_name@ == plugin_name@,
            r.plugins_dir@ == plugins_dir@,
    {
        PluginUninstaller {
            plugin_name: String::from_str(plugin_name),
            plugins_dir: String::from_str(plugins_dir),
        }
    }

    /// Plans the uninstall, given whether the plugin's manifest record
    /// exists. Without a record the single step is the successful no-op.
    /// With one, the plugin directory is removed first and the record
    /// second, in that order.
    pub fn plan(&self, manifest_present: bool) -> (r: Vec<UninstallAction>)
        ensures
            !manifest_present ==> r@.len() == 1 && r@[0] is ReportNothingToUninstall,
            manifest_present ==> {
                &&& r@.len() == 2
                &&& (r@[0] matches UninstallAction::RemovePluginDir { path } && path@
                    == spec_plugin_subdirectory_path(self.plugins_dir@, self.plugin_name@))
                &&& (r@[1] matches UninstallAction::RemoveManifestRecord { path } && path@
                    == spec_installed_manifest_path(self.plugins_dir@, self.plugin_name@))
            },
    {
        let mut steps: Vec<UninstallAction> = Vec::new();
        if manifest_present {
            steps.push(
                UninstallAction::RemovePluginDir {
                    path: PluginStore::plugin_subdirectory_path(
                        self.plugins_dir.as_str(),
                        self.plugin_name.as_str(),
                    ),
                },
            );
            steps.push(
                UninstallAction::RemoveManifestRecord {
                    path: PluginStore::installed_manifest_path(
                        self.plugins_dir.as_str(),
                        self.plugin_name.as_str(),
                    ),
                },
            );
        } else {
            steps.push(UninstallAction::ReportNothingToUninstall);
        }
        steps
    }
}

} // verus!
