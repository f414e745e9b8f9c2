//! Dispatch of unrecognized subcommands to installed plugin binaries.
//!
//! An unrecognized subcommand names a plugin. Without an installed manifest
//! record the dispatcher prints the top-level help and succeeds — an unknown
//! subcommand is not a hard error at this layer. With a record, the plugin's
//! declared compatibility range is checked against the running host version,
//! and an incompatible or unparseable range aborts: an incompatible binary is
//! never executed. Otherwise the plan names the binary, its arguments, and
//! the three environment variables the child receives; the shell runs it with
//! inherited standard streams and mirrors its exit code.

use vstd::prelude::*;
use vstd::string::StringExecFns;

use crate::error::PluginError;
use crate::manifest::{Os, PluginManifest};
use crate::store::{spec_plugin_subdirectory_path, PluginStore};
use crate::version_check::{
    assert_supported_version, range_matches, spec_parse_range, spec_parse_version, spec_version_ok,
};

verus! {

/// The path of an installed plugin's executable: `<dir>/<name>/<name>`,
/// with the executable suffix appended only on the one platform that
/// requires it.
pub open spec fn spec_plugin_binary_path(plugins_dir: Seq<char>, name: Seq<char>, os: Os) -> Seq<
    char,
> {
    spec_plugin_subdirectory_path(plugins_dir, name) + "/"@ + name + (if os is Windows {
        ".exe"@
    } else {
        Seq::<char>::empty()
    })
}

/// What the unverified shell must do for an unrecognized subcommand.
pub enum DispatchPlan {
    /// No installed manifest record: print the top-level help text and
    /// return success.
    PrintHelp,
    /// The plugin exists but must not run; surface the error.
    Abort { error: PluginError },
    /// Run the binary with the given arguments and environment, streams
    /// inherited, and mirror its exit code.
    Execute { binary: String, args: Vec<String>, env: Vec<(String, String)> },
}

/// The three environment variables a dispatched plugin receives: the running
/// host version, the absolute path of the host executable, and the absolute
/// path of the plugin's install directory.
pub fn get_env_vars_map(host_version: &str, bin_path: &str, plugin_path: &str) -> (r: Vec<
    (String, String),
>)
    ensures
        r@.len() == 3,
        r@[0].0@ == "SPIN_VERSION"@ && r@[0].1@ == host_version@,
        r@[1].0@ == "SPIN_BIN_PATH"@ && r@[1].1@ == bin_path@,
        r@[2].0@ == "SPIN_PLUGIN_PATH"@ && r@[2].1@ == plugin_path@,
{
    let mut v: Vec<(String, String)> = Vec::new();
    v.push((String::from_str("SPIN_VERSION"), String::from_str(host_version)));
    v.push((String::from_str("SPIN_BIN_PATH"), String::from_str(bin_path)));
    v.push((String::from_str("SPIN_PLUGIN_PATH"), String::from_str(plugin_path)));
    v
}

/// Plans the handling of an unrecognized subcommand, given the result of
/// loading the named plugin's installed manifest record.
pub fn plan_dispatch(
    plugin_name: &str,
    args: Vec<String>,
    load_result: Result<PluginManifest, PluginError>,
    host_version: &str,
    host_bin_path: &str,
    plugins_dir: &str,
    host_os: Os,
) -> (r: DispatchPlan)
    ensures
        load_result matches Err(e) ==> {
            if e is ManifestNotFound {
                r is PrintHelp
            } else {
                r matches DispatchPlan::Abort { error } && error == e
            }
        },
        load_result matches Ok(m) ==> {
            if !spec_version_ok(host_version@, m.spin_compatibility@) {
                r matches DispatchPlan::Abort { error } && (if spec_parse_range(
                    m.spin_compatibility@,
                ) is Some && spec_parse_version(host_version@) is Some {
                    error matches PluginError::VersionIncompatible { required, actual }
                        && required@ == m.spin_compatibility@ && actual@ == host_version@
                } else {
                    error is RangeParseError
                })
            } else {
                r matches DispatchPlan::Execute { binary, args: a, env } && binary@
                    == spec_plugin_binary_path(plugins_dir@, plugin_name@, host_os) && a == args
                    && env@.len() == 3 && env@[0].0@ == "SPIN_VERSION"@ && env@[0].1@
                    == host_version@ && env@[1].0@ == "SPIN_BIN_PATH"@ && env@[1].1@
                    == host_bin_path@ && env@[2].0@ == "SPIN_PLUGIN_PATH"@ && env@[2].1@
                    == spec_plugin_subdirectory_path(plugins_dir@, plugin_name@)
            }
        },
{
    let manifest = match load_result {
        Err(e) => {
            if matches!(e, PluginError::ManifestNotFound) {
                return DispatchPlan::PrintHelp;
            }
            return DispatchPlan::Abort { error: e };
        },
        Ok(m) => m,
    };
    if let Err(e) = assert_supported_version(host_version, manifest.spin_compatibility.as_str()) {
        return DispatchPlan::Abort { error: e };
    }
    let plugin_path = PluginStore::plugin_subdirectory_path(plugins_dir, plugin_name);
    let mut binary = plugin_path.clone();
    binary.append("/");
    binary.append(plugin_name);
    if matches!(host_os, Os::Windows) {
        binary.append(".exe");
    }
    proof {
        assert(binary@ =~= spec_plugin_binary_path(plugins_dir@, plugin_name@, host_os));
    }
    let env = get_env_vars_map(host_version, host_bin_path, plugin_path.as_str());
    DispatchPlan::Execute { binary, args, env }
}

/// The exit status the host process reports after a dispatched child ends:
/// the child's exit code verbatim, or the fixed fallback when the child
/// ended without a representable code.
pub fn exit_code_for(child_code: Option<i32>) -> (r: i32)
    ensures
        match child_code {
            Some(c) => r == c,
            None => r == 1,
        },
{
    match child_code {
        Some(c) => c,
        None => 1,
    }
}

} // verus!
