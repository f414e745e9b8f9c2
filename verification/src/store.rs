//! Path resolution for the installed-plugin registry.
//!
//! All paths are derived deterministically from a plugins-root directory
//! passed in by the caller, so tests can point the registry at an isolated
//! temporary root. The manifest record at `<root>/manifests/<name>.json` —
//! not the presence of files under `<root>/<name>/` — is the authoritative
//! signal that a plugin is installed.

use vstd::prelude::*;
use vstd::string::StringExecFns;

use crate::version_check::Version;

verus! {

/// The decimal digit character for `d` (0 to 9).
pub open spec fn digit_char(d: int) -> char {
    if d == 0 {
        '0'
    } else if d == 1 {
        '1'
    } else if d == 2 {
        '2'
    } else if d == 3 {
        '3'
    } else if d == 4 {
        '4'
    } else if d == 5 {
        '5'
    } else if d == 6 {
        '6'
    } else if d == 7 {
        '7'
    } else if d == 8 {
        '8'
    } else {
        '9'
    }
}

/// The decimal rendering of a number, most significant digit first.
pub open spec fn dec_str(n: int) -> Seq<char>
    decreases n,
{
    if n < 10 {
        seq![digit_char(n)]
    } else {
        dec_str(n / 10) + seq![digit_char(n % 10)]
    }
}

/// The rendering `major.minor.patch` of a version.
pub open spec fn version_str(v: Version) -> Seq<char> {
    dec_str(v.major as int) + "."@ + dec_str(v.minor as int) + "."@ + dec_str(v.patch as int)
}

fn digit_char_of(d: u64) -> (r: char)
    requires
        d < 10,
    ensures
        r == digit_char(d as int),
{
    if d == 0 {
        '0'
    } else if d == 1 {
        '1'
    } else if d == 2 {
        '2'
    } else if d == 3 {
        '3'
    } else if d == 4 {
        '4'
    } else if d == 5 {
        '5'
    } else if d == 6 {
        '6'
    } else if d == 7 {
        '7'
    } else if d == 8 {
        '8'
    } else {
        '9'
    }
}

fn u64_dec_chars(n: u64) -> (r: Vec<char>)
    ensures
        r@ == dec_str(n as int),
    decreases n,
{
    if n < 10 {
        let mut v: Vec<char> = Vec::new();
        v.push(digit_char_of(n));
        proof {
            assert(v@ =~= seq![digit_char(n as int)]);
        }
        v
    } else {
        let mut v = u64_dec_chars(n / 10);
        v.push(digit_char_of(n % 10));
        proof {
            assert(v@ =~= dec_str(n as int / 10) + seq![digit_char(n as int % 10)]);
        }
        v
    }
}

/// Appends the decimal rendering of `n` to `s`.
fn append_u64(s: &mut String, n: u64)
    ensures
        final(s)@ == old(s)@ + dec_str(n as int),
{
    let chars = u64_dec_chars(n);
    crate::text::append_chars(s, &chars);
}

/// Renders a version as `major.minor.patch`.
pub fn version_to_string(v: &Version) -> (r: String)
    ensures
        r@ == version_str(*v),
{
    let mut s = String::new();
    append_u64(&mut s, v.major);
    s.append(".");
    append_u64(&mut s, v.minor);
    s.append(".");
    append_u64(&mut s, v.patch);
    proof {
        assert(s@ =~= version_str(*v));
    }
    s
}

/// The installed-manifest file name of a plugin.
pub open spec fn spec_manifest_file_name(name: Seq<char>) -> Seq<char> {
    name + ".json"@
}

/// The file name a plugin's manifest is looked up under in the plugins
/// repository: `name@version.json`, or `name.json` with no version.
pub open spec fn spec_manifest_file_name_version(name: Seq<char>, version: Option<Version>) -> Seq<
    char,
> {
    match version {
        Some(v) => name + "@"@ + version_str(v) + ".json"@,
        None => spec_manifest_file_name(name),
    }
}

/// The directory of a locally cloned plugins repository under the root.
pub open spec fn spec_repo_path(plugins_dir: Seq<char>) -> Seq<char> {
    plugins_dir + "/.spin-plugins"@
}

/// The path of a plugin's manifest within the plugins repository.
pub open spec fn spec_repo_manifest_path(
    plugins_dir: Seq<char>,
    name: Seq<char>,
    version: Option<Version>,
) -> Seq<char> {
    spec_repo_path(plugins_dir) + "/manifests"@ + "/"@ + name + "/"@
        + spec_manifest_file_name_version(name, version)
}

/// The directory a plugin's own files are extracted into.
pub open spec fn spec_plugin_subdirectory_path(plugins_dir: Seq<char>, name: Seq<char>) -> Seq<
    char,
> {
    plugins_dir + "/"@ + name
}

/// The directory holding the manifest records of all installed plugins.
pub open spec fn spec_installed_manifests_directory(plugins_dir: Seq<char>) -> Seq<char> {
    plugins_dir + "/manifests"@
}

/// The manifest record path of one installed plugin.
pub open spec fn spec_installed_manifest_path(plugins_dir: Seq<char>, name: Seq<char>) -> Seq<
    char,
> {
    spec_installed_manifests_directory(plugins_dir) + "/"@ + spec_manifest_file_name(name)
}

/// Relies on std's `Path::exists`: whether the path names an existing
/// filesystem entity. The result depends on the state of the disk, so
/// nothing is claimed of it.
#[verifier::external_body]
fn path_exists(p: &str) -> bool {
    std::path::Path::new(p).exists()
}

/// Path derivations for the plugin registry under a plugins-root directory.
pub struct PluginStore;

impl PluginStore {
    /// The expected file name for a plugin's installed manifest record.
    pub fn manifest_file_name(plugin_name: &str) -> (r: String)
        ensures
            r@ == spec_manifest_file_name(plugin_name@),
    {
        let mut s = String::from_str(plugin_name);
        s.append(".json");
        s
    }

    /// The expected file name for a plugin's manifest in the plugins
    /// repository, at an optional specific version.
    fn manifest_file_name_version(plugin_name: &str, version: &Option<Version>) -> (r: String)
        ensures
            r@ == spec_manifest_file_name_version(plugin_name@, *version),
    {
        match version {
            Some(v) => {
                let mut s = String::from_str(plugin_name);
                s.append("@");
                let rendered = version_to_string(v);
                s.append(rendered.as_str());
                s.append(".json");
                s
            },
            None => PluginStore::manifest_file_name(plugin_name),
        }
    }

    /// The expected path to the manifest of a named (and optionally
    /// versioned) plugin within the locally cloned plugins repository.
    pub fn spin_plugins_repo_manifest_path(
        plugins_dir: &str,
        plugin_name: &str,
        plugin_version: &Option<Version>,
    ) -> (r: String)
        ensures
            r@ == spec_repo_manifest_path(plugins_dir@, plugin_name@, *plugin_version),
    {
        let mut s = PluginStore::plugin_manifests_repo_path(plugins_dir);
        s.append("/manifests");
        s.append("/");
        s.append(plugin_name);
        s.append("/");
        let fname = PluginStore::manifest_file_name_version(plugin_name, plugin_version);
        s.append(fname.as_str());
        s
    }

    /// The directory an installed plugin's own files live in.
    pub fn plugin_subdirectory_path(plugins_dir: &str, plugin_name: &str) -> (r: String)
        ensures
            r@ == spec_plugin_subdirectory_path(plugins_dir@, plugin_name@),
    {
        let mut s = String::from_str(plugins_dir);
        s.append("/");
        s.append(plugin_name);
        s
    }

    /// The directory holding the manifest records of all installed plugins.
    pub fn installed_manifests_directory(plugins_dir: &str) -> (r: String)
        ensures
            r@ == spec_installed_manifests_directory(plugins_dir@),
    {
        let mut s = String::from_str(plugins_dir);
        s.append("/manifests");
        s
    }

    /// The path of the locally cloned plugins repository.
    pub fn plugin_manifests_repo_path(plugins_dir: &str) -> (r: String)
        ensures
            r@ == spec_repo_path(plugins_dir@),
    {
        let mut s = String::from_str(plugins_dir);
        s.append("/.spin-plugins");
        s
    }

    /// Whether the plugins repository has been cloned locally (its
    /// version-control marker directory exists). A filesystem query: nothing
    /// is claimed of the result.
    pub fn plugin_manifests_repo_exists(plugins_dir: &str) -> bool {
        let mut s = PluginStore::plugin_manifests_repo_path(plugins_dir);
        s.append("/.git");
        path_exists(s.as_str())
    }

    /// The manifest record path of one installed plugin.
    pub fn installed_manifest_path(plugins_dir: &str, plugin_name: &str) -> (r: String)
        ensures
            r@ == spec_installed_manifest_path(plugins_dir@, plugin_name@),
    {
        let mut s = PluginStore::installed_manifests_directory(plugins_dir);
        s.append("/");
        let fname = PluginStore::manifest_file_name(plugin_name);
        s.append(fname.as_str());
        s
    }

    /// Interprets an installed plugin's manifest record. `None` — the file
    /// is absent — is the canonical "plugin not installed" signal; a present
    /// record that does not parse and resolve is corrupt.
    pub fn load_plugin_manifest(manifest_file: Option<&str>) -> (r: Result<
        crate::manifest::PluginManifest,
        crate::error::PluginError,
    >)
        ensures
            manifest_file is None ==> (r matches Err(e) && e is ManifestNotFound),
            manifest_file matches Some(doc) ==> match r {
                Ok(m) => {
                    &&& crate::json::spec_parse_manifest_doc(doc@) is Some
                    &&& crate::manifest::spec_schema_supported(
                        crate::json::spec_parse_manifest_doc(doc@)->Some_0,
                    )
                    &&& crate::manifest::spec_raw_resolvable(
                        crate::json::spec_parse_manifest_doc(doc@)->Some_0,
                    )
                    &&& m@ == crate::manifest::spec_resolved(
                        crate::json::spec_parse_manifest_doc(doc@)->Some_0,
                    )
                    &&& crate::manifest::wf_manifest(m@)
                },
                Err(e) => {
                    &&& e is ManifestCorrupt
                    &&& !{
                        &&& crate::json::spec_parse_manifest_doc(doc@) is Some
                        &&& crate::manifest::spec_schema_supported(
                            crate::json::spec_parse_manifest_doc(doc@)->Some_0,
                        )
                        &&& crate::manifest::spec_raw_resolvable(
                            crate::json::spec_parse_manifest_doc(doc@)->Some_0,
                        )
                    }
                },
            },
    {
        match manifest_file {
            None => Err(crate::error::PluginError::ManifestNotFound),
            Some(doc) => match crate::json::resolve_plugin_manifest(doc) {
                Ok(m) => Ok(m),
                Err(_) => Err(crate::error::PluginError::ManifestCorrupt),
            },
        }
    }
}

} // verus!
