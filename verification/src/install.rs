//! The install pipeline.
//!
//! Installation is a strictly ordered pipeline: fetch the manifest, select
//! the package for the running operating system, obtain the operator's
//! consent, fetch the package, verify its digest, extract it, and only then
//! register the manifest record — the commit point of the whole operation.
//! The decisions live here as a state machine: `step` consumes the outcome
//! of the last outside operation and names the next one. The unverified
//! shell performs the network, filesystem and prompt work. The contract of
//! `step` pins every transition; in particular extraction is only ever
//! requested for bytes whose digest matches the manifest, registration only
//! after successful extraction, and a declined consent ends the pipeline
//! with no further action.

use vstd::prelude::*;
use vstd::string::StringExecFns;

use crate::error::PluginError;
use crate::integrity::{checksum_matches, verify_checksum};
use crate::json::{resolve_plugin_manifest, spec_manifest_json, spec_parse_manifest_doc};
use crate::manifest::{
    has_package_for, lemma_select_none, select_package, spec_raw_resolvable, spec_resolved,
    spec_schema_supported, spec_select_package, wf_manifest, Os, PackageDescriptor,
    PluginManifest,
};
use crate::store::{
    spec_installed_manifest_path, spec_manifest_file_name, spec_plugin_subdirectory_path,
    PluginStore,
};
use crate::urls::{join_url, url_join_of, url_joins};

verus! {

/// Where the install pipeline stands.
pub enum InstallState {
    /// The index manifest has been requested.
    FetchingManifest,
    /// The manifest resolved and a package was selected; the operator has
    /// been asked for consent.
    AwaitingConsent { manifest: PluginManifest, package: PackageDescriptor },
    /// Consent was granted; the package archive has been requested.
    FetchingPackage { manifest: PluginManifest, package: PackageDescriptor },
    /// The archive's digest matched; extraction is in progress.
    Extracting { manifest: PluginManifest },
    /// Extraction succeeded; the manifest record is being written.
    Registering { manifest: PluginManifest },
    /// The pipeline ended without error; `installed` is false when the
    /// operator declined.
    Finished { installed: bool },
    /// The pipeline aborted.
    Failed { error: PluginError },
}

/// The outcome of the outside operation the pipeline last requested.
pub enum InstallEvent {
    ManifestFetched { body: String },
    ManifestFetchFailed { cause: String },
    ConsentAnswered { proceed: bool },
    PackageFetched { bytes: Vec<u8> },
    PackageFetchFailed { cause: String },
    Extracted,
    ExtractFailed { cause: String },
    Registered,
    RegisterFailed { cause: String },
}

/// The next outside operation the pipeline requests.
pub enum InstallAction {
    /// Retrieve the index manifest document.
    FetchManifest { url: String },
    /// Show the plugin's details and ask the operator whether to proceed.
    AskConsent { name: String, license: String, manifest_url: String, package_url: String },
    /// Retrieve the package archive bytes.
    FetchPackage { url: String },
    /// Unpack the verified archive into the plugin's directory, creating it
    /// if absent and overwriting prior contents.
    Extract { archive: Vec<u8>, target_dir: String },
    /// Write the canonical manifest record: the commit point.
    WriteManifest { path: String, contents: String },
    /// Nothing further: the pipeline is finished or failed.
    Stop,
}

/// The settings of one install operation: the plugin's name, the resolved
/// URL of its index manifest, and the plugins root directory.
pub struct PluginInstaller {
    pub name: String,
    pub url: String,
    pub plugins_dir: String,
}

impl PluginInstaller {
    /// Resolves the manifest location `<base>/<name>.json` against the
    /// repository base URL. Succeeds exactly when that resolution does.
    pub fn new(name: &str, url: &str, plugins_dir: &str) -> (r: Result<PluginInstaller, PluginError>)
        ensures
            r is Ok <==> url_joins(url@, spec_manifest_file_name(name@)),
            match r {
                Ok(inst) => {
                    &&& inst.name@ == name@
                    &&& inst.plugins_dir@ == plugins_dir@
                    &&& inst.url@ == url_join_of(url@, spec_manifest_file_name(name@))
                },
                Err(e) => e is FetchError,
            },
    {
        let fname = PluginStore::manifest_file_name(name);
        match join_url(url, fname.as_str()) {
            Some(joined) => Ok(
                PluginInstaller {
                    name: String::from_str(name),
                    url: joined,
                    plugins_dir: String::from_str(plugins_dir),
                },
            ),
            None => Err(
                PluginError::FetchError {
                    url: String::from_str(url),
                    cause: String::from_str("not a valid URL"),
                },
            ),
        }
    }

    /// The initial state and the first action: fetch the index manifest.
    pub fn start(&self) -> (r: (InstallState, InstallAction))
        ensures
            r.0 is FetchingManifest,
            r.1 matches InstallAction::FetchManifest { url } && url@ == self.url@,
    {
        (InstallState::FetchingManifest, InstallAction::FetchManifest { url: self.url.clone() })
    }

    /// Advances the pipeline by one outside outcome.
    ///
    /// The contract pins every transition. The safety clauses at the top
    /// hold whatever the history: extraction is requested only for bytes
    /// whose digest matches the selected package's declared digest, and the
    /// manifest record is written only after successful extraction, with
    /// the canonical rendering at the canonical path.
    pub fn step(&self, state: InstallState, event: InstallEvent, host_os: Os) -> (r: (
        InstallState,
        InstallAction,
    ))
        ensures
            (r.1 matches InstallAction::Extract { archive, target_dir } ==> state matches
                InstallState::FetchingPackage { manifest, package } && event matches
                InstallEvent::PackageFetched { bytes } && archive == bytes && checksum_matches(
                archive@,
                package.sha256@,
            ) && target_dir@ == spec_plugin_subdirectory_path(self.plugins_dir@, manifest.name@)),
            (r.1 matches InstallAction::WriteManifest { path, contents } ==> state matches
                InstallState::Extracting { manifest } && event is Extracted && path@
                == spec_installed_manifest_path(self.plugins_dir@, manifest.name@) && contents@
                == spec_manifest_json(manifest@)),
            match (state, event) {
                (
                    InstallState::FetchingManifest,
                    InstallEvent::ManifestFetched { body },
                ) => {
                    let parsed = spec_parse_manifest_doc(body@);
                    if parsed is None {
                        r.0 matches InstallState::Failed { error } && error is MalformedManifest
                            && r.1 is Stop
                    } else if !spec_schema_supported(parsed->Some_0) {
                        r.0 matches InstallState::Failed { error } && error is UnsupportedSchema
                            && r.1 is Stop
                    } else if !spec_raw_resolvable(parsed->Some_0) {
                        r.0 matches InstallState::Failed { error } && error is MalformedManifest
                            && r.1 is Stop
                    } else if !has_package_for(spec_resolved(parsed->Some_0).packages, host_os) {
                        r.0 matches InstallState::Failed { error } && error is PlatformUnsupported
                            && r.1 is Stop
                    } else {
                        r.0 matches InstallState::AwaitingConsent { manifest, package }
                            && manifest@ == spec_resolved(parsed->Some_0) && wf_manifest(manifest@)
                            && spec_select_package(manifest.packages@, host_os) == Some(package)
                            && package.os == host_os && (r.1 matches InstallAction::AskConsent {
                            name,
                            license,
                            manifest_url,
                            package_url,
                        } && name@ == manifest.name@ && license@ == manifest.license@
                            && manifest_url@ == self.url@ && package_url@ == package.url@)
                    }
                },
                (
                    InstallState::FetchingManifest,
                    InstallEvent::ManifestFetchFailed { cause },
                ) => r.0 matches InstallState::Failed { error } && (error matches
                    PluginError::FetchError { url, cause: c } && url@ == self.url@ && c@ == cause@)
                    && r.1 is Stop,
                (
                    InstallState::AwaitingConsent { manifest, package },
                    InstallEvent::ConsentAnswered { proceed },
                ) => if proceed {
                    r.0 matches InstallState::FetchingPackage { manifest: m2, package: p2 } && m2
                        == manifest && p2 == package && (r.1 matches InstallAction::FetchPackage {
                        url,
                    } && url@ == package.url@)
                } else {
                    r.0 matches InstallState::Finished { installed } && installed == false && r.1
                        is Stop
                },
                (
                    InstallState::FetchingPackage { manifest, package },
                    InstallEvent::PackageFetched { bytes },
                ) => if checksum_matches(bytes@, package.sha256@) {
                    r.0 matches InstallState::Extracting { manifest: m2 } && m2 == manifest && (r.1
                        matches InstallAction::Extract { archive, target_dir } && archive == bytes)
                } else {
                    r.0 matches InstallState::Failed { error } && error is IntegrityMismatch && r.1
                        is Stop
                },
                (
                    InstallState::FetchingPackage { manifest, package },
                    InstallEvent::PackageFetchFailed { cause },
                ) => r.0 matches InstallState::Failed { error } && (error matches
                    PluginError::FetchError { url, cause: c } && url@ == package.url@ && c@
                    == cause@) && r.1 is Stop,
                (InstallState::Extracting { manifest }, InstallEvent::Extracted) => r.0 matches
                    InstallState::Registering { manifest: m2 } && m2 == manifest && r.1 matches
                    InstallAction::WriteManifest { path, contents },
                (
                    InstallState::Extracting { manifest },
                    InstallEvent::ExtractFailed { cause },
                ) => r.0 matches InstallState::Failed { error } && (error matches
                    PluginError::ExtractionError { cause: c } && c@ == cause@) && r.1 is Stop,
                (InstallState::Registering { manifest }, InstallEvent::Registered) => r.0 matches
                    InstallState::Finished { installed } && installed == true && r.1 is Stop,
                (
                    InstallState::Registering { manifest },
                    InstallEvent::RegisterFailed { cause },
                ) => r.0 matches InstallState::Failed { error } && (error matches
                    PluginError::FilesystemError { cause: c } && c@ == cause@) && r.1 is Stop,
                _ => r.0 == state && r.1 is Stop,
            },
    {
        match (state, event) {
            (InstallState::FetchingManifest, InstallEvent::ManifestFetched { body }) => {
                let manifest = match resolve_plugin_manifest(body.as_str()) {
                    Ok(m) => m,
                    Err(e) => {
                        return (InstallState::Failed { error: e }, InstallAction::Stop);
                    },
                };
                let package = match select_package(&manifest, host_os) {
                    Ok(p) => {
                        let copy = PackageDescriptor {
                            os: p.os,
                            url: p.url.clone(),
                            sha256: p.sha256.clone(),
                        };
                        proof {
                            assert(copy =~= *p);
                            lemma_select_none(manifest.packages@, host_os, 0);
                            let k = choose|k: int|
                                0 <= k < manifest.packages@.len() && (
                                #[trigger] manifest.packages@[k]).os == host_os;
                            assert(manifest@.packages[k] == manifest.packages@[k]@);
                            assert(manifest@.packages[k].os == host_os);
                            assert(has_package_for(manifest@.packages, host_os));
                        }
                        copy
                    },
                    Err(e) => {
                        proof {
                            lemma_select_none(manifest.packages@, host_os, 0);
                            assert forall|k: int|
                                0 <= k < manifest@.packages.len() implies (
                            #[trigger] manifest@.packages[k]).os != host_os by {
                                assert(manifest@.packages[k] == manifest.packages@[k]@);
                                assert(manifest.packages@[k].os != host_os);
                            }
                            assert(!has_package_for(manifest@.packages, host_os));
                        }
                        return (InstallState::Failed { error: e }, InstallAction::Stop);
                    },
                };
                let ask = InstallAction::AskConsent {
                    name: manifest.name.clone(),
                    license: manifest.license.clone(),
                    manifest_url: self.url.clone(),
                    package_url: package.url.clone(),
                };
                (InstallState::AwaitingConsent { manifest, package }, ask)
            },
            (InstallState::FetchingManifest, InstallEvent::ManifestFetchFailed { cause }) => (
                InstallState::Failed {
                    error: PluginError::FetchError { url: self.url.clone(), cause },
                },
                InstallAction::Stop,
            ),
            (
                InstallState::AwaitingConsent { manifest, package },
                InstallEvent::ConsentAnswered { proceed },
            ) => {
                if proceed {
                    let url = package.url.clone();
                    (
                        InstallState::FetchingPackage { manifest, package },
                        InstallAction::FetchPackage { url },
                    )
                } else {
                    (InstallState::Finished { installed: false }, InstallAction::Stop)
                }
            },
            (
                InstallState::FetchingPackage { manifest, package },
                InstallEvent::PackageFetched { bytes },
            ) => {
                match verify_checksum(bytes.as_slice(), package.sha256.as_str()) {
                    Ok(()) => {
                        let target_dir = PluginStore::plugin_subdirectory_path(
                            self.plugins_dir.as_str(),
                            manifest.name.as_str(),
                        );
                        (
                            InstallState::Extracting { manifest },
                            InstallAction::Extract { archive: bytes, target_dir },
                        )
                    },
                    Err(e) => (InstallState::Failed { error: e }, InstallAction::Stop),
                }
            },
            (
                InstallState::FetchingPackage { manifest, package },
                InstallEvent::PackageFetchFailed { cause },
            ) => (
                InstallState::Failed {
                    error: PluginError::FetchError { url: package.url, cause },
                },
                InstallAction::Stop,
            ),
            (InstallState::Extracting { manifest }, InstallEvent::Extracted) => {
                let path = PluginStore::installed_manifest_path(
                    self.plugins_dir.as_str(),
                    manifest.name.as_str(),
                );
                let contents = crate::json::manifest_to_json(&manifest);
                (
                    InstallState::Registering { manifest },
                    InstallAction::WriteManifest { path, contents },
                )
            },
            (InstallState::Extracting { manifest }, InstallEvent::ExtractFailed { cause }) => (
                InstallState::Failed { error: PluginError::ExtractionError { cause } },
                InstallAction::Stop,
            ),
            (InstallState::Registering { manifest }, InstallEvent::Registered) => (
                InstallState::Finished { installed: true },
                InstallAction::Stop,
            ),
            (InstallState::Registering { manifest }, InstallEvent::RegisterFailed { cause }) => (
                InstallState::Failed { error: PluginError::FilesystemError { cause } },
                InstallAction::Stop,
            ),
            (other_state, _) => (other_state, InstallAction::Stop),
        }
    }
}

} // verus!
