use spin_plugins::error::PluginError;
use spin_plugins::install::{
    InstallAction, InstallEvent, InstallState, PluginInstaller,
};
use spin_plugins::integrity::digest_string;
use spin_plugins::manifest::Os;

const REPO: &str = "https://example.com/plugins/";
const ROOT: &str = "/data/spin/plugins";

fn manifest_doc_for(archive: &[u8], os: &str) -> String {
    format!(
        "{{\"name\":\"foo\",\"license\":\"MIT\",\"spinCompatibility\":\">=1.0.0\",\
         \"packages\":[{{\"os\":\"{}\",\"url\":\"http://x/foo.tar.gz\",\"sha256\":\"{}\"}}]}}",
        os,
        digest_string(archive)
    )
}

#[test]
fn installer_new_resolves_the_manifest_url() {
    let inst = PluginInstaller::new("foo", REPO, ROOT).unwrap();
    assert_eq!(inst.url, "https://example.com/plugins/foo.json");
    assert!(PluginInstaller::new("foo", "not a url", ROOT).is_err());
}

#[test]
fn install_happy_path_runs_to_registration() {
    let archive: &[u8] = b"pretend this is a gzipped tarball";
    let inst = PluginInstaller::new("foo", REPO, ROOT).unwrap();
    let (state, action) = inst.start();
    match &action {
        InstallAction::FetchManifest { url } => {
            assert_eq!(url, "https://example.com/plugins/foo.json")
        }
        other => panic!("expected a manifest fetch, got {:?}", action_name(other)),
    }
    let (state, action) = inst.step(
        state,
        InstallEvent::ManifestFetched { body: manifest_doc_for(archive, "linux") },
        Os::Linux,
    );
    match &action {
        InstallAction::AskConsent { name, license, manifest_url, package_url } => {
            assert_eq!(name, "foo");
            assert_eq!(license, "MIT");
            assert_eq!(manifest_url, "https://example.com/plugins/foo.json");
            assert_eq!(package_url, "http://x/foo.tar.gz");
        }
        other => panic!("expected a consent request, got {:?}", action_name(other)),
    }
    let (state, action) = inst.step(
        state,
        InstallEvent::ConsentAnswered { proceed: true },
        Os::Linux,
    );
    match &action {
        InstallAction::FetchPackage { url } => assert_eq!(url, "http://x/foo.tar.gz"),
        other => panic!("expected a package fetch, got {:?}", action_name(other)),
    }
    let (state, action) = inst.step(
        state,
        InstallEvent::PackageFetched { bytes: archive.to_vec() },
        Os::Linux,
    );
    match &action {
        InstallAction::Extract { archive: got, target_dir } => {
            assert_eq!(got.as_slice(), archive);
            assert_eq!(target_dir, "/data/spin/plugins/foo");
        }
        other => panic!("expected an extraction, got {:?}", action_name(other)),
    }
    let (state, action) = inst.step(state, InstallEvent::Extracted, Os::Linux);
    match &action {
        InstallAction::WriteManifest { path, contents } => {
            assert_eq!(path, "/data/spin/plugins/manifests/foo.json");
            assert!(contents.contains("\"name\":\"foo\""));
        }
        other => panic!("expected the record write, got {:?}", action_name(other)),
    }
    let (state, action) = inst.step(state, InstallEvent::Registered, Os::Linux);
    assert!(matches!(action, InstallAction::Stop));
    assert!(matches!(state, InstallState::Finished { installed: true }));
}

#[test]
fn checksum_mismatch_fails_before_extraction() {
    let inst = PluginInstaller::new("foo", REPO, ROOT).unwrap();
    let (state, _) = inst.start();
    let (state, _) = inst.step(
        state,
        InstallEvent::ManifestFetched { body: manifest_doc_for(b"expected bytes", "linux") },
        Os::Linux,
    );
    let (state, _) = inst.step(state, InstallEvent::ConsentAnswered { proceed: true }, Os::Linux);
    let (state, action) = inst.step(
        state,
        InstallEvent::PackageFetched { bytes: b"tampered bytes".to_vec() },
        Os::Linux,
    );
    assert!(matches!(action, InstallAction::Stop));
    match state {
        InstallState::Failed { error: PluginError::IntegrityMismatch { expected, actual } } => {
            assert_eq!(expected, digest_string(b"expected bytes"));
            assert_eq!(actual, digest_string(b"tampered bytes"));
        }
        _ => panic!("expected an integrity mismatch"),
    }
}

#[test]
fn declining_consent_finishes_without_side_effects() {
    let inst = PluginInstaller::new("foo", REPO, ROOT).unwrap();
    let (state, _) = inst.start();
    let (state, _) = inst.step(
        state,
        InstallEvent::ManifestFetched { body: manifest_doc_for(b"bytes", "linux") },
        Os::Linux,
    );
    let (state, action) = inst.step(
        state,
        InstallEvent::ConsentAnswered { proceed: false },
        Os::Linux,
    );
    assert!(matches!(action, InstallAction::Stop));
    assert!(matches!(state, InstallState::Finished { installed: false }));
}

#[test]
fn macos_only_package_is_unsupported_on_linux() {
    let inst = PluginInstaller::new("foo", REPO, ROOT).unwrap();
    let (state, _) = inst.start();
    let (state, action) = inst.step(
        state,
        InstallEvent::ManifestFetched { body: manifest_doc_for(b"bytes", "macos") },
        Os::Linux,
    );
    assert!(matches!(action, InstallAction::Stop));
    assert!(matches!(
        state,
        InstallState::Failed { error: PluginError::PlatformUnsupported }
    ));
}

#[test]
fn fetch_failures_carry_url_and_cause() {
    let inst = PluginInstaller::new("foo", REPO, ROOT).unwrap();
    let (state, _) = inst.start();
    let (state, action) = inst.step(
        state,
        InstallEvent::ManifestFetchFailed { cause: "connection refused".to_string() },
        Os::Linux,
    );
    assert!(matches!(action, InstallAction::Stop));
    match state {
        InstallState::Failed { error: PluginError::FetchError { url, cause } } => {
            assert_eq!(url, "https://example.com/plugins/foo.json");
            assert_eq!(cause, "connection refused");
        }
        _ => panic!("expected a fetch error"),
    }
}

#[test]
fn extraction_and_registration_failures_are_reported() {
    let inst = PluginInstaller::new("foo", REPO, ROOT).unwrap();
    let archive: &[u8] = b"bytes";
    let run_to_extracting = || {
        let (state, _) = inst.start();
        let (state, _) = inst.step(
            state,
            InstallEvent::ManifestFetched { body: manifest_doc_for(archive, "linux") },
            Os::Linux,
        );
        let (state, _) =
            inst.step(state, InstallEvent::ConsentAnswered { proceed: true }, Os::Linux);
        let (state, _) = inst.step(
            state,
            InstallEvent::PackageFetched { bytes: archive.to_vec() },
            Os::Linux,
        );
        state
    };
    let (state, _) = inst.step(
        run_to_extracting(),
        InstallEvent::ExtractFailed { cause: "bad archive".to_string() },
        Os::Linux,
    );
    assert!(matches!(
        state,
        InstallState::Failed { error: PluginError::ExtractionError { .. } }
    ));
    let (state, _) = inst.step(run_to_extracting(), InstallEvent::Extracted, Os::Linux);
    let (state, _) = inst.step(
        state,
        InstallEvent::RegisterFailed { cause: "disk full".to_string() },
        Os::Linux,
    );
    assert!(matches!(
        state,
        InstallState::Failed { error: PluginError::FilesystemError { .. } }
    ));
}

#[test]
fn unsupported_schema_is_distinct() {
    let inst = PluginInstaller::new("foo", REPO, ROOT).unwrap();
    let (state, _) = inst.start();
    let doc = format!(
        "{{\"manifestVersion\":\"3\",{}",
        &manifest_doc_for(b"bytes", "linux")[1..]
    );
    let (state, _) = inst.step(state, InstallEvent::ManifestFetched { body: doc }, Os::Linux);
    assert!(matches!(
        state,
        InstallState::Failed { error: PluginError::UnsupportedSchema }
    ));
}

fn action_name(a: &InstallAction) -> &'static str {
    match a {
        InstallAction::FetchManifest { .. } => "FetchManifest",
        InstallAction::AskConsent { .. } => "AskConsent",
        InstallAction::FetchPackage { .. } => "FetchPackage",
        InstallAction::Extract { .. } => "Extract",
        InstallAction::WriteManifest { .. } => "WriteManifest",
        InstallAction::Stop => "Stop",
    }
}
