use spin_plugins::error::PluginError;
use spin_plugins::integrity::{digest_string, verify_checksum};
use spin_plugins::json::{manifest_to_json, resolve_plugin_manifest};
use spin_plugins::manifest::{Os, PackageDescriptor, PluginManifest};
use spin_plugins::store::PluginStore;

const GOOD_SHA: &str = "e3b0c44298fc1c149afbf4c8996fb92427ae41e4649b934ca495991b7852b855";

fn linux_manifest_doc() -> String {
    format!(
        "{{\"name\":\"foo\",\"license\":\"MIT\",\"spinCompatibility\":\">=1.0.0\",\
         \"packages\":[{{\"os\":\"linux\",\"url\":\"http://x/foo.tar.gz\",\"sha256\":\"{}\"}}]}}",
        GOOD_SHA
    )
}

#[test]
fn resolves_the_example_manifest() {
    let m = resolve_plugin_manifest(&linux_manifest_doc()).unwrap();
    assert_eq!(m.name, "foo");
    assert_eq!(m.description, "");
    assert_eq!(m.license, "MIT");
    assert_eq!(m.spin_compatibility, ">=1.0.0");
    assert_eq!(m.packages.len(), 1);
    assert_eq!(m.packages[0].os, Os::Linux);
    assert_eq!(m.packages[0].url, "http://x/foo.tar.gz");
    assert_eq!(m.packages[0].sha256, GOOD_SHA);
}

#[test]
fn schema_tag_under_either_name() {
    let with_current = format!(
        "{{\"manifestVersion\":\"1\",\"name\":\"a\",\"license\":\"MIT\",\
         \"spinCompatibility\":\">=1.0.0\",\"packages\":[{{\"os\":\"linux\",\
         \"url\":\"u\",\"sha256\":\"{}\"}}]}}",
        GOOD_SHA
    );
    assert!(resolve_plugin_manifest(&with_current).is_ok());
    let with_deprecated = with_current.replace("manifestVersion", "version");
    assert!(resolve_plugin_manifest(&with_deprecated).is_ok());
    let unsupported = with_current.replace("\"manifestVersion\":\"1\"", "\"manifestVersion\":\"2\"");
    assert!(matches!(
        resolve_plugin_manifest(&unsupported),
        Err(PluginError::UnsupportedSchema)
    ));
    let unsupported_old = with_current.replace("\"manifestVersion\":\"1\"", "\"version\":\"0\"");
    assert!(matches!(
        resolve_plugin_manifest(&unsupported_old),
        Err(PluginError::UnsupportedSchema)
    ));
    // with both tags present, each must name the supported version
    let both_good = with_current
        .replace("\"manifestVersion\":\"1\"", "\"manifestVersion\":\"1\",\"version\":\"1\"");
    assert!(resolve_plugin_manifest(&both_good).is_ok());
    let stale_deprecated = with_current
        .replace("\"manifestVersion\":\"1\"", "\"manifestVersion\":\"1\",\"version\":\"9\"");
    assert!(matches!(
        resolve_plugin_manifest(&stale_deprecated),
        Err(PluginError::UnsupportedSchema)
    ));
}

#[test]
fn malformed_manifests_are_rejected() {
    // not JSON at all
    assert!(matches!(
        resolve_plugin_manifest("not json"),
        Err(PluginError::MalformedManifest)
    ));
    // a required field is missing
    let no_name = linux_manifest_doc().replace("\"name\":\"foo\",", "");
    assert!(matches!(
        resolve_plugin_manifest(&no_name),
        Err(PluginError::MalformedManifest)
    ));
    // an empty package list
    let doc = format!(
        "{{\"name\":\"foo\",\"license\":\"MIT\",\"spinCompatibility\":\">=1.0.0\",\"packages\":[]}}"
    );
    assert!(matches!(
        resolve_plugin_manifest(&doc),
        Err(PluginError::MalformedManifest)
    ));
    // two packages for one operating system
    let doc = format!(
        "{{\"name\":\"foo\",\"license\":\"MIT\",\"spinCompatibility\":\">=1.0.0\",\
         \"packages\":[{{\"os\":\"linux\",\"url\":\"a\",\"sha256\":\"{0}\"}},\
         {{\"os\":\"linux\",\"url\":\"b\",\"sha256\":\"{0}\"}}]}}",
        GOOD_SHA
    );
    assert!(matches!(
        resolve_plugin_manifest(&doc),
        Err(PluginError::MalformedManifest)
    ));
    // a digest that is not 64 hex characters
    let bad_sha = linux_manifest_doc().replace(GOOD_SHA, "abc123");
    assert!(matches!(
        resolve_plugin_manifest(&bad_sha),
        Err(PluginError::MalformedManifest)
    ));
    // package objects are strict: an unknown field rejects the document
    let extra = linux_manifest_doc().replace("\"os\":\"linux\",", "\"os\":\"linux\",\"arch\":\"x86\",");
    assert!(matches!(
        resolve_plugin_manifest(&extra),
        Err(PluginError::MalformedManifest)
    ));
}

#[test]
fn unknown_top_level_fields_are_tolerated() {
    let doc = linux_manifest_doc().replace(
        "\"name\":\"foo\",",
        "\"name\":\"foo\",\"homepage\":\"http://example.com\",\"extras\":[1,true,null,{\"x\":[]}],",
    );
    let m = resolve_plugin_manifest(&doc).unwrap();
    assert_eq!(m.name, "foo");
}

#[test]
fn load_distinguishes_absent_and_corrupt() {
    assert!(matches!(
        PluginStore::load_plugin_manifest(None),
        Err(PluginError::ManifestNotFound)
    ));
    assert!(matches!(
        PluginStore::load_plugin_manifest(Some("{ broken")),
        Err(PluginError::ManifestCorrupt)
    ));
    let doc = linux_manifest_doc();
    let m = PluginStore::load_plugin_manifest(Some(&doc)).unwrap();
    assert_eq!(m.name, "foo");
}

#[test]
fn record_round_trip_is_field_equivalent() {
    let m = resolve_plugin_manifest(&linux_manifest_doc()).unwrap();
    let record = manifest_to_json(&m);
    assert_eq!(
        record,
        format!(
            "{{\"manifestVersion\":\"1\",\"name\":\"foo\",\"description\":\"\",\
             \"license\":\"MIT\",\"spinCompatibility\":\">=1.0.0\",\
             \"packages\":[{{\"os\":\"linux\",\"url\":\"http://x/foo.tar.gz\",\
             \"sha256\":\"{}\"}}]}}",
            GOOD_SHA
        )
    );
    let reloaded = PluginStore::load_plugin_manifest(Some(&record)).unwrap();
    assert_eq!(m, reloaded);
    // and writing the reloaded manifest gives the same bytes
    assert_eq!(record, manifest_to_json(&reloaded));
}

#[test]
fn record_round_trip_with_escaped_characters() {
    let m = PluginManifest {
        name: "we\"ird\\name".to_string(),
        description: "line one\nline\ttwo\r".to_string(),
        license: "MIT".to_string(),
        spin_compatibility: ">=1.0.0".to_string(),
        packages: vec![PackageDescriptor {
            os: Os::MacOs,
            url: "http://x/a.tar.gz".to_string(),
            sha256: GOOD_SHA.to_string(),
        }],
    };
    let record = manifest_to_json(&m);
    let reloaded = PluginStore::load_plugin_manifest(Some(&record)).unwrap();
    assert_eq!(m, reloaded);
}

#[test]
fn digest_of_known_inputs() {
    // the SHA-256 digest of the empty input
    assert_eq!(digest_string(b""), GOOD_SHA);
    assert_eq!(
        digest_string(b"abc"),
        "ba7816bf8f01cfea414140de5dae2223b00361a396177a9cb410ff61f20015ad"
    );
    assert!(verify_checksum(b"", GOOD_SHA).is_ok());
    // comparison is case-insensitive
    assert!(verify_checksum(b"", &GOOD_SHA.to_uppercase()).is_ok());
    match verify_checksum(b"other bytes", GOOD_SHA) {
        Err(PluginError::IntegrityMismatch { expected, actual }) => {
            assert_eq!(expected, GOOD_SHA);
            assert_eq!(actual, digest_string(b"other bytes"));
        }
        other => panic!("expected an integrity mismatch, got {:?}", other),
    }
}
