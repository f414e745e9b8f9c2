use spin_plugins::dispatch::{exit_code_for, get_env_vars_map, plan_dispatch, DispatchPlan};
use spin_plugins::error::PluginError;
use spin_plugins::json::resolve_plugin_manifest;
use spin_plugins::manifest::{Os, PluginManifest};
use spin_plugins::prompt::{parse_response, Prompter};
use spin_plugins::store::PluginStore;
use spin_plugins::uninstall::{PluginUninstaller, UninstallAction};
use spin_plugins::version_check::{check_plugin_spin_compatibility, Version};

const SHA: &str = "e3b0c44298fc1c149afbf4c8996fb92427ae41e4649b934ca495991b7852b855";

fn installed_manifest(range: &str) -> PluginManifest {
    let doc = format!(
        "{{\"name\":\"foo\",\"license\":\"MIT\",\"spinCompatibility\":\"{}\",\
         \"packages\":[{{\"os\":\"linux\",\"url\":\"u\",\"sha256\":\"{}\"}}]}}",
        range, SHA
    );
    resolve_plugin_manifest(&doc).unwrap()
}

#[test]
fn unknown_subcommand_prints_help() {
    let plan = plan_dispatch(
        "foo",
        vec![],
        Err(PluginError::ManifestNotFound),
        "1.0.0",
        "/usr/bin/host",
        "/data/plugins",
        Os::Linux,
    );
    assert!(matches!(plan, DispatchPlan::PrintHelp));
}

#[test]
fn corrupt_record_aborts_dispatch() {
    let plan = plan_dispatch(
        "foo",
        vec![],
        Err(PluginError::ManifestCorrupt),
        "1.0.0",
        "/usr/bin/host",
        "/data/plugins",
        Os::Linux,
    );
    assert!(matches!(
        plan,
        DispatchPlan::Abort { error: PluginError::ManifestCorrupt }
    ));
}

#[test]
fn incompatible_plugin_is_never_executed() {
    let plan = plan_dispatch(
        "foo",
        vec![],
        Ok(installed_manifest(">=2.0.0")),
        "1.0.0",
        "/usr/bin/host",
        "/data/plugins",
        Os::Linux,
    );
    assert!(matches!(
        plan,
        DispatchPlan::Abort { error: PluginError::VersionIncompatible { .. } }
    ));
    let plan = plan_dispatch(
        "foo",
        vec![],
        Ok(installed_manifest("gibberish")),
        "1.0.0",
        "/usr/bin/host",
        "/data/plugins",
        Os::Linux,
    );
    assert!(matches!(
        plan,
        DispatchPlan::Abort { error: PluginError::RangeParseError { .. } }
    ));
}

#[test]
fn compatible_plugin_executes_with_environment() {
    let plan = plan_dispatch(
        "foo",
        vec!["--flag".to_string(), "x".to_string()],
        Ok(installed_manifest(">=1.0.0")),
        "1.2.0",
        "/usr/bin/host",
        "/data/plugins",
        Os::Linux,
    );
    match plan {
        DispatchPlan::Execute { binary, args, env } => {
            assert_eq!(binary, "/data/plugins/foo/foo");
            assert_eq!(args, vec!["--flag".to_string(), "x".to_string()]);
            assert_eq!(env.len(), 3);
            assert_eq!(env[0], ("SPIN_VERSION".to_string(), "1.2.0".to_string()));
            assert_eq!(env[1], ("SPIN_BIN_PATH".to_string(), "/usr/bin/host".to_string()));
            assert_eq!(env[2], ("SPIN_PLUGIN_PATH".to_string(), "/data/plugins/foo".to_string()));
        }
        _ => panic!("expected an execution plan"),
    }
    // the executable suffix is appended only where required
    let plan = plan_dispatch(
        "foo",
        vec![],
        Ok(installed_manifest(">=1.0.0")),
        "1.2.0",
        "C:/host.exe",
        "C:/plugins",
        Os::Windows,
    );
    match plan {
        DispatchPlan::Execute { binary, .. } => assert_eq!(binary, "C:/plugins/foo/foo.exe"),
        _ => panic!("expected an execution plan"),
    }
}

#[test]
fn child_exit_codes_are_mirrored() {
    assert_eq!(exit_code_for(Some(0)), 0);
    assert_eq!(exit_code_for(Some(42)), 42);
    assert_eq!(exit_code_for(None), 1);
}

#[test]
fn env_map_holds_the_three_variables() {
    let env = get_env_vars_map("9.9.9", "/bin/host", "/plugins/p");
    assert_eq!(
        env,
        vec![
            ("SPIN_VERSION".to_string(), "9.9.9".to_string()),
            ("SPIN_BIN_PATH".to_string(), "/bin/host".to_string()),
            ("SPIN_PLUGIN_PATH".to_string(), "/plugins/p".to_string()),
        ]
    );
}

#[test]
fn uninstall_without_record_is_a_no_op() {
    let u = PluginUninstaller::new("foo", "/data/plugins");
    let steps = u.plan(false);
    assert_eq!(steps.len(), 1);
    assert!(matches!(steps[0], UninstallAction::ReportNothingToUninstall));
}

#[test]
fn uninstall_removes_directory_then_record() {
    let u = PluginUninstaller::new("foo", "/data/plugins");
    let steps = u.plan(true);
    assert_eq!(steps.len(), 2);
    match &steps[0] {
        UninstallAction::RemovePluginDir { path } => assert_eq!(path, "/data/plugins/foo"),
        _ => panic!("expected the directory removal first"),
    }
    match &steps[1] {
        UninstallAction::RemoveManifestRecord { path } => {
            assert_eq!(path, "/data/plugins/manifests/foo.json")
        }
        _ => panic!("expected the record removal second"),
    }
}

#[test]
fn test_parse_response() {
    let mut resp = String::from("\n\t  yes   ");
    assert!(parse_response(&mut resp));
}

#[test]
fn consent_replies_other_than_yes_decline() {
    assert!(parse_response("yes"));
    assert!(parse_response("YES"));
    assert!(parse_response("  Yes\n"));
    assert!(!parse_response("no"));
    assert!(!parse_response(""));
    assert!(!parse_response("yess"));
    assert!(!parse_response("y e s"));
}

#[test]
fn consent_trimming_covers_all_whitespace() {
    // the trimmed characters are the Unicode white-space set, as str::trim's
    assert!(parse_response("\u{000C}yes"));
    assert!(parse_response("\u{000B}\u{0085}yes\u{00A0}"));
    assert!(parse_response("\u{2000}\u{200A}yes\u{3000}\u{202F}"));
    assert_eq!(parse_response("\u{000C}yes"), "\u{000C}yes".trim().to_lowercase() == "yes");
    assert!(!parse_response("\u{200B}yes"));  // a zero-width space is not whitespace
}

#[test]
fn prompter_resolves_the_manifest_location() {
    let p = Prompter::new(
        "best-plugin",
        "MIT",
        "https://www.spin.com/spin-plugins/",
        "www.example.com",
    )
    .unwrap();
    assert_eq!(
        p.plugin_repo_url,
        "https://www.spin.com/spin-plugins/best-plugin.json"
    );
    let text = p.prompt_text();
    assert_eq!(
        text,
        "Installing plugin best-plugin with license MIT from www.example.com\n\n\
         For more information, reference the plugin metadata at \
         https://www.spin.com/spin-plugins/best-plugin.json\n\n\
         Are you sure you want to proceed? ('yes'/'no') (default: no)"
    );
}

#[test]
fn store_paths_are_deterministic() {
    assert_eq!(PluginStore::manifest_file_name("foo"), "foo.json");
    assert_eq!(
        PluginStore::installed_manifests_directory("/root/plugins"),
        "/root/plugins/manifests"
    );
    assert_eq!(
        PluginStore::installed_manifest_path("/root/plugins", "foo"),
        "/root/plugins/manifests/foo.json"
    );
    assert_eq!(
        PluginStore::plugin_subdirectory_path("/root/plugins", "foo"),
        "/root/plugins/foo"
    );
    assert_eq!(
        PluginStore::plugin_manifests_repo_path("/root/plugins"),
        "/root/plugins/.spin-plugins"
    );
    assert_eq!(
        PluginStore::spin_plugins_repo_manifest_path(
            "/root/plugins",
            "foo",
            &Some(Version { major: 1, minor: 2, patch: 3 })
        ),
        "/root/plugins/.spin-plugins/manifests/foo/foo@1.2.3.json"
    );
    assert_eq!(
        PluginStore::spin_plugins_repo_manifest_path("/root/plugins", "foo", &None),
        "/root/plugins/.spin-plugins/manifests/foo/foo.json"
    );
}

#[test]
fn compatibility_check_reads_the_manifest_range() {
    let m = installed_manifest(">=1.2.3, <1.8.0");
    assert!(check_plugin_spin_compatibility("1.3.0", &m).is_ok());
    assert!(check_plugin_spin_compatibility("1.8.0", &m).is_err());
}

#[test]
fn error_messages_render() {
    let e = PluginError::VersionIncompatible {
        required: ">=2.0.0".to_string(),
        actual: "1.0.0".to_string(),
    };
    assert_eq!(
        e.message(),
        "plugin is compatible with host versions >=2.0.0 but this host is version 1.0.0"
    );
    assert_eq!(
        PluginError::ManifestNotFound.message(),
        "the plugin is not installed"
    );
}
