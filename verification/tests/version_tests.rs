use spin_plugins::error::PluginError;
use spin_plugins::version_check::{
    assert_supported_version, parse_range, parse_version, CompareOp, Comparator, Version,
};

#[test]
fn test_supported_version() {
    let test_case = ">=1.2.3, <1.8.0";
    let input_output = [
        ("1.3.0", true),
        ("1.2.3", true),
        ("1.8.0", false),
        ("1.9.0", false),
        ("1.2.0", false),
    ];
    input_output
        .into_iter()
        .for_each(|(i, o)| assert_eq!(assert_supported_version(i, test_case).is_err(), !o));
}

#[test]
fn parse_version_accepts_plain_triples() {
    assert_eq!(
        parse_version(" 1.2.3 "),
        Some(Version { major: 1, minor: 2, patch: 3 })
    );
    assert_eq!(
        parse_version("0.10.0"),
        Some(Version { major: 0, minor: 10, patch: 0 })
    );
}

#[test]
fn parse_version_rejects_bad_shapes() {
    assert_eq!(parse_version(""), None);
    assert_eq!(parse_version("1.2"), None);
    assert_eq!(parse_version("1.2.3.4"), None);
    assert_eq!(parse_version("01.2.3"), None);
    assert_eq!(parse_version("1.2.x"), None);
    // more digits than any u64 value has
    assert_eq!(parse_version("99999999999999999999.0.0"), None);
    // the largest value that fits is accepted
    assert_eq!(
        parse_version("18446744073709551615.0.0"),
        Some(Version { major: u64::MAX, minor: 0, patch: 0 })
    );
    assert_eq!(parse_version("18446744073709551616.0.0"), None);
}

#[test]
fn parse_range_splits_comparator_clauses() {
    assert_eq!(
        parse_range("  >=1.2.3 , <1.8.0 "),
        Some(vec![
            Comparator { op: CompareOp::GreaterEq, ver: Version { major: 1, minor: 2, patch: 3 } },
            Comparator { op: CompareOp::Less, ver: Version { major: 1, minor: 8, patch: 0 } },
        ])
    );
    // a bare version behaves like a caret requirement
    assert_eq!(
        parse_range("1.2.3"),
        Some(vec![Comparator {
            op: CompareOp::Caret,
            ver: Version { major: 1, minor: 2, patch: 3 },
        }])
    );
    assert_eq!(parse_range(""), None);
    assert_eq!(parse_range(">=1.2.3,"), None);
    assert_eq!(parse_range("nonsense"), None);
}

#[test]
fn caret_and_tilde_semantics() {
    assert!(assert_supported_version("1.9.9", "^1.2.3").is_ok());
    assert!(assert_supported_version("2.0.0", "^1.2.3").is_err());
    assert!(assert_supported_version("1.2.2", "^1.2.3").is_err());
    assert!(assert_supported_version("0.2.9", "^0.2.3").is_ok());
    assert!(assert_supported_version("0.3.0", "^0.2.3").is_err());
    assert!(assert_supported_version("1.2.9", "~1.2.3").is_ok());
    assert!(assert_supported_version("1.3.0", "~1.2.3").is_err());
    assert!(assert_supported_version("1.5.0", "=1.5.0").is_ok());
    assert!(assert_supported_version("1.5.1", "=1.5.0").is_err());
}

#[test]
fn range_parse_error_names_the_expression() {
    match assert_supported_version("1.0.0", "not a range") {
        Err(PluginError::RangeParseError { expression }) => {
            assert_eq!(expression, "not a range");
        }
        other => panic!("expected a range parse error, got {:?}", other),
    }
    // an unparseable host version string is a parse error as well
    match assert_supported_version("not a version", ">=1.0.0") {
        Err(PluginError::RangeParseError { expression }) => {
            assert_eq!(expression, "not a version");
        }
        other => panic!("expected a range parse error, got {:?}", other),
    }
}

#[test]
fn incompatible_error_names_range_and_version() {
    match assert_supported_version("2.0.0", ">=1.0.0, <2.0.0") {
        Err(PluginError::VersionIncompatible { required, actual }) => {
            assert_eq!(required, ">=1.0.0, <2.0.0");
            assert_eq!(actual, "2.0.0");
        }
        other => panic!("expected a version incompatibility, got {:?}", other),
    }
}
