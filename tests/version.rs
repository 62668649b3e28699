use prover_server::version::{
    as_string, check_circuit_version, check_trace_version, format_version, join_version,
    parse_version_numbers, VersionError, MAJOR, MINOR, PATCH,
};

#[test]
fn test_version_string() {
    let expected = "0.1.5";
    assert_eq!(MAJOR, 0, "wrong version");
    assert_eq!(MINOR, 1, "wrong version");
    assert_eq!(PATCH, 5, "wrong version");
    assert_eq!(as_string(), expected, "wrong version");
}

#[test]
fn test_check_trace_version() {
    let trace_ver = "0.5.1";
    assert!(check_trace_version(trace_ver));
    let trace_ver_prefix_v = "v0.5.1";
    assert!(check_trace_version(trace_ver_prefix_v));
    let trace_ver_suffix = "v0.5.1-unstable";
    assert!(check_trace_version(trace_ver_suffix));

    let trace_ver_wrong = "v0.1.0";
    assert!(!check_trace_version(trace_ver_wrong));
}

#[test]
fn test_check_circuit_version() {
    assert!(check_circuit_version("0.2.0"));
    assert!(!check_circuit_version("v0.2.0"));
    assert!(!check_circuit_version("0.2.1"));
}

#[test]
fn normalizes_all_three_shapes_to_the_same_version() {
    assert_eq!(format_version("0.5.1"), Ok("0.5.1".to_string()));
    assert_eq!(format_version("v0.5.1"), Ok("0.5.1".to_string()));
    assert_eq!(format_version("v0.5.1-unstable"), Ok("0.5.1".to_string()));
    assert_eq!(format_version("v0.1.0"), Ok("0.1.0".to_string()));
}

#[test]
fn normalization_drops_leading_zeros() {
    assert_eq!(format_version("00.05.001"), Ok("0.5.1".to_string()));
    assert!(check_trace_version("v00.5.03"));
}

#[test]
fn malformed_versions_are_parse_errors() {
    for bad in [
        "", "v", "0.5", "0.5.", ".5.1", "0..1", "x0.5.1", "vv0.5.1", "0.5.1-", "0.5.1+x",
        "0.5.1 ", "0.5.1-a\n", "0.a.1", "4294967296.0.0", "\u{0665}.5.1",
    ] {
        assert_eq!(format_version(bad), Err(VersionError::ParseError), "{bad:?}");
        assert!(!check_trace_version(bad), "{bad:?}");
    }
}

#[test]
fn largest_numbers_still_read() {
    assert_eq!(
        format_version("4294967295.4294967295.4294967295-rc.1"),
        Ok("4294967295.4294967295.4294967295".to_string())
    );
    assert_eq!(parse_version_numbers("v1.22.333"), Some((1, 22, 333)));
}

#[test]
fn only_allow_listed_trace_versions_pass() {
    assert!(check_trace_version("0.5.2"));
    assert!(check_trace_version("0.5.3-beta"));
    assert!(!check_trace_version("0.5.4"));
    assert!(!check_trace_version("1.5.1"));
}

#[test]
fn join_version_renders_decimal() {
    assert_eq!(join_version(10, 0, 907), "10.0.907");
}

#[test]
fn normalizing_twice_changes_nothing() {
    for tag in ["v0.5.1-unstable", "007.0.10", "4294967295.1.0-x"] {
        let once = format_version(tag).unwrap();
        assert_eq!(format_version(&once), Ok(once.clone()));
        assert_eq!(format_version(&format!("v{once}-rc")), Ok(once.clone()));
    }
}
