use axon::build_info::rustc_version;

#[test]
fn test_rustc_version_returns_non_empty() {
    assert!(!rustc_version(None).is_empty());
    assert_eq!(rustc_version(None), "stable");
    assert_eq!(rustc_version(Some("1.80.0")), "1.80.0");
}
