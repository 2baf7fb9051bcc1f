use kode::is_active_values;

#[test]
fn external_cli_is_inactive() {
    assert!(!is_active_values(None, None, None, None));
    assert!(!is_active_values(None, Some("42"), Some("codex"), None));
    assert!(!is_active_values(Some("1"), Some("42"), None, None));
}

#[test]
fn kode_session_requires_matching_backend_when_requested() {
    assert!(is_active_values(Some("1"), Some("42"), Some("codex"), None));
    assert!(is_active_values(
        Some("1"),
        Some("42"),
        Some("codex"),
        Some("codex")
    ));
    assert!(!is_active_values(
        Some("1"),
        Some("42"),
        Some("gemini"),
        Some("codex")
    ));
    assert!(is_active_values(
        Some("1"),
        Some("42"),
        Some("unknown"),
        None
    ));
    assert!(!is_active_values(
        Some("1"),
        Some("  "),
        Some("codex"),
        None
    ));
}

#[test]
fn host_marker_must_be_exactly_one() {
    assert!(!is_active_values(Some("0"), Some("42"), Some("codex"), None));
    assert!(!is_active_values(Some(" 1"), Some("42"), Some("codex"), None));
    assert!(!is_active_values(Some("11"), Some("42"), Some("codex"), None));
}

#[test]
fn blank_backend_key_is_inactive() {
    assert!(!is_active_values(Some("1"), Some("42"), Some(" \t\n"), None));
    assert!(!is_active_values(Some("1"), Some("\u{3000}"), Some("codex"), None));
    assert!(is_active_values(Some("1"), Some(" 42 "), Some(" codex "), None));
}

#[test]
fn expected_backend_only_narrows_on_concrete_values() {
    // Active for an expected backend implies active without one.
    assert!(is_active_values(Some("1"), Some("7"), Some("gemini"), Some("gemini")));
    assert!(is_active_values(Some("1"), Some("7"), Some("gemini"), None));
    // The comparison is exact, padding included.
    assert!(!is_active_values(Some("1"), Some("7"), Some(" gemini"), Some("gemini")));
}
