use papier::exclusion::should_suppress;

fn list() -> Vec<String> {
    vec![
        "com.apple.FinalCutPro".to_string(),
        "com.figma.Desktop".to_string(),
    ]
}

#[test]
fn suppresses_when_frontmost_in_allowlist() {
    assert!(should_suppress(Some("com.figma.Desktop"), &list()));
}

#[test]
fn does_not_suppress_when_not_in_allowlist() {
    assert!(!should_suppress(Some("com.apple.Safari"), &list()));
}

#[test]
fn does_not_suppress_when_no_frontmost() {
    assert!(!should_suppress(None, &list()));
}

#[test]
fn empty_allowlist_never_suppresses() {
    assert!(!should_suppress(Some("com.figma.Desktop"), &[]));
}

#[test]
fn first_entry_of_allowlist_suppresses() {
    assert!(should_suppress(Some("com.apple.FinalCutPro"), &list()));
}

#[test]
fn allowlist_match_is_exact() {
    assert!(!should_suppress(Some("com.figma.desktop"), &list()));
    assert!(!should_suppress(Some("com.figma"), &list()));
    assert!(!should_suppress(Some(""), &list()));
}
