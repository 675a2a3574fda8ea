use papier::settings::{default_enabled, default_texture, normalize_texture, Preferences, DEFAULT_TEXTURE};

#[test]
fn preference_defaults() {
    let p = Preferences::default();
    assert!(p.enabled);
    assert_eq!(p.texture, DEFAULT_TEXTURE);
    assert!(p.exclusion_list.is_empty());
    assert!(!p.pause_on_battery);
    assert!(!p.login_item);
    assert!(default_enabled());
    assert_eq!(default_texture(), "classic-matte");
}

#[test]
fn normalize_texture_replaces_blank_names() {
    for blank in ["", "   ", "\t\n", " \u{a0}\u{3000} "] {
        let mut t = blank.to_string();
        normalize_texture(&mut t);
        assert_eq!(t, DEFAULT_TEXTURE, "for {blank:?}");
    }
}

#[test]
fn normalize_texture_keeps_named_textures() {
    for name in ["whisper-weave", " padded ", "x", "nope"] {
        let mut t = name.to_string();
        normalize_texture(&mut t);
        assert_eq!(t, name);
    }
}

#[test]
fn preferences_normalize_only_touches_texture() {
    let mut p = Preferences {
        enabled: false,
        texture: "   ".into(),
        exclusion_list: vec!["com.figma.Desktop".into()],
        pause_on_battery: true,
        login_item: true,
    };
    p.normalize();
    assert_eq!(p.texture, DEFAULT_TEXTURE);
    assert!(!p.enabled);
    assert_eq!(p.exclusion_list, vec!["com.figma.Desktop".to_string()]);
    assert!(p.pause_on_battery && p.login_item);
    p.normalize();
    assert_eq!(p.texture, DEFAULT_TEXTURE);
}

#[test]
fn normalize_replaces_empty_texture() {
    let mut s = Preferences {
        texture: "   ".into(),
        ..Default::default()
    };
    s.normalize();
    assert_eq!(s.texture, DEFAULT_TEXTURE);
}
