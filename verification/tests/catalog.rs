use papier::catalog::{
    bake_rgba, catalog, display_name, spec_for, veil_level, warm_rgba, warmed_channel, CATALOG_LEN,
    CREAM_BLUE, CREAM_GREEN, CREAM_RED,
};
use papier::grain::{texture_spec, GrayTile};

#[test]
fn catalog_entries_in_menu_order() {
    let c = catalog();
    assert_eq!(c.len(), CATALOG_LEN);
    let pairs: Vec<(&str, &str)> = c.iter().map(|e| (e.key, e.display)).collect();
    assert_eq!(
        pairs,
        vec![
            ("classic-matte", "Classic Matte"),
            ("whisper-weave", "Whisper Weave"),
            ("sunbaked-parchment", "Sunbaked Parchment"),
        ]
    );
    for e in &c {
        assert!(texture_spec(e.key).is_some(), "catalog key {} unknown to the engine", e.key);
    }
}

#[test]
fn display_names_fall_back_to_key() {
    assert_eq!(display_name("classic-matte"), "Classic Matte");
    assert_eq!(display_name("whisper-weave"), "Whisper Weave");
    assert_eq!(display_name("sunbaked-parchment"), "Sunbaked Parchment");
    assert_eq!(display_name("nope"), "nope");
    assert_eq!(display_name(""), "");
}

#[test]
fn spec_for_falls_back_to_classic_matte() {
    let s = spec_for("whisper-weave");
    assert_eq!((s.base_frequency_milli, s.seed), (1200, 2));
    let fallback = spec_for("nope");
    assert_eq!((fallback.base_frequency_milli, fallback.octaves, fallback.seed, fallback.size), (1500, 3, 1, 200));
    let empty = spec_for("");
    assert_eq!(empty.seed, 1);
}

/// The veil level as the overlay defines it, in single-precision floating point.
fn reference_veil_level(g: u8) -> u8 {
    const VEIL_TONE: f32 = 0.78;
    const GRAIN_AMP: f32 = 0.10;
    let d = (g as f32 / 255.0) - 0.5;
    let tone = (VEIL_TONE + d * 2.0 * GRAIN_AMP).clamp(0.0, 1.0);
    (tone * 255.0).round() as u8
}

#[test]
fn veil_level_matches_float_recipe_for_every_sample() {
    for g in 0..=255u8 {
        assert_eq!(veil_level(g), reference_veil_level(g), "grain sample {g}");
    }
}

#[test]
fn veil_attenuates_contrast() {
    assert_eq!(veil_level(0), 173);
    assert_eq!(veil_level(128), 199);
    assert_eq!(veil_level(255), 224);
    for g in 0..255u8 {
        assert!(veil_level(g) <= veil_level(g + 1));
        assert!((173..=224).contains(&veil_level(g)));
    }
}

#[test]
fn bake_rgba_is_neutral_full_coverage() {
    let tile = GrayTile { size: 2, pixels: vec![0, 255, 128, 64] };
    let rgba = bake_rgba(&tile);
    assert_eq!(
        rgba,
        vec![173, 173, 173, 255, 224, 224, 224, 255, 199, 199, 199, 255, 186, 186, 186, 255]
    );
    let empty = GrayTile { size: 0, pixels: Vec::new() };
    assert!(bake_rgba(&empty).is_empty());
}

#[test]
fn bake_rgba_leaves_missing_samples_transparent() {
    let short = GrayTile { size: 2, pixels: vec![255] };
    let mut expected = vec![224, 224, 224, 255];
    expected.extend([0u8; 12]);
    assert_eq!(bake_rgba(&short), expected);
}

#[test]
fn warmth_is_opt_in_and_turns_toward_cream() {
    let veil = vec![224u8, 224, 224, 255, 173, 173, 173, 255];
    assert_eq!(warm_rgba(&veil, 0), veil);
    assert_eq!(warmed_channel(255, CREAM_GREEN, 1000), CREAM_GREEN);
    assert_eq!(warmed_channel(255, CREAM_BLUE, 1000), CREAM_BLUE);
    assert_eq!(warmed_channel(200, CREAM_RED, 1000), 200);
    // 224 * (1 - 0.5 * 41/255) = 205.99..., rounded to 206.
    assert_eq!(warmed_channel(224, CREAM_BLUE, 500), 206);
    let warm = warm_rgba(&veil, 1000);
    assert_eq!(warm[0], 224);
    assert_eq!(warm[3], 255);
    assert!(warm[1] < 224 && warm[2] < warm[1]);
    assert!(warm_rgba(&Vec::new(), 700).is_empty());
}
