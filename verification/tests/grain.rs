use papier::grain::{
    fleck_rgba, fleck_style, lattice_hash, next_period, octave_seed, texture_spec, wrap_cell,
    Polarity, TextureSpec, OCTAVE_SEED_STEP,
};

#[test]
fn texture_catalog_lookup() {
    assert!(texture_spec("classic-matte").is_some());
    assert!(texture_spec("whisper-weave").is_some());
    assert!(texture_spec("sunbaked-parchment").is_some());
    assert!(texture_spec("nope").is_none());
    assert_eq!(texture_spec("classic-matte").unwrap().octaves, 3);
    assert_eq!(texture_spec("sunbaked-parchment").unwrap().size, 200);
}

#[test]
fn catalog_frequencies_and_seeds() {
    let c = texture_spec("classic-matte").unwrap();
    assert_eq!((c.base_frequency_milli, c.seed, c.octaves, c.size), (1500, 1, 3, 200));
    let w = texture_spec("whisper-weave").unwrap();
    assert_eq!((w.base_frequency_milli, w.seed, w.octaves, w.size), (1200, 2, 3, 200));
    let s = texture_spec("sunbaked-parchment").unwrap();
    assert_eq!((s.base_frequency_milli, s.seed, s.octaves, s.size), (900, 3, 3, 200));
    assert!(texture_spec("").is_none());
    assert!(texture_spec("Classic-Matte").is_none());
    assert!(texture_spec("classic-matte ").is_none());
}

fn spec(milli: u32, octaves: u32, size: u32) -> TextureSpec {
    TextureSpec { base_frequency_milli: milli, octaves, seed: 42, size }
}

#[test]
fn base_cycles_round_half_up_at_least_one() {
    // f64::round of the frequency, then at least one cycle.
    for (milli, expected) in [
        (1500u32, 2u32),
        (1200, 1),
        (900, 1),
        (0, 1),
        (499, 1),
        (2499, 2),
        (2500, 3),
        (u32::MAX, 4_294_967),
    ] {
        assert_eq!(spec(milli, 3, 200).base_cycles(), expected, "milli {milli}");
        let f = milli as f64 / 1000.0;
        assert_eq!(f.round().max(1.0) as u32, expected, "float reference for {milli}");
    }
}

#[test]
fn rendered_size_and_octaves_at_least_one() {
    assert_eq!(spec(1500, 0, 0).rendered_size(), 1);
    assert_eq!(spec(1500, 0, 0).rendered_octaves(), 1);
    assert_eq!(spec(1500, 5, 64).rendered_size(), 64);
    assert_eq!(spec(1500, 5, 64).rendered_octaves(), 5);
}

#[test]
fn octave_seeds_step_by_golden_constant() {
    assert_eq!(octave_seed(42, 0), 42);
    assert_eq!(octave_seed(42, 1), 42u32.wrapping_add(0x9E37_79B9));
    assert_eq!(octave_seed(42, 2), 42u32.wrapping_add(2u32.wrapping_mul(OCTAVE_SEED_STEP)));
    assert_eq!(octave_seed(1, 2), 0x3C6E_F373);
    assert_eq!(octave_seed(u32::MAX, 1), 0x9E37_79B8);
}

#[test]
fn periods_double_and_saturate() {
    assert_eq!(next_period(1), 2);
    assert_eq!(next_period(2), 4);
    assert_eq!(next_period(0), 1);
    assert_eq!(next_period(0x8000_0000), u32::MAX);
    assert_eq!(next_period(u32::MAX), u32::MAX);
    assert_eq!(next_period(0x7FFF_FFFF), 0xFFFF_FFFE);
}

/// The lattice value as the engine defines it, in floating point.
fn reference_lattice_value(x: u32, y: u32, seed: u32) -> f64 {
    let mut h = (x as u64) << 32 | (y as u64);
    h ^= (seed as u64).wrapping_mul(0x9E37_79B9_7F4A_7C15);
    h = h.wrapping_add(0x9E37_79B9_7F4A_7C15);
    h = (h ^ (h >> 30)).wrapping_mul(0xBF58_476D_1CE4_E5B9);
    h = (h ^ (h >> 27)).wrapping_mul(0x94D0_49BB_1331_11EB);
    h ^= h >> 31;
    (h >> 11) as f64 / (1u64 << 53) as f64
}

#[test]
fn lattice_hash_matches_engine_values() {
    for (x, y, seed) in [(0, 0, 0), (1, 0, 0), (0, 1, 0), (3, 7, 42), (u32::MAX, u32::MAX, u32::MAX), (5, 2, 0x9E37_79B9)] {
        let h = lattice_hash(x, y, seed);
        assert!(h < (1u64 << 53));
        let v = h as f64 / (1u64 << 53) as f64;
        assert_eq!(v, reference_lattice_value(x, y, seed));
        assert!((0.0..1.0).contains(&v));
    }
    // splitmix64 of 0 (the packed coordinates 0, 0 with seed 0), top 53 bits.
    assert_eq!(lattice_hash(0, 0, 0), 0xE220_A839_7B1D_CDAF >> 11);
    assert_ne!(lattice_hash(0, 0, 0), lattice_hash(0, 0, 1));
    assert_ne!(lattice_hash(1, 0, 0), lattice_hash(0, 1, 0));
}

#[test]
fn wrap_cell_is_euclidean_and_periodic() {
    for period in [1u32, 2, 3, 7] {
        for c in -20i64..20 {
            let w = wrap_cell(c, period);
            assert_eq!(w as i64, c.rem_euclid(period as i64));
            assert!(w < period);
            assert_eq!(wrap_cell(c + period as i64, period), w);
        }
    }
    assert_eq!(wrap_cell(-1, 4), 3);
    assert_eq!(wrap_cell(4, 4), 0);
    assert_eq!(wrap_cell(i64::MIN, 3), i64::MIN.rem_euclid(3) as u32);
}

#[test]
fn fleck_colours_by_polarity() {
    assert_eq!(fleck_style(&Polarity::DarkFleck), (0, true));
    assert_eq!(fleck_style(&Polarity::LightFleck), (255, false));
}

#[test]
fn fleck_layer_layout() {
    let alphas = vec![0u8, 17, 255, 9];
    assert_eq!(
        fleck_rgba(&Polarity::DarkFleck, &alphas, 2),
        vec![0, 0, 0, 0, 0, 0, 0, 17, 0, 0, 0, 255, 0, 0, 0, 9]
    );
    assert_eq!(
        fleck_rgba(&Polarity::LightFleck, &alphas, 2),
        vec![255, 255, 255, 0, 255, 255, 255, 17, 255, 255, 255, 255, 255, 255, 255, 9]
    );
    assert!(fleck_rgba(&Polarity::LightFleck, &Vec::new(), 0).is_empty());
    let mut padded = vec![255u8, 255, 255, 40];
    padded.extend([0u8; 12]);
    assert_eq!(fleck_rgba(&Polarity::LightFleck, &vec![40], 2), padded);
}
