//! The overlay's texture catalog and the contrast-attenuating veil (with its
//! opt-in warm tint) that the overlay tiles over the screen.

use vstd::prelude::*;
use crate::grain::{catalog_spec, texture_spec, GrayTile, TextureSpec};
use crate::text::str_eq;

verus! {

/// One entry in the texture catalog.
pub struct TextureEntry {
    /// Catalog key understood by `texture_spec`.
    pub key: &'static str,
    /// Human-readable name for the menu.
    pub display: &'static str,
}

/// The catalog, in menu order: (key, display name) of each entry.
pub open spec fn catalog_view() -> Seq<(Seq<char>, Seq<char>)> {
    seq![
        ("classic-matte"@, "Classic Matte"@),
        ("whisper-weave"@, "Whisper Weave"@),
        ("sunbaked-parchment"@, "Sunbaked Parchment"@),
    ]
}

/// Number of catalog entries.
pub const CATALOG_LEN: usize = 3;

/// The catalog of textures the overlay offers (keys match `texture_spec`).
pub fn catalog() -> (r: Vec<TextureEntry>)
    ensures
        r@.len() == CATALOG_LEN,
        forall|i: int| 0 <= i < r@.len() ==> (#[trigger] r@[i].key@, r@[i].display@) == catalog_view()[i],
{
    let mut v: Vec<TextureEntry> = Vec::new();
    v.push(TextureEntry { key: "classic-matte", display: "Classic Matte" });
    v.push(TextureEntry { key: "whisper-weave", display: "Whisper Weave" });
    v.push(TextureEntry { key: "sunbaked-parchment", display: "Sunbaked Parchment" });
    v
}

/// Index of `key` in the catalog, if it is there.
pub open spec fn catalog_index(key: Seq<char>) -> Option<int> {
    if key == catalog_view()[0].0 {
        Some(0)
    } else if key == catalog_view()[1].0 {
        Some(1)
    } else if key == catalog_view()[2].0 {
        Some(2)
    } else {
        None
    }
}

/// Display name of a key: the catalog's, or the key itself when unknown.
pub open spec fn display_name_of(key: Seq<char>) -> Seq<char> {
    match catalog_index(key) {
        Some(i) => catalog_view()[i].1,
        None => key,
    }
}

/// Look up the display name for a catalog key (falls back to the key itself).
pub fn display_name(key: &str) -> (r: &str)
    ensures
        r@ == display_name_of(key@),
{
    let entries = catalog();
    let mut i: usize = 0;
    while i < entries.len()
        invariant
            i <= entries@.len(),
            entries@.len() == CATALOG_LEN,
            forall|j: int| 0 <= j < entries@.len() ==> (#[trigger] entries@[j].key@, entries@[j].display@) == catalog_view()[j],
            forall|j: int| 0 <= j < i ==> key@ != catalog_view()[j].0,
        decreases entries@.len() - i,
    {
        if str_eq(entries[i].key, key) {
            assert(entries@[i as int].key@ == catalog_view()[i as int].0);
            return entries[i].display;
        }
        i = i + 1;
    }
    key
}

/// The spec a catalog key resolves to, falling back to `classic-matte`.
pub open spec fn resolved_spec(key: Seq<char>) -> TextureSpec {
    match catalog_spec(key) {
        Some(s) => s,
        None => catalog_spec("classic-matte"@).unwrap(),
    }
}

/// Resolve a catalog key to a spec, falling back to `classic-matte`.
pub fn spec_for(key: &str) -> (r: TextureSpec)
    ensures
        r == resolved_spec(key@),
{
    match texture_spec(key) {
        Some(s) => s,
        None => {
            let fallback = texture_spec("classic-matte");
            match fallback {
                Some(s) => s,
                None => {
                    // Unreachable: `classic-matte` is always a catalog entry.
                    assert(false);
                    TextureSpec { base_frequency_milli: 1500, octaves: 3, seed: 1, size: 200 }
                },
            }
        },
    }
}

/// The catalog mirrors the grain engine's known names: every entry's key has
/// a texture spec, and no two entries share a key.
pub proof fn lemma_catalog_keys_are_known_and_distinct()
    ensures
        forall|i: int| 0 <= i < CATALOG_LEN ==> (#[trigger] catalog_spec(catalog_view()[i].0)) is Some,
        forall|i: int, j: int| 0 <= i < CATALOG_LEN && 0 <= j < CATALOG_LEN && i != j
            ==> #[trigger] catalog_view()[i].0 != #[trigger] catalog_view()[j].0,
        forall|i: int| 0 <= i < CATALOG_LEN ==> catalog_index(#[trigger] catalog_view()[i].0) == Some(i),
{
    reveal_strlit("classic-matte");
    reveal_strlit("whisper-weave");
    reveal_strlit("sunbaked-parchment");
    assert("classic-matte"@[0] != "whisper-weave"@[0]);
    assert("classic-matte"@[0] != "sunbaked-parchment"@[0]);
    assert("whisper-weave"@[0] != "sunbaked-parchment"@[0]);
}

/// Any key resolves to a spec without failing: a catalog key to its own
/// spec, any other key to the spec of `classic-matte`.
pub proof fn lemma_spec_for_falls_back(key: Seq<char>)
    ensures
        catalog_spec("classic-matte"@) is Some,
        catalog_spec(key) matches Some(s) ==> resolved_spec(key) == s,
        catalog_spec(key) is None ==> resolved_spec(key) == catalog_spec("classic-matte"@).unwrap(),
{
}

/// Each catalog key is shown under its own display name (classic matte,
/// whisper weave, sunbaked parchment); any other key is shown as itself.
pub proof fn lemma_display_names(key: Seq<char>)
    ensures
        key == "classic-matte"@ ==> display_name_of(key) == "Classic Matte"@,
        key == "whisper-weave"@ ==> display_name_of(key) == "Whisper Weave"@,
        key == "sunbaked-parchment"@ ==> display_name_of(key) == "Sunbaked Parchment"@,
        key != "classic-matte"@ && key != "whisper-weave"@ && key != "sunbaked-parchment"@
            ==> display_name_of(key) == key,
{
    reveal_strlit("classic-matte");
    reveal_strlit("whisper-weave");
    reveal_strlit("sunbaked-parchment");
    assert("classic-matte"@[0] != "whisper-weave"@[0]);
    assert("classic-matte"@[0] != "sunbaked-parchment"@[0]);
    assert("whisper-weave"@[0] != "sunbaked-parchment"@[0]);
}

/// Veil tone the overlay washes the desktop toward, in thousandths (0.78):
/// light neutral, so it reads as paper.
pub const VEIL_TONE_MILLI: i64 = 780;
/// Matte-tooth amplitude, in thousandths (0.10): how far the grain moves the
/// veil's luminance.
pub const GRAIN_AMP_MILLI: i64 = 100;

/// The veil tone for grain sample `g`, scaled to 0..=255 and rounded half up:
/// `round(255 * clamp(tone + (g / 255 - 1/2) * 2 * amp, 0, 1))`, computed
/// exactly in thousandths of a level.
pub open spec fn veil_level_of(g: u8) -> u8 {
    let scaled = 255 * VEIL_TONE_MILLI + (2 * g as int - 255) * GRAIN_AMP_MILLI;
    let clamped = if scaled < 0 { 0 } else if scaled > 255_000 { 255_000 } else { scaled };
    ((clamped + 500) / 1000) as u8
}

/// The veil attenuates contrast: whatever the grain, its level stays between
/// 173 and 224 (it lifts the blacks and lowers the whites of what lies
/// beneath), and it never darkens as the grain sample brightens.
pub proof fn lemma_veil_attenuates_contrast(g: u8, h: u8)
    ensures
        173 <= veil_level_of(g) <= 224,
        g <= h ==> veil_level_of(g) <= veil_level_of(h),
        veil_level_of(0) == 173,
        veil_level_of(255) == 224,
{
    let sg = 255 * VEIL_TONE_MILLI + (2 * g as int - 255) * GRAIN_AMP_MILLI;
    let sh = 255 * VEIL_TONE_MILLI + (2 * h as int - 255) * GRAIN_AMP_MILLI;
    assert(173_400 <= sg <= 224_400);
    assert(173_400 <= sh <= 224_400);
    vstd::arithmetic::div_mod::lemma_div_is_ordered(173_900, sg + 500, 1000);
    vstd::arithmetic::div_mod::lemma_div_is_ordered(sg + 500, 224_900, 1000);
    if g <= h {
        vstd::arithmetic::div_mod::lemma_div_is_ordered(sg + 500, sh + 500, 1000);
    }
}

/// The veil level over grain sample `g` is the level nearest to
/// `255 * (0.78 + (g / 255 - 1/2) * 0.2) = 173.4 + g / 5`: ten times the level
/// is within five of `1734 + 2 g`.
pub proof fn lemma_veil_is_nearest_level(g: u8)
    ensures
        10 * veil_level_of(g) <= 1734 + 2 * g + 5,
        1734 + 2 * g + 5 < 10 * veil_level_of(g) + 10,
{
    let scaled = 255 * VEIL_TONE_MILLI + (2 * g as int - 255) * GRAIN_AMP_MILLI;
    assert(scaled == 173_400 + 200 * g);
    let v = (scaled + 500) / 1000;
    assert(1000 * v <= scaled + 500 < 1000 * v + 1000) by (nonlinear_arith)
        requires v == (scaled + 500) / 1000;
}

/// Gray level of the veil over grain sample `g`.
pub fn veil_level(g: u8) -> (r: u8)
    ensures
        r == veil_level_of(g),
{
    let scaled: i64 = 255 * VEIL_TONE_MILLI + (2 * (g as i64) - 255) * GRAIN_AMP_MILLI;
    let clamped: i64 = if scaled < 0 { 0 } else if scaled > 255_000 { 255_000 } else { scaled };
    ((clamped + 500) / 1000) as u8
}

/// Bake the overlay texture: a full-coverage neutral veil whose luminance the
/// grain perturbs. Pixel `i` of the `size * size` output is `[v, v, v, 255]`
/// with `v` the veil level of grain sample `i`; pixels beyond the tile's
/// samples stay zero. The window's alpha later scales the veil to the user's
/// intensity.
pub fn bake_rgba(tile: &GrayTile) -> (r: Vec<u8>)
    requires
        tile.pixels@.len() <= tile.size * tile.size,
        4 * (tile.size * tile.size) <= usize::MAX,
    ensures
        r@.len() == 4 * (tile.size * tile.size),
        forall|i: int| 0 <= i < tile.pixels@.len() ==> {
            &&& #[trigger] r@[4 * i] == veil_level_of(tile.pixels@[i])
            &&& r@[4 * i + 1] == veil_level_of(tile.pixels@[i])
            &&& r@[4 * i + 2] == veil_level_of(tile.pixels@[i])
            &&& r@[4 * i + 3] == 255
        },
        forall|k: int| 4 * tile.pixels@.len() <= k < r@.len() ==> #[trigger] r@[k] == 0,
{
    let total: usize = 4 * ((tile.size as usize) * (tile.size as usize));
    let mut out: Vec<u8> = Vec::new();
    let mut i: usize = 0;
    while i < tile.pixels.len()
        invariant
            i <= tile.pixels@.len(),
            4 * tile.pixels@.len() <= total,
            out@.len() == 4 * i,
            forall|j: int| 0 <= j < i ==> {
                &&& #[trigger] out@[4 * j] == veil_level_of(tile.pixels@[j])
                &&& out@[4 * j + 1] == veil_level_of(tile.pixels@[j])
                &&& out@[4 * j + 2] == veil_level_of(tile.pixels@[j])
                &&& out@[4 * j + 3] == 255
            },
        decreases tile.pixels@.len() - i,
    {
        let v = veil_level(tile.pixels[i]);
        let ghost prev = out@;
        out.push(v);
        out.push(v);
        out.push(v);
        out.push(255u8);
        assert forall|j: int| 0 <= j < i + 1 implies {
            &&& #[trigger] out@[4 * j] == veil_level_of(tile.pixels@[j])
            &&& out@[4 * j + 1] == veil_level_of(tile.pixels@[j])
            &&& out@[4 * j + 2] == veil_level_of(tile.pixels@[j])
            &&& out@[4 * j + 3] == 255
        } by {
            if j < i {
                assert(prev[4 * j] == veil_level_of(tile.pixels@[j]));
            }
        }
        i = i + 1;
    }
    let ghost baked = out@;
    while out.len() < total
        invariant
            4 * tile.pixels@.len() <= out@.len() <= total,
            baked.len() == 4 * tile.pixels@.len(),
            forall|k: int| 0 <= k < baked.len() ==> #[trigger] out@[k] == baked[k],
            forall|k: int| baked.len() <= k < out@.len() ==> #[trigger] out@[k] == 0,
        decreases total - out@.len(),
    {
        out.push(0u8);
    }
    assert forall|j: int| 0 <= j < tile.pixels@.len() implies {
        &&& #[trigger] out@[4 * j] == veil_level_of(tile.pixels@[j])
        &&& out@[4 * j + 1] == veil_level_of(tile.pixels@[j])
        &&& out@[4 * j + 2] == veil_level_of(tile.pixels@[j])
        &&& out@[4 * j + 3] == 255
    } by {
        assert(out@[4 * j] == baked[4 * j]);
        assert(out@[4 * j + 1] == baked[4 * j + 1]);
        assert(out@[4 * j + 2] == baked[4 * j + 2]);
        assert(out@[4 * j + 3] == baked[4 * j + 3]);
    }
    out
}

/// Full warmth, in thousandths.
pub const MAX_WARMTH_MILLI: u32 = 1000;
/// The warm cream the veil turns toward at full warmth (red, green, blue).
pub const CREAM_RED: u8 = 255;
pub const CREAM_GREEN: u8 = 241;
pub const CREAM_BLUE: u8 = 214;

/// Channel `v` of a neutral veil pixel warmed by `warmth` thousandths toward
/// cream channel `cream`: `v * (1 - warmth * (1 - cream / 255))`, rounded half
/// up. No warmth keeps `v`; full warmth scales white to the cream.
pub open spec fn warmed_channel_of(v: u8, cream: u8, warmth: u32) -> u8 {
    ((v as int * (255_000 - warmth as int * (255 - cream as int)) + 127_500) / 255_000) as u8
}

/// One channel of a warmed veil pixel.
pub fn warmed_channel(v: u8, cream: u8, warmth: u32) -> (r: u8)
    requires
        warmth <= MAX_WARMTH_MILLI,
    ensures
        r == warmed_channel_of(v, cream, warmth),
        r <= v,
{
    let shade: u64 = 255 - cream as u64;
    assert((warmth as u64) * shade <= 255_000) by (nonlinear_arith)
        requires warmth <= 1000, shade <= 255;
    let factor: u64 = 255_000 - (warmth as u64) * shade;
    assert(v as u64 * factor <= 255 * 255_000) by (nonlinear_arith)
        requires factor <= 255_000, v <= 255;
    let scaled: u64 = (v as u64) * factor + 127_500;
    assert(scaled / 255_000 <= v) by (nonlinear_arith)
        requires scaled == v as u64 * factor + 127_500, factor <= 255_000;
    (scaled / 255_000) as u8
}

/// Tint a neutral veil toward warm cream by `warmth` thousandths: red, green
/// and blue of every pixel are warmed, alpha is kept.
pub fn warm_rgba(rgba: &Vec<u8>, warmth: u32) -> (r: Vec<u8>)
    requires
        rgba@.len() % 4 == 0,
        warmth <= MAX_WARMTH_MILLI,
    ensures
        r@.len() == rgba@.len(),
        forall|i: int| 0 <= i < rgba@.len() / 4 ==> {
            &&& #[trigger] r@[4 * i] == warmed_channel_of(rgba@[4 * i], CREAM_RED, warmth)
            &&& r@[4 * i + 1] == warmed_channel_of(rgba@[4 * i + 1], CREAM_GREEN, warmth)
            &&& r@[4 * i + 2] == warmed_channel_of(rgba@[4 * i + 2], CREAM_BLUE, warmth)
            &&& r@[4 * i + 3] == rgba@[4 * i + 3]
        },
{
    let mut out: Vec<u8> = Vec::new();
    let mut i: usize = 0;
    let len: usize = rgba.len();
    let n: usize = len / 4;
    while i < n
        invariant
            len == rgba@.len(),
            n == rgba@.len() / 4,
            rgba@.len() % 4 == 0,
            warmth <= MAX_WARMTH_MILLI,
            i <= n,
            out@.len() == 4 * i,
            forall|j: int| 0 <= j < i ==> {
                &&& #[trigger] out@[4 * j] == warmed_channel_of(rgba@[4 * j], CREAM_RED, warmth)
                &&& out@[4 * j + 1] == warmed_channel_of(rgba@[4 * j + 1], CREAM_GREEN, warmth)
                &&& out@[4 * j + 2] == warmed_channel_of(rgba@[4 * j + 2], CREAM_BLUE, warmth)
                &&& out@[4 * j + 3] == rgba@[4 * j + 3]
            },
        decreases n - i,
    {
        assert(4 * i + 3 < rgba@.len());
        let o = 4 * i;
        let red = warmed_channel(rgba[o], CREAM_RED, warmth);
        let green = warmed_channel(rgba[o + 1], CREAM_GREEN, warmth);
        let blue = warmed_channel(rgba[o + 2], CREAM_BLUE, warmth);
        let ghost prev = out@;
        out.push(red);
        out.push(green);
        out.push(blue);
        out.push(rgba[o + 3]);
        assert forall|j: int| 0 <= j < i + 1 implies {
            &&& #[trigger] out@[4 * j] == warmed_channel_of(rgba@[4 * j], CREAM_RED, warmth)
            &&& out@[4 * j + 1] == warmed_channel_of(rgba@[4 * j + 1], CREAM_GREEN, warmth)
            &&& out@[4 * j + 2] == warmed_channel_of(rgba@[4 * j + 2], CREAM_BLUE, warmth)
            &&& out@[4 * j + 3] == rgba@[4 * j + 3]
        } by {
            if j < i {
                assert(prev[4 * j] == warmed_channel_of(rgba@[4 * j], CREAM_RED, warmth));
            }
        }
        i = i + 1;
    }
    assert(out@.len() == rgba@.len());
    out
}

/// A warmed channel is the level nearest to `v * (1 - warmth/1000 * (1 -
/// cream/255))`: scaled by 255000, it is within half a level of
/// `v * (255000 - warmth * (255 - cream))`.
pub proof fn lemma_warmed_channel_is_nearest(v: u8, cream: u8, warmth: u32)
    requires
        warmth <= MAX_WARMTH_MILLI,
    ensures
        255_000 * warmed_channel_of(v, cream, warmth) <= v * (255_000 - warmth * (255 - cream)) + 127_500,
        v * (255_000 - warmth * (255 - cream)) + 127_500 < 255_000 * (warmed_channel_of(v, cream, warmth) + 1),
{
    let x = v as int * (255_000 - warmth as int * (255 - cream as int));
    assert(0 <= warmth as int * (255 - cream as int) <= 255_000) by (nonlinear_arith)
        requires warmth <= 1000, cream <= 255;
    assert(0 <= x <= 255 * 255_000) by (nonlinear_arith)
        requires x == v as int * (255_000 - warmth as int * (255 - cream as int)), v <= 255,
            0 <= warmth as int * (255 - cream as int) <= 255_000;
    let q = (x + 127_500) / 255_000;
    assert(255_000 * q <= x + 127_500 < 255_000 * q + 255_000) by (nonlinear_arith)
        requires q == (x + 127_500) / 255_000;
    assert(q <= 255) by (nonlinear_arith)
        requires q == (x + 127_500) / 255_000, x <= 255 * 255_000;
}

/// Warmth is opt-in: with no warmth every channel is kept, so the veil stays
/// neutral; warming never brightens a channel, red is always kept, and at
/// full warmth white becomes the cream.
pub proof fn lemma_warmth_is_opt_in(v: u8, cream: u8, warmth: u32)
    requires
        warmth <= MAX_WARMTH_MILLI,
    ensures
        warmed_channel_of(v, cream, 0) == v,
        warmed_channel_of(v, cream, warmth) <= v,
        warmed_channel_of(v, CREAM_RED, warmth) == v,
        warmed_channel_of(255, cream, MAX_WARMTH_MILLI) == cream,
{
    let factor = 255_000 - warmth as int * (255 - cream as int);
    assert(0 <= warmth as int * (255 - cream as int) <= 255_000) by (nonlinear_arith)
        requires warmth <= 1000, cream <= 255;
    assert((v as int * factor + 127_500) / 255_000 <= v) by (nonlinear_arith)
        requires factor <= 255_000, factor >= 0, v <= 255;
    assert((v as int * 255_000 + 127_500) / 255_000 == v) by (nonlinear_arith)
        requires v <= 255;
    assert((255 * (255_000 - 1000 * (255 - cream as int)) + 127_500) / 255_000 == cream) by (nonlinear_arith)
        requires cream <= 255;
}

} // verus!
