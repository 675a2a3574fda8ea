//! The integer core of the tileable grain engine: the texture catalog, the
//! octave schedule, the lattice hash and the periodic lattice wrap.
//!
//! The fBm itself (fractional sample positions, smootherstep fade, bilinear
//! blend and quantisation) is floating point and is computed around these
//! pieces by the application.

use vstd::prelude::*;
use crate::text::str_eq;

verus! {

/// Parameters for one procedural grain texture.
///
/// The lowest-octave frequency is held in thousandths of a cycle across the
/// tile (`1500` is 1.5 cycles); it is rounded to a whole number of cycles, at
/// least one, so that the tile stays seamlessly periodic.
#[derive(Clone, Copy, Debug)]
pub struct TextureSpec {
    /// Lowest-octave frequency, in thousandths of a cycle across the tile.
    pub base_frequency_milli: u32,
    /// Number of fBm octaves (at least one is always rendered).
    pub octaves: u32,
    /// Seed of the lattice values.
    pub seed: u32,
    /// Tile edge length in pixels (at least one is always rendered).
    pub size: u32,
}

/// Which way the baked grain pushes the background luminance.
#[derive(Clone, Copy, Debug)]
pub enum Polarity {
    /// Dark flecks for light backgrounds.
    DarkFleck,
    /// Light flecks for dark backgrounds.
    LightFleck,
}

/// A seamlessly tileable grayscale tile, `size * size` samples row by row.
#[derive(Debug)]
pub struct GrayTile {
    pub size: u32,
    pub pixels: Vec<u8>,
}

/// Base frequency (in thousandths) and seed of each catalog texture.
pub open spec fn catalog_params(name: Seq<char>) -> Option<(u32, u32)> {
    if name == "classic-matte"@ {
        Some((1500u32, 1u32))
    } else if name == "whisper-weave"@ {
        Some((1200u32, 2u32))
    } else if name == "sunbaked-parchment"@ {
        Some((900u32, 3u32))
    } else {
        None
    }
}

/// The catalog: every known texture has three octaves on a 200-pixel tile.
pub open spec fn catalog_spec(name: Seq<char>) -> Option<TextureSpec> {
    match catalog_params(name) {
        Some((f, s)) => Some(TextureSpec { base_frequency_milli: f, octaves: 3, seed: s, size: 200 }),
        None => None,
    }
}

/// Look up a named texture spec from the catalog.
///
/// Known names: `"classic-matte"`, `"whisper-weave"`, `"sunbaked-parchment"`.
pub fn texture_spec(name: &str) -> (r: Option<TextureSpec>)
    ensures
        r == catalog_spec(name@),
{
    let (base_frequency_milli, seed): (u32, u32) = if str_eq(name, "classic-matte") {
        (1500, 1)
    } else if str_eq(name, "whisper-weave") {
        (1200, 2)
    } else if str_eq(name, "sunbaked-parchment") {
        (900, 3)
    } else {
        return None;
    };
    Some(TextureSpec { base_frequency_milli, octaves: 3, seed, size: 200 })
}

/// Whole cycles of the lowest octave: the frequency rounded half up, at least one.
pub open spec fn base_cycles_of(milli: u32) -> u32 {
    let rounded = (milli as int + 500) / 1000;
    if rounded < 1 { 1 } else { rounded as u32 }
}

/// Edge length actually rendered: `size`, at least one.
pub open spec fn rendered_size(size: u32) -> u32 {
    if size < 1 { 1 } else { size }
}

/// Octaves actually rendered: `octaves`, at least one.
pub open spec fn rendered_octaves(octaves: u32) -> u32 {
    if octaves < 1 { 1 } else { octaves }
}

impl TextureSpec {
    /// Whole number of lattice cycles of the lowest octave.
    pub fn base_cycles(&self) -> (r: u32)
        ensures
            r == base_cycles_of(self.base_frequency_milli),
            r >= 1,
    {
        let rounded: u32 = (self.base_frequency_milli / 1000) + if self.base_frequency_milli % 1000 >= 500 { 1 } else { 0 };
        if rounded < 1 { 1 } else { rounded }
    }

    /// Tile edge length actually rendered.
    pub fn rendered_size(&self) -> (r: u32)
        ensures
            r == rendered_size(self.size),
    {
        if self.size < 1 { 1 } else { self.size }
    }

    /// Number of octaves actually rendered.
    pub fn rendered_octaves(&self) -> (r: u32)
        ensures
            r == rendered_octaves(self.octaves),
    {
        if self.octaves < 1 { 1 } else { self.octaves }
    }
}

/// Odd constant that decorrelates the octaves' seeds.
pub const OCTAVE_SEED_STEP: u32 = 0x9E37_79B9;

/// Seed of the lattice of octave `octave`: `seed + octave * step`, modulo 2^32.
pub open spec fn octave_seed_of(seed: u32, octave: u32) -> u32 {
    ((seed as int + octave as int * OCTAVE_SEED_STEP as int) % 0x1_0000_0000) as u32
}

/// Seed of the lattice of one octave.
pub fn octave_seed(seed: u32, octave: u32) -> (r: u32)
    ensures
        r == octave_seed_of(seed, octave),
{
    let r = seed.wrapping_add(octave.wrapping_mul(OCTAVE_SEED_STEP));
    proof {
        let m = 0x1_0000_0000int;
        let p = octave as int * OCTAVE_SEED_STEP as int;
        vstd::arithmetic::div_mod::lemma_add_mod_noop(seed as int, p, m);
        vstd::arithmetic::div_mod::lemma_mod_twice(seed as int, m);
        vstd::arithmetic::div_mod::lemma_small_mod(seed as nat, m as nat);
    }
    r
}

/// Lattice period of the next octave: doubled, saturating at `u32::MAX`, at least one.
pub open spec fn next_period_of(period: u32) -> u32 {
    let doubled = if 2 * period > u32::MAX { u32::MAX } else { (2 * period) as u32 };
    if doubled < 1 { 1 } else { doubled }
}

/// Lattice period of octave `i` when the lowest octave has `base` cycles.
pub open spec fn period_of(base: u32, i: nat) -> u32
    decreases i,
{
    if i == 0 {
        base
    } else {
        next_period_of(period_of(base, (i - 1) as nat))
    }
}

/// Lattice period of the next octave (frequency doubles per octave).
pub fn next_period(period: u32) -> (r: u32)
    ensures
        r == next_period_of(period),
{
    let doubled = if period > u32::MAX / 2 { u32::MAX } else { period * 2 };
    if doubled < 1 { 1 } else { doubled }
}

/// Increment of the splitmix64 generator.
pub const GOLDEN_GAMMA: u64 = 0x9E37_79B9_7F4A_7C15;
/// First multiplier of the splitmix64 finaliser.
pub const MIX_MUL_1: u64 = 0xBF58_476D_1CE4_E5B9;
/// Second multiplier of the splitmix64 finaliser.
pub const MIX_MUL_2: u64 = 0x94D0_49BB_1331_11EB;

/// One xorshift-multiply round of the finaliser.
pub open spec fn mix_round(h: u64, shift: u64, mul: u64) -> u64 {
    vstd::wrapping::u64_specs::wrapping_mul(h ^ (h >> shift), mul)
}

/// The splitmix64-style avalanche of the packed lattice coordinates and seed,
/// keeping its top 53 bits.
pub open spec fn lattice_hash_of(x: u32, y: u32, seed: u32) -> u64 {
    let packed = ((x as u64) << 32u64) | (y as u64);
    let seeded = packed ^ vstd::wrapping::u64_specs::wrapping_mul(seed as u64, GOLDEN_GAMMA);
    let stepped = vstd::wrapping::u64_specs::wrapping_add(seeded, GOLDEN_GAMMA);
    let mixed = mix_round(mix_round(stepped, 30, MIX_MUL_1), 27, MIX_MUL_2);
    (mixed ^ (mixed >> 31u64)) >> 11u64
}

/// Deterministic hash of integer lattice coordinates, as a 53-bit integer;
/// divided by 2^53 it is the lattice value in `[0, 1)`.
pub fn lattice_hash(x: u32, y: u32, seed: u32) -> (r: u64)
    ensures
        r == lattice_hash_of(x, y, seed),
        r < 0x20_0000_0000_0000,
{
    let mut h: u64 = ((x as u64) << 32u64) | (y as u64);
    h = h ^ (seed as u64).wrapping_mul(GOLDEN_GAMMA);
    h = h.wrapping_add(GOLDEN_GAMMA);
    h = (h ^ (h >> 30u64)).wrapping_mul(MIX_MUL_1);
    h = (h ^ (h >> 27u64)).wrapping_mul(MIX_MUL_2);
    h = h ^ (h >> 31u64);
    let r = h >> 11u64;
    assert(h >> 11u64 < 0x20_0000_0000_0000u64) by (bit_vector);
    r
}

/// Index of lattice cell `cell` on a lattice that wraps every `period` cells.
pub open spec fn wrapped_cell(cell: int, period: u32) -> int {
    cell % (period as int)
}

/// Wrap a lattice coordinate into `[0, period)`, so the lattice repeats every
/// `period` cells.
pub fn wrap_cell(cell: i64, period: u32) -> (r: u32)
    requires
        period >= 1,
    ensures
        r as int == wrapped_cell(cell as int, period),
        r < period,
{
    let p: i64 = period as i64;
    match cell.checked_rem_euclid(p) {
        Some(m) => m as u32,
        None => 0,
    }
}

/// A tile is rendered at the requested edge length and octave count, except
/// that zero is raised to one.
pub proof fn lemma_rendered_dimensions(size: u32, octaves: u32)
    ensures
        size >= 1 ==> rendered_size(size) == size,
        size == 0 ==> rendered_size(size) == 1,
        octaves >= 1 ==> rendered_octaves(octaves) == octaves,
        octaves == 0 ==> rendered_octaves(octaves) == 1,
{
}

/// The lowest octave has the whole number of cycles nearest the frequency
/// (halves rounded up), and at least one: `k` cycles for every frequency
/// from `k - 1/2` up to, not including, `k + 1/2`.
pub proof fn lemma_base_cycles_nearest(milli: u32, k: int)
    ensures
        k >= 1 && 1000 * k - 500 <= milli < 1000 * k + 500 ==> base_cycles_of(milli) == k,
        milli < 1500 ==> base_cycles_of(milli) == 1,
{
    if k >= 1 && 1000 * k - 500 <= milli < 1000 * k + 500 {
        assert((milli as int + 500) / 1000 == k) by (nonlinear_arith)
            requires 1000 * k <= milli as int + 500 < 1000 * k + 1000;
    }
}

/// Octave `0` uses the texture's seed, and each further octave adds the seed
/// step once more, modulo 2^32.
pub proof fn lemma_octave_seeds_step(seed: u32, octave: u32)
    ensures
        octave_seed_of(seed, 0) == seed,
        octave < u32::MAX ==> octave_seed_of(seed, (octave + 1) as u32)
            == (octave_seed_of(seed, octave) as int + OCTAVE_SEED_STEP as int) % 0x1_0000_0000,
{
    let m = 0x1_0000_0000int;
    let a = seed as int + octave as int * OCTAVE_SEED_STEP as int;
    let st = OCTAVE_SEED_STEP as int;
    assert(seed as int + (octave as int + 1) * st == a + st) by (nonlinear_arith)
        requires a == seed as int + octave as int * st;
    vstd::arithmetic::div_mod::lemma_add_mod_noop(a, OCTAVE_SEED_STEP as int, m);
    vstd::arithmetic::div_mod::lemma_small_mod(OCTAVE_SEED_STEP as nat, m as nat);
    vstd::arithmetic::div_mod::lemma_mod_twice(a, m);
    vstd::arithmetic::div_mod::lemma_small_mod(seed as nat, m as nat);
}

/// The next octave's period is twice the period, unless that does not fit in
/// a `u32`, where it stays at `u32::MAX`; a zero period becomes one.
pub proof fn lemma_next_period_doubles(period: u32)
    ensures
        1 <= period <= u32::MAX / 2 ==> next_period_of(period) == 2 * period,
        period > u32::MAX / 2 ==> next_period_of(period) == u32::MAX,
        period == 0 ==> next_period_of(period) == 1,
        next_period_of(period) >= period,
{
}

/// The wrapped cell is the unique cell in `[0, period)` that differs from
/// the coordinate by a whole number of periods.
pub proof fn lemma_wrapped_cell_is_euclidean(cell: int, period: u32)
    requires
        period >= 1,
    ensures
        0 <= wrapped_cell(cell, period) < period,
        (cell - wrapped_cell(cell, period)) % (period as int) == 0,
        0 <= cell < period ==> wrapped_cell(cell, period) == cell,
{
    let p = period as int;
    vstd::arithmetic::div_mod::lemma_fundamental_div_mod(cell, p);
    let q = cell / p;
    assert(cell - cell % p == p * q);
    vstd::arithmetic::div_mod::lemma_mod_multiples_basic(q, p);
    assert(p * q == q * p) by (nonlinear_arith);
    if 0 <= cell < p {
        vstd::arithmetic::div_mod::lemma_small_mod(cell as nat, p as nat);
    }
}

/// The lattice repeats every `period` cells: shifting a coordinate by any
/// whole number of periods lands on the same wrapped cell. Every octave is
/// therefore periodic over the tile, which is what makes the tile seamless.
pub proof fn lemma_lattice_is_periodic(cell: int, periods: int, period: u32)
    requires
        period >= 1,
    ensures
        wrapped_cell(cell + periods * period, period) == wrapped_cell(cell, period),
        0 <= wrapped_cell(cell, period) < period,
{
    vstd::arithmetic::div_mod::lemma_mod_multiples_vanish(periods, cell, period as int);
    assert(period as int * periods + cell == cell + periods * period) by (nonlinear_arith);
}

/// Octave `i` has `base * 2^i` lattice cycles, saturating at `u32::MAX`:
/// each octave doubles the frequency of the one below it.
pub proof fn lemma_period_doubles(base: u32, i: nat)
    requires
        base >= 1,
    ensures
        period_of(base, i) == (if base * vstd::arithmetic::power2::pow2(i) > u32::MAX {
            u32::MAX as int
        } else {
            base * vstd::arithmetic::power2::pow2(i)
        }),
    decreases i,
{
    if i == 0 {
        vstd::arithmetic::power2::lemma_pow2(0);
        assert(vstd::arithmetic::power2::pow2(0) == 1) by {
            vstd::arithmetic::power2::lemma2_to64();
        }
    } else {
        lemma_period_doubles(base, (i - 1) as nat);
        vstd::arithmetic::power2::lemma_pow2_unfold(i);
        let prev = base * vstd::arithmetic::power2::pow2((i - 1) as nat);
        assert(base * vstd::arithmetic::power2::pow2(i) == 2 * prev) by (nonlinear_arith)
            requires vstd::arithmetic::power2::pow2(i) == 2 * vstd::arithmetic::power2::pow2((i - 1) as nat),
                prev == base * vstd::arithmetic::power2::pow2((i - 1) as nat);
        assert(prev >= 1) by (nonlinear_arith)
            requires base >= 1, vstd::arithmetic::power2::pow2((i - 1) as nat) >= 1, prev == base * vstd::arithmetic::power2::pow2((i - 1) as nat)
        {
        }
    }
}

/// The catalog: exactly the three known names have a spec, and every one of
/// them uses three octaves on a 200-pixel tile.
pub proof fn lemma_catalog_shape(name: Seq<char>)
    ensures
        catalog_spec(name) is Some <==> (name == "classic-matte"@ || name == "whisper-weave"@
            || name == "sunbaked-parchment"@),
        catalog_spec(name) matches Some(s) ==> s.octaves == 3 && s.size == 200,
{
}

/// The catalog's textures: classic matte at 1.5 cycles with seed 1, whisper
/// weave at 1.2 cycles with seed 2 and sunbaked parchment at 0.9 cycles with
/// seed 3; any other name has no spec.
pub proof fn lemma_catalog_values(name: Seq<char>)
    ensures
        name == "classic-matte"@ ==> catalog_spec(name) == Some(
            TextureSpec { base_frequency_milli: 1500, octaves: 3, seed: 1, size: 200 },
        ),
        name == "whisper-weave"@ ==> catalog_spec(name) == Some(
            TextureSpec { base_frequency_milli: 1200, octaves: 3, seed: 2, size: 200 },
        ),
        name == "sunbaked-parchment"@ ==> catalog_spec(name) == Some(
            TextureSpec { base_frequency_milli: 900, octaves: 3, seed: 3, size: 200 },
        ),
        name != "classic-matte"@ && name != "whisper-weave"@ && name != "sunbaked-parchment"@
            ==> catalog_spec(name) is None,
{
    reveal_strlit("classic-matte");
    reveal_strlit("whisper-weave");
    reveal_strlit("sunbaked-parchment");
    assert("classic-matte"@[0] != "whisper-weave"@[0]);
    assert("classic-matte"@[0] != "sunbaked-parchment"@[0]);
    assert("whisper-weave"@[0] != "sunbaked-parchment"@[0]);
}

/// Dark flecks are black and darken; light flecks are white and lighten.
pub proof fn lemma_fleck_colours(polarity: Polarity)
    ensures
        polarity is DarkFleck ==> fleck_of(polarity) == (0u8, true),
        polarity is LightFleck ==> fleck_of(polarity) == (255u8, false),
{
}

/// Fleck colour and whether the flecks darken, for one polarity.
pub open spec fn fleck_of(polarity: Polarity) -> (u8, bool) {
    match polarity {
        Polarity::DarkFleck => (0u8, true),
        Polarity::LightFleck => (255u8, false),
    }
}

/// The fleck channel value (black or white) and whether the flecks darken.
pub fn fleck_style(polarity: &Polarity) -> (r: (u8, bool))
    ensures
        r == fleck_of(*polarity),
{
    match polarity {
        Polarity::DarkFleck => (0, true),
        Polarity::LightFleck => (255, false),
    }
}

/// Lay out the RGBA fleck layer of a `size * size` tile: pixel `i` has the
/// polarity's fleck colour on all three channels and alpha `alphas[i]`;
/// pixels beyond the given alphas stay zero.
pub fn fleck_rgba(polarity: &Polarity, alphas: &Vec<u8>, size: u32) -> (r: Vec<u8>)
    requires
        alphas@.len() <= size * size,
        4 * (size * size) <= usize::MAX,
    ensures
        r@.len() == 4 * (size * size),
        forall|i: int| 0 <= i < alphas@.len() ==> {
            &&& #[trigger] r@[4 * i] == fleck_of(*polarity).0
            &&& r@[4 * i + 1] == fleck_of(*polarity).0
            &&& r@[4 * i + 2] == fleck_of(*polarity).0
            &&& r@[4 * i + 3] == alphas@[i]
        },
        forall|k: int| 4 * alphas@.len() <= k < r@.len() ==> #[trigger] r@[k] == 0,
{
    let total: usize = 4 * ((size as usize) * (size as usize));
    let (c, _dark) = fleck_style(polarity);
    let mut out: Vec<u8> = Vec::new();
    let mut i: usize = 0;
    while i < alphas.len()
        invariant
            i <= alphas@.len(),
            4 * alphas@.len() <= total,
            c == fleck_of(*polarity).0,
            out@.len() == 4 * i,
            forall|j: int| 0 <= j < i ==> {
                &&& #[trigger] out@[4 * j] == c
                &&& out@[4 * j + 1] == c
                &&& out@[4 * j + 2] == c
                &&& out@[4 * j + 3] == alphas@[j]
            },
        decreases alphas@.len() - i,
    {
        let ghost prev = out@;
        out.push(c);
        out.push(c);
        out.push(c);
        out.push(alphas[i]);
        assert forall|j: int| 0 <= j < i + 1 implies {
            &&& #[trigger] out@[4 * j] == c
            &&& out@[4 * j + 1] == c
            &&& out@[4 * j + 2] == c
            &&& out@[4 * j + 3] == alphas@[j]
        } by {
            if j < i {
                assert(prev[4 * j] == c);
            }
        }
        i = i + 1;
    }
    let ghost laid = out@;
    while out.len() < total
        invariant
            4 * alphas@.len() <= out@.len() <= total,
            laid.len() == 4 * alphas@.len(),
            forall|k: int| 0 <= k < laid.len() ==> #[trigger] out@[k] == laid[k],
            forall|k: int| laid.len() <= k < out@.len() ==> #[trigger] out@[k] == 0,
        decreases total - out@.len(),
    {
        out.push(0u8);
    }
    assert forall|j: int| 0 <= j < alphas@.len() implies {
        &&& #[trigger] out@[4 * j] == c
        &&& out@[4 * j + 1] == c
        &&& out@[4 * j + 2] == c
        &&& out@[4 * j + 3] == alphas@[j]
    } by {
        assert(out@[4 * j] == laid[4 * j]);
        assert(out@[4 * j + 1] == laid[4 * j + 1]);
        assert(out@[4 * j + 2] == laid[4 * j + 2]);
        assert(out@[4 * j + 3] == laid[4 * j + 3]);
    }
    out
}

} // verus!
