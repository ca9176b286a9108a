//! Biome classification of a vertex from its normalized height.
//!
//! The normalized height is the vertex elevation as a fraction of
//! `terrain_height`, in millionths: exactly the sampled noise value.

use vstd::prelude::*;
use crate::config::{SCALE, SAND_THRESHOLD};

verus! {

/// The biome band of one terrain vertex.
#[derive(Clone, Copy, Debug, PartialEq, Eq, Structural)]
pub enum Biome {
    Sand,
    Land,
    Water,
}

/// The band of a normalized height `n` (millionths) at water level `wl`:
/// strictly above `SAND_THRESHOLD` is sand; otherwise at or below `wl` is
/// water; otherwise land. Sand is decided first, so both thresholds resolve
/// deterministically.
pub open spec fn classify_spec(n: int, wl: int) -> Biome {
    if n > SAND_THRESHOLD {
        Biome::Sand
    } else if n <= wl {
        Biome::Water
    } else {
        Biome::Land
    }
}

/// Classifies one normalized height into its biome band.
pub fn classify(n: i64, wl: i64) -> (b: Biome)
    ensures
        b == classify_spec(n as int, wl as int),
{
    if n > SAND_THRESHOLD {
        Biome::Sand
    } else if n <= wl {
        Biome::Water
    } else {
        Biome::Land
    }
}

/// One color as sRGB bytes with alpha. Converting a channel to the
/// renderer's linear floating-point form is the caller's work.
#[derive(Clone, Copy, Debug, PartialEq, Eq, Structural)]
pub struct Rgba {
    pub red: u8,
    pub green: u8,
    pub blue: u8,
    pub alpha: u8,
}

/// The fixed color of each biome band: sandy brown for sand, a light blue
/// for water, a dark green for land.
pub open spec fn biome_color_spec(b: Biome) -> Rgba {
    match b {
        Biome::Sand => Rgba { red: 244, green: 164, blue: 96, alpha: 255 },
        Biome::Water => Rgba { red: 147, green: 197, blue: 253, alpha: 255 },
        Biome::Land => Rgba { red: 22, green: 101, blue: 52, alpha: 255 },
    }
}

/// The fixed color of one biome band.
pub fn biome_color(b: Biome) -> (c: Rgba)
    ensures
        c == biome_color_spec(b),
{
    match b {
        Biome::Sand => Rgba { red: 244, green: 164, blue: 96, alpha: 255 },
        Biome::Water => Rgba { red: 147, green: 197, blue: 253, alpha: 255 },
        Biome::Land => Rgba { red: 22, green: 101, blue: 52, alpha: 255 },
    }
}

/// One fixed RGBA per vertex, from its biome band.
pub fn colors_of(biomes: &Vec<Biome>) -> (colors: Vec<Rgba>)
    ensures
        colors@.len() == biomes@.len(),
        forall|i: int|
            0 <= i < biomes@.len() ==> #[trigger] colors@[i] == biome_color_spec(biomes@[i]),
{
    let n = biomes.len();
    let mut colors: Vec<Rgba> = Vec::new();
    let mut i: usize = 0;
    while i < n
        invariant
            n == biomes@.len(),
            i <= n,
            colors@.len() == i,
            forall|j: int|
                0 <= j < i ==> #[trigger] colors@[j] == biome_color_spec(biomes@[j]),
        decreases n - i,
    {
        colors.push(biome_color(biomes[i]));
        i = i + 1;
    }
    colors
}

/// The three biome bands partition the normalized heights: whenever the
/// water level does not exceed the sand threshold, every height belongs to
/// exactly one band, with no gap and no overlap. A height exactly at the
/// sand threshold goes to the band below (land or water); a height exactly
/// at the water level goes to water.
pub proof fn lemma_biome_partition(wl: int)
    requires
        -SCALE <= wl <= SAND_THRESHOLD,
    ensures
        forall|n: int| (classify_spec(n, wl) == Biome::Sand) <==> n > SAND_THRESHOLD,
        forall|n: int| (classify_spec(n, wl) == Biome::Water) <==> n <= wl,
        forall|n: int| (classify_spec(n, wl) == Biome::Land) <==> (wl < n <= SAND_THRESHOLD),
        classify_spec(SAND_THRESHOLD as int, wl) != Biome::Sand,
        classify_spec(wl, wl) == Biome::Water,
{
}

} // verus!
