//! The terrain generator: per-vertex heights from sampled noise, biome
//! classification, and extraction of the sparse water mesh.
//!
//! The caller samples the coherent-noise field once per vertex and hands the
//! values in as fixed-point integers in millionths (`SCALE`); the sampled
//! value is exactly the normalized height `y / terrain_height` of the vertex.

use vstd::prelude::*;
use vstd::pervasive::VecAdditionalExecFns;
use vstd::arithmetic::div_mod::{
    lemma_div_nonincreasing, lemma_div_pos_is_pos, lemma_fundamental_div_mod,
    lemma_mod_division_less_than_divisor, lemma_mod_multiples_basic,
};
use vstd::arithmetic::mul::{
    lemma_mul_inequality, lemma_mul_is_commutative, lemma_mul_nonnegative,
    lemma_mul_unary_negation,
};
use crate::biome::{Biome, Rgba, biome_color_spec, classify, classify_spec, colors_of};
use crate::config::{MAX_TERRAIN_HEIGHT, SCALE, TerrainConfig};

verus! {

/// Bound on the magnitude of a sampled noise value: 1.2 in millionths,
/// the declared output range of the layered noise with octave overshoot.
pub const NOISE_BOUND: i64 = 1_200_000;

/// Largest accepted vertex count, keeping every synthetic water-mesh index
/// within `u32` range.
pub const MAX_VERTICES: usize = 1_000_000_000;

/// A point (or vector) in world space, fixed point in millionths.
#[derive(Clone, Copy, Debug, PartialEq, Eq, Structural)]
pub struct Vertex {
    pub x: i64,
    pub y: i64,
    pub z: i64,
}

/// The elevation of a vertex whose normalized height is `n` (millionths):
/// `n * th / SCALE`, truncated toward zero as the machine division does.
pub open spec fn scale_height_spec(n: int, th: int) -> int {
    let p = n * th;
    if p >= 0 {
        p / (SCALE as int)
    } else {
        -((-p) / (SCALE as int))
    }
}

/// The vertex `v` with its elevation replaced by the scaled noise value `n`.
pub open spec fn heighted(v: Vertex, n: i64, th: int) -> Vertex {
    Vertex { x: v.x, y: scale_height_spec(n as int, th) as i64, z: v.z }
}

/// A noise value within the declared noise range yields an elevation within
/// that same range of the terrain height: `|y| * SCALE <= NOISE_BOUND * th`.
pub proof fn lemma_scale_height_range(n: int, th: int)
    requires
        -NOISE_BOUND <= n <= NOISE_BOUND,
        0 <= th <= MAX_TERRAIN_HEIGHT,
    ensures
        -NOISE_BOUND * th <= scale_height_spec(n, th) * SCALE <= NOISE_BOUND * th,
        -4_800_000_000_000 <= scale_height_spec(n, th) <= 4_800_000_000_000,
{
    let p = n * th;
    let s = SCALE as int;
    assert(-4_800_000_000_000_000_000 <= p <= 4_800_000_000_000_000_000) by (nonlinear_arith)
        requires
            -1_200_000 <= n <= 1_200_000,
            0 <= th <= 4_000_000_000_000,
            p == n * th,
    ;
    lemma_mul_inequality(n, NOISE_BOUND as int, th);
    lemma_mul_inequality(-(NOISE_BOUND as int), n, th);
    lemma_mul_unary_negation(NOISE_BOUND as int, th);
    assert(-(NOISE_BOUND * th) <= p <= NOISE_BOUND * th);
    if p >= 0 {
        let q = p / s;
        lemma_fundamental_div_mod(p, s);
        lemma_mod_division_less_than_divisor(p, s);
        lemma_div_pos_is_pos(p, s);
        lemma_mul_is_commutative(s, q);
        lemma_mul_nonnegative(q, s);
        assert(q * s == p - p % s);
    } else {
        let m = -p;
        let q = m / s;
        lemma_fundamental_div_mod(m, s);
        lemma_mod_division_less_than_divisor(m, s);
        lemma_div_pos_is_pos(m, s);
        lemma_mul_is_commutative(s, q);
        lemma_mul_nonnegative(q, s);
        lemma_mul_unary_negation(q, s);
        assert(q * s == m - m % s);
        assert((-q) * s == p + m % s);
    }
}

/// Scales one sampled noise value by the terrain height.
pub fn scale_height(n: i64, th: i64) -> (y: i64)
    requires
        -NOISE_BOUND <= n <= NOISE_BOUND,
        0 <= th <= MAX_TERRAIN_HEIGHT,
    ensures
        y == scale_height_spec(n as int, th as int),
        -NOISE_BOUND * th <= y * SCALE <= NOISE_BOUND * th,
{
    proof {
        assert(-4_800_000_000_000_000_000 <= n * th <= 4_800_000_000_000_000_000)
            by (nonlinear_arith)
            requires
                -1_200_000 <= n <= 1_200_000,
                0 <= th <= 4_000_000_000_000,
        ;
        lemma_scale_height_range(n as int, th as int);
    }
    let p: i64 = n * th;
    if p >= 0 {
        let q: u64 = (p as u64) / 1_000_000u64;
        proof {
            lemma_div_nonincreasing(p as int, SCALE as int);
        }
        q as i64
    } else {
        let m: i64 = -p;
        let q: u64 = (m as u64) / 1_000_000u64;
        proof {
            lemma_div_nonincreasing(m as int, SCALE as int);
        }
        -(q as i64)
    }
}

/// The source indices of the vertices that belong to the water surface: the
/// positions `k` in the noise sequence with `ns[k] <= wl`, in grid order.
pub open spec fn water_sources(ns: Seq<i64>, wl: int) -> Seq<int>
    decreases ns.len(),
{
    if ns.len() == 0 {
        Seq::empty()
    } else if ns.last() <= wl {
        water_sources(ns.drop_last(), wl).push(ns.len() - 1)
    } else {
        water_sources(ns.drop_last(), wl)
    }
}

/// The water-source indices name exactly the vertices whose normalized
/// height is at or below the water level — none is missed and none is
/// listed wrongly — and they are listed in strictly increasing order.
pub proof fn lemma_water_sources_characterized(ns: Seq<i64>, wl: int)
    ensures
        forall|j: int|
            0 <= j < water_sources(ns, wl).len() ==> 0 <= #[trigger] water_sources(ns, wl)[j]
                < ns.len() && ns[water_sources(ns, wl)[j]] <= wl,
        forall|k: int| 0 <= k < ns.len() && ns[k] <= wl ==> water_sources(ns, wl).contains(k),
        forall|j1: int, j2: int|
            0 <= j1 < j2 < water_sources(ns, wl).len() ==> #[trigger] water_sources(ns, wl)[j1]
                < #[trigger] water_sources(ns, wl)[j2],
    decreases ns.len(),
{
    if ns.len() == 0 {
    } else {
        let prefix = ns.drop_last();
        lemma_water_sources_characterized(prefix, wl);
        assert forall|k: int| 0 <= k < ns.len() && ns[k] <= wl implies water_sources(
            ns,
            wl,
        ).contains(k) by {
            if k < ns.len() - 1 {
                assert(prefix[k] == ns[k]);
                assert(water_sources(prefix, wl).contains(k));
                let j = choose|j: int|
                    0 <= j < water_sources(prefix, wl).len() && water_sources(prefix, wl)[j]
                        == k;
                assert(water_sources(ns, wl)[j] == k);
            } else {
                assert(ns.last() == ns[k]);
                assert(water_sources(ns, wl).last() == k);
            }
        }
    }
}

/// Replaces the elevation of every vertex in place with its sampled noise
/// value scaled by the terrain height; the other coordinates are untouched.
pub fn apply_heights(positions: &mut Vec<Vertex>, noise_vals: &Vec<i64>, terrain_height: i64)
    requires
        old(positions)@.len() == noise_vals@.len(),
        0 <= terrain_height <= MAX_TERRAIN_HEIGHT,
        forall|i: int|
            0 <= i < noise_vals@.len() ==> -NOISE_BOUND <= #[trigger] noise_vals@[i]
                <= NOISE_BOUND,
    ensures
        final(positions)@.len() == old(positions)@.len(),
        forall|i: int|
            0 <= i < final(positions)@.len() ==> #[trigger] final(positions)@[i] == heighted(
                old(positions)@[i],
                noise_vals@[i],
                terrain_height as int,
            ),
{
    let n = positions.len();
    let mut i: usize = 0;
    while i < n
        invariant
            n == positions@.len() == noise_vals@.len(),
            i <= n,
            0 <= terrain_height <= MAX_TERRAIN_HEIGHT,
            forall|j: int|
                0 <= j < n ==> -NOISE_BOUND <= #[trigger] noise_vals@[j] <= NOISE_BOUND,
            forall|j: int|
                i <= j < n ==> #[trigger] positions@[j] == old(positions)@[j],
            forall|j: int|
                0 <= j < i ==> #[trigger] positions@[j] == heighted(
                    old(positions)@[j],
                    noise_vals@[j],
                    terrain_height as int,
                ),
        decreases n - i,
    {
        let v = positions[i];
        let y = scale_height(noise_vals[i], terrain_height);
        positions.set(i, Vertex { x: v.x, y, z: v.z });
        i = i + 1;
    }
}

/// Classifies every vertex into its biome band from its normalized height.
pub fn classify_all(noise_vals: &Vec<i64>, water_level: i64) -> (biomes: Vec<Biome>)
    ensures
        biomes@.len() == noise_vals@.len(),
        forall|i: int|
            0 <= i < biomes@.len() ==> #[trigger] biomes@[i] == classify_spec(
                noise_vals@[i] as int,
                water_level as int,
            ),
{
    let n = noise_vals.len();
    let mut biomes: Vec<Biome> = Vec::new();
    let mut i: usize = 0;
    while i < n
        invariant
            n == noise_vals@.len(),
            i <= n,
            biomes@.len() == i,
            forall|j: int|
                0 <= j < i ==> #[trigger] biomes@[j] == classify_spec(
                    noise_vals@[j] as int,
                    water_level as int,
                ),
        decreases n - i,
    {
        biomes.push(classify(noise_vals[i], water_level));
        i = i + 1;
    }
    biomes
}

/// Builds the sparse water mesh in one scan over the grid: the position of
/// every vertex at or below the water level is appended to the point list,
/// and a synthetic triangle `{k, k+2, k+1}` to the index list, where `k` is
/// a running counter stepped by 3 once per scanned source vertex. The
/// reversed winding and the per-source-vertex stepping are a deliberate
/// sequential grouping, kept for visual parity; they are not a geometric
/// adjacency, so the triples do not stitch a contiguous surface.
pub fn extract_water(vertices: &Vec<Vertex>, noise_vals: &Vec<i64>, water_level: i64) -> (out: (
    Vec<Vertex>,
    Vec<u32>,
))
    requires
        vertices@.len() == noise_vals@.len(),
        vertices@.len() <= MAX_VERTICES,
    ensures
        out.0@.len() == water_sources(noise_vals@, water_level as int).len(),
        forall|j: int|
            0 <= j < out.0@.len() ==> #[trigger] out.0@[j] == vertices@[water_sources(
                noise_vals@,
                water_level as int,
            )[j]],
        out.1@.len() == 3 * out.0@.len(),
        forall|j: int|
            0 <= j < out.0@.len() ==> {
                let k = #[trigger] water_sources(noise_vals@, water_level as int)[j];
                out.1@[3 * j] == 3 * (k + 1) && out.1@[3 * j + 1] == 3 * (k + 1) + 2 && out.1@[3
                    * j + 2] == 3 * (k + 1) + 1
            },
{
    let n = vertices.len();
    let mut points: Vec<Vertex> = Vec::new();
    let mut indices: Vec<u32> = Vec::new();
    let mut counter: u32 = 0;
    let mut i: usize = 0;
    while i < n
        invariant
            n == vertices@.len() == noise_vals@.len(),
            n <= MAX_VERTICES,
            i <= n,
            counter == 3 * i,
            points@.len() == water_sources(noise_vals@.take(i as int), water_level as int).len(),
            forall|j: int|
                0 <= j < points@.len() ==> #[trigger] points@[j] == vertices@[water_sources(
                    noise_vals@.take(i as int),
                    water_level as int,
                )[j]],
            indices@.len() == 3 * points@.len(),
            forall|j: int|
                0 <= j < points@.len() ==> {
                    let k = #[trigger] water_sources(noise_vals@.take(i as int), water_level as int)[j];
                    indices@[3 * j] == 3 * (k + 1) && indices@[3 * j + 1] == 3 * (k + 1) + 2
                        && indices@[3 * j + 2] == 3 * (k + 1) + 1
                },
        decreases n - i,
    {
        proof {
            assert(noise_vals@.take(i as int + 1).drop_last() =~= noise_vals@.take(i as int));
            assert(noise_vals@.take(i as int + 1).last() == noise_vals@[i as int]);
            lemma_water_sources_characterized(
                noise_vals@.take(i as int),
                water_level as int,
            );
        }
        counter = counter + 3;
        if noise_vals[i] <= water_level {
            points.push(vertices[i]);
            indices.push(counter);
            indices.push(counter + 2);
            indices.push(counter + 1);
        }
        i = i + 1;
    }
    proof {
        assert(noise_vals@.take(n as int) =~= noise_vals@);
    }
    (points, indices)
}

/// Everything the generator produces for one grid: the heighted vertices,
/// one biome and one color per vertex, and the derived sparse water mesh.
pub struct TerrainOutput {
    pub vertices: Vec<Vertex>,
    pub biomes: Vec<Biome>,
    pub colors: Vec<Rgba>,
    pub water_points: Vec<Vertex>,
    pub water_indices: Vec<u32>,
}

/// What the generator promises of its output, clause by clause: every
/// elevation is the scaled noise value; every elevation stays within the
/// noise range of the terrain height; every biome is the band of the
/// vertex's normalized height; every color is its band's fixed color; and
/// the water mesh lists exactly the at-or-below-water vertices with their
/// synthetic triangle indices.
pub open spec fn generate_post(
    config: TerrainConfig,
    positions: Seq<Vertex>,
    ns: Seq<i64>,
    vertices: Seq<Vertex>,
    biomes: Seq<Biome>,
    colors: Seq<Rgba>,
    water_points: Seq<Vertex>,
    water_indices: Seq<u32>,
) -> bool {
    let th = config.terrain_height as int;
    let wl = config.water_level as int;
    &&& vertices.len() == positions.len()
    &&& forall|i: int|
        0 <= i < positions.len() ==> #[trigger] vertices[i] == heighted(
            positions[i],
            ns[i],
            th,
        )
    &&& forall|i: int|
        0 <= i < positions.len() ==> -NOISE_BOUND * th <= (#[trigger] vertices[i]).y * SCALE
            <= NOISE_BOUND * th
    &&& biomes.len() == positions.len()
    &&& forall|i: int|
        0 <= i < positions.len() ==> #[trigger] biomes[i] == classify_spec(ns[i] as int, wl)
    &&& colors.len() == positions.len()
    &&& forall|i: int|
        0 <= i < positions.len() ==> #[trigger] colors[i] == biome_color_spec(
            classify_spec(ns[i] as int, wl),
        )
    &&& water_points.len() == water_sources(ns, wl).len()
    &&& forall|j: int|
        0 <= j < water_points.len() ==> #[trigger] water_points[j] == heighted(
            positions[water_sources(ns, wl)[j]],
            ns[water_sources(ns, wl)[j]],
            th,
        )
    &&& water_indices.len() == 3 * water_points.len()
    &&& forall|j: int|
        0 <= j < water_points.len() ==> {
            let k = #[trigger] water_sources(ns, wl)[j];
            water_indices[3 * j] == 3 * (k + 1) && water_indices[3 * j + 1] == 3 * (k + 1) + 2
                && water_indices[3 * j + 2] == 3 * (k + 1) + 1
        }
}

/// Determinism: the generator's contract pins its output down completely,
/// so for one configuration, one grid and one sequence of sampled noise
/// values, any two outputs that satisfy it are identical.
pub proof fn lemma_generate_deterministic(
    config: TerrainConfig,
    positions: Seq<Vertex>,
    ns: Seq<i64>,
    v1: Seq<Vertex>,
    b1: Seq<Biome>,
    c1: Seq<Rgba>,
    wp1: Seq<Vertex>,
    wi1: Seq<u32>,
    v2: Seq<Vertex>,
    b2: Seq<Biome>,
    c2: Seq<Rgba>,
    wp2: Seq<Vertex>,
    wi2: Seq<u32>,
)
    requires
        generate_post(config, positions, ns, v1, b1, c1, wp1, wi1),
        generate_post(config, positions, ns, v2, b2, c2, wp2, wi2),
    ensures
        v1 == v2,
        b1 == b2,
        c1 == c2,
        wp1 == wp2,
        wi1 == wi2,
{
    let wl = config.water_level as int;
    assert(v1 =~= v2);
    assert(b1 =~= b2);
    assert(c1 =~= c2);
    assert(wp1 =~= wp2);
    assert forall|m: int| 0 <= m < wi1.len() implies wi1[m] == wi2[m] by {
        let j = m / 3;
        let t = m % 3;
        lemma_fundamental_div_mod(m, 3);
        lemma_mod_division_less_than_divisor(m, 3);
        lemma_div_pos_is_pos(m, 3);
        assert(m == 3 * j + t);
        assert(0 <= j < wp1.len());
        let k = water_sources(ns, wl)[j];
        if t == 0 {
            assert(wi1[3 * j] == 3 * (k + 1) && wi2[3 * j] == 3 * (k + 1));
        } else if t == 1 {
            assert(wi1[3 * j + 1] == 3 * (k + 1) + 2 && wi2[3 * j + 1] == 3 * (k + 1) + 2);
        } else {
            assert(wi1[3 * j + 2] == 3 * (k + 1) + 1 && wi2[3 * j + 2] == 3 * (k + 1) + 1);
        }
    }
    assert(wi1 =~= wi2);
}

/// Water subset property of a generated output: every point in the water
/// list is a grid vertex whose noise value is at or below the water level,
/// and every grid vertex at or below the water level has its heighted
/// position in the water list — no false positives and no false negatives.
pub proof fn lemma_water_membership(
    config: TerrainConfig,
    positions: Seq<Vertex>,
    ns: Seq<i64>,
    vertices: Seq<Vertex>,
    biomes: Seq<Biome>,
    colors: Seq<Rgba>,
    water_points: Seq<Vertex>,
    water_indices: Seq<u32>,
)
    requires
        positions.len() == ns.len(),
        generate_post(config, positions, ns, vertices, biomes, colors, water_points, water_indices),
    ensures
        forall|j: int|
            0 <= j < water_points.len() ==> {
                let k = #[trigger] water_sources(ns, config.water_level as int)[j];
                0 <= k < ns.len() && ns[k] <= config.water_level && water_points[j] == heighted(
                    positions[k],
                    ns[k],
                    config.terrain_height as int,
                )
            },
        forall|k: int|
            0 <= k < ns.len() && #[trigger] ns[k] <= config.water_level ==> exists|j: int|
                0 <= j < water_points.len() && water_points[j] == heighted(
                    positions[k],
                    ns[k],
                    config.terrain_height as int,
                ),
{
    lemma_water_sources_characterized(ns, config.water_level as int);
    assert forall|k: int|
        0 <= k < ns.len() && #[trigger] ns[k] <= config.water_level implies exists|j: int|
        0 <= j < water_points.len() && water_points[j] == heighted(
            positions[k],
            ns[k],
            config.terrain_height as int,
        ) by {
        assert(water_sources(ns, config.water_level as int).contains(k));
        let j = choose|j: int|
            0 <= j < water_sources(ns, config.water_level as int).len() && water_sources(
                ns,
                config.water_level as int,
            )[j] == k;
        assert(water_points[j] == heighted(positions[k], ns[k], config.terrain_height as int));
    }
}

/// The synthetic water-mesh indices in insertion order: the `j`-th water
/// vertex contributes the triple `{b, b+2, b+1}` whose base `b = 3*(k+1)`
/// is a multiple of 3, and the bases strictly increase from one water
/// vertex to the next (by exactly 3 for consecutive source vertices).
/// Within one triple the order is the reversed winding `{b, b+2, b+1}`.
pub proof fn lemma_water_index_bases(ns: Seq<i64>, wl: int)
    ensures
        forall|j: int|
            0 <= j < water_sources(ns, wl).len() ==> (3 * (#[trigger] water_sources(ns, wl)[j]
                + 1)) % 3 == 0,
        forall|j1: int, j2: int|
            0 <= j1 < j2 < water_sources(ns, wl).len() ==> 3 * (#[trigger] water_sources(ns, wl)[j1]
                + 1) < 3 * (#[trigger] water_sources(ns, wl)[j2] + 1),
{
    lemma_water_sources_characterized(ns, wl);
    assert forall|j: int|
        0 <= j < water_sources(ns, wl).len() implies (3 * (#[trigger] water_sources(ns, wl)[j]
            + 1)) % 3 == 0 by {
        let k = water_sources(ns, wl)[j];
        lemma_mod_multiples_basic(k + 1, 3);
        lemma_mul_is_commutative(3, k + 1);
    }
}

/// Runs the whole generator over one grid: replaces every elevation with
/// its scaled noise value, classifies every vertex into a biome band with
/// its fixed color, and extracts the water surface. Each vertex is handled
/// independently; the output is a function of the inputs alone.
pub fn generate(config: &TerrainConfig, positions: Vec<Vertex>, noise_vals: &Vec<i64>) -> (out:
    TerrainOutput)
    requires
        config.wf(),
        positions@.len() == noise_vals@.len(),
        positions@.len() <= MAX_VERTICES,
        forall|i: int|
            0 <= i < noise_vals@.len() ==> -NOISE_BOUND <= #[trigger] noise_vals@[i]
                <= NOISE_BOUND,
    ensures
        generate_post(
            *config,
            positions@,
            noise_vals@,
            out.vertices@,
            out.biomes@,
            out.colors@,
            out.water_points@,
            out.water_indices@,
        ),
{
    let th = config.terrain_height;
    let wl = config.water_level;
    let mut vertices = positions;
    apply_heights(&mut vertices, noise_vals, th);
    let biomes = classify_all(noise_vals, wl);
    let colors = colors_of(&biomes);
    let water = extract_water(&vertices, noise_vals, wl);
    proof {
        lemma_water_sources_characterized(noise_vals@, wl as int);
        assert forall|i: int|
            0 <= i < vertices@.len() implies -NOISE_BOUND * th <= (
        #[trigger] vertices@[i]).y * SCALE <= NOISE_BOUND * th by {
            lemma_scale_height_range(noise_vals@[i] as int, th as int);
            let s = scale_height_spec(noise_vals@[i] as int, th as int);
            assert(-4_800_000_000_000_000_000 <= s * SCALE <= 4_800_000_000_000_000_000);
            assert(-4_800_000_000_000 <= s <= 4_800_000_000_000);
            assert(vertices@[i].y == s as i64);
        }
    }
    TerrainOutput { vertices, biomes, colors, water_points: water.0, water_indices: water.1 }
}

} // verus!
