use noise::{BasicMulti, NoiseFn, Perlin};
use terrain_gen::biome::{biome_color, Biome};
use terrain_gen::config::TerrainConfig;
use terrain_gen::grid::grid_positions;
use terrain_gen::terrain::{generate, scale_height, Vertex};

/// One sampled noise value as the generator consumes it: fixed point in
/// millionths, clamped to the declared output bound.
fn sample_millionths(noise: &BasicMulti<Perlin>, x: i64, z: i64, zoom: i64) -> i64 {
    let zoom_units = zoom as f64 / 1_000_000.0;
    let xs = x as f64 / 1_000_000.0 / zoom_units;
    let zs = z as f64 / 1_000_000.0 / zoom_units;
    let val = noise.get([xs, zs]);
    let fixed = (val * 1_000_000.0).round() as i64;
    fixed.clamp(-1_200_000, 1_200_000)
}

#[test]
fn noise_sampling_is_reproducible() {
    // Same seed, same octave count, same coordinates: bit-for-bit equal
    // values across two independently built noise functions.
    let noise1 = BasicMulti::<Perlin>::new(10);
    let noise2 = BasicMulti::<Perlin>::new(10);
    assert_eq!(noise1.octaves, 6);
    assert_eq!(noise2.octaves, 6);
    for i in 0..64i64 {
        let x = (i % 8) * 700_000 - 2_000_000;
        let z = (i / 8) * 700_000 - 2_000_000;
        let a = sample_millionths(&noise1, x, z, 400_000_000);
        let b = sample_millionths(&noise2, x, z, 400_000_000);
        assert_eq!(a, b);
    }
}

#[test]
fn generated_terrain_from_real_noise_keeps_the_invariants() {
    let cfg = TerrainConfig::new(500_000_000, 6, 30_000_000, -300_000, 400_000_000, 10, 6)
        .expect("valid configuration");
    let positions = grid_positions(cfg.grid_size, cfg.subdivisions);
    let noise = BasicMulti::<Perlin>::new(cfg.seed);
    let noise_vals: Vec<i64> = positions
        .iter()
        .map(|p| sample_millionths(&noise, p.x, p.z, cfg.zoom))
        .collect();
    let out = generate(&cfg, positions.clone(), &noise_vals);

    assert_eq!(out.vertices.len(), positions.len());
    assert_eq!(out.biomes.len(), positions.len());
    let mut water_count = 0usize;
    for i in 0..positions.len() {
        // The elevation is exactly the scaled noise value, within range.
        assert_eq!(out.vertices[i].y, scale_height(noise_vals[i], cfg.terrain_height));
        assert!(out.vertices[i].y.abs() <= 36_000_000);
        // The biome band follows the normalized height.
        let expected = if noise_vals[i] > 300_000 {
            Biome::Sand
        } else if noise_vals[i] <= cfg.water_level {
            Biome::Water
        } else {
            Biome::Land
        };
        assert_eq!(out.biomes[i], expected);
        assert_eq!(out.colors[i], biome_color(expected));
        if noise_vals[i] <= cfg.water_level {
            water_count += 1;
        }
    }
    // The water mesh lists exactly the at-or-below-water vertices.
    assert_eq!(out.water_points.len(), water_count);
    assert_eq!(out.water_indices.len(), 3 * water_count);
    let mut last_base = 0u32;
    for t in 0..water_count {
        let base = out.water_indices[3 * t];
        assert_eq!(base % 3, 0);
        assert!(base > last_base);
        assert_eq!(out.water_indices[3 * t + 1], base + 2);
        assert_eq!(out.water_indices[3 * t + 2], base + 1);
        last_base = base;
    }
    for p in &out.water_points {
        // Every listed point is a generated vertex at or below water level.
        let source = out
            .vertices
            .iter()
            .position(|v| v == p)
            .expect("water point comes from the grid");
        assert!(noise_vals[source] <= cfg.water_level);
    }
}
