use terrain_gen::biome::{biome_color, classify, Biome, Rgba};
use terrain_gen::config::{ConfigError, TerrainConfig};
use terrain_gen::grid::grid_positions;
use terrain_gen::movement::{accumulate_input, update_target, Movable};
use terrain_gen::normals::face_normal;
use terrain_gen::terrain::{classify_all, extract_water, generate, scale_height, Vertex};

fn config(terrain_height: i64, water_level: i64) -> TerrainConfig {
    TerrainConfig::new(500_000_000, 500, terrain_height, water_level, 400_000_000, 10, 6)
        .expect("valid configuration")
}

#[test]
fn flat_grid_is_all_land_with_no_water() {
    // A 4x4 grid whose noise values are all zero: height 0, normalized 0,
    // which is neither above the sand threshold nor at or below -0.3.
    let cfg = config(10_000_000, -300_000);
    let positions = grid_positions(4_000_000, 2);
    assert_eq!(positions.len(), 16);
    let noise_vals = vec![0i64; 16];
    let out = generate(&cfg, positions, &noise_vals);
    assert_eq!(out.vertices.len(), 16);
    for v in &out.vertices {
        assert_eq!(v.y, 0);
    }
    for b in &out.biomes {
        assert_eq!(*b, Biome::Land);
    }
    for c in &out.colors {
        assert_eq!(*c, Rgba { red: 22, green: 101, blue: 52, alpha: 255 });
    }
    assert_eq!(out.water_points.len(), 0);
    assert_eq!(out.water_indices.len(), 0);
}

#[test]
fn each_band_has_its_fixed_color() {
    assert_eq!(biome_color(Biome::Sand), Rgba { red: 244, green: 164, blue: 96, alpha: 255 });
    assert_eq!(biome_color(Biome::Water), Rgba { red: 147, green: 197, blue: 253, alpha: 255 });
    assert_eq!(biome_color(Biome::Land), Rgba { red: 22, green: 101, blue: 52, alpha: 255 });
}

#[test]
fn deep_vertex_is_water_and_listed() {
    // A single vertex with noise -0.5 at water level -0.3: classified water
    // and included in the water point list with its scaled elevation.
    let cfg = config(10_000_000, -300_000);
    let positions = vec![Vertex { x: 7, y: 0, z: -9 }];
    let noise_vals = vec![-500_000i64];
    let out = generate(&cfg, positions, &noise_vals);
    assert_eq!(out.biomes, vec![Biome::Water]);
    assert_eq!(out.colors, vec![Rgba { red: 147, green: 197, blue: 253, alpha: 255 }]);
    assert_eq!(out.vertices[0].y, -5_000_000);
    assert_eq!(out.water_points.len(), 1);
    assert_eq!(out.water_points[0], Vertex { x: 7, y: -5_000_000, z: -9 });
    assert_eq!(out.water_indices, vec![3, 5, 4]);
}

#[test]
fn biome_thresholds_resolve_to_lower_band() {
    let wl = -300_000;
    assert_eq!(classify(300_000, wl), Biome::Land);
    assert_eq!(classify(300_001, wl), Biome::Sand);
    assert_eq!(classify(-300_000, wl), Biome::Water);
    assert_eq!(classify(-299_999, wl), Biome::Land);
    assert_eq!(classify(1_200_000, wl), Biome::Sand);
    assert_eq!(classify(-1_200_000, wl), Biome::Water);
}

#[test]
fn classify_all_matches_scalar_classification() {
    let noise_vals = vec![400_000i64, 0, -300_000, 299_999, -1_000_000];
    let biomes = classify_all(&noise_vals, -300_000);
    assert_eq!(
        biomes,
        vec![Biome::Sand, Biome::Land, Biome::Water, Biome::Land, Biome::Water]
    );
}

#[test]
fn config_rejects_bad_parameters_in_order() {
    let err = TerrainConfig::new(1, 0, 1, 0, 0, 0, 6).unwrap_err();
    assert_eq!(err, ConfigError::ZoomNotPositive);
    let err = TerrainConfig::new(1, 0, 1, 0, 1, 0, 0).unwrap_err();
    assert_eq!(err, ConfigError::OctavesZero);
    let err = TerrainConfig::new(1, 0, 1, 1_000_001, 1, 0, 6).unwrap_err();
    assert_eq!(err, ConfigError::WaterLevelOutOfRange);
    let err = TerrainConfig::new(1, 0, 1, -1_000_001, 1, 0, 6).unwrap_err();
    assert_eq!(err, ConfigError::WaterLevelOutOfRange);
    let err = TerrainConfig::new(1, 0, -1, 0, 1, 0, 6).unwrap_err();
    assert_eq!(err, ConfigError::TerrainHeightOutOfRange);
    let err = TerrainConfig::new(0, 0, 1, 0, 1, 0, 6).unwrap_err();
    assert_eq!(err, ConfigError::GridSizeOutOfRange);
    let err = TerrainConfig::new(1, 31_621, 1, 0, 1, 0, 6).unwrap_err();
    assert_eq!(err, ConfigError::SubdivisionsTooLarge);
}

#[test]
fn config_accepts_the_session_parameters() {
    // The demo's session parameters: a 500-unit grid with 500 subdivisions,
    // height 30, water level -0.3, zoom 400, seed 10, 6 octaves.
    let cfg = TerrainConfig::new(500_000_000, 500, 30_000_000, -300_000, 400_000_000, 10, 6)
        .expect("valid configuration");
    assert_eq!(cfg.grid_size, 500_000_000);
    assert_eq!(cfg.subdivisions, 500);
    assert_eq!(cfg.terrain_height, 30_000_000);
    assert_eq!(cfg.water_level, -300_000);
    assert_eq!(cfg.zoom, 400_000_000);
    assert_eq!(cfg.seed, 10);
    assert_eq!(cfg.octaves, 6);
}

#[test]
fn grid_is_centred_and_row_major() {
    // Zero subdivisions: a 2x2 grid of one quad, four units across.
    let vs = grid_positions(4_000_000, 0);
    assert_eq!(
        vs,
        vec![
            Vertex { x: -2_000_000, y: 0, z: -2_000_000 },
            Vertex { x: 2_000_000, y: 0, z: -2_000_000 },
            Vertex { x: -2_000_000, y: 0, z: 2_000_000 },
            Vertex { x: 2_000_000, y: 0, z: 2_000_000 },
        ]
    );
}

#[test]
fn scale_height_truncates_toward_zero() {
    assert_eq!(scale_height(500_000, 30_000_000), 15_000_000);
    assert_eq!(scale_height(-500_000, 30_000_000), -15_000_000);
    assert_eq!(scale_height(-1, 10_000_000), -10);
    assert_eq!(scale_height(1, 500_000), 0);
    assert_eq!(scale_height(-1, 500_000), 0);
    assert_eq!(scale_height(0, 30_000_000), 0);
    assert_eq!(scale_height(1_200_000, 30_000_000), 36_000_000);
}

#[test]
fn water_mesh_indices_step_by_three_in_source_order() {
    // Sources 1, 2 and 4 qualify: bases 6, 9 and 15, each triple wound
    // {base, base + 2, base + 1}.
    let vertices = vec![
        Vertex { x: 0, y: 0, z: 0 },
        Vertex { x: 1, y: -4, z: 0 },
        Vertex { x: 2, y: -4, z: 0 },
        Vertex { x: 3, y: 0, z: 0 },
        Vertex { x: 4, y: -4, z: 0 },
    ];
    let noise_vals = vec![0i64, -400_000, -400_000, 0, -400_000];
    let (points, indices) = extract_water(&vertices, &noise_vals, -300_000);
    assert_eq!(points, vec![vertices[1], vertices[2], vertices[4]]);
    assert_eq!(indices, vec![6, 8, 7, 9, 11, 10, 15, 17, 16]);
    assert_eq!(indices.len(), 3 * points.len());
}

#[test]
fn water_list_holds_exactly_the_below_water_vertices() {
    let cfg = config(10_000_000, -300_000);
    let noise_vals = vec![0i64, -300_000, 500_000, -1_000_000, -299_999, 1_200_000];
    let positions: Vec<Vertex> =
        (0..6).map(|i| Vertex { x: i, y: 0, z: -i }).collect();
    let out = generate(&cfg, positions.clone(), &noise_vals);
    // At or below -0.3: indices 1 and 3 and nothing else.
    assert_eq!(out.water_points.len(), 2);
    assert_eq!(out.water_points[0].x, 1);
    assert_eq!(out.water_points[1].x, 3);
    for (i, n) in noise_vals.iter().enumerate() {
        let listed = out.water_points.iter().any(|p| p.x == positions[i].x);
        assert_eq!(listed, *n <= -300_000);
    }
}

#[test]
fn generator_is_deterministic() {
    let cfg = config(30_000_000, -300_000);
    let positions = grid_positions(500_000_000, 10);
    let noise_vals: Vec<i64> =
        (0..positions.len()).map(|i| ((i as i64 * 37) % 2_400_001) - 1_200_000).collect();
    let out1 = generate(&cfg, positions.clone(), &noise_vals);
    let out2 = generate(&cfg, positions, &noise_vals);
    assert_eq!(out1.vertices, out2.vertices);
    assert_eq!(out1.biomes, out2.biomes);
    assert_eq!(out1.colors, out2.colors);
    assert_eq!(out1.water_points, out2.water_points);
    assert_eq!(out1.water_indices, out2.water_indices);
}

#[test]
fn face_normal_is_the_edge_cross_product() {
    let a = Vertex { x: 0, y: 0, z: 0 };
    let b = Vertex { x: 1_000_000, y: 0, z: 0 };
    let c = Vertex { x: 0, y: 0, z: 1_000_000 };
    let n = face_normal(&a, &b, &c);
    assert_eq!(n, Vertex { x: 0, y: -1_000_000_000_000, z: 0 });
}

#[test]
fn normalized_face_normal_has_unit_length() {
    // Unit normalization is floating-point work outside the verified core;
    // this checks the magnitude of the normalized direction numerically.
    let a = Vertex { x: 0, y: 1_000_000, z: 250_000 };
    let b = Vertex { x: 1_000_000, y: 3_000_000, z: 0 };
    let c = Vertex { x: -500_000, y: 0, z: 1_000_000 };
    let n = face_normal(&a, &b, &c);
    let (nx, ny, nz) = (n.x as f64, n.y as f64, n.z as f64);
    let mag = (nx * nx + ny * ny + nz * nz).sqrt();
    assert!(mag > 0.0);
    let (ux, uy, uz) = (nx / mag, ny / mag, nz / mag);
    let unit = (ux * ux + uy * uy + uz * uz).sqrt();
    assert!((unit - 1.0).abs() < 1e-9);
}

#[test]
fn movable_starts_at_rest_towards_origin() {
    let m = Movable::new(Vertex { x: 1, y: 2, z: 3 });
    assert_eq!(m.accumulation, Vertex { x: 1, y: 2, z: 3 });
    assert_eq!(m.speed, 4_000_000);
    assert_eq!(m.target_position, Vertex { x: 0, y: 0, z: 0 });
}

#[test]
fn right_click_retargets_the_model() {
    let m = Movable::new(Vertex { x: 0, y: 0, z: 0 });
    let picked = Vertex { x: 5, y: 0, z: -5 };
    let same = update_target(m, false, picked);
    assert_eq!(same, m);
    let moved = update_target(m, true, picked);
    assert_eq!(moved.target_position, picked);
    assert_eq!(moved.accumulation, m.accumulation);
    assert_eq!(moved.speed, m.speed);
}

#[test]
fn key_input_moves_one_step_per_axis() {
    let acc = Vertex { x: 0, y: 5, z: 0 };
    let r = accumulate_input(acc, true, false, false, false);
    assert_eq!(r, Vertex { x: 0, y: 5, z: -1_000_000 });
    let r = accumulate_input(acc, false, true, true, false);
    assert_eq!(r, Vertex { x: -1_000_000, y: 5, z: 1_000_000 });
    let r = accumulate_input(acc, true, true, true, true);
    assert_eq!(r, Vertex { x: 0, y: 5, z: 0 });
    let r = accumulate_input(acc, false, false, false, true);
    assert_eq!(r, Vertex { x: 1_000_000, y: 5, z: 0 });
}
