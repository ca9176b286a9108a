//! Generator configuration and its fail-fast validation.
//!
//! All fractional quantities (water level, terrain height, grid size, zoom)
//! are fixed-point integers in millionths: `SCALE` stands for `1.0`.

use vstd::prelude::*;

verus! {

/// Fixed-point scale: this many integer units stand for one world unit.
pub const SCALE: i64 = 1_000_000;

/// Normalized heights strictly above this value (0.3 in world terms) are sand.
pub const SAND_THRESHOLD: i64 = 300_000;

/// Largest accepted `terrain_height`, so that a noise value (at most 1.2 in
/// magnitude) times the height cannot overflow an `i64`.
pub const MAX_TERRAIN_HEIGHT: i64 = 4_000_000_000_000;

/// Largest accepted `grid_size`, keeping every grid coordinate within the
/// bounds that the normal computation accepts.
pub const MAX_GRID_SIZE: i64 = 1_000_000_000;

/// Largest accepted subdivision count, keeping the vertex count of a
/// `(subdivisions + 2) x (subdivisions + 2)` grid within the vertex count
/// that the generator accepts.
pub const MAX_SUBDIVISIONS: u32 = 31_620;

/// Startup parameters of the terrain generator.
///
/// `grid_size`, `terrain_height`, `water_level` and `zoom` are in millionths
/// (`SCALE`). `water_level` is a fraction of `terrain_height`, so it must lie
/// in `[-SCALE, SCALE]`.
#[derive(Clone, Copy, Debug)]
pub struct TerrainConfig {
    pub grid_size: i64,
    pub subdivisions: u32,
    pub terrain_height: i64,
    pub water_level: i64,
    pub zoom: i64,
    pub seed: u32,
    pub octaves: u32,
}

/// Why a configuration was rejected.
#[derive(Clone, Copy, Debug, PartialEq, Eq, Structural)]
pub enum ConfigError {
    /// `zoom` must be strictly positive: coordinates are divided by it.
    ZoomNotPositive,
    /// At least one noise octave is required.
    OctavesZero,
    /// `water_level` is a fraction of `terrain_height` in `[-1, 1]`.
    WaterLevelOutOfRange,
    /// `terrain_height` must lie in `[0, MAX_TERRAIN_HEIGHT]`.
    TerrainHeightOutOfRange,
    /// `grid_size` must lie in `(0, MAX_GRID_SIZE]`.
    GridSizeOutOfRange,
    /// `subdivisions` must not exceed `MAX_SUBDIVISIONS`.
    SubdivisionsTooLarge,
}

impl TerrainConfig {
    /// Every bound a generator input must satisfy.
    pub open spec fn wf(self) -> bool {
        &&& 0 < self.zoom
        &&& 0 < self.octaves
        &&& -SCALE <= self.water_level <= SCALE
        &&& 0 <= self.terrain_height <= MAX_TERRAIN_HEIGHT
        &&& 0 < self.grid_size <= MAX_GRID_SIZE
        &&& self.subdivisions <= MAX_SUBDIVISIONS
    }

    /// Builds a configuration, rejecting geometrically meaningless or
    /// machine-overflowing parameters. Checks run in the order of the
    /// `ConfigError` variants; the first failure is reported.
    pub fn new(
        grid_size: i64,
        subdivisions: u32,
        terrain_height: i64,
        water_level: i64,
        zoom: i64,
        seed: u32,
        octaves: u32,
    ) -> (r: Result<TerrainConfig, ConfigError>)
        ensures
            r is Ok <==> (TerrainConfig {
                grid_size,
                subdivisions,
                terrain_height,
                water_level,
                zoom,
                seed,
                octaves,
            }).wf(),
            r matches Ok(c) ==> c == (TerrainConfig {
                grid_size,
                subdivisions,
                terrain_height,
                water_level,
                zoom,
                seed,
                octaves,
            }),
            r == Err::<TerrainConfig, ConfigError>(ConfigError::ZoomNotPositive) <==> zoom <= 0,
            r == Err::<TerrainConfig, ConfigError>(ConfigError::OctavesZero)
                <==> (zoom > 0 && octaves == 0),
            r == Err::<TerrainConfig, ConfigError>(ConfigError::WaterLevelOutOfRange)
                <==> (zoom > 0 && octaves > 0 && !(-SCALE <= water_level <= SCALE)),
            r == Err::<TerrainConfig, ConfigError>(ConfigError::TerrainHeightOutOfRange)
                <==> (zoom > 0 && octaves > 0 && -SCALE <= water_level <= SCALE
                    && !(0 <= terrain_height <= MAX_TERRAIN_HEIGHT)),
            r == Err::<TerrainConfig, ConfigError>(ConfigError::GridSizeOutOfRange)
                <==> (zoom > 0 && octaves > 0 && -SCALE <= water_level <= SCALE
                    && 0 <= terrain_height <= MAX_TERRAIN_HEIGHT
                    && !(0 < grid_size <= MAX_GRID_SIZE)),
            r == Err::<TerrainConfig, ConfigError>(ConfigError::SubdivisionsTooLarge)
                <==> (zoom > 0 && octaves > 0 && -SCALE <= water_level <= SCALE
                    && 0 <= terrain_height <= MAX_TERRAIN_HEIGHT
                    && 0 < grid_size <= MAX_GRID_SIZE
                    && subdivisions > MAX_SUBDIVISIONS),
    {
        if zoom <= 0 {
            Err(ConfigError::ZoomNotPositive)
        } else if octaves == 0 {
            Err(ConfigError::OctavesZero)
        } else if water_level < -SCALE || water_level > SCALE {
            Err(ConfigError::WaterLevelOutOfRange)
        } else if terrain_height < 0 || terrain_height > MAX_TERRAIN_HEIGHT {
            Err(ConfigError::TerrainHeightOutOfRange)
        } else if grid_size <= 0 || grid_size > MAX_GRID_SIZE {
            Err(ConfigError::GridSizeOutOfRange)
        } else if subdivisions > MAX_SUBDIVISIONS {
            Err(ConfigError::SubdivisionsTooLarge)
        } else {
            Ok(TerrainConfig {
                grid_size,
                subdivisions,
                terrain_height,
                water_level,
                zoom,
                seed,
                octaves,
            })
        }
    }
}

} // verus!
