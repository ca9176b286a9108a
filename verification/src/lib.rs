//! Procedural terrain generation over a regular planar grid.
//!
//! Heights, thresholds and coordinates are fixed-point integers in
//! millionths of a world unit, so that every rule of the generator can be
//! stated and checked exactly. Sampling the coherent-noise field itself is
//! floating-point work done by the caller; the generator consumes the
//! sampled values as fixed-point numbers.

pub mod biome;
pub mod config;
pub mod grid;
pub mod movement;
pub mod normals;
pub mod terrain;
