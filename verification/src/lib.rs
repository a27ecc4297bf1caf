//! Deterministic terrain core for a tile-mining game.
//!
//! The library generates a square grid of tile materials from a seeded
//! coherent-noise field, classifies each cell through an ordered ladder of
//! threshold bands, converts between grid indices and centered world
//! positions, and tracks a single pending mining request that rewrites one
//! grid cell at a time.
//!
//! Noise values and classification thresholds are kept as fixed-point
//! integers in millionths, and world positions in half world units, so that
//! every rule of the core is exact integer arithmetic.

pub mod coords;
pub mod error;
pub mod generator;
pub mod grid;
pub mod mining;
pub mod noise_field;
pub mod tile;
