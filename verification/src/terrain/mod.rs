//! How chunks get their cells.

pub mod chunk_generation;
pub mod meshing;
pub mod terrain_generator;
