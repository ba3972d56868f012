//! The voxel grid: cells, chunks and the store that owns them.

pub mod block;
pub mod chunk;
pub mod codec;
pub mod coords;
pub mod direction;
pub mod laws;
pub mod mesh_builder;
pub mod setup;
pub mod voxel;
pub mod world;
