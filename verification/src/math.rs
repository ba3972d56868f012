//! Integer lattice points and the opaque carrier for real-valued positions.

use vstd::prelude::*;

verus! {

/// A point of the integer lattice in three dimensions.
///
/// Chunk coordinates, chunk-local voxel coordinates and global voxel
/// coordinates are all values of this type.
#[derive(Clone, Copy, Debug, PartialEq, Eq, Structural, Hash)]
pub struct IVec3 {
    pub x: i32,
    pub y: i32,
    pub z: i32,
}

impl IVec3 {
    /// Builds the point with the given components.
    pub fn new(x: i32, y: i32, z: i32) -> (v: IVec3)
        ensures
            v == (IVec3 { x, y, z }),
    {
        IVec3 { x, y, z }
    }
}

impl Default for IVec3 {
    /// The origin.
    fn default() -> (v: IVec3)
        ensures
            v == (IVec3 { x: 0, y: 0, z: 0 }),
    {
        IVec3 { x: 0, y: 0, z: 0 }
    }
}

/// A point of the integer lattice in two dimensions: a vertical column of the
/// world, named by its horizontal coordinates.
#[derive(Clone, Copy, Debug, PartialEq, Eq, Structural, Hash)]
pub struct IVec2 {
    pub x: i32,
    pub y: i32,
}

impl IVec2 {
    /// Builds the point with the given components.
    pub fn new(x: i32, y: i32) -> (v: IVec2)
        ensures
            v == (IVec2 { x, y }),
    {
        IVec2 { x, y }
    }
}

/// A player position in continuous world space.
///
/// The three components are single-precision reals. This crate never
/// computes with them: it only carries them from one peer to another, so each
/// component is kept as its raw 32-bit pattern.
#[derive(Clone, Copy, Debug, PartialEq, Eq, Structural, Hash)]
pub struct Position {
    pub x_bits: u32,
    pub y_bits: u32,
    pub z_bits: u32,
}

impl Position {
    /// Builds a position from the bit patterns of its components.
    pub fn from_bits(x_bits: u32, y_bits: u32, z_bits: u32) -> (p: Position)
        ensures
            p == (Position { x_bits, y_bits, z_bits }),
    {
        Position { x_bits, y_bits, z_bits }
    }
}

} // verus!
