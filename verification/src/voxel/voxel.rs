//! The cell type of worlds that are kept without the chunk codec.

use vstd::prelude::*;
use crate::voxel::direction::Direction;

verus! {

#[derive(Copy, Clone, Debug, PartialEq, Eq, Structural)]
pub enum VoxelType {
    Void,
    Grass,
    Dirt,
    Stone,
}

#[derive(Copy, Clone, Debug, PartialEq, Eq, Structural)]
pub struct Voxel {
    pub voxel_type: VoxelType,
}

impl Default for Voxel {
    fn default() -> (v: Voxel)
        ensures
            v.voxel_type == VoxelType::Void,
    {
        Self { voxel_type: VoxelType::Void }
    }
}

impl Voxel {
    /// A cell is solid exactly when it is not void.
    pub open spec fn solid(self) -> bool {
        self.voxel_type != VoxelType::Void
    }

    /// The tile of the texture atlas shown on the face of a voxel of the
    /// given type that looks in the given direction.
    pub open spec fn face(voxel_type: VoxelType, direction: Direction) -> u16 {
        match voxel_type {
            VoxelType::Void => 0,
            VoxelType::Grass => match direction {
                Direction::Up => 23,
                Direction::Down => 9,
                _ => 10,
            },
            VoxelType::Dirt => 9,
            VoxelType::Stone => 50,
        }
    }

    pub fn new(voxel_type: VoxelType) -> (v: Voxel)
        ensures
            v.voxel_type == voxel_type,
    {
        Self { voxel_type }
    }

    pub fn new_empty() -> (v: Voxel)
        ensures
            v.voxel_type == VoxelType::Void,
            !v.solid(),
    {
        Self { voxel_type: VoxelType::Void }
    }

    pub fn is_solid(&self) -> (r: bool)
        ensures
            r == self.solid(),
            r <==> self.voxel_type != VoxelType::Void,
    {
        self.voxel_type != VoxelType::Void
    }

    pub fn set_type(&mut self, voxel_type: VoxelType)
        ensures
            final(self).voxel_type == voxel_type,
    {
        self.voxel_type = voxel_type;
    }

    pub fn get_face(voxel_type: &VoxelType, direction: &Direction) -> (id: u16)
        ensures
            id == Voxel::face(*voxel_type, *direction),
    {
        match voxel_type {
            VoxelType::Void => 0,
            VoxelType::Grass => match direction {
                Direction::Up => 23,
                Direction::Down => 9,
                _ => 10,
            },
            VoxelType::Dirt => 9,
            VoxelType::Stone => 50,
        }
    }
}

} // verus!
