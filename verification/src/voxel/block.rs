//! The typed cell of the voxel grid.

use vstd::prelude::*;
use crate::voxel::direction::Direction;

verus! {

#[derive(Copy, Clone, Debug, PartialEq, Eq, Structural, Hash)]
pub enum BlockType {
    Void,
    Grass,
    Dirt,
    Stone,
}

#[derive(Copy, Clone, Debug, PartialEq, Eq, Structural)]
pub struct Block {
    pub voxel_type: BlockType,
}

impl Default for Block {
    fn default() -> (b: Block)
        ensures
            b.voxel_type == BlockType::Void,
    {
        Self { voxel_type: BlockType::Void }
    }
}

impl Block {
    /// A cell is solid exactly when it is not void.
    pub open spec fn solid(self) -> bool {
        self.voxel_type != BlockType::Void
    }

    /// The tile of the texture atlas shown on the face of a block of the
    /// given type that looks in the given direction.
    pub open spec fn face(voxel_type: BlockType, direction: Direction) -> u16 {
        match voxel_type {
            BlockType::Void => 0,
            BlockType::Grass => match direction {
                Direction::Up => 23,
                Direction::Down => 9,
                _ => 10,
            },
            BlockType::Dirt => 9,
            BlockType::Stone => 50,
        }
    }

    pub fn new_empty() -> (b: Block)
        ensures
            b.voxel_type == BlockType::Void,
            !b.solid(),
    {
        Self { voxel_type: BlockType::Void }
    }

    pub fn is_solid(&self) -> (r: bool)
        ensures
            r == self.solid(),
            r <==> self.voxel_type != BlockType::Void,
    {
        self.voxel_type != BlockType::Void
    }

    pub fn set_type(&mut self, voxel_type: BlockType)
        ensures
            final(self).voxel_type == voxel_type,
    {
        self.voxel_type = voxel_type;
    }

    pub fn get_face(voxel_type: &BlockType, direction: &Direction) -> (id: u16)
        ensures
            id == Block::face(*voxel_type, *direction),
    {
        match voxel_type {
            BlockType::Void => 0,
            BlockType::Grass => match direction {
                Direction::Up => 23,
                Direction::Down => 9,
                _ => 10,
            },
            BlockType::Dirt => 9,
            BlockType::Stone => 50,
        }
    }
}

} // verus!
