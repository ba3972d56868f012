//! The six axis-aligned directions a voxel face can look in.

use vstd::prelude::*;
use crate::math::IVec3;

verus! {

#[derive(Clone, Copy, Debug, PartialEq, Eq, Structural)]
pub enum Direction {
    Left,
    Right,
    Down,
    Up,
    Back,
    Forward,
}

impl Direction {
    /// The unit vector of the direction: `Right` is +X, `Up` is +Y and
    /// `Forward` is +Z.
    pub open spec fn normal(self) -> IVec3 {
        match self {
            Direction::Left => IVec3 { x: -1i32, y: 0, z: 0 },
            Direction::Right => IVec3 { x: 1, y: 0, z: 0 },
            Direction::Down => IVec3 { x: 0, y: -1i32, z: 0 },
            Direction::Up => IVec3 { x: 0, y: 1, z: 0 },
            Direction::Back => IVec3 { x: 0, y: 0, z: -1i32 },
            Direction::Forward => IVec3 { x: 0, y: 0, z: 1 },
        }
    }

    /// The direction with the given face index. Faces are numbered right,
    /// left, up, down, forward, back.
    pub open spec fn of_index(index: int) -> Direction {
        if index == 0 {
            Direction::Right
        } else if index == 1 {
            Direction::Left
        } else if index == 2 {
            Direction::Up
        } else if index == 3 {
            Direction::Down
        } else if index == 4 {
            Direction::Forward
        } else {
            Direction::Back
        }
    }

    pub fn get_normal(&self) -> (n: IVec3)
        ensures
            n == self.normal(),
    {
        match self {
            Direction::Left => IVec3::new(-1, 0, 0),
            Direction::Right => IVec3::new(1, 0, 0),
            Direction::Down => IVec3::new(0, -1, 0),
            Direction::Up => IVec3::new(0, 1, 0),
            Direction::Back => IVec3::new(0, 0, -1),
            Direction::Forward => IVec3::new(0, 0, 1),
        }
    }

    #[inline]
    pub fn from_index(index: usize) -> (d: Direction)
        requires
            index < 6,
        ensures
            d == Direction::of_index(index as int),
    {
        if index == 0 {
            Direction::Right
        } else if index == 1 {
            Direction::Left
        } else if index == 2 {
            Direction::Up
        } else if index == 3 {
            Direction::Down
        } else if index == 4 {
            Direction::Forward
        } else {
            Direction::Back
        }
    }
}

} // verus!
