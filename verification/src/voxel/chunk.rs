//! The chunk: a fixed-size grid of cells with links to its four horizontal
//! neighbours.

use vstd::prelude::*;
use crate::math::IVec3;
use crate::voxel::block::Block;
use crate::voxel::block::BlockType;
use crate::voxel::coords::CoordMap;
use crate::voxel::coords::CoordSet;

verus! {

/// Extent of a chunk along X and along Z.
pub const CHUNK_SIZE: i32 = 16;

/// Extent of a chunk along Y.
pub const CHUNK_HEIGHT: i32 = 256;

/// Number of cells of a chunk.
pub const CHUNK_VOLUME: usize = 65536;

/// A chunk as it travels between peers.
pub type CompressedChunk = Vec<u8>;

/// The cells of a chunk, `CHUNK_VOLUME` of them, laid out by [`Chunk::index_of`].
pub type ChunkData = Vec<Block>;

/// The chunk holds no link in any direction.
pub open spec fn no_links() -> Seq<Option<IVec3>> {
    seq![None, None, None, None]
}

/// A chunk as a mathematical value.
pub struct ChunkView {
    pub voxels: Seq<Block>,
    pub pos: IVec3,
    pub neighbors: Seq<Option<IVec3>>,
}

/// A chunk of the world.
///
/// `neighbors` names, by chunk coordinate, the chunks next to this one
/// towards -X, +X, -Z and +Z, in that order. A link is a name and nothing
/// more: the store that owns the chunks resolves it, and a link whose target
/// is gone resolves to nothing.
#[derive(Clone, Debug, PartialEq, Eq)]
pub struct Chunk {
    pub voxels: ChunkData,
    pub pos: IVec3,
    pub neighbors: [Option<IVec3>; 4],
}

impl View for Chunk {
    type V = ChunkView;

    open spec fn view(&self) -> ChunkView {
        ChunkView { voxels: self.voxels@, pos: self.pos, neighbors: self.neighbors@ }
    }
}

impl Default for Chunk {
    /// A chunk of void at the origin, linked to nothing.
    fn default() -> (c: Chunk)
        ensures
            c.wf(),
            c.pos == (IVec3 { x: 0, y: 0, z: 0 }),
            c.neighbors@ == no_links(),
            forall|i: int| 0 <= i < CHUNK_VOLUME ==> (#[trigger] c.voxels@[i]).voxel_type == BlockType::Void,
    {
        let mut voxels: Vec<Block> = Vec::with_capacity(CHUNK_VOLUME);
        let mut i: usize = 0;
        while i < CHUNK_VOLUME
            invariant
                i <= CHUNK_VOLUME,
                voxels@.len() == i,
                forall|j: int| 0 <= j < i ==> (#[trigger] voxels@[j]).voxel_type == BlockType::Void,
            decreases CHUNK_VOLUME - i,
        {
            voxels.push(Block::new_empty());
            i = i + 1;
        }
        let c = Chunk { voxels, pos: IVec3::new(0, 0, 0), neighbors: [None, None, None, None] };
        assert(c.neighbors@ =~= no_links());
        c
    }
}

impl Chunk {
    /// The chunk has all its cells.
    pub open spec fn wf(&self) -> bool {
        self.voxels@.len() == CHUNK_VOLUME
    }

    /// Whether a chunk-local coordinate names a cell of the chunk.
    pub open spec fn in_chunk(c: IVec3) -> bool {
        &&& 0 <= c.y < CHUNK_HEIGHT
        &&& 0 <= c.x < CHUNK_SIZE
        &&& 0 <= c.z < CHUNK_SIZE
    }

    /// Where the cell at a chunk-local coordinate stands in the cell array.
    pub open spec fn index_of(c: IVec3) -> int {
        c.z * CHUNK_SIZE * CHUNK_HEIGHT + c.y * CHUNK_SIZE + c.x
    }

    pub fn set_neighbor(&mut self, index: usize, chunk: Option<IVec3>)
        requires
            index < 4,
        ensures
            final(self).neighbors@ == old(self).neighbors@.update(index as int, chunk),
            final(self).voxels == old(self).voxels,
            final(self).pos == old(self).pos,
    {
        self.neighbors[index] = chunk;
    }

    pub fn get_index(coordinate: &IVec3) -> (i: usize)
        requires
            Chunk::in_chunk(*coordinate),
        ensures
            i == Chunk::index_of(*coordinate),
            i < CHUNK_VOLUME,
    {
        (coordinate.z * CHUNK_SIZE * CHUNK_HEIGHT + coordinate.y * CHUNK_SIZE + coordinate.x) as usize
    }

    pub fn is_in_chunk(coordinate: &IVec3) -> (r: bool)
        ensures
            r == Chunk::in_chunk(*coordinate),
    {
        coordinate.y >= 0 && coordinate.y < CHUNK_HEIGHT && coordinate.x >= 0 && coordinate.x
            < CHUNK_SIZE && coordinate.z >= 0 && coordinate.z < CHUNK_SIZE
    }

    /// The coordinate `c` moved by `dx` along X and `dz` along Z.
    pub open spec fn shifted(c: IVec3, dx: int, dz: int) -> IVec3 {
        IVec3 { x: (c.x + dx) as i32, y: c.y, z: (c.z + dz) as i32 }
    }

    /// The cell at the chunk-local coordinate `c`, which may lie one chunk
    /// over: then the cell is read from the linked neighbour on that side,
    /// looked up among `chunks`. Nothing is found where `c` lies above or
    /// below the chunk, where there is no link on that side, or where the
    /// link's target is not among `chunks`.
    pub open spec fn voxel_at(&self, chunks: Map<IVec3, Chunk>, c: IVec3) -> Option<Block> {
        if Chunk::in_chunk(c) {
            Some(self.voxels@[Chunk::index_of(c)])
        } else if c.x < 0 {
            linked_voxel(chunks, self.neighbors@[0], Chunk::shifted(c, CHUNK_SIZE as int, 0))
        } else if c.x >= CHUNK_SIZE {
            linked_voxel(chunks, self.neighbors@[1], Chunk::shifted(c, -CHUNK_SIZE, 0))
        } else if c.z < 0 {
            linked_voxel(chunks, self.neighbors@[2], Chunk::shifted(c, 0, CHUNK_SIZE as int))
        } else if c.z >= CHUNK_SIZE {
            linked_voxel(chunks, self.neighbors@[3], Chunk::shifted(c, 0, -CHUNK_SIZE))
        } else {
            None
        }
    }

    pub fn get_voxel(&self, chunks: &CoordMap<Chunk>, coordinate: IVec3) -> (r: Option<Block>)
        requires
            self.wf(),
            all_wf(chunks@),
        ensures
            r == self.voxel_at(chunks@, coordinate),
    {
        if Self::is_in_chunk(&coordinate) {
            Some(self.voxels[Self::get_index(&coordinate)])
        } else if coordinate.x < 0 {
            read_linked(chunks, self.neighbors[0], IVec3::new(coordinate.x + CHUNK_SIZE, coordinate.y, coordinate.z))
        } else if coordinate.x >= CHUNK_SIZE {
            read_linked(chunks, self.neighbors[1], IVec3::new(coordinate.x - CHUNK_SIZE, coordinate.y, coordinate.z))
        } else if coordinate.z < 0 {
            read_linked(chunks, self.neighbors[2], IVec3::new(coordinate.x, coordinate.y, coordinate.z + CHUNK_SIZE))
        } else if coordinate.z >= CHUNK_SIZE {
            read_linked(chunks, self.neighbors[3], IVec3::new(coordinate.x, coordinate.y, coordinate.z - CHUNK_SIZE))
        } else {
            None
        }
    }

    /// Whether writing `new_type` at `local` changes the chunk.
    pub open spec fn edits(&self, local: IVec3, new_type: BlockType) -> bool {
        Chunk::in_chunk(local) && self.voxels@[Chunk::index_of(local)].voxel_type != new_type
    }

    /// The neighbours whose geometry a change at `local` can reach: the
    /// linked neighbour on each side of the chunk that `local` touches.
    pub open spec fn side_links(&self, local: IVec3) -> Set<IVec3> {
        let along_x = if local.x == 0 {
            link_set(self.neighbors@[0])
        } else if local.x == CHUNK_SIZE - 1 {
            link_set(self.neighbors@[1])
        } else {
            Set::empty()
        };
        let along_z = if local.z == 0 {
            link_set(self.neighbors@[2])
        } else if local.z == CHUNK_SIZE - 1 {
            link_set(self.neighbors@[3])
        } else {
            Set::empty()
        };
        along_x.union(along_z)
    }

    /// Writes `new_type` at `local_coordinate`. Where that changes the cell,
    /// the chunk is marked dirty, and with it the linked neighbour on each
    /// side that the cell touches. Where the coordinate lies outside the
    /// chunk or the cell has that type already, nothing happens.
    pub fn edit_voxel(&mut self, dirty: &mut CoordSet, local_coordinate: IVec3, new_type: BlockType)
        requires
            old(self).wf(),
            old(dirty).wf(),
        ensures
            final(self).wf(),
            final(dirty).wf(),
            final(self).pos == old(self).pos,
            final(self).neighbors == old(self).neighbors,
            old(self).edits(local_coordinate, new_type) ==> {
                &&& final(self).voxels@ == old(self).voxels@.update(
                    Chunk::index_of(local_coordinate),
                    Block { voxel_type: new_type },
                )
                &&& final(dirty)@ == old(dirty)@.insert(old(self).pos).union(
                    old(self).side_links(local_coordinate),
                )
            },
            !old(self).edits(local_coordinate, new_type) ==> {
                &&& final(self).voxels@ == old(self).voxels@
                &&& final(dirty)@ == old(dirty)@
            },
    {
        if Self::is_in_chunk(&local_coordinate) {
            let index = Self::get_index(&local_coordinate);
            if self.voxels[index].voxel_type != new_type {
                self.voxels.set(index, Block { voxel_type: new_type });
                self.update_chunk(dirty);
                self.update_surrounding_voxels(dirty, local_coordinate);
            }
        }
    }

    /// Marks the chunk dirty.
    pub fn update_chunk(&self, dirty: &mut CoordSet)
        requires
            old(dirty).wf(),
        ensures
            final(dirty).wf(),
            final(dirty)@ == old(dirty)@.insert(self.pos),
    {
        dirty.insert(self.pos);
    }

    /// Marks dirty the linked neighbour on each side of the chunk that
    /// `local_coordinate` touches.
    pub fn update_surrounding_voxels(&self, dirty: &mut CoordSet, local_coordinate: IVec3)
        requires
            old(dirty).wf(),
        ensures
            final(dirty).wf(),
            final(dirty)@ == old(dirty)@.union(self.side_links(local_coordinate)),
    {
        if local_coordinate.x == 0 {
            self.update_neighbor(dirty, 0);
        } else if local_coordinate.x == CHUNK_SIZE - 1 {
            self.update_neighbor(dirty, 1);
        }
        if local_coordinate.z == 0 {
            self.update_neighbor(dirty, 2);
        } else if local_coordinate.z == CHUNK_SIZE - 1 {
            self.update_neighbor(dirty, 3);
        }
        assert(dirty@ =~= old(dirty)@.union(self.side_links(local_coordinate)));
    }

    /// Marks dirty the neighbour linked in the given direction, if any.
    pub fn update_neighbor(&self, dirty: &mut CoordSet, index: usize)
        requires
            index < 4,
            old(dirty).wf(),
        ensures
            final(dirty).wf(),
            final(dirty)@ == old(dirty)@.union(link_set(self.neighbors@[index as int])),
    {
        if let Some(neighbor) = self.neighbors[index] {
            dirty.insert(neighbor);
        }
        assert(dirty@ =~= old(dirty)@.union(link_set(self.neighbors@[index as int])));
    }

    /// The six cells around the one at `coordinate`: towards +X, -X, +Y, -Y,
    /// +Z and -Z, in that order.
    pub fn get_voxel_neighbors(&self, chunks: &CoordMap<Chunk>, coordinate: IVec3) -> (r: [Option<Block>; 6])
        requires
            self.wf(),
            all_wf(chunks@),
            i32::MIN < coordinate.x < i32::MAX,
            i32::MIN < coordinate.y < i32::MAX,
            i32::MIN < coordinate.z < i32::MAX,
        ensures
            r@[0] == self.voxel_at(chunks@, IVec3 { x: (coordinate.x + 1) as i32, ..coordinate }),
            r@[1] == self.voxel_at(chunks@, IVec3 { x: (coordinate.x - 1) as i32, ..coordinate }),
            r@[2] == self.voxel_at(chunks@, IVec3 { y: (coordinate.y + 1) as i32, ..coordinate }),
            r@[3] == self.voxel_at(chunks@, IVec3 { y: (coordinate.y - 1) as i32, ..coordinate }),
            r@[4] == self.voxel_at(chunks@, IVec3 { z: (coordinate.z + 1) as i32, ..coordinate }),
            r@[5] == self.voxel_at(chunks@, IVec3 { z: (coordinate.z - 1) as i32, ..coordinate }),
    {
        let c = coordinate;
        [
            self.get_voxel(chunks, IVec3::new(c.x + 1, c.y, c.z)),
            self.get_voxel(chunks, IVec3::new(c.x - 1, c.y, c.z)),
            self.get_voxel(chunks, IVec3::new(c.x, c.y + 1, c.z)),
            self.get_voxel(chunks, IVec3::new(c.x, c.y - 1, c.z)),
            self.get_voxel(chunks, IVec3::new(c.x, c.y, c.z + 1)),
            self.get_voxel(chunks, IVec3::new(c.x, c.y, c.z - 1)),
        ]
    }
}

/// Every chunk of the collection has all its cells.
pub open spec fn all_wf(chunks: Map<IVec3, Chunk>) -> bool {
    forall|c: IVec3| chunks.contains_key(c) ==> (#[trigger] chunks[c]).wf()
}

/// The target of a link, as a set of at most one coordinate.
pub open spec fn link_set(link: Option<IVec3>) -> Set<IVec3> {
    match link {
        Some(n) => set![n],
        None => Set::empty(),
    }
}

/// The cell at `c` of the chunk that `link` names among `chunks`.
pub open spec fn linked_voxel(chunks: Map<IVec3, Chunk>, link: Option<IVec3>, c: IVec3) -> Option<Block> {
    match link {
        Some(n) => if chunks.contains_key(n) && Chunk::in_chunk(c) {
            Some(chunks[n].voxels@[Chunk::index_of(c)])
        } else {
            None
        },
        None => None,
    }
}

fn read_linked(chunks: &CoordMap<Chunk>, link: Option<IVec3>, c: IVec3) -> (r: Option<Block>)
    requires
        all_wf(chunks@),
    ensures
        r == linked_voxel(chunks@, link, c),
{
    match link {
        Some(n) => match chunks.get(&n) {
            Some(chunk) => if Chunk::is_in_chunk(&c) {
                Some(chunk.voxels[Chunk::get_index(&c)])
            } else {
                None
            },
            None => None,
        },
        None => None,
    }
}

/// Two coordinates of one chunk with the same index are the same coordinate,
/// and every index below the volume belongs to a coordinate of the chunk.
pub proof fn lemma_index_of(a: IVec3, b: IVec3)
    requires
        Chunk::in_chunk(a),
        Chunk::in_chunk(b),
    ensures
        0 <= Chunk::index_of(a) < CHUNK_VOLUME,
        Chunk::index_of(a) == Chunk::index_of(b) ==> a == b,
{
}

} // verus!
