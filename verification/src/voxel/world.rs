//! The voxel store: the chunks of the world by coordinate, the handles of
//! their placeholders, the set of chunks to rebuild for presentation, and
//! the registries of chunks that are awaited.

use vstd::prelude::*;
use std::collections::HashMap;
use std::collections::HashSet;
use vstd::std_specs::iter::IteratorSpec;
use crate::math::IVec2;
use crate::math::IVec3;
use crate::voxel::block::Block;
use crate::voxel::block::BlockType;
use crate::voxel::chunk::all_wf;
use crate::voxel::chunk::link_set;
use crate::voxel::chunk::Chunk;
use crate::voxel::chunk::ChunkView;
use crate::voxel::chunk::CHUNK_HEIGHT;
use crate::voxel::chunk::CHUNK_SIZE;
use crate::voxel::chunk::CHUNK_VOLUME;
use crate::voxel::coords::CoordMap;
use crate::voxel::coords::CoordSet;

verus! {

/// Room reserved at start for chunks, placeholders and marks.
pub const DEFAULT_MAX_CHUNKS: usize = 10000;

/// The world that is loaded at start reaches `WORLD_SIZE - 1` chunks from the
/// origin along X and along Z.
pub const WORLD_SIZE: i32 = 5;

/// The handle of a placeholder or of a player representation, as the
/// presentation layer hands it out.
pub type EntityId = u64;

/// The coordinate next to `c` in direction `i`: 0 is towards -X, 1 towards
/// +X, 2 towards -Z and 3 towards +Z. There is none past the end of the
/// coordinate range.
pub open spec fn neighbor_coord(c: IVec3, i: int) -> Option<IVec3> {
    if i == 0 && c.x > i32::MIN {
        Some(IVec3 { x: (c.x - 1) as i32, ..c })
    } else if i == 1 && c.x < i32::MAX {
        Some(IVec3 { x: (c.x + 1) as i32, ..c })
    } else if i == 2 && c.z > i32::MIN {
        Some(IVec3 { z: (c.z - 1) as i32, ..c })
    } else if i == 3 && c.z < i32::MAX {
        Some(IVec3 { z: (c.z + 1) as i32, ..c })
    } else {
        None
    }
}

/// The neighbour of `c` in direction `i`, if it is among `loaded`.
pub open spec fn link(loaded: Set<IVec3>, c: IVec3, i: int) -> Option<IVec3> {
    match neighbor_coord(c, i) {
        Some(n) => if loaded.contains(n) {
            Some(n)
        } else {
            None
        },
        None => None,
    }
}

/// The links of the chunk at `c` in a world whose chunks are `loaded`: one
/// to each neighbour that is loaded, none to the others.
pub open spec fn links(loaded: Set<IVec3>, c: IVec3) -> Seq<Option<IVec3>> {
    seq![link(loaded, c, 0), link(loaded, c, 1), link(loaded, c, 2), link(loaded, c, 3)]
}

/// The chunks among `loaded` that are next to `c`.
pub open spec fn loaded_neighbors(loaded: Set<IVec3>, c: IVec3) -> Set<IVec3> {
    Set::new(|n: IVec3| loaded.contains(n) && exists|i: int| 0 <= i < 4 && neighbor_coord(c, i) == Some(n))
}

/// The loaded neighbours of the chunk at `chunk` whose geometry a change of
/// the cell at `local` can reach: the one past each side of the chunk that
/// the cell touches.
pub open spec fn touched_neighbors(loaded: Set<IVec3>, chunk: IVec3, local: IVec3) -> Set<IVec3> {
    let along_x = if local.x == 0 {
        link_set(link(loaded, chunk, 0))
    } else if local.x == CHUNK_SIZE - 1 {
        link_set(link(loaded, chunk, 1))
    } else {
        Set::empty()
    };
    let along_z = if local.z == 0 {
        link_set(link(loaded, chunk, 2))
    } else if local.z == CHUNK_SIZE - 1 {
        link_set(link(loaded, chunk, 3))
    } else {
        Set::empty()
    };
    along_x.union(along_z)
}

/// The direction that leads back: from -X to +X, from -Z to +Z, and the
/// other way round.
pub open spec fn opposite(i: int) -> int {
    if i % 2 == 0 {
        i + 1
    } else {
        i - 1
    }
}

/// A chunk coordinate and a chunk-local coordinate that name the same cell
/// as `chunk` and `local` do, with the local coordinate inside the chunk
/// along X and Z. The division rounds down and the remainder is never
/// negative, so that cells left of the origin are carried the right way.
pub open spec fn normalized(chunk: IVec3, local: IVec3) -> (IVec3, IVec3) {
    (
        IVec3 {
            x: (chunk.x + local.x as int / CHUNK_SIZE as int) as i32,
            y: chunk.y,
            z: (chunk.z + local.z as int / CHUNK_SIZE as int) as i32,
        },
        IVec3 {
            x: (local.x as int % CHUNK_SIZE as int) as i32,
            y: local.y,
            z: (local.z as int % CHUNK_SIZE as int) as i32,
        },
    )
}

/// The chunk that holds the cell at a global coordinate.
pub open spec fn chunk_of(global: IVec3) -> IVec3 {
    normalized(IVec3 { x: 0, y: 0, z: 0 }, global).0
}

/// Where in its chunk the cell at a global coordinate stands.
pub open spec fn local_of(global: IVec3) -> IVec3 {
    normalized(IVec3 { x: 0, y: 0, z: 0 }, global).1
}

/// The voxel store as a mathematical value.
pub struct WorldView {
    /// The chunks that are loaded.
    pub chunks: Map<IVec3, ChunkView>,
    /// The placeholder of each chunk coordinate that has one.
    pub entities: Map<IVec3, EntityId>,
    /// The chunks to rebuild for presentation.
    pub dirty: Set<IVec3>,
    /// The chunks a client has asked its server for and not yet received.
    pub pending_requested: Set<IVec3>,
    /// For each chunk that is awaited on the server, the peers that wait.
    pub pending_generating: Map<IVec3, Set<u64>>,
    /// The representation of each remote player a client knows.
    pub players: Map<u64, EntityId>,
}

impl WorldView {
    /// The store's invariant: every chunk is complete, stands under its own
    /// position and is linked to exactly those of its neighbours that are
    /// loaded, so that links always come in pairs; only chunks that are
    /// there are dirty; and nobody waits for a chunk that is there.
    pub open spec fn wf(self) -> bool {
        &&& forall|c: IVec3|
            self.chunks.contains_key(c) ==> {
                &&& (#[trigger] self.chunks[c]).voxels.len() == CHUNK_VOLUME
                &&& self.chunks[c].pos == c
                &&& self.chunks[c].neighbors == links(self.chunks.dom(), c)
            }
        &&& forall|c: IVec3| #[trigger] self.dirty.contains(c) ==> self.chunks.contains_key(c)
        &&& forall|c: IVec3| #[trigger]
            self.pending_generating.contains_key(c) ==> !self.chunks.contains_key(c)
    }

    /// The store after the chunk with cells `voxels` is installed at
    /// `coord`: the chunk stands there, linked both ways with each neighbour
    /// that is loaded; it and those neighbours are dirty; and the coordinate
    /// has left both registries of awaited chunks.
    pub open spec fn set_chunk(self, coord: IVec3, voxels: Seq<Block>) -> WorldView {
        let loaded = self.chunks.dom().insert(coord);
        WorldView {
            chunks: Map::new(
                |c: IVec3| loaded.contains(c),
                |c: IVec3|
                    ChunkView {
                        voxels: if c == coord {
                            voxels
                        } else {
                            self.chunks[c].voxels
                        },
                        pos: c,
                        neighbors: links(loaded, c),
                    },
            ),
            dirty: self.dirty.insert(coord).union(loaded_neighbors(self.chunks.dom(), coord)),
            pending_requested: self.pending_requested.remove(coord),
            pending_generating: self.pending_generating.remove(coord),
            ..self
        }
    }

    /// Whether writing `new_type` at a global coordinate changes the store:
    /// the cell is known and has another type.
    pub open spec fn edits(self, global: IVec3, new_type: BlockType) -> bool {
        self.voxel(global) matches Some(b) && b.voxel_type != new_type
    }

    /// The store after `new_type` is written at a global coordinate. Where
    /// that changes a cell, the cell's chunk is dirty, and so is the loaded
    /// neighbour on each side of the chunk that the cell touches. Otherwise
    /// the store is as before.
    pub open spec fn edit_voxel(self, global: IVec3, new_type: BlockType) -> WorldView {
        let chunk = chunk_of(global);
        let local = local_of(global);
        if self.edits(global, new_type) {
            WorldView {
                chunks: self.chunks.insert(
                    chunk,
                    ChunkView {
                        voxels: self.chunks[chunk].voxels.update(
                            Chunk::index_of(local),
                            Block { voxel_type: new_type },
                        ),
                        ..self.chunks[chunk]
                    },
                ),
                dirty: self.dirty.insert(chunk).union(touched_neighbors(self.chunks.dom(), chunk, local)),
                ..self
            }
        } else {
            self
        }
    }

    /// Whether the cell at a global coordinate is known and solid.
    pub open spec fn solid_at(self, global: IVec3) -> bool {
        self.voxel(global) matches Some(b) && b.solid()
    }

    /// Whether `y` is the height of the highest solid cell of a column, or 0
    /// where the column has no solid cell above its lowest one.
    pub open spec fn is_highest(self, column: IVec2, y: int) -> bool {
        &&& 0 <= y < CHUNK_HEIGHT
        &&& forall|above: int|
            y < above < CHUNK_HEIGHT ==> !#[trigger] self.solid_at(
                IVec3 { x: column.x, y: above as i32, z: column.y },
            )
        &&& y > 0 ==> self.solid_at(IVec3 { x: column.x, y: y as i32, z: column.y })
    }

    /// The peers that wait for the chunk at `coord`.
    pub open spec fn waiters(self, coord: IVec3) -> Set<u64> {
        if self.pending_generating.contains_key(coord) {
            self.pending_generating[coord]
        } else {
            Set::empty()
        }
    }

    /// The store after `peer` has joined those who wait for the chunk at
    /// `coord`.
    pub open spec fn await_chunk(self, coord: IVec3, peer: u64) -> WorldView {
        WorldView {
            pending_generating: self.pending_generating.insert(coord, self.waiters(coord).insert(peer)),
            ..self
        }
    }

    /// The cell at a global coordinate, if its chunk is loaded and the
    /// coordinate lies within the height of the world.
    pub open spec fn voxel(self, global: IVec3) -> Option<Block> {
        if self.chunks.contains_key(chunk_of(global)) && 0 <= global.y < CHUNK_HEIGHT {
            Some(self.chunks[chunk_of(global)].voxels[Chunk::index_of(local_of(global))])
        } else {
            None
        }
    }
}

/// The voxel store.
pub struct World {
    pub(crate) chunk_data_map: CoordMap<Chunk>,
    pub(crate) chunk_entities: CoordMap<EntityId>,
    pub(crate) dirty_chunks: CoordSet,
    pub(crate) pending_requested_chunks: CoordSet,
    pub(crate) pending_generating_chunks: CoordMap<HashSet<u64>>,
    pub(crate) players: HashMap<u64, EntityId>,
}

impl View for World {
    type V = WorldView;

    closed spec fn view(&self) -> WorldView {
        WorldView {
            chunks: self.chunk_data_map@.map_values(|c: Chunk| c@),
            entities: self.chunk_entities@,
            dirty: self.dirty_chunks@,
            pending_requested: self.pending_requested_chunks@,
            pending_generating: self.pending_generating_chunks@.map_values(|s: HashSet<u64>| s@),
            players: self.players@,
        }
    }
}

impl Default for World {
    fn default() -> (w: World)
        ensures
            w.wf(),
            w@ == World::empty(),
    {
        Self::new()
    }
}

impl World {
    /// The store with nothing in it.
    pub open spec fn empty() -> WorldView {
        WorldView {
            chunks: Map::empty(),
            entities: Map::empty(),
            dirty: Set::empty(),
            pending_requested: Set::empty(),
            pending_generating: Map::empty(),
            players: Map::empty(),
        }
    }

    /// The store is sound inside, and its value meets [`WorldView::wf`].
    pub closed spec fn wf(&self) -> bool {
        &&& self.dirty_chunks.wf()
        &&& self.pending_requested_chunks.wf()
        &&& self@.wf()
    }

    /// The value of a sound store meets the invariant of stores.
    pub proof fn lemma_wf(&self)
        requires
            self.wf(),
        ensures
            self@.wf(),
    {
    }

    pub fn new() -> (w: World)
        ensures
            w.wf(),
            w@ == World::empty(),
    {
        let w = Self {
            chunk_data_map: CoordMap::with_capacity(DEFAULT_MAX_CHUNKS),
            chunk_entities: CoordMap::with_capacity(DEFAULT_MAX_CHUNKS),
            dirty_chunks: CoordSet::with_capacity(DEFAULT_MAX_CHUNKS),
            pending_requested_chunks: CoordSet::with_capacity(DEFAULT_MAX_CHUNKS),
            players: HashMap::new(),
            pending_generating_chunks: CoordMap::new(),
        };
        proof {
            assert(w@.chunks =~= Map::<IVec3, ChunkView>::empty());
            assert(w@.pending_generating =~= Map::<IVec3, Set<u64>>::empty());
        }
        w
    }

    /// Carries whole chunks out of `local_pos` into `chunk_pos` until the
    /// local coordinate lies inside the chunk along X and Z. The cell that
    /// the two coordinates name together stays the same.
    pub fn make_coords_valid(chunk_pos: &mut IVec3, local_pos: &mut IVec3)
        requires
            i32::MIN <= old(chunk_pos).x + old(local_pos).x as int / CHUNK_SIZE as int <= i32::MAX,
            i32::MIN <= old(chunk_pos).z + old(local_pos).z as int / CHUNK_SIZE as int <= i32::MAX,
        ensures
            (*final(chunk_pos), *final(local_pos)) == normalized(*old(chunk_pos), *old(local_pos)),
            0 <= final(local_pos).x < CHUNK_SIZE,
            0 <= final(local_pos).z < CHUNK_SIZE,
            final(chunk_pos).x * CHUNK_SIZE + final(local_pos).x == old(chunk_pos).x * CHUNK_SIZE
                + old(local_pos).x,
            final(chunk_pos).z * CHUNK_SIZE + final(local_pos).z == old(chunk_pos).z * CHUNK_SIZE
                + old(local_pos).z,
            final(chunk_pos).y == old(chunk_pos).y,
            final(local_pos).y == old(local_pos).y,
    {
        let ghost gx: int = old(chunk_pos).x * 16 + old(local_pos).x;
        let ghost gz: int = old(chunk_pos).z * 16 + old(local_pos).z;
        let ghost tx: int = old(chunk_pos).x + old(local_pos).x as int / 16;
        let ghost tz: int = old(chunk_pos).z + old(local_pos).z as int / 16;
        while local_pos.x < 0
            invariant
                chunk_pos.x * 16 + local_pos.x == gx,
                tx * 16 <= gx < tx * 16 + 16,
                i32::MIN <= tx <= i32::MAX,
                chunk_pos.y == old(chunk_pos).y,
                chunk_pos.z == old(chunk_pos).z,
                local_pos.y == old(local_pos).y,
                local_pos.z == old(local_pos).z,
            decreases (if local_pos.x < 0 { -local_pos.x } else { 0 }),
        {
            local_pos.x += CHUNK_SIZE;
            chunk_pos.x -= 1;
        }
        while local_pos.x >= CHUNK_SIZE
            invariant
                local_pos.x >= 0,
                chunk_pos.x * 16 + local_pos.x == gx,
                tx * 16 <= gx < tx * 16 + 16,
                i32::MIN <= tx <= i32::MAX,
                chunk_pos.y == old(chunk_pos).y,
                chunk_pos.z == old(chunk_pos).z,
                local_pos.y == old(local_pos).y,
                local_pos.z == old(local_pos).z,
            decreases local_pos.x,
        {
            local_pos.x -= CHUNK_SIZE;
            chunk_pos.x += 1;
        }
        while local_pos.z < 0
            invariant
                0 <= local_pos.x < 16,
                chunk_pos.x * 16 + local_pos.x == gx,
                chunk_pos.z * 16 + local_pos.z == gz,
                tz * 16 <= gz < tz * 16 + 16,
                i32::MIN <= tz <= i32::MAX,
                chunk_pos.y == old(chunk_pos).y,
                local_pos.y == old(local_pos).y,
            decreases (if local_pos.z < 0 { -local_pos.z } else { 0 }),
        {
            local_pos.z += CHUNK_SIZE;
            chunk_pos.z -= 1;
        }
        while local_pos.z >= CHUNK_SIZE
            invariant
                local_pos.z >= 0,
                0 <= local_pos.x < 16,
                chunk_pos.x * 16 + local_pos.x == gx,
                chunk_pos.z * 16 + local_pos.z == gz,
                tz * 16 <= gz < tz * 16 + 16,
                i32::MIN <= tz <= i32::MAX,
                chunk_pos.y == old(chunk_pos).y,
                local_pos.y == old(local_pos).y,
            decreases local_pos.z,
        {
            local_pos.z -= CHUNK_SIZE;
            chunk_pos.z += 1;
        }
    }

    /// The global coordinate of the cell that stands at `voxel_coord` in the
    /// chunk at `chunk_coord`.
    pub fn chunk_local_to_world(chunk_coord: &IVec3, voxel_coord: &IVec3) -> (g: IVec3)
        requires
            i32::MIN <= chunk_coord.x * CHUNK_SIZE + voxel_coord.x <= i32::MAX,
            i32::MIN <= chunk_coord.z * CHUNK_SIZE + voxel_coord.z <= i32::MAX,
        ensures
            g.x == chunk_coord.x * CHUNK_SIZE + voxel_coord.x,
            g.y == voxel_coord.y,
            g.z == chunk_coord.z * CHUNK_SIZE + voxel_coord.z,
    {
        let x: i64 = chunk_coord.x as i64 * CHUNK_SIZE as i64 + voxel_coord.x as i64;
        let z: i64 = chunk_coord.z as i64 * CHUNK_SIZE as i64 + voxel_coord.z as i64;
        IVec3::new(x as i32, voxel_coord.y, z as i32)
    }

    pub fn get_chunk(&self, chunk_coord: IVec3) -> (r: Option<&Chunk>)
        requires
            self.wf(),
        ensures
            match r {
                Some(chunk) => self@.chunks.contains_key(chunk_coord) && chunk@
                    == self@.chunks[chunk_coord] && chunk.wf(),
                None => !self@.chunks.contains_key(chunk_coord),
            },
    {
        let r = self.chunk_data_map.get(&chunk_coord);
        proof {
            if r is Some {
                assert(self@.chunks[chunk_coord].pos == chunk_coord);
            }
        }
        r
    }

    /// The chunks of the store, by coordinate.
    pub fn chunks(&self) -> (r: &CoordMap<Chunk>)
        requires
            self.wf(),
        ensures
            all_wf(r@),
            r@.dom() == self@.chunks.dom(),
            forall|c: IVec3| r@.contains_key(c) ==> (#[trigger] r@[c])@ == self@.chunks[c],
    {
        proof {
            self.lemma_chunks_wf();
            assert(self.chunk_data_map@.dom() =~= self@.chunks.dom());
        }
        &self.chunk_data_map
    }

    /// The cell at a global coordinate; none where its chunk is not loaded
    /// or the coordinate lies above or below the world.
    pub fn get_voxel(&self, global_coord: &IVec3) -> (r: Option<Block>)
        requires
            self.wf(),
        ensures
            r == self@.voxel(*global_coord),
    {
        let mut chunk_coord = IVec3::default();
        let mut local_coord = *global_coord;
        Self::make_coords_valid(&mut chunk_coord, &mut local_coord);
        proof {
            self.lemma_chunks_wf();
        }
        match self.chunk_data_map.get(&chunk_coord) {
            Some(chunk) => chunk.get_voxel(&self.chunk_data_map, local_coord),
            None => None,
        }
    }

    /// Whether the cell at a global coordinate is known and solid.
    pub fn check_block_at_coord(&self, global_coord: &IVec3) -> (r: bool)
        requires
            self.wf(),
        ensures
            r == (self@.voxel(*global_coord) matches Some(b) && b.solid()),
    {
        if let Some(voxel) = self.get_voxel(global_coord) {
            voxel.voxel_type != BlockType::Void
        } else {
            false
        }
    }

    /// The links that a chunk at `chunk_coord` has in this store: to each
    /// of its four neighbours that is loaded.
    pub fn get_neighbors_chunks(&self, chunk_coord: &IVec3) -> (r: [Option<IVec3>; 4])
        requires
            self.wf(),
        ensures
            r@ == links(self@.chunks.dom(), *chunk_coord),
    {
        let c = *chunk_coord;
        let left = if c.x > i32::MIN {
            self.loaded(IVec3::new(c.x - 1, c.y, c.z))
        } else {
            None
        };
        let right = if c.x < i32::MAX {
            self.loaded(IVec3::new(c.x + 1, c.y, c.z))
        } else {
            None
        };
        let back = if c.z > i32::MIN {
            self.loaded(IVec3::new(c.x, c.y, c.z - 1))
        } else {
            None
        };
        let front = if c.z < i32::MAX {
            self.loaded(IVec3::new(c.x, c.y, c.z + 1))
        } else {
            None
        };
        let r = [left, right, back, front];
        assert(r@ =~= links(self@.chunks.dom(), *chunk_coord));
        r
    }

    /// The coordinate itself where a chunk is loaded at it.
    fn loaded(&self, coord: IVec3) -> (r: Option<IVec3>)
        ensures
            r == (if self@.chunks.dom().contains(coord) {
                Some(coord)
            } else {
                None
            }),
    {
        if self.chunk_data_map.contains_key(&coord) {
            Some(coord)
        } else {
            None
        }
    }

    /// Writes `voxel_type` at a global coordinate, see [`WorldView::edit_voxel`].
    pub fn edit_voxel(&mut self, global_coord: &IVec3, voxel_type: BlockType)
        requires
            old(self).wf(),
        ensures
            final(self).wf(),
            final(self)@ == old(self)@.edit_voxel(*global_coord, voxel_type),
    {
        let mut chunk_coord = IVec3::default();
        let mut local_coord = *global_coord;
        Self::make_coords_valid(&mut chunk_coord, &mut local_coord);
        match self.chunk_data_map.remove(&chunk_coord) {
            Some(mut chunk) => {
                assert(old(self)@.chunks[chunk_coord].pos == chunk_coord);
                let ghost before = chunk;
                chunk.edit_voxel(&mut self.dirty_chunks, local_coord, voxel_type);
                self.chunk_data_map.insert(chunk_coord, chunk);
                proof {
                    let loaded = old(self)@.chunks.dom();
                    assert(before.neighbors@ == links(loaded, chunk_coord));
                    assert(before.side_links(local_coord) =~= touched_neighbors(
                        loaded,
                        chunk_coord,
                        local_coord,
                    ));
                    let want = old(self)@.edit_voxel(*global_coord, voxel_type);
                    assert(self@.chunks =~= want.chunks);
                    assert(self@.pending_generating =~= want.pending_generating);
                    assert(self@.dirty =~= want.dirty);
                    assert(self@.chunks.dom() =~= loaded);
                    assert forall|c: IVec3| self@.chunks.contains_key(c) implies (
                    #[trigger] self@.chunks[c]).neighbors == links(self@.chunks.dom(), c) by {
                        assert(old(self)@.chunks[c].pos == c);
                    }
                }
            },
            None => {
                proof {
                    assert(self.chunk_data_map@ =~= old(self).chunk_data_map@);
                    assert(self@.chunks =~= old(self)@.chunks);
                    assert(self@.pending_generating =~= old(self)@.pending_generating);
                }
            },
        }
    }

    /// Installs `chunk` at `chunk_coord`, see [`WorldView::set_chunk`]. The
    /// chunk is stored under the position `chunk_coord`, whatever position
    /// and links it came with.
    pub fn set_chunk(&mut self, chunk_coord: IVec3, chunk: Chunk)
        requires
            old(self).wf(),
            chunk.wf(),
        ensures
            final(self).wf(),
            final(self)@ == old(self)@.set_chunk(chunk_coord, chunk.voxels@),
    {
        let mut chunk = chunk;
        chunk.pos = chunk_coord;
        let neighbors = self.get_neighbors_chunks(&chunk_coord);
        let ghost before = old(self).chunk_data_map@;
        let ghost loaded = old(self)@.chunks.dom();
        proof {
            assert(loaded =~= before.dom());
            assert forall|c: IVec3| before.contains_key(c) implies (#[trigger] before[c]).pos == c
                && before[c].neighbors@ == links(loaded, c) && before[c].wf() by {
                assert(old(self)@.chunks[c].pos == c);
            }
        }
        chunk.set_neighbor(0, neighbors[0]);
        self.link_back(chunk_coord, 0, neighbors[0]);
        chunk.set_neighbor(1, neighbors[1]);
        self.link_back(chunk_coord, 1, neighbors[1]);
        chunk.set_neighbor(2, neighbors[2]);
        self.link_back(chunk_coord, 2, neighbors[2]);
        chunk.set_neighbor(3, neighbors[3]);
        self.link_back(chunk_coord, 3, neighbors[3]);
        let ghost linked = self.chunk_data_map@;
        self.chunk_data_map.insert(chunk_coord, chunk);
        self.dirty_chunks.insert(chunk_coord);
        self.pending_requested_chunks.remove(&chunk_coord);
        self.pending_generating_chunks.remove(&chunk_coord);
        proof {
            let want = old(self)@.set_chunk(chunk_coord, chunk.voxels@);
            let now = loaded.insert(chunk_coord);
            assert(chunk.neighbors@ =~= links(now, chunk_coord));
            assert forall|c: IVec3| now.contains(c) implies (#[trigger] self@.chunks[c])
                == want.chunks[c] by {
                if c != chunk_coord {
                    assert(before[c].pos == c);
                    assert(old(self)@.chunks[c].voxels == before[c].voxels@);
                    assert(linked[c].neighbors@ =~= links(now, c));
                }
            }
            assert(self@.chunks =~= want.chunks);
            assert(self@.dirty =~= want.dirty);
            assert(self@.pending_generating =~= want.pending_generating);
            assert(self@.chunks.dom() =~= now);
        }
    }

    /// Makes the neighbour `n` of the chunk at `coord`, which lies in
    /// direction `i` from it, point back at `coord`, and marks it dirty.
    fn link_back(&mut self, coord: IVec3, i: usize, n: Option<IVec3>)
        requires
            i < 4,
            n == link(old(self).chunk_data_map@.dom(), coord, i as int),
            old(self).dirty_chunks.wf(),
        ensures
            final(self).dirty_chunks.wf(),
            final(self).dirty_chunks@ == old(self).dirty_chunks@.union(link_set(n)),
            final(self).chunk_entities == old(self).chunk_entities,
            final(self).pending_requested_chunks == old(self).pending_requested_chunks,
            final(self).pending_generating_chunks == old(self).pending_generating_chunks,
            final(self).players == old(self).players,
            final(self).chunk_data_map@.dom() == old(self).chunk_data_map@.dom(),
            forall|c: IVec3|
                old(self).chunk_data_map@.contains_key(c) && n != Some(c) ==> (
                #[trigger] final(self).chunk_data_map@[c]) == old(self).chunk_data_map@[c],
            n matches Some(t) ==> {
                &&& final(self).chunk_data_map@[t].voxels == old(self).chunk_data_map@[t].voxels
                &&& final(self).chunk_data_map@[t].pos == old(self).chunk_data_map@[t].pos
                &&& final(self).chunk_data_map@[t].neighbors@ == old(
                    self,
                ).chunk_data_map@[t].neighbors@.update(opposite(i as int), Some(coord))
            },
    {
        match n {
            Some(t) => {
                match self.chunk_data_map.remove(&t) {
                    Some(mut neighbor) => {
                        assert(i ^ 1 == opposite(i as int)) by (bit_vector)
                            requires
                                i < 4,
                        ;
                        neighbor.set_neighbor(i ^ 1, Some(coord));
                        self.chunk_data_map.insert(t, neighbor);
                        self.dirty_chunks.insert(t);
                        proof {
                            assert(self.chunk_data_map@.dom() =~= old(self).chunk_data_map@.dom());
                            assert(self.dirty_chunks@ =~= old(self).dirty_chunks@.union(link_set(n)));
                        }
                    },
                    None => {
                        assert(false);
                    },
                }
            },
            None => {
                assert(self.dirty_chunks@ =~= old(self).dirty_chunks@.union(link_set(n)));
            },
        }
    }

    /// The highest solid cell of a column of the world, by its global
    /// coordinate; the lowest cell of the column where none above it is
    /// solid. There is no answer while the chunk of the column is not
    /// loaded.
    pub fn get_highest_block_at_coord(&self, global_coord: &IVec2) -> (r: Option<IVec3>)
        requires
            self.wf(),
        ensures
            match r {
                Some(top) => {
                    &&& self@.chunks.contains_key(
                        chunk_of(IVec3 { x: global_coord.x, y: 0, z: global_coord.y }),
                    )
                    &&& top.x == global_coord.x
                    &&& top.z == global_coord.y
                    &&& self@.is_highest(*global_coord, top.y as int)
                },
                None => !self@.chunks.contains_key(
                    chunk_of(IVec3 { x: global_coord.x, y: 0, z: global_coord.y }),
                ),
            },
    {
        let mut chunk_coord = IVec3::default();
        let mut local_coord = IVec3::new(global_coord.x, CHUNK_HEIGHT - 1, global_coord.y);
        Self::make_coords_valid(&mut chunk_coord, &mut local_coord);
        proof {
            self.lemma_chunks_wf();
        }
        match self.chunk_data_map.get(&chunk_coord) {
            Some(chunk) => {
                let ghost start = local_coord;
                assert(self@.chunks[chunk_coord].voxels == chunk.voxels@);
                while local_coord.y > 0 && chunk.voxels[Chunk::get_index(&local_coord)].voxel_type
                    == BlockType::Void
                    invariant
                        chunk.wf(),
                        0 <= local_coord.y < CHUNK_HEIGHT,
                        0 <= local_coord.x < CHUNK_SIZE,
                        0 <= local_coord.z < CHUNK_SIZE,
                        local_coord.x == start.x,
                        local_coord.z == start.z,
                        forall|above: int|
                            local_coord.y < above < CHUNK_HEIGHT ==> !(#[trigger] chunk.voxels@[Chunk::index_of(
                                IVec3 { x: local_coord.x, y: above as i32, z: local_coord.z },
                            )]).solid(),
                    decreases local_coord.y,
                {
                    local_coord.y -= 1;
                }
                let top = Self::chunk_local_to_world(&chunk_coord, &local_coord);
                proof {
                    assert forall|above: int| top.y < above < CHUNK_HEIGHT implies !#[trigger] self@.solid_at(
                        IVec3 { x: global_coord.x, y: above as i32, z: global_coord.y },
                    ) by {
                        let g = IVec3 { x: global_coord.x, y: above as i32, z: global_coord.y };
                        assert(local_of(g) == (IVec3 {
                            x: local_coord.x,
                            y: above as i32,
                            z: local_coord.z,
                        }));
                        assert(!chunk.voxels@[Chunk::index_of(
                            IVec3 { x: local_coord.x, y: above as i32, z: local_coord.z },
                        )].solid());
                    }
                    if top.y > 0 {
                        let g = IVec3 { x: global_coord.x, y: top.y, z: global_coord.y };
                        assert(local_of(g) == local_coord);
                    }
                }
                Some(top)
            },
            None => None,
        }
    }

    /// Finds where a ray first meets a solid cell. `samples` are the cells
    /// that the ray passes through, in the order in which it reaches them,
    /// and `origin` is the cell it starts in. The answer holds the first
    /// sample that is solid, the cell the ray was in just before, and the
    /// cell found; there is none where no sample is solid. A sample in a
    /// chunk that is not loaded counts as empty.
    pub fn ray_casting_voxel(&self, origin: IVec3, samples: &Vec<IVec3>) -> (r: Option<
        (IVec3, IVec3, Block),
    >)
        requires
            self.wf(),
        ensures
            match r {
                Some((hit, last, voxel)) => exists|i: int|
                    {
                        &&& 0 <= i < samples@.len()
                        &&& hit == #[trigger] samples@[i]
                        &&& self@.voxel(hit) == Some(voxel)
                        &&& voxel.solid()
                        &&& forall|j: int| 0 <= j < i ==> !self@.solid_at(#[trigger] samples@[j])
                        &&& last == (if i == 0 {
                            origin
                        } else {
                            samples@[i - 1]
                        })
                    },
                None => forall|i: int| 0 <= i < samples@.len() ==> !self@.solid_at(#[trigger] samples@[i]),
            },
    {
        let mut last_position = origin;
        let mut i: usize = 0;
        while i < samples.len()
            invariant
                self.wf(),
                i <= samples@.len(),
                forall|j: int| 0 <= j < i ==> !self@.solid_at(#[trigger] samples@[j]),
                last_position == (if i == 0 {
                    origin
                } else {
                    samples@[i - 1]
                }),
            decreases samples@.len() - i,
        {
            let position = samples[i];
            match self.get_voxel(&position) {
                Some(voxel) => {
                    if voxel.voxel_type != BlockType::Void {
                        return Some((position, last_position, voxel));
                    }
                },
                None => {},
            }
            last_position = position;
            i = i + 1;
        }
        None
    }

    /// Records the placeholder that stands for the chunk at `coord`.
    pub fn insert_chunk_entity(&mut self, coord: IVec3, entity: EntityId)
        requires
            old(self).wf(),
        ensures
            final(self).wf(),
            final(self)@ == (WorldView { entities: old(self)@.entities.insert(coord, entity), ..old(self)@ }),
    {
        self.chunk_entities.insert(coord, entity);
        proof {
            assert(self@.chunks == old(self)@.chunks);
            assert(self@.pending_generating == old(self)@.pending_generating);
        }
    }

    /// The placeholder that stands for the chunk at `coord`.
    pub fn get_chunk_entity(&self, coord: &IVec3) -> (r: Option<EntityId>)
        ensures
            r == (if self@.entities.contains_key(*coord) {
                Some(self@.entities[*coord])
            } else {
                None
            }),
    {
        match self.chunk_entities.get(coord) {
            Some(e) => Some(*e),
            None => None,
        }
    }

    /// The chunks that are marked dirty, each once, in no particular order.
    pub fn dirty_chunks(&self) -> (v: Vec<IVec3>)
        requires
            self.wf(),
        ensures
            v@.no_duplicates(),
            v@.to_set() == self@.dirty,
    {
        self.dirty_chunks.to_vec()
    }

    /// Whether the chunk at `coord` is marked dirty.
    pub fn is_dirty(&self, coord: &IVec3) -> (r: bool)
        ensures
            r == self@.dirty.contains(*coord),
    {
        self.dirty_chunks.contains(coord)
    }

    /// Takes every mark off: no chunk is dirty afterwards.
    pub fn clear_dirty_chunks(&mut self)
        requires
            old(self).wf(),
        ensures
            final(self).wf(),
            final(self)@ == (WorldView { dirty: Set::empty(), ..old(self)@ }),
    {
        self.dirty_chunks.clear();
        proof {
            assert(self@.chunks == old(self)@.chunks);
            assert(self@.pending_generating == old(self)@.pending_generating);
        }
    }

    /// Notes that the chunk at `coord` was asked for and has not come yet.
    pub fn add_pending_request(&mut self, coord: IVec3)
        requires
            old(self).wf(),
        ensures
            final(self).wf(),
            final(self)@ == (WorldView {
                pending_requested: old(self)@.pending_requested.insert(coord),
                ..old(self)@
            }),
    {
        self.pending_requested_chunks.insert(coord);
        proof {
            assert(self@.chunks == old(self)@.chunks);
            assert(self@.pending_generating == old(self)@.pending_generating);
        }
    }

    /// Whether every chunk that was asked for has come.
    pub fn all_requests_answered(&self) -> (r: bool)
        requires
            self.wf(),
        ensures
            r == (self@.pending_requested == Set::<IVec3>::empty()),
    {
        self.pending_requested_chunks.is_empty()
    }

    /// Lets `peer` wait for the chunk at `coord`, which is not loaded. The
    /// result says whether `peer` is the first to wait for it.
    pub fn await_chunk(&mut self, coord: IVec3, peer: u64) -> (first: bool)
        requires
            old(self).wf(),
            !old(self)@.chunks.contains_key(coord),
        ensures
            final(self).wf(),
            final(self)@ == old(self)@.await_chunk(coord, peer),
            first == !old(self)@.pending_generating.contains_key(coord),
    {
        let (mut waiting, first) = match self.pending_generating_chunks.remove(&coord) {
            Some(waiting) => (waiting, false),
            None => (HashSet::new(), true),
        };
        waiting.insert(peer);
        self.pending_generating_chunks.insert(coord, waiting);
        proof {
            assert(self@.pending_generating =~= old(self)@.await_chunk(coord, peer).pending_generating);
        }
        first
    }

    /// Whether anybody waits for the chunk at `coord`.
    pub fn has_waiters(&self, coord: &IVec3) -> (r: bool)
        ensures
            r == self@.pending_generating.contains_key(*coord),
    {
        self.pending_generating_chunks.contains_key(coord)
    }

    /// Ends the wait for the chunk at `coord`: hands out the peers that
    /// waited, each once, in no particular order, and forgets them.
    pub fn take_waiters(&mut self, coord: &IVec3) -> (peers: Vec<u64>)
        requires
            old(self).wf(),
        ensures
            final(self).wf(),
            final(self)@ == (WorldView {
                pending_generating: old(self)@.pending_generating.remove(*coord),
                ..old(self)@
            }),
            peers@.no_duplicates(),
            peers@.to_set() == old(self)@.waiters(*coord),
    {
        let peers = match self.pending_generating_chunks.remove(coord) {
            Some(waiting) => members(&waiting),
            None => Vec::new(),
        };
        proof {
            assert(self@.pending_generating =~= old(self)@.pending_generating.remove(*coord));
            assert(peers@.to_set() =~= old(self)@.waiters(*coord));
        }
        peers
    }

    /// Records the representation of the remote player `id`.
    pub fn insert_player(&mut self, id: u64, entity: EntityId)
        requires
            old(self).wf(),
        ensures
            final(self).wf(),
            final(self)@ == (WorldView { players: old(self)@.players.insert(id, entity), ..old(self)@ }),
    {
        self.players.insert(id, entity);
        proof {
            assert(self@.chunks == old(self)@.chunks);
            assert(self@.pending_generating == old(self)@.pending_generating);
        }
    }

    /// The representation of the remote player `id`.
    pub fn get_player(&self, id: u64) -> (r: Option<EntityId>)
        ensures
            r == (if self@.players.contains_key(id) {
                Some(self@.players[id])
            } else {
                None
            }),
    {
        match self.players.get(&id) {
            Some(e) => Some(*e),
            None => None,
        }
    }

    /// Forgets the remote player `id` and hands back its representation.
    pub fn remove_player(&mut self, id: u64) -> (r: Option<EntityId>)
        requires
            old(self).wf(),
        ensures
            final(self).wf(),
            final(self)@ == (WorldView { players: old(self)@.players.remove(id), ..old(self)@ }),
            r == (if old(self)@.players.contains_key(id) {
                Some(old(self)@.players[id])
            } else {
                None
            }),
    {
        let r = self.players.remove(&id);
        proof {
            assert(self@.chunks == old(self)@.chunks);
            assert(self@.pending_generating == old(self)@.pending_generating);
        }
        r
    }

    proof fn lemma_chunks_wf(&self)
        requires
            self.wf(),
        ensures
            all_wf(self.chunk_data_map@),
    {
        assert forall|c: IVec3| self.chunk_data_map@.contains_key(c) implies (
        #[trigger] self.chunk_data_map@[c]).wf() by {
            assert(self@.chunks[c].voxels.len() == CHUNK_VOLUME);
        }
    }
}

/// The members of a set of peers, each once, in no particular order.
fn members(peers: &HashSet<u64>) -> (v: Vec<u64>)
    ensures
        v@.no_duplicates(),
        v@.to_set() == peers@,
{
    let mut v: Vec<u64> = Vec::new();
    let it = peers.iter();
    let ghost all: Seq<u64> = it.remaining().unref();
    assert(all.no_duplicates()) by {
        assert forall|i: int, j: int|
            0 <= i < all.len() && 0 <= j < all.len() && i != j implies all[i] != all[j] by {
            assert(it.remaining()[i] != it.remaining()[j]);
        }
    }
    for peer in iter: it
        invariant
            iter.seq().unref() == all,
            v@ == all.take(iter.index() as int),
    {
        v.push(*peer);
        assert(all.take(iter.index() + 1) == all.take(iter.index() as int).push(
            all[iter.index() as int],
        ));
    }
    assert(v@ == all);
    v
}

} // verus!
