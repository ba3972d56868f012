//! Which faces of a chunk can be seen: the part of building a chunk's
//! geometry that depends on cells alone.

use vstd::prelude::*;
use crate::math::IVec3;
use crate::voxel::block::Block;
use crate::voxel::chunk::all_wf;
use crate::voxel::chunk::Chunk;
use crate::voxel::chunk::ChunkData;
use crate::voxel::chunk::CHUNK_HEIGHT;
use crate::voxel::chunk::CHUNK_SIZE;
use crate::voxel::chunk::CHUNK_VOLUME;
use crate::voxel::coords::CoordMap;
use crate::voxel::direction::Direction;

verus! {

/// The faces a chunk could show at most: six for each cell.
pub const FACE_SLOTS: usize = 393216;

/// A face of a cell that can be seen.
#[derive(Clone, Copy, Debug, PartialEq, Eq, Structural)]
pub struct Face {
    /// The cell, by its chunk-local coordinate.
    pub voxel: IVec3,
    /// The side of the cell: 0 to 5 for +X, -X, +Y, -Y, +Z and -Z.
    pub direction_index: usize,
    /// The tile of the texture atlas that the face shows.
    pub face_id: u16,
}

/// The four neighbours of a chunk, as far as they are there.
pub struct NeighborGuards<'a> {
    pub left: Option<&'a Chunk>,
    pub right: Option<&'a Chunk>,
    pub back: Option<&'a Chunk>,
    pub forward: Option<&'a Chunk>,
}

impl<'a> NeighborGuards<'a> {
    /// Every neighbour that is there has all its cells.
    pub open spec fn wf(&self) -> bool {
        &&& self.left matches Some(c) ==> c.wf()
        &&& self.right matches Some(c) ==> c.wf()
        &&& self.back matches Some(c) ==> c.wf()
        &&& self.forward matches Some(c) ==> c.wf()
    }

    /// Looks the linked neighbours of `chunk` up among `chunks`.
    pub fn of(chunk: &Chunk, chunks: &'a CoordMap<Chunk>) -> (guards: NeighborGuards<'a>)
        requires
            all_wf(chunks@),
        ensures
            guards.wf(),
            guards@ == surroundings(chunks@, chunk.neighbors@),
    {
        NeighborGuards {
            left: lookup(chunks, chunk.neighbors[0]),
            right: lookup(chunks, chunk.neighbors[1]),
            back: lookup(chunks, chunk.neighbors[2]),
            forward: lookup(chunks, chunk.neighbors[3]),
        }
    }
}

/// The cells of the chunk that a link names among `chunks`.
pub open spec fn resolve(chunks: Map<IVec3, Chunk>, link: Option<IVec3>) -> Option<Seq<Block>> {
    match link {
        Some(n) => if chunks.contains_key(n) {
            Some(chunks[n].voxels@)
        } else {
            None
        },
        None => None,
    }
}

/// The cells of a chunk that may not be there.
pub open spec fn cells_of(chunk: Option<&Chunk>) -> Option<Seq<Block>> {
    match chunk {
        Some(c) => Some(c.voxels@),
        None => None,
    }
}

/// The cells of the four neighbours of a chunk, as far as they are there.
pub struct Surroundings {
    pub left: Option<Seq<Block>>,
    pub right: Option<Seq<Block>>,
    pub back: Option<Seq<Block>>,
    pub forward: Option<Seq<Block>>,
}

/// The cells of the neighbours that the links `links` name among `chunks`.
pub open spec fn surroundings(chunks: Map<IVec3, Chunk>, links: Seq<Option<IVec3>>) -> Surroundings {
    Surroundings {
        left: resolve(chunks, links[0]),
        right: resolve(chunks, links[1]),
        back: resolve(chunks, links[2]),
        forward: resolve(chunks, links[3]),
    }
}

impl<'a> View for NeighborGuards<'a> {
    type V = Surroundings;

    open spec fn view(&self) -> Surroundings {
        Surroundings {
            left: cells_of(self.left),
            right: cells_of(self.right),
            back: cells_of(self.back),
            forward: cells_of(self.forward),
        }
    }
}

fn lookup<'a>(chunks: &'a CoordMap<Chunk>, link: Option<IVec3>) -> (r: Option<&'a Chunk>)
    requires
        all_wf(chunks@),
    ensures
        cells_of(r) == resolve(chunks@, link),
        r matches Some(c) ==> c.wf(),
{
    match link {
        Some(n) => chunks.get(&n),
        None => None,
    }
}

/// The cell at `c` of a neighbour, if the neighbour is there.
pub open spec fn cell_of(neighbor: Option<Seq<Block>>, c: IVec3) -> Option<Block> {
    match neighbor {
        Some(cells) => Some(cells[Chunk::index_of(c)]),
        None => None,
    }
}

/// The cell next to the one at `pos` on the side `direction_index`. Past
/// the side of the chunk it is the cell of the neighbour on that side, if
/// the neighbour is there; above and below the chunk there is none.
pub open spec fn neighbor_cell(
    cells: Seq<Block>,
    guards: Surroundings,
    pos: IVec3,
    direction_index: int,
) -> Option<Block> {
    if direction_index == 0 {
        if pos.x + 1 >= CHUNK_SIZE {
            cell_of(guards.right, IVec3 { x: 0, ..pos })
        } else {
            Some(cells[Chunk::index_of(IVec3 { x: (pos.x + 1) as i32, ..pos })])
        }
    } else if direction_index == 1 {
        if pos.x - 1 < 0 {
            cell_of(guards.left, IVec3 { x: (CHUNK_SIZE - 1) as i32, ..pos })
        } else {
            Some(cells[Chunk::index_of(IVec3 { x: (pos.x - 1) as i32, ..pos })])
        }
    } else if direction_index == 2 {
        if pos.y + 1 >= CHUNK_HEIGHT {
            None
        } else {
            Some(cells[Chunk::index_of(IVec3 { y: (pos.y + 1) as i32, ..pos })])
        }
    } else if direction_index == 3 {
        if pos.y - 1 < 0 {
            None
        } else {
            Some(cells[Chunk::index_of(IVec3 { y: (pos.y - 1) as i32, ..pos })])
        }
    } else if direction_index == 4 {
        if pos.z + 1 >= CHUNK_SIZE {
            cell_of(guards.forward, IVec3 { z: 0, ..pos })
        } else {
            Some(cells[Chunk::index_of(IVec3 { z: (pos.z + 1) as i32, ..pos })])
        }
    } else {
        if pos.z - 1 < 0 {
            cell_of(guards.back, IVec3 { z: (CHUNK_SIZE - 1) as i32, ..pos })
        } else {
            Some(cells[Chunk::index_of(IVec3 { z: (pos.z - 1) as i32, ..pos })])
        }
    }
}

/// A face can be seen unless the cell it looks at is known and solid.
pub open spec fn face_shown(neighbor_voxel: Option<Block>) -> bool {
    match neighbor_voxel {
        Some(voxel) => !voxel.solid(),
        None => true,
    }
}

/// The cell that the face slot `n` belongs to. The slots go through the
/// cells layer by layer from the bottom, within a layer along Z, and along
/// X within that.
pub open spec fn slot_voxel(n: int) -> IVec3 {
    let m = n / 6;
    IVec3 { x: (m % 16) as i32, y: (m / 256) as i32, z: ((m / 16) % 16) as i32 }
}

/// The face on the side `d` of the cell at `pos`, if it can be seen: the
/// face of a solid cell that looks at a cell that is empty or not known.
pub open spec fn side_face(cells: Seq<Block>, guards: Surroundings, pos: IVec3, d: int) -> Option<Face> {
    let cell = cells[Chunk::index_of(pos)];
    if cell.solid() && face_shown(neighbor_cell(cells, guards, pos, d)) {
        Some(
            Face {
                voxel: pos,
                direction_index: d as usize,
                face_id: Block::face(cell.voxel_type, Direction::of_index(d)),
            },
        )
    } else {
        None
    }
}

/// The face in the face slot `n`, if it can be seen. The six sides of a
/// cell have six slots in a row.
pub open spec fn slot_face(cells: Seq<Block>, guards: Surroundings, n: int) -> Option<Face> {
    side_face(cells, guards, slot_voxel(n), n % 6)
}

/// The slot of the side `d` of the cell at `(x, y, z)`.
proof fn lemma_slot(x: int, y: int, z: int, d: int)
    requires
        0 <= x < 16,
        0 <= y < 256,
        0 <= z < 16,
        0 <= d < 6,
    ensures
        slot_voxel((y * 256 + z * 16 + x) * 6 + d) == (IVec3 { x: x as i32, y: y as i32, z: z as i32 }),
        ((y * 256 + z * 16 + x) * 6 + d) % 6 == d,
{
    let m = y * 256 + z * 16 + x;
    let n = m * 6 + d;
    assert(n / 6 == m && n % 6 == d);
    assert(m % 16 == x);
    assert(m / 16 == y * 16 + z);
    assert(m / 256 == y);
}

/// Adds the face on the side `d` of the cell at `pos`, if it can be seen.
fn visit_side(faces: &mut Vec<Face>, cells: &ChunkData, guards: &NeighborGuards, pos: IVec3, d: usize)
    requires
        Chunk::in_chunk(pos),
        d < 6,
        cells@.len() == CHUNK_VOLUME,
        guards.wf(),
    ensures
        final(faces)@ == (match side_face(cells@, guards@, pos, d as int) {
            Some(face) => old(faces)@.push(face),
            None => old(faces)@,
        }),
{
    let current_voxel = cells[Chunk::get_index(&pos)];
    if current_voxel.is_solid() {
        let neighbor_voxel = get_voxel_neighbor_optimized(pos, d, cells, guards);
        if should_add_face(neighbor_voxel) {
            faces.push(
                Face {
                    voxel: pos,
                    direction_index: d,
                    face_id: Block::get_face(&current_voxel.voxel_type, &Direction::from_index(d)),
                },
            );
        }
    }
}

/// The faces that can be seen among the first `n` face slots, in the order
/// of the slots.
pub open spec fn faces_upto(cells: Seq<Block>, guards: Surroundings, n: int) -> Seq<Face>
    decreases n,
{
    if n <= 0 {
        Seq::empty()
    } else {
        match slot_face(cells, guards, n - 1) {
            Some(face) => faces_upto(cells, guards, n - 1).push(face),
            None => faces_upto(cells, guards, n - 1),
        }
    }
}

/// The faces of a chunk that can be seen, cell by cell and side by side in
/// the order of the face slots.
pub fn create_chunk_mesh(chunk: &Chunk, chunks: &CoordMap<Chunk>) -> (faces: Vec<Face>)
    requires
        chunk.wf(),
        all_wf(chunks@),
    ensures
        faces@ == faces_upto(chunk.voxels@, surroundings(chunks@, chunk.neighbors@), FACE_SLOTS as int),
{
    let neighbor_guards = NeighborGuards::of(chunk, chunks);
    let ghost around = neighbor_guards@;
    let chunk_voxels = &chunk.voxels;
    let mut faces: Vec<Face> = Vec::new();
    let mut y: i32 = 0;
    while y < CHUNK_HEIGHT
        invariant
            0 <= y <= CHUNK_HEIGHT,
            neighbor_guards.wf(),
            chunk_voxels@.len() == CHUNK_VOLUME,
            neighbor_guards@ == around,
            faces@ == faces_upto(chunk_voxels@, around, y * 256 * 6),
        decreases CHUNK_HEIGHT - y,
    {
        let mut z: i32 = 0;
        while z < CHUNK_SIZE
            invariant
                0 <= y < CHUNK_HEIGHT,
                0 <= z <= CHUNK_SIZE,
                neighbor_guards.wf(),
                chunk_voxels@.len() == CHUNK_VOLUME,
                neighbor_guards@ == around,
            faces@ == faces_upto(chunk_voxels@, around, (y * 256 + z * 16) * 6),
            decreases CHUNK_SIZE - z,
        {
            let mut x: i32 = 0;
            while x < CHUNK_SIZE
                invariant
                    0 <= y < CHUNK_HEIGHT,
                    0 <= z < CHUNK_SIZE,
                    0 <= x <= CHUNK_SIZE,
                    neighbor_guards.wf(),
                    chunk_voxels@.len() == CHUNK_VOLUME,
                    neighbor_guards@ == around,
            faces@ == faces_upto(chunk_voxels@, around, (y * 256 + z * 16 + x) * 6),
                decreases CHUNK_SIZE - x,
            {
                let voxel_pos_local = IVec3::new(x, y, z);
                let ghost base = (y * 256 + z * 16 + x) * 6;
                let mut direction_index: usize = 0;
                while direction_index < 6
                    invariant
                        0 <= y < CHUNK_HEIGHT,
                        0 <= z < CHUNK_SIZE,
                        0 <= x < CHUNK_SIZE,
                        0 <= direction_index <= 6,
                        base == (y * 256 + z * 16 + x) * 6,
                        voxel_pos_local == (IVec3 { x, y, z }),
                        neighbor_guards.wf(),
                        chunk_voxels@.len() == CHUNK_VOLUME,
                        neighbor_guards@ == around,
                        faces@ == faces_upto(chunk_voxels@, around, base + direction_index),
                    decreases 6 - direction_index,
                {
                    proof {
                        lemma_slot(x as int, y as int, z as int, direction_index as int);
                    }
                    visit_side(&mut faces, chunk_voxels, &neighbor_guards, voxel_pos_local, direction_index);
                    direction_index = direction_index + 1;
                }
                x = x + 1;
            }
            z = z + 1;
        }
        y = y + 1;
    }
    faces
}

/// The cell next to the one at `voxel_pos` on the side `direction_index`,
/// see [`neighbor_cell`].
#[inline]
pub fn get_voxel_neighbor_optimized(
    voxel_pos: IVec3,
    direction_index: usize,
    current_chunk_voxels: &ChunkData,
    neighbor_guards: &NeighborGuards,
) -> (r: Option<Block>)
    requires
        Chunk::in_chunk(voxel_pos),
        direction_index < 6,
        current_chunk_voxels@.len() == CHUNK_VOLUME,
        neighbor_guards.wf(),
    ensures
        r == neighbor_cell(current_chunk_voxels@, neighbor_guards@, voxel_pos, direction_index as int),
{
    let p = voxel_pos;
    if direction_index == 0 {
        if p.x + 1 >= CHUNK_SIZE {
            read(neighbor_guards.right, IVec3::new(0, p.y, p.z))
        } else {
            Some(current_chunk_voxels[Chunk::get_index(&IVec3::new(p.x + 1, p.y, p.z))])
        }
    } else if direction_index == 1 {
        if p.x - 1 < 0 {
            read(neighbor_guards.left, IVec3::new(CHUNK_SIZE - 1, p.y, p.z))
        } else {
            Some(current_chunk_voxels[Chunk::get_index(&IVec3::new(p.x - 1, p.y, p.z))])
        }
    } else if direction_index == 2 {
        if p.y + 1 >= CHUNK_HEIGHT {
            None
        } else {
            Some(current_chunk_voxels[Chunk::get_index(&IVec3::new(p.x, p.y + 1, p.z))])
        }
    } else if direction_index == 3 {
        if p.y - 1 < 0 {
            None
        } else {
            Some(current_chunk_voxels[Chunk::get_index(&IVec3::new(p.x, p.y - 1, p.z))])
        }
    } else if direction_index == 4 {
        if p.z + 1 >= CHUNK_SIZE {
            read(neighbor_guards.forward, IVec3::new(p.x, p.y, 0))
        } else {
            Some(current_chunk_voxels[Chunk::get_index(&IVec3::new(p.x, p.y, p.z + 1))])
        }
    } else {
        if p.z - 1 < 0 {
            read(neighbor_guards.back, IVec3::new(p.x, p.y, CHUNK_SIZE - 1))
        } else {
            Some(current_chunk_voxels[Chunk::get_index(&IVec3::new(p.x, p.y, p.z - 1))])
        }
    }
}

fn read(neighbor: Option<&Chunk>, c: IVec3) -> (r: Option<Block>)
    requires
        Chunk::in_chunk(c),
        neighbor matches Some(chunk) ==> chunk.wf(),
    ensures
        r == cell_of(cells_of(neighbor), c),
{
    match neighbor {
        Some(chunk) => Some(chunk.voxels[Chunk::get_index(&c)]),
        None => None,
    }
}

/// Whether the face that looks at `neighbor_voxel` can be seen.
#[inline]
pub fn should_add_face(neighbor_voxel: Option<Block>) -> (r: bool)
    ensures
        r == face_shown(neighbor_voxel),
{
    match neighbor_voxel {
        Some(voxel) => !voxel.is_solid(),
        None => true,
    }
}

/// Which corner of its face the `j`-th vertex index of the face names: a
/// face is two triangles, over the corners 0, 1, 2 and 0, 2, 3.
pub open spec fn corner_of(j: int) -> int {
    if j == 0 {
        0
    } else if j == 1 {
        1
    } else if j == 2 {
        2
    } else if j == 3 {
        0
    } else if j == 4 {
        2
    } else {
        3
    }
}

/// The vertex indices of a mesh of `faces` faces, each with four vertices
/// of its own in the order of its corners: six indices for each face, see
/// [`corner_of`].
pub fn face_indices(faces: usize) -> (indices: Vec<u32>)
    requires
        faces * 4 <= u32::MAX,
    ensures
        indices@.len() == faces * 6,
        forall|n: int| 0 <= n < faces * 6 ==> #[trigger] indices@[n] == 4 * (n / 6) + corner_of(n % 6),
{
    let mut indices: Vec<u32> = Vec::new();
    let mut face: usize = 0;
    while face < faces
        invariant
            face <= faces,
            faces * 4 <= u32::MAX,
            indices@.len() == face * 6,
            forall|n: int| 0 <= n < face * 6 ==> #[trigger] indices@[n] == 4 * (n / 6) + corner_of(n % 6),
        decreases faces - face,
    {
        let current_vertex_index: u32 = (face * 4) as u32;
        indices.push(current_vertex_index);
        indices.push(current_vertex_index + 1);
        indices.push(current_vertex_index + 2);
        indices.push(current_vertex_index);
        indices.push(current_vertex_index + 2);
        indices.push(current_vertex_index + 3);
        proof {
            assert forall|n: int| 0 <= n < (face + 1) * 6 implies #[trigger] indices@[n] == 4 * (n / 6) + corner_of(
                n % 6,
            ) by {
                if n >= face * 6 {
                    vstd::arithmetic::div_mod::lemma_fundamental_div_mod_converse(n, 6, face as int, n - face * 6);
                }
            }
        }
        face = face + 1;
    }
    indices
}

/// The row and the column of a tile in the texture atlas, which has 16
/// tiles in a row.
pub fn atlas_cell(face_id: u16) -> (cell: (u8, u8))
    ensures
        cell.0 == (face_id % 256) / 16,
        cell.1 == (face_id % 256) % 16,
{
    let id: u8 = (face_id % 256) as u8;
    (id / 16, id % 16)
}

} // verus!
