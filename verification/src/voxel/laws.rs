//! What holds of the voxel store whatever its contents.

use vstd::prelude::*;
use crate::math::IVec3;
use crate::voxel::block::Block;
use crate::voxel::block::BlockType;
use crate::voxel::chunk::CHUNK_SIZE;
use crate::voxel::world::chunk_of;
use crate::voxel::world::links;
use crate::voxel::world::local_of;
use crate::voxel::world::neighbor_coord;
use crate::voxel::world::normalized;
use crate::voxel::world::opposite;
use crate::voxel::world::WorldView;

verus! {

/// Normalising a pair of chunk and local coordinate keeps the cell that the
/// pair names, and leaves the local coordinate inside the chunk along X and
/// Z.
pub proof fn lemma_normalized_names_same_cell(chunk: IVec3, local: IVec3)
    requires
        i32::MIN <= chunk.x + local.x as int / CHUNK_SIZE as int <= i32::MAX,
        i32::MIN <= chunk.z + local.z as int / CHUNK_SIZE as int <= i32::MAX,
    ensures
        ({
            let (c, l) = normalized(chunk, local);
            &&& c.x * CHUNK_SIZE + l.x == chunk.x * CHUNK_SIZE + local.x
            &&& c.z * CHUNK_SIZE + l.z == chunk.z * CHUNK_SIZE + local.z
            &&& c.y == chunk.y
            &&& l.y == local.y
            &&& 0 <= l.x < CHUNK_SIZE
            &&& 0 <= l.z < CHUNK_SIZE
        }),
{
}

/// Going to a neighbour and back in the opposite direction ends where it
/// began.
pub proof fn lemma_neighbor_and_back(c: IVec3, i: int)
    requires
        0 <= i < 4,
    ensures
        neighbor_coord(c, i) matches Some(n) ==> neighbor_coord(n, opposite(i)) == Some(c) && n != c,
{
}

/// In a sound store links come in pairs: where a chunk names a neighbour,
/// the neighbour is loaded and names the chunk in the opposite direction.
pub proof fn lemma_links_are_mutual(w: WorldView, c: IVec3, i: int)
    requires
        w.wf(),
        w.chunks.contains_key(c),
        0 <= i < 4,
    ensures
        w.chunks[c].neighbors[i] matches Some(n) ==> {
            &&& neighbor_coord(c, i) == Some(n)
            &&& w.chunks.contains_key(n)
            &&& w.chunks[n].neighbors[opposite(i)] == Some(c)
        },
        w.chunks[c].neighbors[i] is None ==> (neighbor_coord(c, i) matches Some(n)
            ==> !w.chunks.contains_key(n)),
{
    assert(w.chunks[c].neighbors == links(w.chunks.dom(), c));
    match w.chunks[c].neighbors[i] {
        Some(n) => {
            lemma_neighbor_and_back(c, i);
            assert(w.chunks[n].neighbors == links(w.chunks.dom(), n));
        },
        None => {},
    }
}

/// Installing a chunk keeps the store sound.
pub proof fn lemma_set_chunk_keeps_wf(w: WorldView, coord: IVec3, voxels: Seq<Block>)
    requires
        w.wf(),
        voxels.len() == crate::voxel::chunk::CHUNK_VOLUME,
    ensures
        w.set_chunk(coord, voxels).wf(),
{
    let after = w.set_chunk(coord, voxels);
    assert(after.chunks.dom() =~= w.chunks.dom().insert(coord));
    assert forall|c: IVec3| after.chunks.contains_key(c) implies (#[trigger] after.chunks[c]).voxels.len()
        == crate::voxel::chunk::CHUNK_VOLUME && after.chunks[c].pos == c && after.chunks[c].neighbors
        == links(after.chunks.dom(), c) by {
        if c != coord {
            assert(w.chunks[c].pos == c);
        }
    }
}

/// Installing a chunk marks it dirty, and with it every neighbour that is
/// loaded: their geometry can change where they touch the new chunk.
pub proof fn lemma_set_chunk_marks(w: WorldView, coord: IVec3, voxels: Seq<Block>, i: int)
    requires
        0 <= i < 4,
    ensures
        w.set_chunk(coord, voxels).dirty.contains(coord),
        w.dirty.subset_of(w.set_chunk(coord, voxels).dirty),
        neighbor_coord(coord, i) matches Some(n) ==> (w.chunks.contains_key(n) ==> w.set_chunk(
            coord,
            voxels,
        ).dirty.contains(n)),
{
}

/// Writing to a cell keeps the store sound.
pub proof fn lemma_edit_keeps_wf(w: WorldView, global: IVec3, new_type: BlockType)
    requires
        w.wf(),
    ensures
        w.edit_voxel(global, new_type).wf(),
{
    let after = w.edit_voxel(global, new_type);
    if w.edits(global, new_type) {
        assert(after.chunks.dom() =~= w.chunks.dom());
        assert forall|c: IVec3| after.chunks.contains_key(c) implies (#[trigger] after.chunks[c]).voxels.len()
            == crate::voxel::chunk::CHUNK_VOLUME && after.chunks[c].pos == c && after.chunks[c].neighbors
            == links(after.chunks.dom(), c) by {
            assert(w.chunks[c].pos == c);
        }
    }
}

/// Installing chunks at two different coordinates gives the same store in
/// either order: the same cells, the same links, the same marks and the same
/// registries. Where the two coordinates are next to each other, the two
/// chunks end up linked to each other.
pub proof fn lemma_set_chunk_order(
    w: WorldView,
    a: IVec3,
    cells_a: Seq<Block>,
    b: IVec3,
    cells_b: Seq<Block>,
)
    requires
        a != b,
    ensures
        w.set_chunk(a, cells_a).set_chunk(b, cells_b) == w.set_chunk(b, cells_b).set_chunk(a, cells_a),
        forall|i: int|
            0 <= i < 4 && #[trigger] neighbor_coord(a, i) == Some(b) ==> {
                let both = w.set_chunk(a, cells_a).set_chunk(b, cells_b);
                &&& both.chunks[a].neighbors[i] == Some(b)
                &&& both.chunks[b].neighbors[opposite(i)] == Some(a)
            },
{
    let ab = w.set_chunk(a, cells_a).set_chunk(b, cells_b);
    let ba = w.set_chunk(b, cells_b).set_chunk(a, cells_a);
    let loaded = w.chunks.dom().insert(a).insert(b);
    assert(w.set_chunk(a, cells_a).chunks.dom() =~= w.chunks.dom().insert(a));
    assert(w.set_chunk(b, cells_b).chunks.dom() =~= w.chunks.dom().insert(b));
    assert(w.chunks.dom().insert(b).insert(a) =~= loaded);
    assert(ab.chunks =~= ba.chunks);
    assert(ab.dirty =~= ba.dirty);
    assert(ab.pending_requested =~= ba.pending_requested);
    assert(ab.pending_generating =~= ba.pending_generating);
    assert forall|i: int| 0 <= i < 4 && #[trigger] neighbor_coord(a, i) == Some(b) implies ab.chunks[a].neighbors[i]
        == Some(b) && ab.chunks[b].neighbors[opposite(i)] == Some(a) by {
        lemma_neighbor_and_back(a, i);
        assert(ab.chunks[a].neighbors == links(loaded, a));
        assert(ab.chunks[b].neighbors == links(loaded, b));
    }
}

/// A change of a cell marks the cell's chunk dirty. Where the cell touches
/// no side of its chunk, that is the only new mark. Where it stands on the
/// side towards a neighbour that is loaded, the neighbour is marked too.
pub proof fn lemma_edit_marks(w: WorldView, global: IVec3, new_type: BlockType)
    requires
        w.wf(),
        w.edits(global, new_type),
    ensures
        ({
            let after = w.edit_voxel(global, new_type);
            let chunk = chunk_of(global);
            let local = local_of(global);
            &&& after.dirty.contains(chunk)
            &&& w.dirty.subset_of(after.dirty)
            &&& (0 < local.x < CHUNK_SIZE - 1 && 0 < local.z < CHUNK_SIZE - 1) ==> after.dirty
                == w.dirty.insert(chunk)
            &&& forall|n: IVec3|
                w.chunks.contains_key(n) && {
                    ||| local.x == 0 && neighbor_coord(chunk, 0) == Some(n)
                    ||| local.x == CHUNK_SIZE - 1 && neighbor_coord(chunk, 1) == Some(n)
                    ||| local.z == 0 && neighbor_coord(chunk, 2) == Some(n)
                    ||| local.z == CHUNK_SIZE - 1 && neighbor_coord(chunk, 3) == Some(n)
                } ==> #[trigger] after.dirty.contains(n)
        }),
{
    let after = w.edit_voxel(global, new_type);
    let chunk = chunk_of(global);
    let local = local_of(global);
    if 0 < local.x < CHUNK_SIZE - 1 && 0 < local.z < CHUNK_SIZE - 1 {
        assert(after.dirty =~= w.dirty.insert(chunk));
    }
}

/// Writing a type where the cell has it already, or where no cell is known,
/// changes nothing and marks nothing; so writing the same type twice is the
/// same as writing it once.
pub proof fn lemma_edit_unchanged(w: WorldView, global: IVec3, new_type: BlockType)
    requires
        w.wf(),
    ensures
        !w.edits(global, new_type) ==> w.edit_voxel(global, new_type) == w,
        !w.edit_voxel(global, new_type).edits(global, new_type),
        w.edit_voxel(global, new_type).edit_voxel(global, new_type) == w.edit_voxel(global, new_type),
{
}

} // verus!
