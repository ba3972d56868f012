use voxel_game::math::IVec3;
use voxel_game::voxel::block::Block;
use voxel_game::voxel::block::BlockType;
use voxel_game::voxel::chunk::Chunk;
use voxel_game::voxel::chunk::CHUNK_HEIGHT;
use voxel_game::voxel::chunk::CHUNK_SIZE;
use voxel_game::voxel::chunk::CHUNK_VOLUME;
use voxel_game::voxel::coords::CoordMap;
use voxel_game::voxel::coords::CoordSet;

fn stone() -> Block {
    Block { voxel_type: BlockType::Stone }
}

#[test]
fn default_chunk_is_void() {
    let chunk = Chunk::default();
    assert_eq!(chunk.voxels.len(), CHUNK_VOLUME);
    assert_eq!(chunk.voxels.len(), 16 * 16 * 256);
    assert!(chunk.voxels.iter().all(|b| !b.is_solid()));
    assert_eq!(chunk.pos, IVec3::new(0, 0, 0));
    assert_eq!(chunk.neighbors, [None, None, None, None]);
}

#[test]
fn index_layout() {
    assert_eq!(Chunk::get_index(&IVec3::new(0, 0, 0)), 0);
    assert_eq!(Chunk::get_index(&IVec3::new(1, 0, 0)), 1);
    assert_eq!(Chunk::get_index(&IVec3::new(0, 1, 0)), 16);
    assert_eq!(Chunk::get_index(&IVec3::new(0, 0, 1)), 4096);
    assert_eq!(Chunk::get_index(&IVec3::new(5, 75, 5)), 5 * 4096 + 75 * 16 + 5);
    assert_eq!(Chunk::get_index(&IVec3::new(15, 255, 15)), 65535);
}

#[test]
fn is_in_chunk_bounds() {
    assert!(Chunk::is_in_chunk(&IVec3::new(0, 0, 0)));
    assert!(Chunk::is_in_chunk(&IVec3::new(CHUNK_SIZE - 1, CHUNK_HEIGHT - 1, CHUNK_SIZE - 1)));
    assert!(!Chunk::is_in_chunk(&IVec3::new(-1, 0, 0)));
    assert!(!Chunk::is_in_chunk(&IVec3::new(0, -1, 0)));
    assert!(!Chunk::is_in_chunk(&IVec3::new(0, 0, -1)));
    assert!(!Chunk::is_in_chunk(&IVec3::new(CHUNK_SIZE, 0, 0)));
    assert!(!Chunk::is_in_chunk(&IVec3::new(0, CHUNK_HEIGHT, 0)));
    assert!(!Chunk::is_in_chunk(&IVec3::new(0, 0, CHUNK_SIZE)));
}

#[test]
fn get_voxel_reads_through_links() {
    let mut chunks: CoordMap<Chunk> = CoordMap::new();
    let mut left = Chunk::default();
    left.pos = IVec3::new(-1, 0, 0);
    left.voxels[Chunk::get_index(&IVec3::new(15, 3, 4))] = stone();
    chunks.insert(IVec3::new(-1, 0, 0), left);
    let mut front = Chunk::default();
    front.pos = IVec3::new(0, 0, 1);
    front.voxels[Chunk::get_index(&IVec3::new(2, 3, 0))] = Block { voxel_type: BlockType::Dirt };
    chunks.insert(IVec3::new(0, 0, 1), front);

    let mut chunk = Chunk::default();
    chunk.voxels[Chunk::get_index(&IVec3::new(1, 2, 3))] = Block { voxel_type: BlockType::Grass };
    chunk.set_neighbor(0, Some(IVec3::new(-1, 0, 0)));
    chunk.set_neighbor(3, Some(IVec3::new(0, 0, 1)));
    chunk.set_neighbor(1, Some(IVec3::new(1, 0, 0)));

    assert_eq!(chunk.get_voxel(&chunks, IVec3::new(1, 2, 3)), Some(Block { voxel_type: BlockType::Grass }));
    assert_eq!(chunk.get_voxel(&chunks, IVec3::new(0, 0, 0)), Some(Block::new_empty()));
    assert_eq!(chunk.get_voxel(&chunks, IVec3::new(-1, 3, 4)), Some(stone()));
    assert_eq!(chunk.get_voxel(&chunks, IVec3::new(2, 3, 16)), Some(Block { voxel_type: BlockType::Dirt }));
    // linked, but the target is not there
    assert_eq!(chunk.get_voxel(&chunks, IVec3::new(16, 0, 0)), None);
    // no link
    assert_eq!(chunk.get_voxel(&chunks, IVec3::new(0, 0, -1)), None);
    // above and below
    assert_eq!(chunk.get_voxel(&chunks, IVec3::new(0, 256, 0)), None);
    assert_eq!(chunk.get_voxel(&chunks, IVec3::new(0, -1, 0)), None);
    // two chunks over
    assert_eq!(chunk.get_voxel(&chunks, IVec3::new(-17, 3, 4)), None);
}

#[test]
fn get_voxel_neighbors_order() {
    let chunks: CoordMap<Chunk> = CoordMap::new();
    let mut chunk = Chunk::default();
    let types = [BlockType::Grass, BlockType::Dirt, BlockType::Stone];
    chunk.voxels[Chunk::get_index(&IVec3::new(6, 5, 5))] = Block { voxel_type: types[0] };
    chunk.voxels[Chunk::get_index(&IVec3::new(5, 6, 5))] = Block { voxel_type: types[1] };
    chunk.voxels[Chunk::get_index(&IVec3::new(5, 5, 4))] = Block { voxel_type: types[2] };
    let around = chunk.get_voxel_neighbors(&chunks, IVec3::new(5, 5, 5));
    assert_eq!(around[0], Some(Block { voxel_type: BlockType::Grass }));
    assert_eq!(around[1], Some(Block::new_empty()));
    assert_eq!(around[2], Some(Block { voxel_type: BlockType::Dirt }));
    assert_eq!(around[3], Some(Block::new_empty()));
    assert_eq!(around[4], Some(Block::new_empty()));
    assert_eq!(around[5], Some(Block { voxel_type: BlockType::Stone }));
    let corner = chunk.get_voxel_neighbors(&chunks, IVec3::new(0, 0, 0));
    assert_eq!(corner[1], None);
    assert_eq!(corner[3], None);
    assert_eq!(corner[5], None);
}

#[test]
fn chunk_edit_marks_chunk_and_sides() {
    let mut chunk = Chunk::default();
    chunk.pos = IVec3::new(4, 0, 4);
    chunk.set_neighbor(0, Some(IVec3::new(3, 0, 4)));
    chunk.set_neighbor(3, Some(IVec3::new(4, 0, 5)));

    let mut dirty = CoordSet::new();
    chunk.edit_voxel(&mut dirty, IVec3::new(5, 5, 5), BlockType::Stone);
    assert_eq!(chunk.voxels[Chunk::get_index(&IVec3::new(5, 5, 5))], stone());
    assert_eq!(dirty.to_vec(), vec![IVec3::new(4, 0, 4)]);

    let mut dirty = CoordSet::new();
    chunk.edit_voxel(&mut dirty, IVec3::new(0, 5, 15), BlockType::Stone);
    let mut marked = dirty.to_vec();
    marked.sort_by_key(|c| (c.x, c.z));
    assert_eq!(marked, vec![IVec3::new(3, 0, 4), IVec3::new(4, 0, 4), IVec3::new(4, 0, 5)]);

    // sides without a link mark nothing but the chunk
    let mut dirty = CoordSet::new();
    chunk.edit_voxel(&mut dirty, IVec3::new(15, 5, 0), BlockType::Stone);
    assert_eq!(dirty.to_vec(), vec![IVec3::new(4, 0, 4)]);

    // no change, no mark
    let mut dirty = CoordSet::new();
    chunk.edit_voxel(&mut dirty, IVec3::new(15, 5, 0), BlockType::Stone);
    chunk.edit_voxel(&mut dirty, IVec3::new(16, 5, 0), BlockType::Stone);
    chunk.edit_voxel(&mut dirty, IVec3::new(1, 256, 0), BlockType::Stone);
    assert!(dirty.is_empty());
}

#[test]
fn coord_collections() {
    let mut set = CoordSet::new();
    assert!(set.is_empty());
    assert!(set.insert(IVec3::new(i32::MIN, -1, i32::MAX)));
    assert!(!set.insert(IVec3::new(i32::MIN, -1, i32::MAX)));
    assert!(set.insert(IVec3::new(i32::MAX, -1, i32::MIN)));
    assert!(set.contains(&IVec3::new(i32::MIN, -1, i32::MAX)));
    assert!(!set.contains(&IVec3::new(i32::MIN, 0, i32::MAX)));
    assert!(!set.contains(&IVec3::new(-1, i32::MIN, i32::MAX)));
    let mut all = set.to_vec();
    all.sort_by_key(|c| c.x);
    assert_eq!(all, vec![IVec3::new(i32::MIN, -1, i32::MAX), IVec3::new(i32::MAX, -1, i32::MIN)]);
    assert!(set.remove(&IVec3::new(i32::MIN, -1, i32::MAX)));
    assert!(!set.remove(&IVec3::new(i32::MIN, -1, i32::MAX)));
    assert!(!set.is_empty());
    set.clear();
    assert!(set.is_empty());

    let mut map: CoordMap<u32> = CoordMap::with_capacity(4);
    assert_eq!(map.insert(IVec3::new(1, 2, 3), 10), None);
    assert_eq!(map.insert(IVec3::new(3, 2, 1), 20), None);
    assert_eq!(map.insert(IVec3::new(1, 2, 3), 30), Some(10));
    assert_eq!(map.get(&IVec3::new(1, 2, 3)), Some(&30));
    assert_eq!(map.get(&IVec3::new(3, 2, 1)), Some(&20));
    assert_eq!(map.get(&IVec3::new(2, 2, 2)), None);
    assert!(map.contains_key(&IVec3::new(3, 2, 1)));
    assert_eq!(map.remove(&IVec3::new(3, 2, 1)), Some(20));
    assert_eq!(map.remove(&IVec3::new(3, 2, 1)), None);
    assert!(!map.contains_key(&IVec3::new(3, 2, 1)));
}
