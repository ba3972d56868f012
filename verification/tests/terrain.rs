use voxel_game::math::IVec3;
use voxel_game::terrain::chunk_generation::generate_chunk;
use voxel_game::terrain::terrain_generator::TerrainGenerator;
use voxel_game::voxel::block::Block;
use voxel_game::voxel::block::BlockType;
use voxel_game::voxel::chunk::Chunk;
use voxel_game::voxel::chunk::CHUNK_VOLUME;

fn cell(cells: &[Block], x: i32, y: i32, z: i32) -> BlockType {
    cells[Chunk::get_index(&IVec3::new(x, y, z))].voxel_type
}

#[test]
fn generator_keeps_its_seed() {
    assert_eq!(TerrainGenerator::default().seed(), 0);
    assert_eq!(TerrainGenerator::new(-17).seed(), -17);
    assert_eq!(TerrainGenerator::new(5), TerrainGenerator::new(5));
}

#[test]
fn columns_are_banded() {
    let mut heights = vec![42i32; 256];
    heights[3 * 16 + 2] = 5;
    heights[0] = 1;
    heights[1] = 2;
    heights[2] = 0;
    heights[3] = -7;
    heights[255] = 256;
    let mut cells = vec![Block::new_empty(); CHUNK_VOLUME];
    TerrainGenerator::new(1).generate(&heights, &mut cells);

    // a column of height 5 at x = 2, z = 3
    assert_eq!(cell(&cells, 2, 0, 3), BlockType::Stone);
    assert_eq!(cell(&cells, 2, 1, 3), BlockType::Stone);
    assert_eq!(cell(&cells, 2, 2, 3), BlockType::Stone);
    assert_eq!(cell(&cells, 2, 3, 3), BlockType::Dirt);
    assert_eq!(cell(&cells, 2, 4, 3), BlockType::Grass);
    assert_eq!(cell(&cells, 2, 5, 3), BlockType::Void);
    assert_eq!(cell(&cells, 2, 255, 3), BlockType::Void);
    // the usual column
    assert_eq!(cell(&cells, 7, 39, 7), BlockType::Stone);
    assert_eq!(cell(&cells, 7, 40, 7), BlockType::Dirt);
    assert_eq!(cell(&cells, 7, 41, 7), BlockType::Grass);
    assert_eq!(cell(&cells, 7, 42, 7), BlockType::Void);
    // low columns
    assert_eq!(cell(&cells, 0, 0, 0), BlockType::Grass);
    assert_eq!(cell(&cells, 0, 1, 0), BlockType::Void);
    assert_eq!(cell(&cells, 1, 0, 0), BlockType::Dirt);
    assert_eq!(cell(&cells, 1, 1, 0), BlockType::Grass);
    assert_eq!(cell(&cells, 2, 0, 0), BlockType::Void);
    assert_eq!(cell(&cells, 3, 0, 0), BlockType::Void);
    // a column as high as the chunk
    assert_eq!(cell(&cells, 15, 255, 15), BlockType::Grass);
    assert_eq!(cell(&cells, 15, 254, 15), BlockType::Dirt);
    assert_eq!(cell(&cells, 15, 253, 15), BlockType::Stone);
    assert_eq!(cell(&cells, 15, 0, 15), BlockType::Stone);

    let solid = cells.iter().filter(|b| b.is_solid()).count();
    assert_eq!(solid, 250 * 42 + 5 + 1 + 2 + 256);
}

#[test]
fn generation_leaves_higher_cells_alone() {
    let heights = vec![2i32; 256];
    let mut cells = vec![Block { voxel_type: BlockType::Stone }; CHUNK_VOLUME];
    TerrainGenerator::default().generate(&heights, &mut cells);
    assert_eq!(cell(&cells, 4, 0, 4), BlockType::Dirt);
    assert_eq!(cell(&cells, 4, 1, 4), BlockType::Grass);
    assert_eq!(cell(&cells, 4, 2, 4), BlockType::Stone);
    assert_eq!(cell(&cells, 4, 200, 4), BlockType::Stone);
}

#[test]
fn generation_is_repeatable() {
    let heights: Vec<i32> = (0..256).map(|i| (i * 7) % 90).collect();
    let first = generate_chunk(&TerrainGenerator::new(3), IVec3::new(1, 0, -1), &heights);
    let second = generate_chunk(&TerrainGenerator::new(3), IVec3::new(1, 0, -1), &heights);
    assert_eq!(first, second);
    assert_eq!(first.compress(), second.compress());
    assert_eq!(first.pos, IVec3::new(1, 0, -1));
    assert_eq!(first.neighbors, [None, None, None, None]);
    assert_eq!(first.voxels.len(), CHUNK_VOLUME);
    // height 14 at x = 2, z = 0
    assert_eq!(cell(&first.voxels, 2, 13, 0), BlockType::Grass);
    assert_eq!(cell(&first.voxels, 2, 12, 0), BlockType::Dirt);
    assert_eq!(cell(&first.voxels, 2, 11, 0), BlockType::Stone);
    assert_eq!(cell(&first.voxels, 2, 14, 0), BlockType::Void);
}

#[test]
fn generated_chunk_survives_the_wire() {
    let heights: Vec<i32> = (0..256).map(|i| 30 + (i % 16)).collect();
    let chunk = generate_chunk(&TerrainGenerator::new(9), IVec3::new(-2, 0, 4), &heights);
    let bytes = chunk.compress();
    let back = Chunk::from_compressed(&bytes).unwrap();
    assert_eq!(back, chunk);
    assert_eq!(back.compress(), bytes);
}
