use voxel_game::math::IVec3;
use voxel_game::voxel::block::Block;
use voxel_game::voxel::block::BlockType;
use voxel_game::voxel::direction::Direction;
use voxel_game::voxel::mesh_builder::atlas_cell;
use voxel_game::voxel::voxel::Voxel;
use voxel_game::voxel::voxel::VoxelType;

#[test]
fn block_is_solid_unless_void() {
    assert!(!Block::new_empty().is_solid());
    assert!(!Block::default().is_solid());
    for t in [BlockType::Grass, BlockType::Dirt, BlockType::Stone] {
        let mut b = Block::new_empty();
        b.set_type(t);
        assert_eq!(b.voxel_type, t);
        assert!(b.is_solid());
    }
    let mut b = Block { voxel_type: BlockType::Stone };
    b.set_type(BlockType::Void);
    assert!(!b.is_solid());
}

#[test]
fn block_faces() {
    let all = [
        Direction::Left,
        Direction::Right,
        Direction::Down,
        Direction::Up,
        Direction::Back,
        Direction::Forward,
    ];
    for d in all {
        assert_eq!(Block::get_face(&BlockType::Void, &d), 0);
        assert_eq!(Block::get_face(&BlockType::Dirt, &d), 9);
        assert_eq!(Block::get_face(&BlockType::Stone, &d), 50);
    }
    assert_eq!(Block::get_face(&BlockType::Grass, &Direction::Up), 23);
    assert_eq!(Block::get_face(&BlockType::Grass, &Direction::Down), 9);
    assert_eq!(Block::get_face(&BlockType::Grass, &Direction::Left), 10);
    assert_eq!(Block::get_face(&BlockType::Grass, &Direction::Right), 10);
    assert_eq!(Block::get_face(&BlockType::Grass, &Direction::Back), 10);
    assert_eq!(Block::get_face(&BlockType::Grass, &Direction::Forward), 10);
}

#[test]
fn voxel_is_solid_unless_void() {
    assert!(!Voxel::new_empty().is_solid());
    assert!(!Voxel::default().is_solid());
    assert!(!Voxel::new(VoxelType::Void).is_solid());
    assert!(Voxel::new(VoxelType::Grass).is_solid());
    let mut v = Voxel::new(VoxelType::Stone);
    assert_eq!(v.voxel_type, VoxelType::Stone);
    v.set_type(VoxelType::Dirt);
    assert_eq!(v.voxel_type, VoxelType::Dirt);
    assert!(v.is_solid());
    v.set_type(VoxelType::Void);
    assert!(!v.is_solid());
}

#[test]
fn voxel_faces() {
    assert_eq!(Voxel::get_face(&VoxelType::Void, &Direction::Up), 0);
    assert_eq!(Voxel::get_face(&VoxelType::Grass, &Direction::Up), 23);
    assert_eq!(Voxel::get_face(&VoxelType::Grass, &Direction::Down), 9);
    assert_eq!(Voxel::get_face(&VoxelType::Grass, &Direction::Forward), 10);
    assert_eq!(Voxel::get_face(&VoxelType::Dirt, &Direction::Left), 9);
    assert_eq!(Voxel::get_face(&VoxelType::Stone, &Direction::Back), 50);
}

#[test]
fn direction_from_index() {
    assert_eq!(Direction::from_index(0), Direction::Right);
    assert_eq!(Direction::from_index(1), Direction::Left);
    assert_eq!(Direction::from_index(2), Direction::Up);
    assert_eq!(Direction::from_index(3), Direction::Down);
    assert_eq!(Direction::from_index(4), Direction::Forward);
    assert_eq!(Direction::from_index(5), Direction::Back);
}

#[test]
fn direction_normals() {
    assert_eq!(Direction::Left.get_normal(), IVec3::new(-1, 0, 0));
    assert_eq!(Direction::Right.get_normal(), IVec3::new(1, 0, 0));
    assert_eq!(Direction::Down.get_normal(), IVec3::new(0, -1, 0));
    assert_eq!(Direction::Up.get_normal(), IVec3::new(0, 1, 0));
    assert_eq!(Direction::Back.get_normal(), IVec3::new(0, 0, -1));
    assert_eq!(Direction::Forward.get_normal(), IVec3::new(0, 0, 1));
}

#[test]
fn atlas_cells() {
    assert_eq!(atlas_cell(0), (0, 0));
    assert_eq!(atlas_cell(9), (0, 9));
    assert_eq!(atlas_cell(10), (0, 10));
    assert_eq!(atlas_cell(23), (1, 7));
    assert_eq!(atlas_cell(50), (3, 2));
    assert_eq!(atlas_cell(256 + 17), (1, 1));
}
