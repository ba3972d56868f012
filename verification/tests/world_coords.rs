use voxel_game::math::IVec3;
use voxel_game::voxel::world::World;

#[test]
fn test_make_coords_valid_same_chunk() {
    let mut chunk_pos = IVec3::new(0, 0, 0);
    let mut local_pos = IVec3::new(5, 75, 5);

    World::make_coords_valid(&mut chunk_pos, &mut local_pos);

    assert_eq!(chunk_pos, IVec3::new(0, 0, 0));
    assert_eq!(local_pos, IVec3::new(5, 75, 5));
}

#[test]
fn test_make_coords_valid_neighbour_chunk() {
    let mut chunk_pos = IVec3::new(0, 0, 0);
    let mut local_pos = IVec3::new(-1, 75, 5);

    World::make_coords_valid(&mut chunk_pos, &mut local_pos);

    assert_eq!(chunk_pos, IVec3::new(-1, 0, 0));
    assert_eq!(local_pos, IVec3::new(15, 75, 5));
}

#[test]
fn test_make_coords_valid_neighbour_chunk2() {
    let mut chunk_pos = IVec3::new(0, 0, 0);
    let mut local_pos = IVec3::new(16, 75, 5);

    World::make_coords_valid(&mut chunk_pos, &mut local_pos);

    assert_eq!(chunk_pos, IVec3::new(1, 0, 0));
    assert_eq!(local_pos, IVec3::new(0, 75, 5));
}

#[test]
fn make_coords_valid_carries_along_z() {
    let mut chunk_pos = IVec3::new(2, 7, -3);
    let mut local_pos = IVec3::new(3, -9, -17);

    World::make_coords_valid(&mut chunk_pos, &mut local_pos);

    assert_eq!(chunk_pos, IVec3::new(2, 7, -5));
    assert_eq!(local_pos, IVec3::new(3, -9, 15));
}

#[test]
fn make_coords_valid_carries_many_chunks() {
    let mut chunk_pos = IVec3::new(0, 0, 0);
    let mut local_pos = IVec3::new(-1000, 0, 1000);

    World::make_coords_valid(&mut chunk_pos, &mut local_pos);

    assert_eq!(chunk_pos, IVec3::new(-63, 0, 62));
    assert_eq!(local_pos, IVec3::new(8, 0, 8));
}

#[test]
fn make_coords_valid_keeps_the_named_cell() {
    let starts = vec![
        (IVec3::new(0, 0, 0), IVec3::new(-16, 1, 31)),
        (IVec3::new(-4, 0, 9), IVec3::new(-33, 2, -1)),
        (IVec3::new(100, 0, -100), IVec3::new(47, 3, 16)),
        (IVec3::new(1, 0, 1), IVec3::new(0, 4, 15)),
    ];
    for (chunk, local) in starts {
        let mut chunk_pos = chunk;
        let mut local_pos = local;
        World::make_coords_valid(&mut chunk_pos, &mut local_pos);
        assert!(0 <= local_pos.x && local_pos.x < 16);
        assert!(0 <= local_pos.z && local_pos.z < 16);
        assert_eq!(chunk_pos.x * 16 + local_pos.x, chunk.x * 16 + local.x);
        assert_eq!(chunk_pos.z * 16 + local_pos.z, chunk.z * 16 + local.z);
        assert_eq!(chunk_pos.y, chunk.y);
        assert_eq!(local_pos.y, local.y);
    }
}

#[test]
fn make_coords_valid_twice_changes_nothing_more() {
    let mut chunk_pos = IVec3::new(0, 0, 0);
    let mut local_pos = IVec3::new(-20, 5, 40);
    World::make_coords_valid(&mut chunk_pos, &mut local_pos);
    let (chunk_once, local_once) = (chunk_pos, local_pos);
    World::make_coords_valid(&mut chunk_pos, &mut local_pos);
    assert_eq!(chunk_pos, chunk_once);
    assert_eq!(local_pos, local_once);
}

#[test]
fn chunk_local_to_world_is_the_way_back() {
    let g = World::chunk_local_to_world(&IVec3::new(-2, 0, 3), &IVec3::new(15, 75, 0));
    assert_eq!(g, IVec3::new(-17, 75, 48));
}
