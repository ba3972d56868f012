use voxel_game::math::IVec3;
use voxel_game::terrain::meshing::clear_dirty_chunks;
use voxel_game::terrain::meshing::queue_mesh_tasks;
use voxel_game::terrain::meshing::MeshTask;
use voxel_game::voxel::block::Block;
use voxel_game::voxel::block::BlockType;
use voxel_game::voxel::chunk::Chunk;
use voxel_game::voxel::coords::CoordMap;
use voxel_game::voxel::mesh_builder::create_chunk_mesh;
use voxel_game::voxel::mesh_builder::get_voxel_neighbor_optimized;
use voxel_game::voxel::mesh_builder::should_add_face;
use voxel_game::voxel::mesh_builder::Face;
use voxel_game::voxel::mesh_builder::NeighborGuards;
use voxel_game::voxel::setup::distance_squared_of;
use voxel_game::voxel::setup::setup_world;
use voxel_game::voxel::setup::start_coords;
use voxel_game::voxel::world::World;

#[test]
fn start_area() {
    let coords = start_coords();
    assert_eq!(coords.len(), 81);
    assert_eq!(coords[0], IVec3::new(-4, 0, -4));
    assert_eq!(coords[1], IVec3::new(-4, 0, -3));
    assert_eq!(coords[9], IVec3::new(-3, 0, -4));
    assert_eq!(coords[40], IVec3::new(0, 0, 0));
    assert_eq!(coords[80], IVec3::new(4, 0, 4));
}

#[test]
fn distance_squared() {
    assert_eq!(distance_squared_of(&IVec3::new(0, 0, 0)), 0);
    assert_eq!(distance_squared_of(&IVec3::new(3, 0, -4)), 25);
    assert_eq!(distance_squared_of(&IVec3::new(1, 2, 3)), 14);
    assert_eq!(distance_squared_of(&IVec3::new(i32::MIN, i32::MIN, i32::MIN)), 3 * (1i128 << 62));
}

#[test]
fn requests_go_out_nearest_first() {
    let mut world = World::new();
    let requests = setup_world(&mut world);
    assert_eq!(requests.len(), 81);
    assert_eq!(requests[0], IVec3::new(0, 0, 0));
    // the four at distance 1, in the order of the start area
    assert_eq!(
        requests[1..5].to_vec(),
        vec![IVec3::new(-1, 0, 0), IVec3::new(0, 0, -1), IVec3::new(0, 0, 1), IVec3::new(1, 0, 0)]
    );
    assert_eq!(
        requests[77..81].to_vec(),
        vec![IVec3::new(-4, 0, -4), IVec3::new(-4, 0, 4), IVec3::new(4, 0, -4), IVec3::new(4, 0, 4)]
    );
    let mut expected = start_coords();
    expected.sort_by_key(|c| c.x * c.x + c.z * c.z);
    assert_eq!(requests, expected);
    assert!(!world.all_requests_answered());
    for c in &requests {
        world.set_chunk(*c, Chunk::default());
    }
    assert!(world.all_requests_answered());
}

#[test]
fn mesh_tasks_are_for_dirty_chunks_with_placeholders() {
    let mut world = World::new();
    let a = IVec3::new(0, 0, 0);
    let b = IVec3::new(1, 0, 0);
    let c = IVec3::new(5, 0, 5);
    world.insert_chunk_entity(a, 10);
    world.insert_chunk_entity(c, 30);
    world.insert_chunk_entity(IVec3::new(9, 0, 9), 90);
    world.set_chunk(a, Chunk::default());
    world.set_chunk(b, Chunk::default());
    world.set_chunk(c, Chunk::default());
    let mut tasks = queue_mesh_tasks(&world);
    tasks.sort_by_key(|t| t.entity);
    assert_eq!(tasks, vec![MeshTask { coord: a, entity: 10 }, MeshTask { coord: c, entity: 30 }]);
    // the marks stay until they are cleared
    assert_eq!(queue_mesh_tasks(&world).len(), 2);
    clear_dirty_chunks(&mut world);
    assert!(queue_mesh_tasks(&world).is_empty());
    assert!(world.dirty_chunks().is_empty());
    world.edit_voxel(&IVec3::new(16, 0, 0), BlockType::Stone);
    assert_eq!(queue_mesh_tasks(&world), vec![MeshTask { coord: a, entity: 10 }]);
}

#[test]
fn faces_are_shown_towards_empty_cells() {
    assert!(should_add_face(None));
    assert!(should_add_face(Some(Block::new_empty())));
    assert!(!should_add_face(Some(Block { voxel_type: BlockType::Dirt })));
}

#[test]
fn lone_block_shows_six_faces() {
    let chunks: CoordMap<Chunk> = CoordMap::new();
    let mut chunk = Chunk::default();
    let at = IVec3::new(5, 6, 7);
    chunk.voxels[Chunk::get_index(&at)] = Block { voxel_type: BlockType::Grass };
    let faces = create_chunk_mesh(&chunk, &chunks);
    assert_eq!(
        faces,
        vec![
            Face { voxel: at, direction_index: 0, face_id: 10 },
            Face { voxel: at, direction_index: 1, face_id: 10 },
            Face { voxel: at, direction_index: 2, face_id: 23 },
            Face { voxel: at, direction_index: 3, face_id: 9 },
            Face { voxel: at, direction_index: 4, face_id: 10 },
            Face { voxel: at, direction_index: 5, face_id: 10 },
        ]
    );
    assert!(create_chunk_mesh(&Chunk::default(), &chunks).is_empty());
}

#[test]
fn touching_blocks_hide_their_common_face() {
    let chunks: CoordMap<Chunk> = CoordMap::new();
    let mut chunk = Chunk::default();
    let low = IVec3::new(1, 1, 1);
    let high = IVec3::new(1, 2, 1);
    chunk.voxels[Chunk::get_index(&low)] = Block { voxel_type: BlockType::Stone };
    chunk.voxels[Chunk::get_index(&high)] = Block { voxel_type: BlockType::Stone };
    let faces = create_chunk_mesh(&chunk, &chunks);
    assert_eq!(faces.len(), 10);
    assert!(!faces.contains(&Face { voxel: low, direction_index: 2, face_id: 50 }));
    assert!(!faces.contains(&Face { voxel: high, direction_index: 3, face_id: 50 }));
    assert!(faces.contains(&Face { voxel: low, direction_index: 3, face_id: 50 }));
    // layer by layer from the bottom
    assert!(faces[..5].iter().all(|f| f.voxel == low));
    assert!(faces[5..].iter().all(|f| f.voxel == high));
}

#[test]
fn faces_at_the_side_look_into_the_neighbour() {
    let mut world = World::new();
    let a = IVec3::new(0, 0, 0);
    let right = IVec3::new(1, 0, 0);
    let mut chunk = Chunk::default();
    let at = IVec3::new(15, 0, 0);
    chunk.voxels[Chunk::get_index(&at)] = Block { voxel_type: BlockType::Dirt };
    let mut other = Chunk::default();
    other.voxels[Chunk::get_index(&IVec3::new(0, 0, 0))] = Block { voxel_type: BlockType::Dirt };
    world.set_chunk(a, chunk);
    world.set_chunk(right, other);

    let mut chunks: CoordMap<Chunk> = CoordMap::new();
    chunks.insert(a, world.get_chunk(a).unwrap().clone());
    chunks.insert(right, world.get_chunk(right).unwrap().clone());
    let stored = chunks.get(&a).unwrap();
    let faces = create_chunk_mesh(stored, &chunks);
    let shown: Vec<usize> = faces.iter().map(|f| f.direction_index).collect();
    // hidden towards +X by the neighbour's block, shown everywhere else
    assert_eq!(shown, vec![1, 2, 3, 4, 5]);

    let guards = NeighborGuards::of(stored, &chunks);
    assert!(guards.left.is_none());
    assert!(guards.right.is_some());
    assert_eq!(
        get_voxel_neighbor_optimized(at, 0, &stored.voxels, &guards),
        Some(Block { voxel_type: BlockType::Dirt })
    );
    assert_eq!(get_voxel_neighbor_optimized(at, 1, &stored.voxels, &guards), Some(Block::new_empty()));
    assert_eq!(get_voxel_neighbor_optimized(at, 3, &stored.voxels, &guards), None);
    assert_eq!(get_voxel_neighbor_optimized(at, 5, &stored.voxels, &guards), None);
    assert_eq!(get_voxel_neighbor_optimized(IVec3::new(0, 255, 0), 2, &stored.voxels, &guards), None);
    assert_eq!(get_voxel_neighbor_optimized(IVec3::new(0, 0, 0), 1, &stored.voxels, &guards), None);
}

#[test]
fn two_triangles_for_each_face() {
    assert_eq!(voxel_game::voxel::mesh_builder::face_indices(0), Vec::<u32>::new());
    assert_eq!(voxel_game::voxel::mesh_builder::face_indices(2), vec![0, 1, 2, 0, 2, 3, 4, 5, 6, 4, 6, 7]);
    let many = voxel_game::voxel::mesh_builder::face_indices(1000);
    assert_eq!(many.len(), 6000);
    assert_eq!(&many[5994..], &[3996, 3997, 3998, 3996, 3998, 3999]);
}
