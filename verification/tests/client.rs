use voxel_game::client::player::player_handle_voxel_raycast;
use voxel_game::client::player::EditInput;
use voxel_game::client::player::Player;
use voxel_game::client::ui::server_loading_menu_system;
use voxel_game::client::ui::JoinInput;
use voxel_game::client::ui::JoinStatus;
use voxel_game::client::ui::JoinStep;
use voxel_game::math::IVec3;
use voxel_game::math::Position;
use voxel_game::multiplayer::client_utils::client_handle_message;
use voxel_game::multiplayer::client_utils::ClientAction;
use voxel_game::multiplayer::message::ClientMessage;
use voxel_game::multiplayer::message::ServerMessage;
use voxel_game::multiplayer::Channel;
use voxel_game::terrain::meshing::check_loading_world_ended;
use voxel_game::terrain::meshing::check_server_loading_world_ended;
use voxel_game::voxel::block::Block;
use voxel_game::voxel::block::BlockType;
use voxel_game::voxel::chunk::Chunk;
use voxel_game::voxel::codec::ChunkDecodeError;
use voxel_game::voxel::world::World;
use voxel_game::ClientState;
use voxel_game::ServerState;

fn at(n: u32) -> Position {
    Position::from_bits(n, n, n)
}

#[test]
fn ping_is_answered() {
    let mut world = World::new();
    assert_eq!(
        client_handle_message(&mut world, ServerMessage::Ping),
        Ok(ClientAction::Send(Channel::Reliable, ClientMessage::Pong))
    );
    assert_eq!(client_handle_message(&mut world, ServerMessage::Pong), Ok(ClientAction::Nothing));
}

#[test]
fn chunk_is_installed() {
    let mut world = World::new();
    let c = IVec3::new(2, 0, 2);
    world.add_pending_request(c);
    let mut sent = Chunk::default();
    sent.pos = c;
    sent.voxels[17] = Block { voxel_type: BlockType::Grass };
    let message = ServerMessage::Chunk(c, sent.compress());
    assert_eq!(client_handle_message(&mut world, message), Ok(ClientAction::Nothing));
    assert_eq!(world.get_chunk(c).unwrap().voxels, sent.voxels);
    assert_eq!(world.get_voxel(&IVec3::new(33, 1, 32)), Some(Block { voxel_type: BlockType::Grass }));
    assert!(world.is_dirty(&c));
    assert!(world.all_requests_answered());
    assert_eq!(check_loading_world_ended(&world), Some(ClientState::Playing));
}

#[test]
fn chunk_that_cannot_be_read_is_reported() {
    let mut world = World::new();
    let c = IVec3::new(2, 0, 2);
    world.add_pending_request(c);
    assert_eq!(
        client_handle_message(&mut world, ServerMessage::Chunk(c, vec![9, 9, 9])),
        Err(ChunkDecodeError::Decompression)
    );
    let no_chunk = lz4::block::compress(&[1u8, 2, 3], None, true).unwrap();
    assert_eq!(
        client_handle_message(&mut world, ServerMessage::Chunk(c, no_chunk)),
        Err(ChunkDecodeError::Malformed)
    );
    assert!(world.get_chunk(c).is_none());
    assert!(world.dirty_chunks().is_empty());
    assert_eq!(check_loading_world_ended(&world), None);
}

#[test]
fn remote_players_come_move_and_go() {
    let mut world = World::new();
    assert_eq!(
        client_handle_message(&mut world, ServerMessage::PlayerJoined(7, at(1))),
        Ok(ClientAction::SpawnPlayer { id: 7, position: at(1) })
    );
    // not known until its representation is recorded
    assert_eq!(client_handle_message(&mut world, ServerMessage::PlayerMoved(7, at(2))), Ok(ClientAction::Nothing));
    world.insert_player(7, 700);
    assert_eq!(
        client_handle_message(&mut world, ServerMessage::PlayerMoved(7, at(2))),
        Ok(ClientAction::MovePlayer { entity: 700, position: at(2) })
    );
    assert_eq!(
        client_handle_message(&mut world, ServerMessage::PlayerLeft(7)),
        Ok(ClientAction::DespawnPlayer { entity: 700 })
    );
    assert_eq!(client_handle_message(&mut world, ServerMessage::PlayerLeft(7)), Ok(ClientAction::Nothing));
    assert_eq!(world.get_player(7), None);
}

#[test]
fn edits_of_the_server_are_applied() {
    let mut world = World::new();
    world.set_chunk(IVec3::new(0, 0, 0), Chunk::default());
    world.clear_dirty_chunks();
    let pos = IVec3::new(3, 3, 3);
    assert_eq!(
        client_handle_message(&mut world, ServerMessage::BlockPlaced(pos, BlockType::Stone)),
        Ok(ClientAction::Nothing)
    );
    assert_eq!(world.get_voxel(&pos), Some(Block { voxel_type: BlockType::Stone }));
    assert_eq!(world.dirty_chunks(), vec![IVec3::new(0, 0, 0)]);
    world.clear_dirty_chunks();
    // the echo of an edit that this client made itself changes nothing
    assert_eq!(
        client_handle_message(&mut world, ServerMessage::BlockPlaced(pos, BlockType::Stone)),
        Ok(ClientAction::Nothing)
    );
    assert!(world.dirty_chunks().is_empty());
    assert_eq!(client_handle_message(&mut world, ServerMessage::BlockBroken(pos)), Ok(ClientAction::Nothing));
    assert_eq!(world.get_voxel(&pos), Some(Block::new_empty()));
}

#[test]
fn clicks_edit_and_tell_the_server() {
    let mut world = World::new();
    world.set_chunk(IVec3::new(0, 0, 0), Chunk::default());
    let looking = IVec3::new(4, 4, 4);
    let placing = IVec3::new(4, 5, 4);
    world.edit_voxel(&looking, BlockType::Grass);
    let hit = Some((looking, placing, Block { voxel_type: BlockType::Grass }));
    let mut player = Player::default();
    assert_eq!(player.looking_at_pos, None);

    let idle = EditInput { cursor_grabbed: true, break_pressed: false, place_pressed: false };
    assert_eq!(player_handle_voxel_raycast(&mut player, &mut world, hit, idle), None);
    assert_eq!(player.looking_at_pos, Some(looking));
    assert_eq!(player.placing_at_pos, Some(placing));

    let free = EditInput { cursor_grabbed: false, break_pressed: true, place_pressed: true };
    assert_eq!(player_handle_voxel_raycast(&mut player, &mut world, hit, free), None);
    assert_eq!(world.get_voxel(&looking), Some(Block { voxel_type: BlockType::Grass }));

    let place = EditInput { cursor_grabbed: true, break_pressed: false, place_pressed: true };
    assert_eq!(
        player_handle_voxel_raycast(&mut player, &mut world, hit, place),
        Some(ClientMessage::PlaceBlock(placing, BlockType::Stone))
    );
    assert_eq!(world.get_voxel(&placing), Some(Block { voxel_type: BlockType::Stone }));

    let both = EditInput { cursor_grabbed: true, break_pressed: true, place_pressed: true };
    assert_eq!(
        player_handle_voxel_raycast(&mut player, &mut world, hit, both),
        Some(ClientMessage::BreakBlock(looking))
    );
    assert_eq!(world.get_voxel(&looking), Some(Block::new_empty()));

    assert_eq!(player_handle_voxel_raycast(&mut player, &mut world, None, both), None);
    assert_eq!(player.looking_at_pos, None);
    assert_eq!(player.placing_at_pos, None);
}

#[test]
fn joining_a_server() {
    let waiting = JoinInput { connected: false, disconnected: false, elapsed_millis: 4000, back_clicked: false };
    assert_eq!(
        server_loading_menu_system(waiting),
        JoinStep {
            status: JoinStatus::Waiting { remaining_millis: 11000 },
            next_client_state: None,
            next_server_state: None,
            reset_timeout: false,
        }
    );
    let connected = JoinInput { connected: true, disconnected: true, elapsed_millis: 20000, back_clicked: true };
    assert_eq!(
        server_loading_menu_system(connected),
        JoinStep {
            status: JoinStatus::Connected,
            next_client_state: Some(ClientState::LoadingWorld),
            next_server_state: None,
            reset_timeout: true,
        }
    );
    let late = JoinInput { connected: false, disconnected: false, elapsed_millis: 15000, back_clicked: false };
    assert_eq!(server_loading_menu_system(late).status, JoinStatus::TimedOut);
    assert_eq!(server_loading_menu_system(late).next_client_state, None);
    let almost = JoinInput { elapsed_millis: 14999, ..late };
    assert_eq!(server_loading_menu_system(almost).status, JoinStatus::Waiting { remaining_millis: 1 });
    let failed = JoinInput { connected: false, disconnected: true, elapsed_millis: 10, back_clicked: false };
    assert_eq!(server_loading_menu_system(failed).status, JoinStatus::Failed);
    assert_eq!(server_loading_menu_system(failed).next_client_state, None);
    let back = JoinInput { back_clicked: true, ..late };
    assert_eq!(
        server_loading_menu_system(back),
        JoinStep {
            status: JoinStatus::TimedOut,
            next_client_state: Some(ClientState::MainMenu),
            next_server_state: Some(ServerState::MainMenu),
            reset_timeout: true,
        }
    );
}

#[test]
fn loading_ends() {
    let mut world = World::new();
    assert_eq!(check_loading_world_ended(&world), Some(ClientState::Playing));
    world.add_pending_request(IVec3::new(0, 0, 0));
    assert_eq!(check_loading_world_ended(&world), None);
    assert_eq!(check_server_loading_world_ended(0), Some(ServerState::Running));
    assert_eq!(check_server_loading_world_ended(3), None);
}
