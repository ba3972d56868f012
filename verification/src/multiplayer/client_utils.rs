//! What a client does when a message of the server arrives.

use vstd::prelude::*;
use crate::math::Position;
use crate::multiplayer::message::ClientMessage;
use crate::multiplayer::message::ServerMessage;
use crate::multiplayer::Channel;
use crate::voxel::block::BlockType;
use crate::voxel::chunk::Chunk;
use crate::voxel::codec::decompressed;
use crate::voxel::codec::lz4_decompressed;
use crate::voxel::codec::ChunkDecodeError;
use crate::voxel::world::EntityId;
use crate::voxel::world::World;
use crate::voxel::world::WorldView;

verus! {

/// What is left to do outside the store once a client has handled a
/// message of the server.
#[derive(Clone, Copy, Debug, PartialEq, Eq, Structural)]
pub enum ClientAction {
    /// Nothing.
    Nothing,
    /// Send a message to the server.
    Send(Channel, ClientMessage),
    /// Make a representation for the remote player `id` at `position`, and
    /// record it with [`World::insert_player`].
    SpawnPlayer { id: u64, position: Position },
    /// Move the representation `entity` to `position`.
    MovePlayer { entity: EntityId, position: Position },
    /// Take the representation `entity` out of the world.
    DespawnPlayer { entity: EntityId },
}

/// The store of a client after it has handled a message of the server. A
/// chunk that can be read is installed, one that cannot be read is left
/// out; edits are applied; a player that left is forgotten; nothing else
/// touches the store.
pub open spec fn client_world_after(w: WorldView, message: ServerMessage) -> WorldView {
    match message {
        ServerMessage::Chunk(coord, payload) => match decompressed(payload@) {
            Some((cells, _)) => w.set_chunk(coord, cells),
            None => w,
        },
        ServerMessage::PlayerLeft(id) => WorldView { players: w.players.remove(id), ..w },
        ServerMessage::BlockBroken(pos) => w.edit_voxel(pos, BlockType::Void),
        ServerMessage::BlockPlaced(pos, block_type) => w.edit_voxel(pos, block_type),
        _ => w,
    }
}

/// What is left to do once a client has handled a message of the server
/// that could be read: a ping is answered; a player that joined gets a
/// representation; a player that moved or left has its representation
/// moved or taken away, if the client knows the player.
pub open spec fn client_action(w: WorldView, message: ServerMessage) -> ClientAction {
    match message {
        ServerMessage::Ping => ClientAction::Send(Channel::Reliable, ClientMessage::Pong),
        ServerMessage::PlayerJoined(id, position) => ClientAction::SpawnPlayer { id, position },
        ServerMessage::PlayerMoved(id, position) => if w.players.contains_key(id) {
            ClientAction::MovePlayer { entity: w.players[id], position }
        } else {
            ClientAction::Nothing
        },
        ServerMessage::PlayerLeft(id) => if w.players.contains_key(id) {
            ClientAction::DespawnPlayer { entity: w.players[id] }
        } else {
            ClientAction::Nothing
        },
        _ => ClientAction::Nothing,
    }
}

/// Why a message of the server cannot be read, if it cannot.
pub open spec fn unreadable(message: ServerMessage) -> Option<ChunkDecodeError> {
    match message {
        ServerMessage::Chunk(_, payload) => match lz4_decompressed(payload@) {
            Some(_) => if decompressed(payload@) is None {
                Some(ChunkDecodeError::Malformed)
            } else {
                None
            },
            None => Some(ChunkDecodeError::Decompression),
        },
        _ => None,
    }
}

/// Handles one message of the server, see [`client_world_after`] and
/// [`client_action`]. A chunk that cannot be read is reported and leaves
/// the store as it was.
pub fn client_handle_message(world: &mut World, message: ServerMessage) -> (r: Result<
    ClientAction,
    ChunkDecodeError,
>)
    requires
        old(world).wf(),
    ensures
        final(world).wf(),
        final(world)@ == client_world_after(old(world)@, message),
        match r {
            Ok(action) => unreadable(message) is None && action == client_action(old(world)@, message),
            Err(e) => unreadable(message) == Some(e),
        },
{
    match message {
        ServerMessage::Ping => Ok(ClientAction::Send(Channel::Reliable, ClientMessage::Pong)),
        ServerMessage::Pong => Ok(ClientAction::Nothing),
        ServerMessage::Chunk(chunk_pos, compressed_chunk) => {
            match Chunk::from_compressed(&compressed_chunk) {
                Ok(chunk) => {
                    world.set_chunk(chunk_pos, chunk);
                    Ok(ClientAction::Nothing)
                },
                Err(e) => Err(e),
            }
        },
        ServerMessage::PlayerJoined(id, position) => Ok(ClientAction::SpawnPlayer { id, position }),
        ServerMessage::PlayerMoved(id, position) => {
            match world.get_player(id) {
                Some(entity) => Ok(ClientAction::MovePlayer { entity, position }),
                None => Ok(ClientAction::Nothing),
            }
        },
        ServerMessage::PlayerLeft(id) => {
            match world.remove_player(id) {
                Some(entity) => Ok(ClientAction::DespawnPlayer { entity }),
                None => {
                    Ok(ClientAction::Nothing)
                },
            }
        },
        ServerMessage::BlockBroken(pos) => {
            world.edit_voxel(&pos, BlockType::Void);
            Ok(ClientAction::Nothing)
        },
        ServerMessage::BlockPlaced(pos, block_type) => {
            world.edit_voxel(&pos, block_type);
            Ok(ClientAction::Nothing)
        },
    }
}

} // verus!
