//! The authoritative in-memory model of an unbounded, chunked voxel world,
//! with the rules that fill chunks, track which of them must be rebuilt for
//! presentation, and keep a server's copy and each client's partial copy in
//! step.

use vstd::prelude::*;

pub mod client;
pub mod math;
pub mod multiplayer;
pub mod terrain;
pub mod voxel;

pub use crate::math::IVec2;
pub use crate::math::IVec3;
pub use crate::math::Position;
pub use crate::multiplayer::client_utils::client_handle_message;
pub use crate::multiplayer::connection_config;
pub use crate::multiplayer::lobby::Lobby;
pub use crate::multiplayer::lobby::NetworkPlayer;
pub use crate::multiplayer::message::ClientMessage;
pub use crate::multiplayer::message::PendingClientMessage;
pub use crate::multiplayer::message::PendingServerMessage;
pub use crate::multiplayer::message::ServerMessage;
pub use crate::multiplayer::server_utils::server_handle_messages_system;
pub use crate::multiplayer::server_utils::server_update_system;
pub use crate::multiplayer::Channel;
pub use crate::multiplayer::PROTOCOL_ID;
pub use crate::terrain::chunk_generation;
pub use crate::terrain::meshing;
pub use crate::terrain::terrain_generator;
pub use crate::voxel::block;
pub use crate::voxel::chunk;
pub use crate::voxel::direction;
pub use crate::voxel::mesh_builder;
pub use crate::voxel::world;

verus! {

/// The phases a client goes through from start-up to play.
#[derive(Debug, Clone, Copy, PartialEq, Eq, Structural, Hash)]
pub enum ClientState {
    LoadingTexture,
    MainMenu,
    JoiningServer,
    LoadingWorld,
    Playing,
}

impl Default for ClientState {
    fn default() -> (s: ClientState)
        ensures
            s == ClientState::LoadingTexture,
    {
        ClientState::LoadingTexture
    }
}

/// How a client reaches its server.
#[derive(Debug, Clone, Copy, PartialEq, Eq, Structural, Hash)]
pub enum ClientMode {
    SinglePlayer,
    Lan,
    Online,
}

impl Default for ClientMode {
    fn default() -> (m: ClientMode)
        ensures
            m == ClientMode::SinglePlayer,
    {
        ClientMode::SinglePlayer
    }
}

/// The phases of a server.
#[derive(Debug, Clone, Copy, PartialEq, Eq, Structural, Hash)]
pub enum ServerState {
    MainMenu,
    LoadingWorld,
    Running,
}

impl Default for ServerState {
    fn default() -> (s: ServerState)
        ensures
            s == ServerState::MainMenu,
    {
        ServerState::MainMenu
    }
}

} // verus!
