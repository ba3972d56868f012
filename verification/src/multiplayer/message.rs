//! What peers say to each other.

use vstd::prelude::*;
use crate::math::IVec3;
use crate::math::Position;
use crate::multiplayer::Channel;
use crate::voxel::block::BlockType;
use crate::voxel::chunk::CompressedChunk;

verus! {

/// What a client says to the server.
#[derive(Clone, Copy, Debug, PartialEq, Eq, Structural)]
pub enum ClientMessage {
    Ping,
    Pong,
    BreakBlock(IVec3),
    PlaceBlock(IVec3, BlockType),
    PlayerMoved(Position),
    RequestChunk(IVec3),
}

/// What the server says to a client.
#[derive(Clone, Debug, PartialEq, Eq)]
pub enum ServerMessage {
    Ping,
    Pong,
    Chunk(IVec3, CompressedChunk),
    PlayerJoined(u64, Position),
    PlayerMoved(u64, Position),
    PlayerLeft(u64),
    BlockBroken(IVec3),
    BlockPlaced(IVec3, BlockType),
}

/// The messages that have come from clients and wait to be handled, each
/// with the peer it came from.
#[derive(Debug, PartialEq, Eq)]
pub struct PendingClientMessage(pub Vec<(u64, ClientMessage)>);

impl Default for PendingClientMessage {
    fn default() -> (p: PendingClientMessage)
        ensures
            p.0@.len() == 0,
    {
        PendingClientMessage(Vec::new())
    }
}

/// The messages that have come from the server and wait to be handled.
#[derive(Debug, PartialEq, Eq)]
pub struct PendingServerMessage(pub Vec<ServerMessage>);

impl Default for PendingServerMessage {
    fn default() -> (p: PendingServerMessage)
        ensures
            p.0@.len() == 0,
    {
        PendingServerMessage(Vec::new())
    }
}

/// Who a message of the server goes to.
#[derive(Clone, Copy, Debug, PartialEq, Eq, Structural)]
pub enum Recipient {
    /// One peer.
    Peer(u64),
    /// Every connected peer.
    Everyone,
    /// Every connected peer but one.
    EveryoneExcept(u64),
}

/// A message of the server on its way out.
#[derive(Clone, Debug, PartialEq, Eq)]
pub struct ServerPacket {
    pub recipient: Recipient,
    pub channel: Channel,
    pub message: ServerMessage,
}

impl ClientMessage {
    /// The channel a message of a client travels on: positions go
    /// unreliably, since only the latest counts; everything else must
    /// arrive.
    pub open spec fn spec_channel(&self) -> Channel {
        match *self {
            ClientMessage::PlayerMoved(_) => Channel::Unreliable,
            _ => Channel::Reliable,
        }
    }

    #[verifier::when_used_as_spec(spec_channel)]
    pub fn channel(&self) -> (c: Channel)
        ensures
            c == self.spec_channel(),
    {
        match self {
            ClientMessage::PlayerMoved(_) => Channel::Unreliable,
            _ => Channel::Reliable,
        }
    }
}

impl ServerMessage {
    /// The channel a message of the server travels on: chunks have a
    /// channel of their own, so that they cannot hold up anything else;
    /// positions go unreliably; everything else must arrive.
    pub open spec fn spec_channel(&self) -> Channel {
        match *self {
            ServerMessage::Chunk(_, _) => Channel::Chunk,
            ServerMessage::PlayerMoved(_, _) => Channel::Unreliable,
            _ => Channel::Reliable,
        }
    }

    #[verifier::when_used_as_spec(spec_channel)]
    pub fn channel(&self) -> (c: Channel)
        ensures
            c == self.spec_channel(),
    {
        match self {
            ServerMessage::Chunk(_, _) => Channel::Chunk,
            ServerMessage::PlayerMoved(_, _) => Channel::Unreliable,
            _ => Channel::Reliable,
        }
    }
}

} // verus!
