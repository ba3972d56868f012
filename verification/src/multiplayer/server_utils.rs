//! What the server does when a peer comes or goes and when a message of a
//! client arrives.

use vstd::prelude::*;
use crate::math::IVec3;
use crate::math::Position;
use crate::multiplayer::lobby::with_peer;
use crate::multiplayer::lobby::Lobby;
use crate::multiplayer::lobby::PeerView;
use crate::multiplayer::message::ClientMessage;
use crate::multiplayer::message::PendingClientMessage;
use crate::multiplayer::message::Recipient;
use crate::multiplayer::message::ServerMessage;
use crate::multiplayer::message::ServerPacket;
use crate::multiplayer::Channel;
use crate::voxel::block::Block;
use crate::voxel::block::BlockType;
use crate::voxel::codec::decompressed;
use crate::voxel::world::EntityId;
use crate::voxel::world::World;
use crate::voxel::world::WorldView;

verus! {

/// Most peers a server takes when it serves a single player.
pub const SINGLEPLAYER_MAX_CLIENTS: usize = 1;

/// Most peers a server takes otherwise.
pub const MULTIPLAYER_MAX_CLIENTS: usize = 64;

/// The port a server listens on, unless it serves a single player and takes
/// any port that is free.
pub const DEFAULT_PORT: u16 = 5000;

/// What the transport tells the server about a peer.
#[derive(Clone, Copy, Debug, PartialEq, Eq, Structural)]
pub enum ServerEvent {
    /// A peer has connected. `player` is the representation made for it
    /// and `position` is where that was placed.
    ClientConnected { client_id: u64, player: EntityId, position: Position },
    /// A peer is gone.
    ClientDisconnected { client_id: u64 },
}

/// What the server does about an event of the transport.
#[derive(Debug, PartialEq, Eq)]
pub struct ServerUpdate {
    /// The messages to send, in this order.
    pub packets: Vec<ServerPacket>,
    /// The representation to take out of the world.
    pub despawn: Option<EntityId>,
}

/// One thing the server does about a message of a client.
#[derive(Clone, Debug, PartialEq, Eq)]
pub enum ServerAction {
    /// Send a message.
    Send(ServerPacket),
    /// Make a placeholder for the chunk at this coordinate, which starts
    /// the chunk's generation.
    SpawnChunk(IVec3),
}

/// The most peers a server takes and the port it asks for; port 0 stands
/// for any free port.
pub fn server_limits(singleplayer: bool) -> (r: (usize, u16))
    ensures
        r == (if singleplayer {
            (SINGLEPLAYER_MAX_CLIENTS, 0u16)
        } else {
            (MULTIPLAYER_MAX_CLIENTS, DEFAULT_PORT)
        }),
{
    if singleplayer {
        (SINGLEPLAYER_MAX_CLIENTS, 0)
    } else {
        (MULTIPLAYER_MAX_CLIENTS, DEFAULT_PORT)
    }
}

/// The message with which the server tells `to` that `peer` is in the
/// world at `position`.
pub open spec fn joined_packet(to: Recipient, peer: u64, position: Position) -> ServerPacket {
    ServerPacket { recipient: to, channel: Channel::Reliable, message: ServerMessage::PlayerJoined(peer, position) }
}

/// Whether `packets` tell the peer `to` of every other peer of the lobby,
/// once each and of nobody else, with the position the lobby has for it.
pub open spec fn introduces(packets: Seq<ServerPacket>, peers: Map<u64, PeerView>, to: u64) -> bool {
    &&& forall|i: int|
        0 <= i < packets.len() ==> (#[trigger] packets[i]).recipient == Recipient::Peer(to) && packets[i].channel
            == Channel::Reliable && (packets[i].message matches ServerMessage::PlayerJoined(other, at) && other
            != to && peers.contains_key(other) && at == peers[other].position)
    &&& forall|other: u64|
        other != to && #[trigger] peers.contains_key(other) ==> exists|i: int|
            0 <= i < packets.len() && #[trigger] packets[i] == joined_packet(
                Recipient::Peer(to),
                other,
                peers[other].position,
            )
    &&& forall|i: int, j: int|
        0 <= i < j < packets.len() ==> (#[trigger] packets[i]).message != (#[trigger] packets[j]).message
}

/// Whether `p` carries the chunk with cells `voxels` at `coord` to the peer
/// `to`, on the channel for chunks.
pub open spec fn is_chunk_packet(p: ServerPacket, to: u64, coord: IVec3, voxels: Seq<Block>) -> bool {
    &&& p.recipient == Recipient::Peer(to)
    &&& p.channel == Channel::Chunk
    &&& p.message matches ServerMessage::Chunk(c, payload)
    &&& c == coord
    &&& decompressed(payload@) == Some((voxels, coord))
}

/// Whether a request for the chunk at `coord` must start the chunk's
/// generation: the chunk is not there, nobody waits for it yet and it has
/// no placeholder.
pub open spec fn needs_placeholder(w: WorldView, coord: IVec3) -> bool {
    &&& !w.chunks.contains_key(coord)
    &&& !w.pending_generating.contains_key(coord)
    &&& !w.entities.contains_key(coord)
}

/// The store after the server has handled a message of `peer`. Edits are
/// applied; a request for a chunk that is not there puts the peer among
/// those who wait for it; nothing else touches the store.
pub open spec fn world_after(w: WorldView, peer: u64, message: ClientMessage) -> WorldView {
    match message {
        ClientMessage::BreakBlock(pos) => w.edit_voxel(pos, BlockType::Void),
        ClientMessage::PlaceBlock(pos, block_type) => w.edit_voxel(pos, block_type),
        ClientMessage::RequestChunk(coord) => if w.chunks.contains_key(coord) {
            w
        } else {
            w.await_chunk(coord, peer)
        },
        _ => w,
    }
}

/// How many things the server does about a message of a client.
pub open spec fn answer_count(w: WorldView, message: ClientMessage) -> nat {
    match message {
        ClientMessage::Ping => 0,
        ClientMessage::Pong => 0,
        ClientMessage::RequestChunk(coord) => if w.chunks.contains_key(coord) || needs_placeholder(w, coord) {
            1
        } else {
            0
        },
        _ => 1,
    }
}

/// Whether `actions` is what the server does about a message of `peer`
/// when the store is `w`. An edit is told to every peer, the sender
/// included. A move is told to every peer but the sender, and may get
/// lost. A request for a chunk that is there is answered with the chunk;
/// one for a chunk that is not there starts the chunk's generation if
/// nothing has started it yet.
pub open spec fn answers(w: WorldView, peer: u64, message: ClientMessage, actions: Seq<ServerAction>) -> bool {
    &&& actions.len() == answer_count(w, message)
    &&& match message {
        ClientMessage::Ping => true,
        ClientMessage::Pong => true,
        ClientMessage::BreakBlock(pos) => actions[0] == ServerAction::Send(
            ServerPacket {
                recipient: Recipient::Everyone,
                channel: Channel::Reliable,
                message: ServerMessage::BlockBroken(pos),
            },
        ),
        ClientMessage::PlaceBlock(pos, block_type) => actions[0] == ServerAction::Send(
            ServerPacket {
                recipient: Recipient::Everyone,
                channel: Channel::Reliable,
                message: ServerMessage::BlockPlaced(pos, block_type),
            },
        ),
        ClientMessage::PlayerMoved(position) => actions[0] == ServerAction::Send(
            ServerPacket {
                recipient: Recipient::EveryoneExcept(peer),
                channel: Channel::Unreliable,
                message: ServerMessage::PlayerMoved(peer, position),
            },
        ),
        ClientMessage::RequestChunk(coord) => if w.chunks.contains_key(coord) {
            actions[0] matches ServerAction::Send(p) && is_chunk_packet(p, peer, coord, w.chunks[coord].voxels)
        } else {
            needs_placeholder(w, coord) ==> actions[0] == ServerAction::SpawnChunk(coord)
        },
    }
}

/// Whatever the server sends about a message of a client travels on the
/// channel of its kind: chunks on the channel for chunks, positions on the
/// unreliable one, everything else on the reliable one.
pub proof fn lemma_answers_use_their_channels(
    w: WorldView,
    peer: u64,
    message: ClientMessage,
    actions: Seq<ServerAction>,
)
    requires
        answers(w, peer, message, actions),
    ensures
        forall|i: int|
            0 <= i < actions.len() ==> (#[trigger] actions[i] matches ServerAction::Send(p) ==> p.channel
                == p.message.spec_channel()),
{
}

/// The store after the server has handled `messages` one after the other.
pub open spec fn world_after_all(w: WorldView, messages: Seq<(u64, ClientMessage)>) -> WorldView
    decreases messages.len(),
{
    if messages.len() == 0 {
        w
    } else {
        world_after(world_after_all(w, messages.drop_last()), messages.last().0, messages.last().1)
    }
}

/// Whether `actions` is what the server does about `messages`, handled one
/// after the other from the store `w`: what it does about the first, then
/// what it does about the second in the store the first left, and so on.
pub open spec fn answers_all(w: WorldView, messages: Seq<(u64, ClientMessage)>, actions: Seq<ServerAction>) -> bool
    decreases messages.len(),
{
    if messages.len() == 0 {
        actions.len() == 0
    } else {
        let before = world_after_all(w, messages.drop_last());
        let n = answer_count(before, messages.last().1);
        &&& actions.len() >= n
        &&& answers_all(w, messages.drop_last(), actions.take(actions.len() - n))
        &&& answers(before, messages.last().0, messages.last().1, actions.skip(actions.len() - n))
    }
}

/// Handles an event of the transport.
///
/// When a peer connects, it enters the lobby, is greeted, is told of every
/// other peer in the lobby, and is announced to everybody else, in this
/// order. When a peer disconnects, it leaves the lobby, its representation
/// is to be taken out of the world, and everybody else is told.
pub fn server_update_system(lobby: &mut Lobby, event: ServerEvent) -> (update: ServerUpdate)
    requires
        old(lobby).wf(),
    ensures
        final(lobby).wf(),
        match event {
            ServerEvent::ClientConnected { client_id, player, position } => {
                let packets = update.packets@;
                &&& final(lobby)@ == with_peer(old(lobby)@, client_id, player, position)
                &&& update.despawn is None
                &&& packets.len() >= 2
                &&& packets[0] == ServerPacket {
                    recipient: Recipient::Peer(client_id),
                    channel: Channel::Reliable,
                    message: ServerMessage::Ping,
                }
                &&& packets.last() == joined_packet(Recipient::EveryoneExcept(client_id), client_id, position)
                &&& introduces(packets.subrange(1, packets.len() - 1), final(lobby)@, client_id)
            },
            ServerEvent::ClientDisconnected { client_id } => {
                &&& final(lobby)@ == old(lobby)@.remove(client_id)
                &&& update.despawn == (if old(lobby)@.contains_key(client_id) {
                    Some(old(lobby)@[client_id].entity)
                } else {
                    None
                })
                &&& update.packets@ == seq![
                    ServerPacket {
                        recipient: Recipient::EveryoneExcept(client_id),
                        channel: Channel::Reliable,
                        message: ServerMessage::PlayerLeft(client_id),
                    },
                ]
            },
        },
{
    match event {
        ServerEvent::ClientConnected { client_id, player, position } => {
            lobby.insert(client_id, player, position);
            let mut packets: Vec<ServerPacket> = Vec::new();
            packets.push(
                ServerPacket {
                    recipient: Recipient::Peer(client_id),
                    channel: Channel::Reliable,
                    message: ServerMessage::Ping,
                },
            );
            let roster = lobby.roster();
            let ghost mut sent: Seq<int> = Seq::empty();
            let mut i: usize = 0;
            while i < roster.len()
                invariant
                    i <= roster@.len(),
                    packets@.len() >= 1,
                    packets@.len() == sent.len() + 1,
                    packets@[0] == (ServerPacket {
                        recipient: Recipient::Peer(client_id),
                        channel: Channel::Reliable,
                        message: ServerMessage::Ping,
                    }),
                    forall|k: int|
                        0 <= k < sent.len() ==> 0 <= #[trigger] sent[k] < i && roster@[sent[k]].id != client_id
                            && packets@[k + 1] == joined_packet(
                            Recipient::Peer(client_id),
                            roster@[sent[k]].id,
                            roster@[sent[k]].position,
                        ),
                    forall|k: int, l: int| 0 <= k < l < sent.len() ==> #[trigger] sent[k] < #[trigger] sent[l],
                    forall|r: int|
                        0 <= r < i && (#[trigger] roster@[r]).id != client_id ==> exists|k: int|
                            0 <= k < sent.len() && #[trigger] sent[k] == r,
                decreases roster@.len() - i,
            {
                let other = roster[i];
                if other.id != client_id {
                    packets.push(
                        ServerPacket {
                            recipient: Recipient::Peer(client_id),
                            channel: Channel::Reliable,
                            message: ServerMessage::PlayerJoined(other.id, other.position),
                        },
                    );
                    proof {
                        let ghost before = sent;
                        sent = sent.push(i as int);
                        assert forall|r: int| 0 <= r < i + 1 && (#[trigger] roster@[r]).id != client_id implies exists|
                            k: int,
                        |
                            0 <= k < sent.len() && #[trigger] sent[k] == r by {
                            if r < i {
                                let k = choose|k: int| 0 <= k < before.len() && #[trigger] before[k] == r;
                                assert(sent[k] == r);
                            } else {
                                assert(sent[before.len() as int] == r);
                            }
                        }
                    }
                }
                i = i + 1;
            }
            packets.push(
                ServerPacket {
                    recipient: Recipient::EveryoneExcept(client_id),
                    channel: Channel::Reliable,
                    message: ServerMessage::PlayerJoined(client_id, position),
                },
            );
            proof {
                let all = packets@;
                let middle = all.subrange(1, all.len() - 1);
                assert forall|other: u64|
                    other != client_id && #[trigger] lobby@.contains_key(other) implies exists|i: int|
                    0 <= i < middle.len() && #[trigger] middle[i] == joined_packet(
                        Recipient::Peer(client_id),
                        other,
                        lobby@[other].position,
                    ) by {
                    let r = choose|r: int| 0 <= r < roster@.len() && (#[trigger] roster@[r]).id == other;
                    let k = choose|k: int| 0 <= k < sent.len() && #[trigger] sent[k] == r;
                    assert(middle[k] == all[k + 1]);
                }
                assert forall|i: int, j: int| 0 <= i < j < middle.len() implies (#[trigger] middle[i]).message != (
                #[trigger] middle[j]).message by {
                    assert(sent[i] < sent[j]);
                    assert(roster@[sent[i]].id != roster@[sent[j]].id);
                    assert(middle[i] == all[i + 1] && middle[j] == all[j + 1]);
                }
                assert forall|i: int| 0 <= i < middle.len() implies (#[trigger] middle[i]).recipient
                    == Recipient::Peer(client_id) && middle[i].channel == Channel::Reliable && (middle[i].message matches ServerMessage::PlayerJoined(
                    other,
                    at,
                ) && other != client_id && lobby@.contains_key(other) && at == lobby@[other].position) by {
                    let r = sent[i];
                    assert(lobby@.contains_key(roster@[r].id));
                    assert(middle[i] == all[i + 1]);
                }
            }
            ServerUpdate { packets, despawn: None }
        },
        ServerEvent::ClientDisconnected { client_id } => {
            let despawn = lobby.remove(client_id);
            let mut packets: Vec<ServerPacket> = Vec::new();
            packets.push(
                ServerPacket {
                    recipient: Recipient::EveryoneExcept(client_id),
                    channel: Channel::Reliable,
                    message: ServerMessage::PlayerLeft(client_id),
                },
            );
            ServerUpdate { packets, despawn }
        },
    }
}

/// Handles one message of the client `client_id`, see [`world_after`] and
/// [`answers`]. Edits reach the store before anybody is told of them.
pub fn server_handle_message(world: &mut World, client_id: u64, message: ClientMessage) -> (actions: Vec<
    ServerAction,
>)
    requires
        old(world).wf(),
    ensures
        final(world).wf(),
        final(world)@ == world_after(old(world)@, client_id, message),
        answers(old(world)@, client_id, message, actions@),
{
    let mut actions: Vec<ServerAction> = Vec::new();
    match message {
        ClientMessage::Ping => {},
        ClientMessage::Pong => {},
        ClientMessage::BreakBlock(pos) => {
            world.edit_voxel(&pos, BlockType::Void);
            actions.push(
                ServerAction::Send(
                    ServerPacket {
                        recipient: Recipient::Everyone,
                        channel: Channel::Reliable,
                        message: ServerMessage::BlockBroken(pos),
                    },
                ),
            );
        },
        ClientMessage::PlayerMoved(pos) => {
            actions.push(
                ServerAction::Send(
                    ServerPacket {
                        recipient: Recipient::EveryoneExcept(client_id),
                        channel: Channel::Unreliable,
                        message: ServerMessage::PlayerMoved(client_id, pos),
                    },
                ),
            );
        },
        ClientMessage::PlaceBlock(pos, block_type) => {
            world.edit_voxel(&pos, block_type);
            actions.push(
                ServerAction::Send(
                    ServerPacket {
                        recipient: Recipient::Everyone,
                        channel: Channel::Reliable,
                        message: ServerMessage::BlockPlaced(pos, block_type),
                    },
                ),
            );
        },
        ClientMessage::RequestChunk(coord) => {
            let payload = match world.get_chunk(coord) {
                Some(chunk) => {
                    proof {
                        world.lemma_wf();
                        assert(world@.chunks[coord].pos == coord);
                    }
                    Some(chunk.compress())
                },
                None => None,
            };
            match payload {
                Some(payload) => {
                    actions.push(
                        ServerAction::Send(
                            ServerPacket {
                                recipient: Recipient::Peer(client_id),
                                channel: Channel::Chunk,
                                message: ServerMessage::Chunk(coord, payload),
                            },
                        ),
                    );
                },
                None => {
                    let has_placeholder = world.get_chunk_entity(&coord).is_some();
                    let first = world.await_chunk(coord, client_id);
                    if first && !has_placeholder {
                        actions.push(ServerAction::SpawnChunk(coord));
                    }
                },
            }
        },
    }
    actions
}

/// Handles the messages that wait, in the order in which they came, and
/// leaves none waiting; see [`world_after_all`] and [`answers_all`].
pub fn server_handle_messages_system(pending_messages: &mut PendingClientMessage, world: &mut World) -> (actions:
    Vec<ServerAction>)
    requires
        old(world).wf(),
    ensures
        final(world).wf(),
        final(pending_messages).0@.len() == 0,
        final(world)@ == world_after_all(old(world)@, old(pending_messages).0@),
        answers_all(old(world)@, old(pending_messages).0@, actions@),
{
    let mut actions: Vec<ServerAction> = Vec::new();
    let ghost messages = pending_messages.0@;
    let mut i: usize = 0;
    while i < pending_messages.0.len()
        invariant
            world.wf(),
            pending_messages.0@ == messages,
            i <= messages.len(),
            world@ == world_after_all(old(world)@, messages.take(i as int)),
            answers_all(old(world)@, messages.take(i as int), actions@),
        decreases messages.len() - i,
    {
        let (client_id, message) = pending_messages.0[i];
        let ghost before = world@;
        let ghost earlier = actions@;
        let mut answer = server_handle_message(world, client_id, message);
        let ghost answered = answer@;
        actions.append(&mut answer);
        proof {
            let upto = messages.take(i + 1);
            assert(upto.drop_last() =~= messages.take(i as int));
            assert(upto.last() == messages[i as int]);
            let n = answer_count(before, message);
            assert(answered.len() == n);
            assert(actions@ =~= earlier + answered);
            assert(actions@.skip(actions@.len() - n) =~= answered);
            assert(actions@.take(actions@.len() - n) =~= earlier);
        }
        i = i + 1;
    }
    proof {
        assert(messages.take(messages.len() as int) =~= messages);
    }
    pending_messages.0.clear();
    actions
}

} // verus!
