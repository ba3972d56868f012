//! Generation of chunks on the server: from a placeholder to a chunk in the
//! store, and on to the peers that wait for it.

use vstd::prelude::*;
use crate::math::IVec3;
use crate::multiplayer::message::ClientMessage;
use crate::multiplayer::message::Recipient;
use crate::multiplayer::message::ServerMessage;
use crate::multiplayer::message::ServerPacket;
use crate::multiplayer::server_utils::is_chunk_packet;
use crate::multiplayer::server_utils::needs_placeholder;
use crate::multiplayer::server_utils::world_after;
use crate::multiplayer::Channel;
use crate::terrain::terrain_generator::TerrainGenerator;
use crate::terrain::terrain_generator::CHUNK_COLUMNS;
use crate::voxel::block::Block;
use crate::voxel::block::BlockType;
use crate::voxel::chunk::no_links;
use crate::voxel::chunk::Chunk;
use crate::voxel::chunk::CHUNK_HEIGHT;
use crate::voxel::chunk::CHUNK_VOLUME;
use crate::voxel::world::World;
use crate::voxel::world::WorldView;

verus! {

/// Where generation of the chunk at a coordinate stands on the server.
#[derive(Clone, Copy, Debug, PartialEq, Eq, Structural)]
pub enum GenerationState {
    /// Nothing has asked for the chunk.
    Unrequested,
    /// The chunk is being made.
    Generating,
    /// The chunk is in the store.
    Ready,
}

/// Where generation of the chunk at `coord` stands: it is ready once the
/// chunk is in the store, and under way from the moment the chunk has a
/// placeholder or somebody waits for it.
pub open spec fn generation_state(w: WorldView, coord: IVec3) -> GenerationState {
    if w.chunks.contains_key(coord) {
        GenerationState::Ready
    } else if needs_placeholder(w, coord) {
        GenerationState::Unrequested
    } else {
        GenerationState::Generating
    }
}

/// Whether `p` carries the chunk with cells `cells` at `coord` to one of
/// `waiting`.
pub open spec fn delivers(p: ServerPacket, waiting: Set<u64>, coord: IVec3, cells: Seq<Block>) -> bool {
    &&& p.recipient matches Recipient::Peer(peer)
    &&& waiting.contains(peer)
    &&& is_chunk_packet(p, peer, coord, cells)
}

/// How far generation has come: nothing asked, under way, done.
pub open spec fn progress(state: GenerationState) -> int {
    match state {
        GenerationState::Unrequested => 0,
        GenerationState::Generating => 1,
        GenerationState::Ready => 2,
    }
}

/// The cells of a chunk of void.
pub open spec fn void_cells() -> Seq<Block> {
    Seq::new(CHUNK_VOLUME as nat, |i: int| Block { voxel_type: BlockType::Void })
}

/// The store after the peers `peers` have asked for the chunk at `coord`,
/// one after the other.
pub open spec fn after_requests(w: WorldView, coord: IVec3, peers: Seq<u64>) -> WorldView
    decreases peers.len(),
{
    if peers.len() == 0 {
        w
    } else {
        world_after(after_requests(w, coord, peers.drop_last()), peers.last(), ClientMessage::RequestChunk(coord))
    }
}

/// How many of the requests of `peers` for the chunk at `coord` start the
/// chunk's generation.
pub open spec fn generations_started(w: WorldView, coord: IVec3, peers: Seq<u64>) -> nat
    decreases peers.len(),
{
    if peers.len() == 0 {
        0
    } else {
        let earlier = generations_started(w, coord, peers.drop_last());
        if needs_placeholder(after_requests(w, coord, peers.drop_last()), coord) {
            earlier + 1
        } else {
            earlier
        }
    }
}

/// Where generation of the chunk at `coord` stands, see
/// [`generation_state`].
pub fn chunk_generation_state(world: &World, coord: &IVec3) -> (state: GenerationState)
    requires
        world.wf(),
    ensures
        state == generation_state(world@, *coord),
{
    if world.get_chunk(*coord).is_some() {
        GenerationState::Ready
    } else if world.get_chunk_entity(coord).is_some() || world.has_waiters(coord) {
        GenerationState::Generating
    } else {
        GenerationState::Unrequested
    }
}

/// Makes the chunk at `chunk_coord` from the heights of its columns: a
/// chunk of void at that position, without links, filled with terrain.
pub fn generate_chunk(generator: &TerrainGenerator, chunk_coord: IVec3, heights: &Vec<i32>) -> (chunk: Chunk)
    requires
        heights@.len() == CHUNK_COLUMNS,
        forall|c: int| 0 <= c < CHUNK_COLUMNS ==> #[trigger] heights@[c] <= CHUNK_HEIGHT,
    ensures
        chunk.wf(),
        chunk.pos == chunk_coord,
        chunk.neighbors@ == no_links(),
        chunk.voxels@ == TerrainGenerator::generated(heights@, void_cells()),
{
    let mut chunk: Chunk = Chunk::default();
    chunk.pos = chunk_coord;
    let ghost before = chunk.voxels@;
    generator.generate(heights, &mut chunk.voxels);
    proof {
        assert(before =~= void_cells());
    }
    chunk
}

/// Takes a chunk that has been generated into the store and hands out what
/// is to be sent: the chunk is installed at `chunk_coord` as
/// [`World::set_chunk`] does, and every peer that waited for it gets it,
/// once, on the channel for chunks. Nobody waits for the chunk afterwards.
pub fn process_chunk_generation(world: &mut World, chunk_coord: IVec3, chunk: Chunk) -> (packets: Vec<
    ServerPacket,
>)
    requires
        old(world).wf(),
        chunk.wf(),
    ensures
        final(world).wf(),
        final(world)@ == old(world)@.set_chunk(chunk_coord, chunk.voxels@),
        !final(world)@.pending_generating.contains_key(chunk_coord),
        packets@.len() == old(world)@.waiters(chunk_coord).len(),
        forall|i: int|
            0 <= i < packets@.len() ==> delivers(
                #[trigger] packets@[i],
                old(world)@.waiters(chunk_coord),
                chunk_coord,
                chunk.voxels@,
            ),
        forall|peer: u64| #[trigger]
            old(world)@.waiters(chunk_coord).contains(peer) ==> exists|i: int|
                0 <= i < packets@.len() && (#[trigger] packets@[i]).recipient == Recipient::Peer(peer),
        forall|i: int, j: int|
            0 <= i < j < packets@.len() ==> (#[trigger] packets@[i]).recipient != (#[trigger] packets@[j]).recipient,
{
    let ghost cells = chunk.voxels@;
    let mut installed = chunk;
    installed.pos = chunk_coord;
    let waiting = world.take_waiters(&chunk_coord);
    proof {
        waiting@.unique_seq_to_set();
    }
    let mut packets: Vec<ServerPacket> = Vec::new();
    let mut i: usize = 0;
    while i < waiting.len()
        invariant
            installed.wf(),
            installed.pos == chunk_coord,
            installed.voxels@ == cells,
            i <= waiting@.len(),
            packets@.len() == i,
            forall|k: int| 0 <= k < i ==> is_chunk_packet(#[trigger] packets@[k], waiting@[k], chunk_coord, cells),
        decreases waiting@.len() - i,
    {
        let message = ServerMessage::Chunk(chunk_coord, installed.compress());
        packets.push(ServerPacket { recipient: Recipient::Peer(waiting[i]), channel: Channel::Chunk, message });
        i = i + 1;
    }
    let ghost drained = world@;
    world.set_chunk(chunk_coord, installed);
    proof {
        let want = old(world)@.set_chunk(chunk_coord, cells);
        assert(world@.pending_generating =~= want.pending_generating);
        assert(world@.chunks == want.chunks);
        assert(world@ == want);
        assert forall|k: int| 0 <= k < packets@.len() implies delivers(
            #[trigger] packets@[k],
            old(world)@.waiters(chunk_coord),
            chunk_coord,
            cells,
        ) by {
            assert(waiting@.to_set().contains(waiting@[k]));
            assert(is_chunk_packet(packets@[k], waiting@[k], chunk_coord, cells));
        }
        assert forall|peer: u64| #[trigger] old(world)@.waiters(chunk_coord).contains(peer) implies exists|k: int|
            0 <= k < packets@.len() && (#[trigger] packets@[k]).recipient == Recipient::Peer(peer) by {
            assert(waiting@.to_set().contains(peer));
            let k = choose|k: int| 0 <= k < waiting@.len() && waiting@[k] == peer;
            assert(is_chunk_packet(packets@[k], peer, chunk_coord, cells));
        }
        assert forall|k: int, l: int| 0 <= k < l < packets@.len() implies (#[trigger] packets@[k]).recipient != (
        #[trigger] packets@[l]).recipient by {
            assert(is_chunk_packet(packets@[k], waiting@[k], chunk_coord, cells));
            assert(is_chunk_packet(packets@[l], waiting@[l], chunk_coord, cells));
        }
    }
    packets
}

/// However many peers ask for a chunk that is not in the store, its
/// generation is started once: by the first request, unless something had
/// started it before. Every one of the peers waits for the chunk
/// afterwards, and once the chunk is installed nobody waits for it any
/// more. [`process_chunk_generation`] sends the chunk to each of those who
/// wait, once.
pub proof fn lemma_requests_share_one_generation(w: WorldView, coord: IVec3, peers: Seq<u64>, cells: Seq<Block>)
    requires
        w.wf(),
        !w.chunks.contains_key(coord),
        peers.len() > 0,
    ensures
        generations_started(w, coord, peers) == (if needs_placeholder(w, coord) {
            1nat
        } else {
            0nat
        }),
        generation_state(after_requests(w, coord, peers), coord) == GenerationState::Generating,
        after_requests(w, coord, peers).waiters(coord) == w.waiters(coord).union(peers.to_set()),
        after_requests(w, coord, peers).wf(),
        !after_requests(w, coord, peers).set_chunk(coord, cells).pending_generating.contains_key(coord),
        generation_state(after_requests(w, coord, peers).set_chunk(coord, cells), coord) == GenerationState::Ready,
    decreases peers.len(),
{
    let earlier = after_requests(w, coord, peers.drop_last());
    let now = after_requests(w, coord, peers);
    if peers.len() == 1 {
        assert(earlier == w);
        assert(peers.drop_last().to_set() =~= Set::<u64>::empty());
        assert(generations_started(w, coord, peers.drop_last()) == 0);
    } else {
        lemma_requests_share_one_generation(w, coord, peers.drop_last(), cells);
    }
    lemma_requests_keep(w, coord, peers.drop_last());
    assert(now == earlier.await_chunk(coord, peers.last()));
    assert(peers.to_set() =~= peers.drop_last().to_set().insert(peers.last())) by {
        assert forall|p: u64| peers.to_set().contains(p) <==> peers.drop_last().to_set().insert(
            peers.last(),
        ).contains(p) by {
            if peers.to_set().contains(p) {
                let i = choose|i: int| 0 <= i < peers.len() && peers[i] == p;
                if i < peers.len() - 1 {
                    assert(peers.drop_last()[i] == p);
                }
            }
            if peers.drop_last().to_set().contains(p) {
                let i = choose|i: int| 0 <= i < peers.drop_last().len() && peers.drop_last()[i] == p;
                assert(peers[i] == p);
            }
            if p == peers.last() {
                assert(peers[peers.len() - 1] == p);
            }
        }
    }
    assert(now.waiters(coord) =~= w.waiters(coord).union(peers.to_set()));
}

/// Generation never goes back: whatever message of a client the server
/// handles and whatever chunk it installs, no chunk is further from being
/// ready afterwards than it was before.
pub proof fn lemma_generation_never_goes_back(
    w: WorldView,
    at: IVec3,
    peer: u64,
    message: ClientMessage,
    coord: IVec3,
    cells: Seq<Block>,
)
    requires
        w.wf(),
    ensures
        progress(generation_state(w, at)) <= progress(generation_state(world_after(w, peer, message), at)),
        progress(generation_state(w, at)) <= progress(generation_state(w.set_chunk(coord, cells), at)),
        generation_state(w.set_chunk(coord, cells), coord) == GenerationState::Ready,
{
}

/// Requests for a chunk touch nothing but the registry of those who wait.
proof fn lemma_requests_keep(w: WorldView, coord: IVec3, peers: Seq<u64>)
    requires
        w.wf(),
        !w.chunks.contains_key(coord),
    ensures
        after_requests(w, coord, peers).chunks == w.chunks,
        after_requests(w, coord, peers).entities == w.entities,
        after_requests(w, coord, peers).dirty == w.dirty,
        after_requests(w, coord, peers).wf(),
        peers.len() == 0 ==> after_requests(w, coord, peers) == w,
    decreases peers.len(),
{
    if peers.len() > 0 {
        lemma_requests_keep(w, coord, peers.drop_last());
    }
}

} // verus!
