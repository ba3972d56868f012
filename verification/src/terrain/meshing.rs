//! The hand-over from the voxel store to whoever builds the geometry of
//! chunks: which chunks are to be rebuilt, and when loading is over.

use vstd::prelude::*;
use crate::math::IVec3;
use crate::voxel::world::EntityId;
use crate::voxel::world::World;
use crate::voxel::world::WorldView;
use crate::ClientState;
use crate::ServerState;

verus! {

/// The order to rebuild the geometry of one chunk.
#[derive(Clone, Copy, Debug, PartialEq, Eq, Structural)]
pub struct MeshTask {
    /// The chunk to rebuild.
    pub coord: IVec3,
    /// The placeholder that shows the chunk.
    pub entity: EntityId,
}

/// Whether `task` is the order to rebuild a chunk of `w` that is dirty and
/// has a placeholder.
pub open spec fn is_due(w: WorldView, task: MeshTask) -> bool {
    &&& w.dirty.contains(task.coord)
    &&& w.entities.contains_key(task.coord)
    &&& w.entities[task.coord] == task.entity
}

/// The orders to rebuild geometry that are due: one for each dirty chunk
/// that has a placeholder, in no particular order. The chunk of every order
/// is in the store. The marks stay; [`clear_dirty_chunks`] takes them off.
pub fn queue_mesh_tasks(world: &World) -> (tasks: Vec<MeshTask>)
    requires
        world.wf(),
    ensures
        forall|i: int| 0 <= i < tasks@.len() ==> is_due(world@, #[trigger] tasks@[i]),
        forall|i: int| 0 <= i < tasks@.len() ==> world@.chunks.contains_key((#[trigger] tasks@[i]).coord),
        forall|i: int, j: int| 0 <= i < j < tasks@.len() ==> (#[trigger] tasks@[i]).coord != (#[trigger] tasks@[j]).coord,
        forall|c: IVec3|
            world@.dirty.contains(c) && world@.entities.contains_key(c) ==> exists|i: int|
                0 <= i < tasks@.len() && (#[trigger] tasks@[i]).coord == c,
{
    let dirty = world.dirty_chunks();
    let mut tasks: Vec<MeshTask> = Vec::new();
    let ghost mut taken: Seq<int> = Seq::empty();
    let mut i: usize = 0;
    proof {
        world.lemma_wf();
    }
    while i < dirty.len()
        invariant
            world@.wf(),
            i <= dirty@.len(),
            dirty@.no_duplicates(),
            dirty@.to_set() == world@.dirty,
            tasks@.len() == taken.len(),
            forall|k: int|
                0 <= k < taken.len() ==> 0 <= #[trigger] taken[k] < i && tasks@[k].coord == dirty@[taken[k]] && is_due(
                    world@,
                    tasks@[k],
                ),
            forall|k: int, l: int| 0 <= k < l < taken.len() ==> #[trigger] taken[k] < #[trigger] taken[l],
            forall|d: int|
                0 <= d < i && world@.entities.contains_key(#[trigger] dirty@[d]) ==> exists|k: int|
                    0 <= k < taken.len() && #[trigger] taken[k] == d,
        decreases dirty@.len() - i,
    {
        let coord = dirty[i];
        assert(dirty@.to_set().contains(dirty@[i as int]));
        match world.get_chunk_entity(&coord) {
            Some(entity) => {
                tasks.push(MeshTask { coord, entity });
                proof {
                    let ghost before = taken;
                    taken = taken.push(i as int);
                    assert forall|d: int|
                        0 <= d < i + 1 && world@.entities.contains_key(#[trigger] dirty@[d]) implies exists|k: int|
                        0 <= k < taken.len() && #[trigger] taken[k] == d by {
                        if d < i {
                            let k = choose|k: int| 0 <= k < before.len() && #[trigger] before[k] == d;
                            assert(taken[k] == d);
                        } else {
                            assert(taken[before.len() as int] == d);
                        }
                    }
                }
            },
            None => {},
        }
        i = i + 1;
    }
    proof {
        assert forall|c: IVec3| world@.dirty.contains(c) && world@.entities.contains_key(c) implies exists|k: int|
            0 <= k < tasks@.len() && (#[trigger] tasks@[k]).coord == c by {
            assert(dirty@.to_set().contains(c));
            let d = choose|d: int| 0 <= d < dirty@.len() && dirty@[d] == c;
            let k = choose|k: int| 0 <= k < taken.len() && #[trigger] taken[k] == d;
            assert(tasks@[k].coord == c);
        }
        assert forall|k: int, l: int| 0 <= k < l < tasks@.len() implies (#[trigger] tasks@[k]).coord != (
        #[trigger] tasks@[l]).coord by {
            assert(taken[k] < taken[l]);
        }
        assert forall|k: int| 0 <= k < tasks@.len() implies is_due(world@, #[trigger] tasks@[k])
            && world@.chunks.contains_key(tasks@[k].coord) by {
            assert(0 <= taken[k] < i);
        }
    }
    tasks
}

/// Takes every mark off once the orders of the tick have been given out.
pub fn clear_dirty_chunks(world: &mut World)
    requires
        old(world).wf(),
    ensures
        final(world).wf(),
        final(world)@ == (WorldView { dirty: Set::empty(), ..old(world)@ }),
{
    world.clear_dirty_chunks();
}

/// A client has loaded its world once every chunk it asked for has come:
/// then it goes on to play.
pub fn check_loading_world_ended(world: &World) -> (next: Option<ClientState>)
    requires
        world.wf(),
    ensures
        next == (if world@.pending_requested == Set::<IVec3>::empty() {
            Some(ClientState::Playing)
        } else {
            None
        }),
{
    if world.all_requests_answered() {
        Some(ClientState::Playing)
    } else {
        None
    }
}

/// A server has loaded its world once no generation is under way: then it
/// goes on to run.
pub fn check_server_loading_world_ended(generations_running: usize) -> (next: Option<ServerState>)
    ensures
        next == (if generations_running == 0 {
            Some(ServerState::Running)
        } else {
            None
        }),
{
    if generations_running == 0 {
        Some(ServerState::Running)
    } else {
        None
    }
}

} // verus!
