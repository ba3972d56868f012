//! The chunks a world starts with, and the order in which a client asks for
//! them.

use vstd::prelude::*;
use crate::math::IVec3;
use crate::voxel::world::World;
use crate::voxel::world::WorldView;
use crate::voxel::world::WORLD_SIZE;

verus! {

/// The chunks of the start area along one axis.
pub const START_SIDE: i32 = 9;

/// The chunks of the start area.
pub const START_CHUNKS: usize = 81;

/// Whether a chunk belongs to the start area: the square of chunks around
/// the origin that reaches `WORLD_SIZE - 1` chunks out along X and Z.
pub open spec fn in_start_area(c: IVec3) -> bool {
    &&& -WORLD_SIZE < c.x < WORLD_SIZE
    &&& c.y == 0
    &&& -WORLD_SIZE < c.z < WORLD_SIZE
}

/// The place of a chunk of the start area when the area is gone through
/// along X, and along Z within that.
pub open spec fn start_index(c: IVec3) -> int {
    (c.x + WORLD_SIZE - 1) * START_SIDE + (c.z + WORLD_SIZE - 1)
}

/// The chunk of the start area at a place, see [`start_index`].
pub open spec fn start_coord(n: int) -> IVec3 {
    IVec3 { x: (n / (START_SIDE as int) - (WORLD_SIZE - 1)) as i32, y: 0, z: (n % (START_SIDE as int) - (WORLD_SIZE - 1)) as i32 }
}

/// The square of the distance of a chunk from the origin.
pub open spec fn distance_squared(c: IVec3) -> int {
    c.x * c.x + c.y * c.y + c.z * c.z
}

/// Whether `requests` is the order in which a client asks for the chunks
/// of the start area: every chunk of the area once, nearer to the origin
/// first, and among chunks equally near in the order of [`start_index`].
pub open spec fn is_request_order(requests: Seq<IVec3>) -> bool {
    &&& requests.len() == START_CHUNKS
    &&& forall|i: int| 0 <= i < requests.len() ==> in_start_area(#[trigger] requests[i])
    &&& forall|c: IVec3| #[trigger]
        in_start_area(c) ==> exists|i: int| 0 <= i < requests.len() && #[trigger] requests[i] == c
    &&& forall|i: int, j: int|
        0 <= i < j < requests.len() ==> {
            let a = #[trigger] requests[i];
            let b = #[trigger] requests[j];
            distance_squared(a) < distance_squared(b) || (distance_squared(a) == distance_squared(b)
                && start_index(a) < start_index(b))
        }
}

/// The square of the distance of a chunk from the origin.
pub fn distance_squared_of(c: &IVec3) -> (d: i128)
    ensures
        d == distance_squared(*c),
{
    let x: i128 = c.x as i128;
    let y: i128 = c.y as i128;
    let z: i128 = c.z as i128;
    assert(0 <= x * x <= 0x4000_0000_0000_0000) by (nonlinear_arith)
        requires
            -0x8000_0000 <= x < 0x8000_0000,
    ;
    assert(0 <= y * y <= 0x4000_0000_0000_0000) by (nonlinear_arith)
        requires
            -0x8000_0000 <= y < 0x8000_0000,
    ;
    assert(0 <= z * z <= 0x4000_0000_0000_0000) by (nonlinear_arith)
        requires
            -0x8000_0000 <= z < 0x8000_0000,
    ;
    x * x + y * y + z * z
}

/// The chunks of the start area, in the order of [`start_index`].
pub fn start_coords() -> (v: Vec<IVec3>)
    ensures
        v@.len() == START_CHUNKS,
        forall|n: int| 0 <= n < START_CHUNKS ==> #[trigger] v@[n] == start_coord(n),
        forall|n: int| 0 <= n < START_CHUNKS ==> in_start_area(#[trigger] v@[n]) && start_index(v@[n]) == n,
{
    let mut v: Vec<IVec3> = Vec::new();
    let mut x: i32 = -(WORLD_SIZE - 1);
    while x < WORLD_SIZE
        invariant
            -(WORLD_SIZE - 1) <= x <= WORLD_SIZE,
            v@.len() == (x + WORLD_SIZE - 1) * START_SIDE,
            forall|n: int| 0 <= n < v@.len() ==> #[trigger] v@[n] == start_coord(n),
        decreases WORLD_SIZE - x,
    {
        let mut z: i32 = -(WORLD_SIZE - 1);
        while z < WORLD_SIZE
            invariant
                -(WORLD_SIZE - 1) <= x < WORLD_SIZE,
                -(WORLD_SIZE - 1) <= z <= WORLD_SIZE,
                v@.len() == (x + WORLD_SIZE - 1) * START_SIDE + (z + WORLD_SIZE - 1),
                forall|n: int| 0 <= n < v@.len() ==> #[trigger] v@[n] == start_coord(n),
            decreases WORLD_SIZE - z,
        {
            v.push(IVec3::new(x, 0, z));
            z = z + 1;
        }
        x = x + 1;
    }
    v
}

/// Prepares a client's store for loading: notes every chunk of the start
/// area as asked for, and hands out the order in which to ask the server
/// for them, see [`is_request_order`].
pub fn setup_world(world: &mut World) -> (requests: Vec<IVec3>)
    requires
        old(world).wf(),
    ensures
        final(world).wf(),
        final(world)@ == (WorldView {
            pending_requested: old(world)@.pending_requested.union(Set::new(|c: IVec3| in_start_area(c))),
            ..old(world)@
        }),
        is_request_order(requests@),
{
    let mut request = start_coords();
    let mut k: usize = 0;
    while k < request.len()
        invariant
            world.wf(),
            k <= request@.len(),
            request@.len() == START_CHUNKS,
            forall|n: int| 0 <= n < START_CHUNKS ==> #[trigger] request@[n] == start_coord(n),
            world@ == (WorldView { pending_requested: world@.pending_requested, ..old(world)@ }),
            world@.pending_requested =~= old(world)@.pending_requested.union(
                Set::new(|c: IVec3| in_start_area(c) && start_index(c) < k),
            ),
        decreases request@.len() - k,
    {
        let ghost before = world@.pending_requested;
        world.add_pending_request(request[k]);
        proof {
            assert(world@.pending_requested =~= old(world)@.pending_requested.union(
                Set::new(|c: IVec3| in_start_area(c) && start_index(c) < k + 1),
            )) by {
                assert forall|c: IVec3| in_start_area(c) && start_index(c) == k implies c == request@[k as int] by {
                    assert(request@[k as int] == start_coord(k as int));
                }
            }
        }
        k = k + 1;
    }
    proof {
        assert(world@.pending_requested =~= old(world)@.pending_requested.union(
            Set::new(|c: IVec3| in_start_area(c)),
        ));
    }
    sort_by_distance(&mut request);
    request
}

/// Which chunk stands before which when a client asks for chunks: the one
/// nearer to the origin, and among two equally near the one that comes
/// first in the start area.
spec fn before(a: int, b: int) -> bool {
    let da = distance_squared(start_coord(a));
    let db = distance_squared(start_coord(b));
    da < db || (da == db && a < b)
}

/// Sorts the chunks of the start area by their distance from the origin,
/// keeping the order of chunks that are equally far.
fn sort_by_distance(v: &mut Vec<IVec3>)
    requires
        old(v)@.len() == START_CHUNKS,
        forall|n: int| 0 <= n < START_CHUNKS ==> #[trigger] old(v)@[n] == start_coord(n),
    ensures
        is_request_order(final(v)@),
{
    let ghost mut from: Seq<int> = Seq::new(START_CHUNKS as nat, |n: int| n);
    let ghost mut to: Seq<int> = Seq::new(START_CHUNKS as nat, |n: int| n);
    let mut i: usize = 1;
    while i < v.len()
        invariant
            1 <= i <= START_CHUNKS,
            v@.len() == START_CHUNKS,
            from.len() == START_CHUNKS,
            to.len() == START_CHUNKS,
            forall|k: int| 0 <= k < START_CHUNKS ==> 0 <= #[trigger] from[k] < START_CHUNKS && to[from[k]] == k,
            forall|n: int| 0 <= n < START_CHUNKS ==> 0 <= #[trigger] to[n] < START_CHUNKS && from[to[n]] == n,
            forall|k: int| 0 <= k < START_CHUNKS ==> #[trigger] v@[k] == start_coord(from[k]),
            forall|k: int| 0 <= k < i ==> #[trigger] from[k] < i,
            forall|k: int| i <= k < START_CHUNKS ==> #[trigger] from[k] == k,
            forall|a: int, b: int| 0 <= a < b < i ==> before(#[trigger] from[a], #[trigger] from[b]),
        decreases START_CHUNKS - i,
    {
        let mut j: usize = i;
        while j > 0 && distance_squared_of(&v[j - 1]) > distance_squared_of(&v[j])
            invariant
                1 <= i < START_CHUNKS,
                0 <= j <= i,
                v@.len() == START_CHUNKS,
                from.len() == START_CHUNKS,
                to.len() == START_CHUNKS,
                forall|k: int|
                    0 <= k < START_CHUNKS ==> 0 <= #[trigger] from[k] < START_CHUNKS && to[from[k]] == k,
                forall|n: int| 0 <= n < START_CHUNKS ==> 0 <= #[trigger] to[n] < START_CHUNKS && from[to[n]] == n,
                forall|k: int| 0 <= k < START_CHUNKS ==> #[trigger] v@[k] == start_coord(from[k]),
                from[j as int] == i,
                forall|k: int| 0 <= k <= i && k != j ==> #[trigger] from[k] < i,
                forall|k: int| i < k < START_CHUNKS ==> #[trigger] from[k] == k,
                forall|a: int, b: int|
                    0 <= a < b <= i && a != j && b != j ==> before(#[trigger] from[a], #[trigger] from[b]),
                forall|b: int| j < b <= i ==> before(i as int, #[trigger] from[b]),
            decreases j,
        {
            let left = v[j - 1];
            let right = v[j];
            v.set(j - 1, right);
            v.set(j, left);
            proof {
                let moved = from[j - 1];
                from = from.update(j - 1, i as int).update(j as int, moved);
                to = to.update(i as int, j - 1).update(moved, j as int);
            }
            j = j - 1;
        }
        proof {
            assert forall|a: int, b: int| 0 <= a < b < i + 1 implies before(#[trigger] from[a], #[trigger] from[b]) by {
                if b == j {
                    assert(a == j - 1 || before(from[a], from[j - 1]));
                    assert(from[j - 1] < i);
                }
            }
        }
        i = i + 1;
    }
    proof {
        assert forall|k: int| 0 <= k < START_CHUNKS implies in_start_area(#[trigger] v@[k]) && start_index(v@[k])
            == from[k] by {
            assert(v@[k] == start_coord(from[k]));
        }
        assert forall|c: IVec3| #[trigger] in_start_area(c) implies exists|k: int|
            0 <= k < v@.len() && #[trigger] v@[k] == c by {
            let n = start_index(c);
            assert(start_coord(n) == c);
            assert(from[to[n]] == n);
            assert(v@[to[n]] == c);
        }
        assert forall|a: int, b: int| 0 <= a < b < v@.len() implies ({
            let p = #[trigger] v@[a];
            let q = #[trigger] v@[b];
            distance_squared(p) < distance_squared(q) || (distance_squared(p) == distance_squared(q)
                && start_index(p) < start_index(q))
        }) by {
            assert(before(from[a], from[b]));
            assert(v@[a] == start_coord(from[a]) && start_index(v@[a]) == from[a]);
            assert(v@[b] == start_coord(from[b]) && start_index(v@[b]) == from[b]);
        }
    }
}

} // verus!
