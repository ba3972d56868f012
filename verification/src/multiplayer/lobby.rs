//! The table of connected peers: which representation in the world stands
//! for which peer, and where it was placed.

use vstd::prelude::*;
use std::collections::HashMap;
use crate::math::Position;
use crate::voxel::world::EntityId;

verus! {

#[verifier::external_type_specification]
#[verifier::external_body]
#[verifier::reject_recursive_types(L)]
#[verifier::reject_recursive_types(R)]
#[verifier::reject_recursive_types(LS)]
#[verifier::reject_recursive_types(RS)]
pub struct ExBiHashMap<L, R, LS, RS>(bimap::BiHashMap<L, R, LS, RS>);

/// The pairs that a `bimap::BiMap` holds, as the map from each left value
/// to its right value.
pub uninterp spec fn bimap_pairs(m: bimap::BiMap<u64, u64>) -> Map<u64, u64>;

/// The pairs of a two-way map after the pair of `left` and `right` is put
/// in: the pair that held `left` before and the pair that held `right`
/// before are gone.
pub open spec fn with_pair(pairs: Map<u64, u64>, left: u64, right: u64) -> Map<u64, u64> {
    Map::new(
        |k: u64| k == left || (pairs.contains_key(k) && pairs[k] != right),
        |k: u64|
            if k == left {
                right
            } else {
                pairs[k]
            },
    )
}

/// Calls `BiMap::new`, which gives a map without pairs.
#[verifier::external_body]
fn bimap_new() -> (m: bimap::BiMap<u64, u64>)
    ensures
        bimap_pairs(m) == (Map::<u64, u64>::empty()),
{
    bimap::BiMap::new()
}

/// Calls `BiMap::insert`, which first removes the pair with the same left
/// value and the pair with the same right value, and then adds the pair.
#[verifier::external_body]
fn bimap_insert(m: &mut bimap::BiMap<u64, u64>, left: u64, right: u64)
    ensures
        bimap_pairs(*final(m)) == with_pair(bimap_pairs(*old(m)), left, right),
{
    m.insert(left, right);
}

/// Calls `BiMap::remove_by_left`, which removes the pair with the given
/// left value and returns it, if there is one.
#[verifier::external_body]
fn bimap_remove_by_left(m: &mut bimap::BiMap<u64, u64>, left: u64) -> (r: Option<(u64, u64)>)
    ensures
        bimap_pairs(*final(m)) == bimap_pairs(*old(m)).remove(left),
        r == (if bimap_pairs(*old(m)).contains_key(left) {
            Some((left, bimap_pairs(*old(m))[left]))
        } else {
            None
        }),
{
    m.remove_by_left(&left)
}

/// Calls `BiMap::get_by_left`, which looks up the right value that goes
/// with a left value.
#[verifier::external_body]
fn bimap_get_by_left(m: &bimap::BiMap<u64, u64>, left: u64) -> (r: Option<u64>)
    ensures
        r == (if bimap_pairs(*m).contains_key(left) {
            Some(bimap_pairs(*m)[left])
        } else {
            None
        }),
{
    m.get_by_left(&left).copied()
}

/// Calls `BiMap::iter`, which goes through the pairs once each, in an
/// order that is not specified.
#[verifier::external_body]
fn bimap_to_vec(m: &bimap::BiMap<u64, u64>) -> (v: Vec<(u64, u64)>)
    ensures
        forall|i: int, j: int| 0 <= i < j < v@.len() ==> (#[trigger] v@[i]).0 != (#[trigger] v@[j]).0,
        forall|i: int|
            0 <= i < v@.len() ==> bimap_pairs(*m).contains_key((#[trigger] v@[i]).0) && bimap_pairs(*m)[v@[i].0]
                == v@[i].1,
        forall|k: u64| #[trigger]
            bimap_pairs(*m).contains_key(k) ==> exists|i: int| 0 <= i < v@.len() && (#[trigger] v@[i]).0 == k,
{
    m.iter().map(|(left, right)| (*left, *right)).collect()
}

/// The representation of a connected peer in the world.
#[derive(Clone, Copy, Debug, PartialEq, Eq, Structural)]
pub struct NetworkPlayer {
    /// The peer.
    pub id: u64,
    /// Where the representation was placed.
    pub position: Position,
}

/// A connected peer as the lobby knows it.
pub struct PeerView {
    /// The handle of the peer's representation.
    pub entity: EntityId,
    /// Where the representation was placed.
    pub position: Position,
}

/// The table of connected peers.
pub struct Lobby {
    players: bimap::BiMap<u64, EntityId>,
    representations: HashMap<EntityId, NetworkPlayer>,
}

impl View for Lobby {
    type V = Map<u64, PeerView>;

    closed spec fn view(&self) -> Map<u64, PeerView> {
        Map::new(
            |id: u64| bimap_pairs(self.players).contains_key(id),
            |id: u64|
                PeerView {
                    entity: bimap_pairs(self.players)[id],
                    position: self.representations@[bimap_pairs(self.players)[id]].position,
                },
        )
    }
}

/// No two peers share a representation.
pub open spec fn one_to_one(peers: Map<u64, PeerView>) -> bool {
    forall|a: u64, b: u64|
        peers.contains_key(a) && peers.contains_key(b) && (#[trigger] peers[a]).entity == (
        #[trigger] peers[b]).entity ==> a == b
}

/// The table after `peer` has come with the representation `entity` at
/// `position`: whoever had that peer identity or that representation
/// before is gone.
pub open spec fn with_peer(peers: Map<u64, PeerView>, peer: u64, entity: EntityId, position: Position) -> Map<
    u64,
    PeerView,
> {
    Map::new(
        |id: u64| id == peer || (peers.contains_key(id) && peers[id].entity != entity),
        |id: u64|
            if id == peer {
                PeerView { entity, position }
            } else {
                peers[id]
            },
    )
}

impl Default for Lobby {
    fn default() -> (lobby: Lobby)
        ensures
            lobby.wf(),
            lobby@ == Map::<u64, PeerView>::empty(),
    {
        Lobby::new()
    }
}

impl Lobby {
    /// Every peer has its record, and no two peers share a representation.
    pub closed spec fn wf(&self) -> bool {
        &&& forall|id: u64| #[trigger]
            bimap_pairs(self.players).contains_key(id) ==> {
                &&& self.representations@.contains_key(bimap_pairs(self.players)[id])
                &&& self.representations@[bimap_pairs(self.players)[id]].id == id
            }
        &&& one_to_one(self@)
    }

    /// The table of a sound lobby is one-to-one.
    pub proof fn lemma_one_to_one(&self)
        requires
            self.wf(),
        ensures
            one_to_one(self@),
    {
    }

    pub fn new() -> (lobby: Lobby)
        ensures
            lobby.wf(),
            lobby@ == Map::<u64, PeerView>::empty(),
    {
        let lobby = Lobby { players: bimap_new(), representations: HashMap::new() };
        assert(lobby@ =~= Map::<u64, PeerView>::empty());
        lobby
    }

    /// The representation of a peer, if it is connected.
    pub fn get(&self, peer: u64) -> (r: Option<EntityId>)
        ensures
            r == (if self@.contains_key(peer) {
                Some(self@[peer].entity)
            } else {
                None
            }),
    {
        bimap_get_by_left(&self.players, peer)
    }

    /// Puts `peer` in with the representation `entity` at `position`, see
    /// [`with_peer`].
    pub fn insert(&mut self, peer: u64, entity: EntityId, position: Position)
        requires
            old(self).wf(),
        ensures
            final(self).wf(),
            final(self)@ == with_peer(old(self)@, peer, entity, position),
    {
        let ghost before = bimap_pairs(self.players);
        match bimap_remove_by_left(&mut self.players, peer) {
            Some((_, stale)) => {
                self.representations.remove(&stale);
            },
            None => {},
        }
        let ghost records = self.representations@;
        bimap_insert(&mut self.players, peer, entity);
        self.representations.insert(entity, NetworkPlayer { id: peer, position });
        proof {
            let now = bimap_pairs(self.players);
            assert(now =~= with_pair(before, peer, entity));
            assert forall|id: u64| #[trigger] now.contains_key(id) implies self.representations@.contains_key(
                now[id],
            ) && self.representations@[now[id]].id == id by {
                if id != peer {
                    assert(before.contains_key(id));
                    assert(old(self)@.contains_key(id) && old(self)@.contains_key(peer) ==> old(self)@[id].entity
                        != old(self)@[peer].entity);
                }
            }
            assert(self@ =~= with_peer(old(self)@, peer, entity, position)) by {
                assert forall|id: u64| self@.contains_key(id) implies self@[id] == with_peer(
                    old(self)@,
                    peer,
                    entity,
                    position,
                )[id] by {
                    if id != peer {
                        assert(before.contains_key(id));
                        assert(old(self)@.contains_key(id) && old(self)@.contains_key(peer) ==> old(
                            self,
                        )@[id].entity != old(self)@[peer].entity);
                    }
                }
            }
            assert forall|a: u64, b: u64|
                self@.contains_key(a) && self@.contains_key(b) && (#[trigger] self@[a]).entity == (
                #[trigger] self@[b]).entity implies a == b by {
                if a != peer && b != peer {
                    assert(old(self)@[a].entity == old(self)@[b].entity);
                }
            }
        }
    }

    /// Takes `peer` out and hands back its representation, if it was in.
    pub fn remove(&mut self, peer: u64) -> (r: Option<EntityId>)
        requires
            old(self).wf(),
        ensures
            final(self).wf(),
            final(self)@ == old(self)@.remove(peer),
            r == (if old(self)@.contains_key(peer) {
                Some(old(self)@[peer].entity)
            } else {
                None
            }),
    {
        let ghost before = bimap_pairs(self.players);
        match bimap_remove_by_left(&mut self.players, peer) {
            Some((_, entity)) => {
                self.representations.remove(&entity);
                proof {
                    let now = bimap_pairs(self.players);
                    assert forall|id: u64| #[trigger] now.contains_key(id) implies self.representations@.contains_key(
                        now[id],
                    ) && self.representations@[now[id]].id == id && now[id] != entity by {
                        assert(before.contains_key(id));
                        assert(old(self)@[id].entity != old(self)@[peer].entity);
                    }
                    assert(self@ =~= old(self)@.remove(peer));
                    assert forall|a: u64, b: u64|
                        self@.contains_key(a) && self@.contains_key(b) && (#[trigger] self@[a]).entity == (
                        #[trigger] self@[b]).entity implies a == b by {
                        assert(old(self)@[a].entity == old(self)@[b].entity);
                    }
                }
                Some(entity)
            },
            None => {
                proof {
                    assert(bimap_pairs(self.players) =~= before);
                    assert(self@ =~= old(self)@.remove(peer));
                }
                None
            },
        }
    }

    /// The connected peers with their records, each once, in no particular
    /// order.
    pub fn roster(&self) -> (v: Vec<NetworkPlayer>)
        requires
            self.wf(),
        ensures
            forall|i: int, j: int| 0 <= i < j < v@.len() ==> (#[trigger] v@[i]).id != (#[trigger] v@[j]).id,
            forall|i: int|
                0 <= i < v@.len() ==> self@.contains_key((#[trigger] v@[i]).id) && self@[v@[i].id].position
                    == v@[i].position,
            forall|id: u64| #[trigger]
                self@.contains_key(id) ==> exists|i: int| 0 <= i < v@.len() && (#[trigger] v@[i]).id == id,
    {
        let pairs = bimap_to_vec(&self.players);
        let mut v: Vec<NetworkPlayer> = Vec::new();
        let mut i: usize = 0;
        while i < pairs.len()
            invariant
                self.wf(),
                i <= pairs@.len(),
                v@.len() == i,
                forall|k: int|
                    0 <= k < pairs@.len() ==> bimap_pairs(self.players).contains_key((#[trigger] pairs@[k]).0)
                        && bimap_pairs(self.players)[pairs@[k].0] == pairs@[k].1,
                forall|k: int|
                    0 <= k < i ==> (#[trigger] v@[k]).id == pairs@[k].0 && v@[k].position == self@[pairs@[k].0].position,
            decreases pairs@.len() - i,
        {
            let (id, entity) = pairs[i];
            assert(bimap_pairs(self.players).contains_key(pairs@[i as int].0));
            match self.representations.get(&entity) {
                Some(record) => {
                    v.push(NetworkPlayer { id, position: record.position });
                },
                None => {
                    assert(false);
                },
            }
            i = i + 1;
        }
        proof {
            assert forall|id: u64| #[trigger] self@.contains_key(id) implies exists|k: int|
                0 <= k < v@.len() && (#[trigger] v@[k]).id == id by {
                assert(bimap_pairs(self.players).contains_key(id));
                let k = choose|k: int| 0 <= k < pairs@.len() && (#[trigger] pairs@[k]).0 == id;
                assert(v@[k].id == id);
            }
        }
        v
    }
}

} // verus!
