//! Hash collections keyed by lattice points.
//!
//! A point is stored under a single integer that packs its three components,
//! so that the collections can rest on the standard hash tables. Callers see
//! only points: the views are maps and sets of [`IVec3`].

use vstd::prelude::*;
use vstd::std_specs::iter::IteratorSpec;
use std::collections::HashMap;
use std::collections::HashSet;
use crate::math::IVec3;

verus! {

/// Shifts a component into the non-negative range.
const BIAS: i64 = 0x8000_0000;

/// One more than the largest shifted component.
const RADIX: u128 = 0x1_0000_0000;


/// The integer under which a point is stored: its three shifted components,
/// read as the digits of a number in base 2^32.
spec fn key_of(c: IVec3) -> u128 {
    (((c.x + 0x8000_0000int) * 0x1_0000_0000int + (c.y + 0x8000_0000int)) * 0x1_0000_0000int + (c.z + 0x8000_0000int)) as u128
}

/// Whether an integer is the key of some point.
spec fn is_key(k: u128) -> bool {
    k < 0x1_0000_0000_0000_0000_0000_0000int
}

/// The point stored under a key.
spec fn point_of(k: u128) -> IVec3 {
    IVec3 {
        x: ((k as int / 0x1_0000_0000_0000_0000int) - 0x8000_0000int) as i32,
        y: (((k as int / 0x1_0000_0000int) % 0x1_0000_0000int) - 0x8000_0000int) as i32,
        z: ((k as int % 0x1_0000_0000int) - 0x8000_0000int) as i32,
    }
}

/// Distinct points have distinct keys, and every key names its point.
proof fn lemma_keys(a: IVec3, b: IVec3)
    ensures
        is_key(key_of(a)),
        point_of(key_of(a)) == a,
        key_of(a) == key_of(b) ==> a == b,
{
    let ka = ((a.x + 0x8000_0000int) * 0x1_0000_0000int + (a.y + 0x8000_0000int)) * 0x1_0000_0000int + (a.z + 0x8000_0000int);
    let kb = ((b.x + 0x8000_0000int) * 0x1_0000_0000int + (b.y + 0x8000_0000int)) * 0x1_0000_0000int + (b.z + 0x8000_0000int);
    assert(0 <= ka < 0x1_0000_0000_0000_0000_0000_0000int);
    assert(0 <= kb < 0x1_0000_0000_0000_0000_0000_0000int);
    assert(key_of(a) == ka);
    assert(key_of(b) == kb);
    assert(ka % 0x1_0000_0000int == a.z + 0x8000_0000int);
    assert(ka / 0x1_0000_0000int == (a.x + 0x8000_0000int) * 0x1_0000_0000int + (a.y + 0x8000_0000int));
    assert((ka / 0x1_0000_0000int) % 0x1_0000_0000int == a.y + 0x8000_0000int);
    assert(ka / 0x1_0000_0000_0000_0000int == a.x + 0x8000_0000int);
}

/// Every key is the key of the point it names.
proof fn lemma_point_of(k: u128)
    requires
        is_key(k),
    ensures
        key_of(point_of(k)) == k,
{
    let n = k as int;
    let x = n / 0x1_0000_0000_0000_0000int;
    let y = (n / 0x1_0000_0000int) % 0x1_0000_0000int;
    let z = n % 0x1_0000_0000int;
    assert(0 <= x < 0x1_0000_0000int);
    assert(n == (n / 0x1_0000_0000int) * 0x1_0000_0000int + z);
    assert(n / 0x1_0000_0000int == ((n / 0x1_0000_0000int) / 0x1_0000_0000int) * 0x1_0000_0000int + y);
    assert((n / 0x1_0000_0000int) / 0x1_0000_0000int == x);
}

fn to_key(c: &IVec3) -> (k: u128)
    ensures
        k == key_of(*c),
{
    let x: u128 = (c.x as i64 + BIAS) as u128;
    let y: u128 = (c.y as i64 + BIAS) as u128;
    let z: u128 = (c.z as i64 + BIAS) as u128;
    (x * RADIX + y) * RADIX + z
}

fn from_key(k: u128) -> (c: IVec3)
    requires
        is_key(k),
    ensures
        c == point_of(k),
{
    let x: u128 = k / (RADIX * RADIX);
    let y: u128 = (k / RADIX) % RADIX;
    let z: u128 = k % RADIX;
    IVec3 {
        x: (x as i64 - BIAS) as i32,
        y: (y as i64 - BIAS) as i32,
        z: (z as i64 - BIAS) as i32,
    }
}

/// A map from lattice points to values.
pub struct CoordMap<V> {
    entries: HashMap<u128, V>,
}

impl<V> View for CoordMap<V> {
    type V = Map<IVec3, V>;

    closed spec fn view(&self) -> Map<IVec3, V> {
        Map::new(
            |c: IVec3| self.entries@.contains_key(key_of(c)),
            |c: IVec3| self.entries@[key_of(c)],
        )
    }
}

impl<V> CoordMap<V> {
    pub fn new() -> (m: Self)
        ensures
            m@ == Map::<IVec3, V>::empty(),
    {
        let m = CoordMap { entries: HashMap::new() };
        assert(m@ =~= Map::<IVec3, V>::empty());
        m
    }

    /// An empty map with room for `capacity` entries.
    pub fn with_capacity(capacity: usize) -> (m: Self)
        ensures
            m@ == Map::<IVec3, V>::empty(),
    {
        let m = CoordMap { entries: HashMap::with_capacity(capacity) };
        assert(m@ =~= Map::<IVec3, V>::empty());
        m
    }

    pub fn contains_key(&self, c: &IVec3) -> (r: bool)
        ensures
            r == self@.contains_key(*c),
    {
        let k = to_key(c);
        self.entries.contains_key(&k)
    }

    pub fn get(&self, c: &IVec3) -> (r: Option<&V>)
        ensures
            match r {
                Some(v) => self@.contains_key(*c) && *v == self@[*c],
                None => !self@.contains_key(*c),
            },
    {
        let k = to_key(c);
        self.entries.get(&k)
    }

    /// Stores `v` under `c` and hands back what was stored there before.
    pub fn insert(&mut self, c: IVec3, v: V) -> (r: Option<V>)
        ensures
            final(self)@ == old(self)@.insert(c, v),
            match r {
                Some(prev) => old(self)@.contains_key(c) && prev == old(self)@[c],
                None => !old(self)@.contains_key(c),
            },
    {
        let k = to_key(&c);
        let r = self.entries.insert(k, v);
        proof {
            assert forall|d: IVec3| key_of(d) == key_of(c) implies d == c by {
                lemma_keys(d, c);
            }
            assert(self@ =~= old(self)@.insert(c, v));
        }
        r
    }

    /// Removes the entry under `c`, if there is one, and hands it back.
    pub fn remove(&mut self, c: &IVec3) -> (r: Option<V>)
        ensures
            final(self)@ == old(self)@.remove(*c),
            match r {
                Some(prev) => old(self)@.contains_key(*c) && prev == old(self)@[*c],
                None => !old(self)@.contains_key(*c),
            },
    {
        let k = to_key(c);
        let r = self.entries.remove(&k);
        proof {
            assert forall|d: IVec3| key_of(d) == key_of(*c) implies d == *c by {
                lemma_keys(d, *c);
            }
            assert(self@ =~= old(self)@.remove(*c));
        }
        r
    }
}

/// A set of lattice points.
pub struct CoordSet {
    keys: HashSet<u128>,
}

impl View for CoordSet {
    type V = Set<IVec3>;

    closed spec fn view(&self) -> Set<IVec3> {
        Set::new(|c: IVec3| self.keys@.contains(key_of(c)))
    }
}

impl CoordSet {
    /// Every stored integer is the key of a point.
    pub closed spec fn wf(&self) -> bool {
        forall|k: u128| self.keys@.contains(k) ==> is_key(k)
    }

    pub fn new() -> (s: Self)
        ensures
            s.wf(),
            s@ == Set::<IVec3>::empty(),
    {
        let s = CoordSet { keys: HashSet::new() };
        assert(s@ =~= Set::<IVec3>::empty());
        s
    }

    /// An empty set with room for `capacity` points.
    pub fn with_capacity(capacity: usize) -> (s: Self)
        ensures
            s.wf(),
            s@ == Set::<IVec3>::empty(),
    {
        let s = CoordSet { keys: HashSet::with_capacity(capacity) };
        assert(s@ =~= Set::<IVec3>::empty());
        s
    }

    pub fn contains(&self, c: &IVec3) -> (r: bool)
        ensures
            r == self@.contains(*c),
    {
        let k = to_key(c);
        self.keys.contains(&k)
    }

    /// Adds `c`; the result says whether it was new.
    pub fn insert(&mut self, c: IVec3) -> (r: bool)
        requires
            old(self).wf(),
        ensures
            final(self).wf(),
            final(self)@ == old(self)@.insert(c),
            r == !old(self)@.contains(c),
    {
        proof {
            lemma_keys(c, c);
        }
        let k = to_key(&c);
        let r = self.keys.insert(k);
        proof {
            assert forall|d: IVec3| key_of(d) == key_of(c) implies d == c by {
                lemma_keys(d, c);
            }
            assert(self@ =~= old(self)@.insert(c));
        }
        r
    }

    /// Takes `c` out; the result says whether it was there.
    pub fn remove(&mut self, c: &IVec3) -> (r: bool)
        requires
            old(self).wf(),
        ensures
            final(self).wf(),
            final(self)@ == old(self)@.remove(*c),
            r == old(self)@.contains(*c),
    {
        let k = to_key(c);
        let r = self.keys.remove(&k);
        proof {
            assert forall|d: IVec3| key_of(d) == key_of(*c) implies d == *c by {
                lemma_keys(d, *c);
            }
            assert(self@ =~= old(self)@.remove(*c));
        }
        r
    }

    pub fn clear(&mut self)
        ensures
            final(self).wf(),
            final(self)@ == Set::<IVec3>::empty(),
    {
        self.keys.clear();
        assert(self@ =~= Set::<IVec3>::empty());
    }

    pub fn is_empty(&self) -> (r: bool)
        requires
            self.wf(),
        ensures
            r == (self@ == Set::<IVec3>::empty()),
    {
        let r = self.keys.is_empty();
        proof {
            if r {
                assert(self.keys@ =~= Set::<u128>::empty());
                assert(self@ =~= Set::<IVec3>::empty());
            } else {
                let k = self.keys@.choose();
                assert(self.keys@.contains(k));
                lemma_point_of(k);
                assert(self@.contains(point_of(k)));
            }
        }
        r
    }

    /// The points of the set, each once, in no particular order.
    pub fn to_vec(&self) -> (v: Vec<IVec3>)
        requires
            self.wf(),
        ensures
            v@.no_duplicates(),
            v@.to_set() == self@,
    {
        let mut v: Vec<IVec3> = Vec::new();
        let it = self.keys.iter();
        let ghost all: Seq<u128> = it.remaining().unref();
        assert(all.to_set() == self.keys@);
        assert(all.no_duplicates()) by {
            assert forall|i: int, j: int|
                0 <= i < all.len() && 0 <= j < all.len() && i != j implies all[i] != all[j] by {
                assert(it.remaining()[i] != it.remaining()[j]);
            }
        }
        for k in iter: it
            invariant
                iter.seq().unref() == all,
                all.to_set() == self.keys@,
                forall|k: u128| self.keys@.contains(k) ==> is_key(k),
                v@.len() == iter.index(),
                forall|i: int| 0 <= i < v@.len() ==> v@[i] == point_of(#[trigger] all[i]),
        {
            assert(all.contains(all[iter.index() as int]));
            assert(all.to_set().contains(*k));
            v.push(from_key(*k));
        }
        proof {
            assert forall|i: int, j: int|
                0 <= i < v@.len() && 0 <= j < v@.len() && i != j implies v@[i] != v@[j] by {
                assert(all.contains(all[i]) && all.contains(all[j]));
                assert(all.to_set().contains(all[i]) && all.to_set().contains(all[j]));
                lemma_point_of(all[i]);
                lemma_point_of(all[j]);
            }
            assert forall|c: IVec3| v@.to_set().contains(c) <==> self@.contains(c) by {
                if v@.to_set().contains(c) {
                    let i = choose|i: int| 0 <= i < v@.len() && v@[i] == c;
                    assert(all.contains(all[i]));
                    assert(all.to_set().contains(all[i]));
                    lemma_point_of(all[i]);
                }
                if self@.contains(c) {
                    assert(all.to_set().contains(key_of(c)));
                    let i = choose|i: int| 0 <= i < all.len() && all[i] == key_of(c);
                    lemma_keys(c, c);
                    assert(v@[i] == c);
                }
            }
            assert(v@.to_set() =~= self@);
        }
        v
    }
}

} // verus!
