//! A map keyed by byte strings, the shape of the contract's instance
//! storage tables.

use vstd::prelude::*;

use crate::bytes::bytes_eq;

verus! {

/// A finite map from byte strings to values, viewed as a `Map` from the
/// key bytes to the values' views.
pub struct ByteMap<V: View> {
    keys: Vec<Vec<u8>>,
    vals: Vec<V>,
    contents: Ghost<Map<Seq<u8>, V::V>>,
}

impl<V: View> View for ByteMap<V> {
    type V = Map<Seq<u8>, V::V>;

    closed spec fn view(&self) -> Map<Seq<u8>, V::V> {
        self.contents@
    }
}

impl<V: View> ByteMap<V> {
    /// The internal consistency of the map: keys are distinct, and the
    /// stored pairs are exactly the entries of the view.
    pub closed spec fn wf(&self) -> bool {
        &&& self.keys@.len() == self.vals@.len()
        &&& forall|i: int, j: int|
            0 <= i < j < self.keys@.len() ==> #[trigger] self.keys@[i]@ != #[trigger] self.keys@[j]@
        &&& forall|i: int|
            0 <= i < self.keys@.len() ==> {
                &&& self.contents@.contains_key(#[trigger] self.keys@[i]@)
                &&& self.contents@[self.keys@[i]@] == self.vals@[i]@
            }
        &&& forall|k: Seq<u8>|
            #[trigger] self.contents@.contains_key(k) ==> exists|i: int|
                0 <= i < self.keys@.len() && #[trigger] self.keys@[i]@ == k
    }

    /// The empty map.
    pub fn new() -> (r: Self)
        ensures
            r.wf(),
            r@ == Map::<Seq<u8>, V::V>::empty(),
    {
        ByteMap { keys: Vec::new(), vals: Vec::new(), contents: Ghost(Map::empty()) }
    }

    /// The position of `key` among the stored keys.
    fn find(&self, key: &[u8]) -> (r: Option<usize>)
        requires
            self.wf(),
        ensures
            match r {
                Some(i) => i < self.keys@.len() && self.keys@[i as int]@ == key@,
                None => forall|i: int| 0 <= i < self.keys@.len() ==> self.keys@[i]@ != key@,
            },
    {
        let n = self.keys.len();
        let mut i: usize = 0;
        while i < n
            invariant
                n == self.keys@.len(),
                i <= n,
                forall|j: int| 0 <= j < i ==> self.keys@[j]@ != key@,
            decreases n - i,
        {
            if bytes_eq(self.keys[i].as_slice(), key) {
                return Some(i);
            }
            i = i + 1;
        }
        None
    }

    /// The value stored under `key`, if any.
    pub fn get(&self, key: &[u8]) -> (r: Option<&V>)
        requires
            self.wf(),
        ensures
            match r {
                Some(v) => self@.contains_key(key@) && v@ == self@[key@],
                None => !self@.contains_key(key@),
            },
    {
        match self.find(key) {
            Some(i) => Some(&self.vals[i]),
            None => {
                proof {
                    if self@.contains_key(key@) {
                        let i = choose|i: int| 0 <= i < self.keys@.len() && self.keys@[i]@ == key@;
                        assert(self.keys@[i]@ == key@);
                    }
                }
                None
            },
        }
    }

    /// Stores `value` under `key`, replacing what was stored there.
    pub fn insert(&mut self, key: Vec<u8>, value: V)
        requires
            old(self).wf(),
        ensures
            final(self).wf(),
            final(self)@ == old(self)@.insert(key@, value@),
    {
        let ghost k = key@;
        let ghost v = value@;
        match self.find(key.as_slice()) {
            Some(i) => {
                self.vals.set(i, value);
                self.contents = Ghost(self.contents@.insert(k, v));
                assert forall|j: int| 0 <= j < self.keys@.len() implies {
                    &&& self.contents@.contains_key(#[trigger] self.keys@[j]@)
                    &&& self.contents@[self.keys@[j]@] == self.vals@[j]@
                } by {
                    if j != i {
                        assert(old(self).keys@[j]@ != k) by {
                            if j < i {
                                assert(old(self).keys@[j]@ != old(self).keys@[i as int]@);
                            } else {
                                assert(old(self).keys@[i as int]@ != old(self).keys@[j]@);
                            }
                        }
                    }
                }
                assert forall|k2: Seq<u8>| #[trigger] self.contents@.contains_key(k2) implies exists|
                    j: int,
                | 0 <= j < self.keys@.len() && #[trigger] self.keys@[j]@ == k2 by {
                    if k2 == k {
                        assert(self.keys@[i as int]@ == k2);
                    } else {
                        assert(old(self).contents@.contains_key(k2));
                    }
                }
            },
            None => {
                self.keys.push(key);
                self.vals.push(value);
                self.contents = Ghost(self.contents@.insert(k, v));
                let ghost n = old(self).keys@.len();
                assert forall|a: int, b: int|
                    0 <= a < b < self.keys@.len() implies #[trigger] self.keys@[a]@
                    != #[trigger] self.keys@[b]@ by {
                    if b == n {
                        assert(old(self).keys@[a]@ != k);
                    } else {
                        assert(old(self).keys@[a]@ != old(self).keys@[b]@);
                    }
                }
                assert forall|j: int| 0 <= j < self.keys@.len() implies {
                    &&& self.contents@.contains_key(#[trigger] self.keys@[j]@)
                    &&& self.contents@[self.keys@[j]@] == self.vals@[j]@
                } by {
                    if j < n {
                        assert(old(self).keys@[j]@ != k);
                        assert(self.keys@[j] == old(self).keys@[j]);
                    }
                }
                assert forall|k2: Seq<u8>| #[trigger] self.contents@.contains_key(k2) implies exists|
                    j: int,
                | 0 <= j < self.keys@.len() && #[trigger] self.keys@[j]@ == k2 by {
                    if k2 == k {
                        assert(self.keys@[n as int]@ == k2);
                    } else {
                        assert(old(self).contents@.contains_key(k2));
                        let j = choose|j: int|
                            0 <= j < old(self).keys@.len() && old(self).keys@[j]@ == k2;
                        assert(self.keys@[j] == old(self).keys@[j]);
                    }
                }
            },
        }
    }
}

} // verus!
