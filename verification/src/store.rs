use vstd::prelude::*;

verus! {

/// A key of a storage map: its view is what tells two keys apart.
pub trait StoreKey: View + Sized {
    fn same_key(&self, other: &Self) -> (r: bool)
        ensures
            r == (self@ == other@),
    ;

    fn copy_key(&self) -> (r: Self)
        ensures
            r@ == self@,
    ;
}

impl StoreKey for crate::types::Address {
    fn same_key(&self, other: &Self) -> (r: bool) {
        self.same(other)
    }

    fn copy_key(&self) -> (r: Self) {
        *self
    }
}

impl StoreKey for Vec<u8> {
    fn same_key(&self, other: &Self) -> (r: bool) {
        crate::types::bytes_eq(self, other)
    }

    fn copy_key(&self) -> (r: Self) {
        crate::types::bytes_copy(self)
    }
}

impl StoreKey for u16 {
    fn same_key(&self, other: &Self) -> (r: bool) {
        *self == *other
    }

    fn copy_key(&self) -> (r: Self) {
        *self
    }
}

impl StoreKey for u128 {
    fn same_key(&self, other: &Self) -> (r: bool) {
        *self == *other
    }

    fn copy_key(&self) -> (r: Self) {
        *self
    }
}

/// A storage map from keys to values, kept as a list of entries with
/// pairwise distinct keys.  Its view is the map from key views to values.
#[verifier::reject_recursive_types(K)]
pub struct Store<K: StoreKey, V> {
    entries: Vec<(K, V)>,
    contents: Ghost<Map<K::V, V>>,
}

impl<K: StoreKey, V> Store<K, V> {
    pub closed spec fn view(&self) -> Map<K::V, V> {
        self.contents@
    }

    pub closed spec fn wf(&self) -> bool {
        &&& forall|i: int, j: int|
            0 <= i < j < self.entries@.len() ==> #[trigger] self.entries@[i].0@
                != #[trigger] self.entries@[j].0@
        &&& forall|i: int|
            0 <= i < self.entries@.len() ==> {
                &&& self.contents@.contains_key(#[trigger] self.entries@[i].0@)
                &&& self.contents@[self.entries@[i].0@] == self.entries@[i].1
            }
        &&& forall|k: K::V|
            #[trigger] self.contents@.contains_key(k) ==> exists|i: int|
                0 <= i < self.entries@.len() && #[trigger] self.entries@[i].0@ == k
    }

    pub fn new() -> (r: Self)
        ensures
            r.wf(),
            r.view() == Map::<K::V, V>::empty(),
    {
        Store { entries: Vec::new(), contents: Ghost(Map::empty()) }
    }

    fn find(&self, k: &K) -> (r: Option<usize>)
        requires
            self.wf(),
        ensures
            match r {
                Some(i) => i < self.entries@.len() && self.entries@[i as int].0@ == k@,
                None => !self.view().contains_key(k@),
            },
    {
        let mut i: usize = 0;
        while i < self.entries.len()
            invariant
                self.wf(),
                i <= self.entries@.len(),
                forall|j: int| 0 <= j < i ==> #[trigger] self.entries@[j].0@ != k@,
            decreases self.entries@.len() - i,
        {
            if self.entries[i].0.same_key(k) {
                return Some(i);
            }
            i = i + 1;
        }
        None
    }

    pub fn contains(&self, k: &K) -> (r: bool)
        requires
            self.wf(),
        ensures
            r == self.view().contains_key(k@),
    {
        match self.find(k) {
            Some(_) => true,
            None => false,
        }
    }

    pub fn get(&self, k: &K) -> (r: Option<&V>)
        requires
            self.wf(),
        ensures
            match r {
                Some(v) => self.view().contains_key(k@) && *v == self.view()[k@],
                None => !self.view().contains_key(k@),
            },
    {
        match self.find(k) {
            Some(i) => Some(&self.entries[i].1),
            None => None,
        }
    }

    pub fn set(&mut self, k: K, v: V)
        requires
            old(self).wf(),
        ensures
            final(self).wf(),
            final(self).view() == old(self).view().insert(k@, v),
    {
        let ghost kv = k@;
        let ghost vv = v;
        match self.find(&k) {
            Some(i) => {
                self.entries.set(i, (k, v));
                self.contents = Ghost(self.contents@.insert(kv, vv));
                assert forall|key: K::V| #[trigger] self.contents@.contains_key(key) implies exists|
                    j: int,
                |
                    0 <= j < self.entries@.len() && #[trigger] self.entries@[j].0@ == key by {
                    if key != kv {
                        assert(old(self).contents@.contains_key(key));
                        let j = choose|j: int|
                            0 <= j < old(self).entries@.len() && #[trigger] old(self).entries@[j].0@
                                == key;
                        assert(self.entries@[j].0@ == key);
                    } else {
                        assert(self.entries@[i as int].0@ == key);
                    }
                }
            },
            None => {
                self.entries.push((k, v));
                self.contents = Ghost(self.contents@.insert(kv, vv));
                let ghost n = self.entries@.len() - 1;
                assert(self.entries@[n].0@ == kv);
                assert forall|key: K::V| #[trigger] self.contents@.contains_key(key) implies exists|
                    j: int,
                |
                    0 <= j < self.entries@.len() && #[trigger] self.entries@[j].0@ == key by {
                    if key != kv {
                        assert(old(self).contents@.contains_key(key));
                        let j = choose|j: int|
                            0 <= j < old(self).entries@.len() && #[trigger] old(self).entries@[j].0@
                                == key;
                        assert(self.entries@[j].0@ == key);
                    } else {
                        assert(self.entries@[n].0@ == key);
                    }
                }
            },
        }
    }

    pub fn remove(&mut self, k: &K) -> (r: Option<V>)
        requires
            old(self).wf(),
        ensures
            final(self).wf(),
            final(self).view() == old(self).view().remove(k@),
            match r {
                Some(v) => old(self).view().contains_key(k@) && v == old(self).view()[k@],
                None => !old(self).view().contains_key(k@),
            },
    {
        match self.find(k) {
            Some(i) => {
                let ghost kv = k@;
                let ghost last = self.entries@.len() - 1;
                let e = self.entries.swap_remove(i);
                self.contents = Ghost(self.contents@.remove(kv));
                assert forall|key: K::V| #[trigger] self.contents@.contains_key(key) implies exists|
                    j: int,
                |
                    0 <= j < self.entries@.len() && #[trigger] self.entries@[j].0@ == key by {
                    assert(old(self).contents@.contains_key(key));
                    let j = choose|j: int|
                        0 <= j < old(self).entries@.len() && #[trigger] old(self).entries@[j].0@
                            == key;
                    if j == last {
                        assert(self.entries@[i as int].0@ == key);
                    } else {
                        assert(j != i);
                        assert(self.entries@[j].0@ == key);
                    }
                }
                Some(e.1)
            },
            None => {
                assert(self.contents@.remove(k@) =~= self.contents@);
                None
            },
        }
    }
}

} // verus!
