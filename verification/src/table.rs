//! A small keyed table: the model of a contract's keyed storage entries.

use vstd::prelude::*;
use crate::address::Address;

verus! {

/// Keys that can be compared at run time by their view.
pub trait TableKey: View + Sized {
    fn same_key(&self, other: &Self) -> (b: bool)
        ensures
            b == (self@ == other@),
    ;
}

impl TableKey for u64 {
    fn same_key(&self, other: &Self) -> (b: bool) {
        *self == *other
    }
}

impl TableKey for u32 {
    fn same_key(&self, other: &Self) -> (b: bool) {
        *self == *other
    }
}

impl TableKey for Address {
    fn same_key(&self, other: &Self) -> (b: bool) {
        self.same(other)
    }
}

impl TableKey for String {
    fn same_key(&self, other: &Self) -> (b: bool) {
        *self == *other
    }
}

impl<A: TableKey, B: TableKey> TableKey for (A, B) {
    fn same_key(&self, other: &Self) -> (b: bool) {
        self.0.same_key(&other.0) && self.1.same_key(&other.1)
    }
}

impl<A: TableKey, B: TableKey, C: TableKey> TableKey for (A, B, C) {
    fn same_key(&self, other: &Self) -> (b: bool) {
        self.0.same_key(&other.0) && self.1.same_key(&other.1) && self.2.same_key(&other.2)
    }
}

/// A finite map from keys (compared by view) to values, kept as a list of
/// entries with distinct keys.
pub struct Table<K: View, V> {
    entries: Vec<(K, V)>,
    contents: Ghost<Map<<K as View>::V, V>>,
}

impl<K: TableKey, V> View for Table<K, V> {
    type V = Map<<K as View>::V, V>;

    closed spec fn view(&self) -> Map<<K as View>::V, V> {
        self.contents@
    }
}

impl<K: TableKey, V> Table<K, V> {
    /// The entry list and the map it stands for agree, and no key repeats.
    pub closed spec fn wf(&self) -> bool {
        &&& self.contents@.dom().finite()
        &&& forall|i: int|
            0 <= i < self.entries@.len() ==> #[trigger] self.contents@.contains_key(
                self.entries@[i].0@,
            ) && self.contents@[self.entries@[i].0@] == self.entries@[i].1
        &&& forall|k: <K as View>::V|
            #[trigger] self.contents@.contains_key(k) ==> exists|i: int|
                0 <= i < self.entries@.len() && self.entries@[i].0@ == k
        &&& forall|i: int, j: int|
            0 <= i < j < self.entries@.len() ==> self.entries@[i].0@ != self.entries@[j].0@
    }

    /// A well-formed table holds finitely many entries.
    pub proof fn lemma_dom_finite(&self)
        requires
            self.wf(),
        ensures
            self@.dom().finite(),
    {
    }

    /// An empty table.
    pub fn new() -> (t: Self)
        ensures
            t.wf(),
            t@ == Map::<<K as View>::V, V>::empty(),
    {
        Table { entries: Vec::new(), contents: Ghost(Map::empty()) }
    }

    /// Every entry, each key once, in storage order.
    pub fn entries(&self) -> (r: &Vec<(K, V)>)
        requires
            self.wf(),
        ensures
            r@.len() == self@.dom().len(),
            forall|i: int| 0 <= i < r@.len() ==> #[trigger] self@.contains_key(r@[i].0@) && self@[r@[i].0@] == r@[i].1,
            forall|k: <K as View>::V| #[trigger] self@.contains_key(k) ==> exists|i: int| 0 <= i < r@.len() && r@[i].0@ == k,
            forall|i: int, j: int| 0 <= i < j < r@.len() ==> r@[i].0@ != r@[j].0@,
    {
        proof {
            self.lemma_len();
            assert forall|i: int| 0 <= i < self.entries@.len() implies #[trigger] self@.contains_key(
                self.entries@[i].0@,
            ) && self@[self.entries@[i].0@] == self.entries@[i].1 by {
                assert(self.contents@.contains_key(self.entries@[i].0@));
            }
        }
        &self.entries
    }

    /// The entry list has one entry per key of the map.
    proof fn lemma_len(&self)
        requires
            self.wf(),
        ensures
            self.entries@.len() == self@.dom().len(),
    {
        let keys = self.entries@.map_values(|e: (K, V)| e.0@);
        assert(keys.no_duplicates()) by {
            assert forall|i: int, j: int| 0 <= i < keys.len() && 0 <= j < keys.len() && i != j implies keys[i] != keys[j] by {
                if i < j {
                } else {
                }
            }
        }
        keys.unique_seq_to_set();
        assert(keys.to_set() =~= self@.dom()) by {
            assert forall|k: <K as View>::V| keys.to_set().contains(k) implies self@.dom().contains(k) by {
                let i = choose|i: int| 0 <= i < keys.len() && keys[i] == k;
                assert(self.contents@.contains_key(self.entries@[i].0@));
            }
            assert forall|k: <K as View>::V| self@.dom().contains(k) implies keys.to_set().contains(k) by {
                assert(self.contents@.contains_key(k));
                let i = choose|i: int| 0 <= i < self.entries@.len() && self.entries@[i].0@ == k;
                assert(keys[i] == k);
            }
        }
    }

    /// Position of the entry with key `k`, if any.
    fn find(&self, k: &K) -> (r: Option<usize>)
        requires
            self.wf(),
        ensures
            match r {
                Some(i) => i < self.entries@.len() && self.entries@[i as int].0@ == k@,
                None => !self@.contains_key(k@),
            },
    {
        let mut i: usize = 0;
        while i < self.entries.len()
            invariant
                self.wf(),
                i <= self.entries@.len(),
                forall|j: int| 0 <= j < i ==> self.entries@[j].0@ != k@,
            decreases self.entries@.len() - i,
        {
            if self.entries[i].0.same_key(k) {
                return Some(i);
            }
            i = i + 1;
        }
        None
    }

    /// Whether an entry with key `k` exists.
    pub fn contains(&self, k: &K) -> (b: bool)
        requires
            self.wf(),
        ensures
            b == self@.contains_key(k@),
    {
        match self.find(k) {
            Some(i) => {
                assert(self@.contains_key(self.entries@[i as int].0@));
                true
            },
            None => false,
        }
    }

    /// The value stored under `k`, if any.
    pub fn get(&self, k: &K) -> (r: Option<&V>)
        requires
            self.wf(),
        ensures
            match r {
                Some(v) => self@.contains_key(k@) && *v == self@[k@],
                None => !self@.contains_key(k@),
            },
    {
        match self.find(k) {
            Some(i) => {
                assert(self@.contains_key(self.entries@[i as int].0@));
                Some(&self.entries[i].1)
            },
            None => None,
        }
    }

    /// Store `v` under `k`, replacing any value stored there.
    pub fn insert(&mut self, k: K, v: V)
        requires
            old(self).wf(),
        ensures
            final(self).wf(),
            final(self)@ == old(self)@.insert(k@, v),
    {
        let ghost old_contents = self.contents@;
        let ghost kv = k@;
        match self.find(&k) {
            Some(i) => {
                let ghost old_entries = self.entries@;
                self.entries.set(i, (k, v));
                self.contents = Ghost(old_contents.insert(kv, self.entries@[i as int].1));
                assert forall|j: int| 0 <= j < self.entries@.len() implies #[trigger] self.contents@.contains_key(
                    self.entries@[j].0@,
                ) && self.contents@[self.entries@[j].0@] == self.entries@[j].1 by {
                    if j != i {
                        assert(old_contents.contains_key(old_entries[j].0@));
                    }
                }
                assert forall|key: <K as View>::V| #[trigger] self.contents@.contains_key(key) implies exists|j: int|
                    0 <= j < self.entries@.len() && self.entries@[j].0@ == key by {
                    if key != kv {
                        let j = choose|j: int| 0 <= j < old_entries.len() && old_entries[j].0@ == key;
                        assert(self.entries@[j].0@ == key);
                    } else {
                        assert(self.entries@[i as int].0@ == key);
                    }
                }
            },
            None => {
                let ghost old_entries = self.entries@;
                self.entries.push((k, v));
                let ghost n = old_entries.len() as int;
                self.contents = Ghost(old_contents.insert(kv, self.entries@[n].1));
                assert forall|j: int| 0 <= j < self.entries@.len() implies #[trigger] self.contents@.contains_key(
                    self.entries@[j].0@,
                ) && self.contents@[self.entries@[j].0@] == self.entries@[j].1 by {
                    if j != n {
                        assert(old_contents.contains_key(old_entries[j].0@));
                        assert(self.entries@[j] == old_entries[j]);
                    }
                }
                assert forall|key: <K as View>::V| #[trigger] self.contents@.contains_key(key) implies exists|j: int|
                    0 <= j < self.entries@.len() && self.entries@[j].0@ == key by {
                    if key != kv {
                        let j = choose|j: int| 0 <= j < old_entries.len() && old_entries[j].0@ == key;
                        assert(self.entries@[j].0@ == key);
                    } else {
                        assert(self.entries@[n].0@ == key);
                    }
                }
                assert forall|a: int, b: int| 0 <= a < b < self.entries@.len() implies self.entries@[a].0@
                    != self.entries@[b].0@ by {
                    if b == n {
                        assert(old_contents.contains_key(old_entries[a].0@));
                    }
                }
            },
        }
        assert(self.contents@ =~= old_contents.insert(kv, v));
    }

    /// Remove the entry with key `k`, returning its value if there was one.
    pub fn remove(&mut self, k: &K) -> (r: Option<V>)
        requires
            old(self).wf(),
        ensures
            final(self).wf(),
            final(self)@ == old(self)@.remove(k@),
            match r {
                Some(v) => old(self)@.contains_key(k@) && v == old(self)@[k@],
                None => !old(self)@.contains_key(k@),
            },
    {
        let ghost old_contents = self.contents@;
        let ghost kv = k@;
        match self.find(k) {
            Some(i) => {
                let ghost old_entries = self.entries@;
                assert(old_contents.contains_key(old_entries[i as int].0@));
                let (_key, value) = self.entries.remove(i);
                self.contents = Ghost(old_contents.remove(kv));
                assert forall|j: int| 0 <= j < self.entries@.len() implies #[trigger] self.contents@.contains_key(
                    self.entries@[j].0@,
                ) && self.contents@[self.entries@[j].0@] == self.entries@[j].1 by {
                    if j < i {
                        assert(self.entries@[j] == old_entries[j]);
                        assert(old_contents.contains_key(old_entries[j].0@));
                    } else {
                        assert(self.entries@[j] == old_entries[j + 1]);
                        assert(old_contents.contains_key(old_entries[j + 1].0@));
                    }
                }
                assert forall|key: <K as View>::V| #[trigger] self.contents@.contains_key(key) implies exists|j: int|
                    0 <= j < self.entries@.len() && self.entries@[j].0@ == key by {
                    let j = choose|j: int| 0 <= j < old_entries.len() && old_entries[j].0@ == key;
                    if j < i {
                        assert(self.entries@[j].0@ == key);
                    } else {
                        assert(j != i);
                        assert(self.entries@[j - 1].0@ == key);
                    }
                }
                assert forall|a: int, b: int| 0 <= a < b < self.entries@.len() implies self.entries@[a].0@
                    != self.entries@[b].0@ by {
                    let oa = if a < i { a } else { a + 1 };
                    let ob = if b < i { b } else { b + 1 };
                    assert(self.entries@[a] == old_entries[oa]);
                    assert(self.entries@[b] == old_entries[ob]);
                }
                Some(value)
            },
            None => {
                assert(old_contents.remove(kv) =~= old_contents);
                None
            },
        }
    }
}

} // verus!
