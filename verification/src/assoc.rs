//! A small map kept as a list of entries, for keys whose equality is that of
//! their views.

use vstd::prelude::*;

use crate::ids::{FlowID, TaskID};

verus! {

/// A key that can be compared with another of its kind.
pub trait Key: View + Sized {
    fn same(&self, other: &Self) -> (r: bool)
        ensures
            r == (self@ == other@),
    ;
}

impl Key for FlowID {
    fn same(&self, other: &Self) -> (r: bool) {
        self.id == other.id
    }
}

impl Key for TaskID {
    fn same(&self, other: &Self) -> (r: bool) {
        self.id == other.id
    }
}

/// Entries in the order in which their keys first came, no key twice.
#[derive(Debug)]
pub struct VecMap<K, V> {
    entries: Vec<(K, V)>,
}

/// Whether `k` is the key of some entry.
pub open spec fn has_key<K: View, V>(s: Seq<(K, V)>, k: K::V) -> bool {
    exists|i: int| 0 <= i < s.len() && (#[trigger] s[i]).0@ == k
}

/// The map that a list of entries stands for.
pub open spec fn entries_map<K: View, V>(s: Seq<(K, V)>) -> Map<K::V, V> {
    Map::new(
        |k: K::V| has_key(s, k),
        |k: K::V| s[choose|i: int| 0 <= i < s.len() && (#[trigger] s[i]).0@ == k].1,
    )
}

/// No key occurs twice.
pub open spec fn distinct_keys<K: View, V>(s: Seq<(K, V)>) -> bool {
    forall|i: int, j: int| 0 <= i < j < s.len() ==> (#[trigger] s[i]).0@ != (#[trigger] s[j]).0@
}

impl<K: Key, V> View for VecMap<K, V> {
    type V = Map<K::V, V>;

    closed spec fn view(&self) -> Map<K::V, V> {
        entries_map(self.entries@)
    }
}

impl<K: Key, V> VecMap<K, V> {
    /// No key occurs twice.
    pub closed spec fn wf(&self) -> bool {
        distinct_keys(self.entries@)
    }

    /// The entries, oldest key first.
    pub closed spec fn entries(&self) -> Seq<(K, V)> {
        self.entries@
    }

    /// The entries are the map: each entry is in it, and each of its keys has
    /// one entry.
    pub proof fn lemma_entries(&self)
        requires
            self.wf(),
        ensures
            distinct_keys(self.entries()),
            self@ == entries_map(self.entries()),
            forall|i: int|
                0 <= i < self.entries().len() ==> self@.contains_key(
                    (#[trigger] self.entries()[i]).0@,
                ) && self@[self.entries()[i].0@] == self.entries()[i].1,
            forall|k: K::V| #[trigger] self@.contains_key(k) ==> has_key(self.entries(), k),
    {
        let s = self.entries@;
        assert forall|i: int| 0 <= i < s.len() implies self@.contains_key((#[trigger] s[i]).0@)
            && self@[s[i].0@] == s[i].1 by {
            assert(has_key(s, s[i].0@));
            let j = choose|j: int| 0 <= j < s.len() && (#[trigger] s[j]).0@ == s[i].0@;
            assert(j == i);
        }
    }

    pub fn new() -> (r: Self)
        ensures
            r.wf(),
            r@ == Map::<K::V, V>::empty(),
    {
        let r = VecMap { entries: Vec::new() };
        assert(r@ =~= Map::<K::V, V>::empty());
        r
    }

    pub fn len(&self) -> (r: usize)
        ensures
            r == self.entries().len(),
    {
        self.entries.len()
    }

    pub fn entry(&self, i: usize) -> (r: &(K, V))
        requires
            i < self.entries().len(),
        ensures
            *r == self.entries()[i as int],
    {
        &self.entries[i]
    }

    fn find(&self, key: &K) -> (r: Option<usize>)
        ensures
            match r {
                Some(i) => i < self.entries@.len() && self.entries@[i as int].0@ == key@,
                None => !has_key(self.entries@, key@),
            },
    {
        for i in 0..self.entries.len()
            invariant
                forall|j: int| 0 <= j < i ==> (#[trigger] self.entries@[j]).0@ != key@,
        {
            if self.entries[i].0.same(key) {
                return Some(i);
            }
        }
        None
    }

    pub fn get(&self, key: &K) -> (r: Option<&V>)
        requires
            self.wf(),
        ensures
            match r {
                Some(v) => self@.contains_key(key@) && *v == self@[key@],
                None => !self@.contains_key(key@),
            },
    {
        proof {
            self.lemma_entries();
        }
        match self.find(key) {
            Some(i) => Some(&self.entries[i].1),
            None => None,
        }
    }

    pub fn insert(&mut self, key: K, value: V)
        requires
            old(self).wf(),
        ensures
            final(self).wf(),
            final(self)@ == old(self)@.insert(key@, value),
    {
        let ghost s0 = self.entries@;
        proof {
            self.lemma_entries();
        }
        match self.find(&key) {
            Some(i) => {
                let ghost k = key@;
                self.entries.set(i, (key, value));
                proof {
                    self.lemma_entries();
                    assert(self.entries@ == s0.update(i as int, (key, value)));
                    assert(entries_map(self.entries@) =~= entries_map(s0).insert(k, value)) by {
                        assert forall|x: K::V| has_key(self.entries@, x) == (has_key(s0, x) || x
                            == k) by {
                            if has_key(self.entries@, x) {
                                let j = choose|j: int|
                                    0 <= j < self.entries@.len() && (
                                    #[trigger] self.entries@[j]).0@ == x;
                                if j != i {
                                    assert(s0[j].0@ == x);
                                }
                            }
                            if has_key(s0, x) {
                                let j = choose|j: int| 0 <= j < s0.len() && (#[trigger] s0[j]).0@ == x;
                                if j != i {
                                    assert(self.entries@[j].0@ == x);
                                } else {
                                    assert(self.entries@[i as int].0@ == x);
                                }
                            }
                            if x == k {
                                assert(self.entries@[i as int].0@ == x);
                            }
                        }
                        assert forall|x: K::V| has_key(self.entries@, x) implies entries_map(
                            self.entries@,
                        )[x] == entries_map(s0).insert(k, value)[x] by {
                            let j = choose|j: int|
                                0 <= j < self.entries@.len() && (#[trigger] self.entries@[j]).0@
                                    == x;
                            if j != i {
                                assert(s0[j].0@ == x);
                                let j0 = choose|j0: int|
                                    0 <= j0 < s0.len() && (#[trigger] s0[j0]).0@ == x;
                                assert(j0 == j);
                                assert(x != k);
                            }
                        }
                    }
                }
            },
            None => {
                let ghost k = key@;
                self.entries.push((key, value));
                proof {
                    self.lemma_entries();
                    assert(entries_map(self.entries@) =~= entries_map(s0).insert(k, value)) by {
                        assert forall|x: K::V| has_key(self.entries@, x) == (has_key(s0, x) || x
                            == k) by {
                            if has_key(self.entries@, x) {
                                let j = choose|j: int|
                                    0 <= j < self.entries@.len() && (
                                    #[trigger] self.entries@[j]).0@ == x;
                                if j < s0.len() {
                                    assert(s0[j].0@ == x);
                                }
                            }
                            if has_key(s0, x) {
                                let j = choose|j: int| 0 <= j < s0.len() && (#[trigger] s0[j]).0@ == x;
                                assert(self.entries@[j].0@ == x);
                            }
                            if x == k {
                                assert(self.entries@[s0.len() as int].0@ == x);
                            }
                        }
                        assert forall|x: K::V| has_key(self.entries@, x) implies entries_map(
                            self.entries@,
                        )[x] == entries_map(s0).insert(k, value)[x] by {
                            let j = choose|j: int|
                                0 <= j < self.entries@.len() && (#[trigger] self.entries@[j]).0@
                                    == x;
                            if j < s0.len() {
                                assert(s0[j].0@ == x);
                                let j0 = choose|j0: int|
                                    0 <= j0 < s0.len() && (#[trigger] s0[j0]).0@ == x;
                                assert(j0 == j);
                                assert(x != k);
                            }
                        }
                    }
                }
            },
        }
    }

    pub fn remove(&mut self, key: &K) -> (r: Option<V>)
        requires
            old(self).wf(),
        ensures
            final(self).wf(),
            final(self)@ == old(self)@.remove(key@),
            match r {
                Some(v) => old(self)@.contains_key(key@) && v == old(self)@[key@],
                None => !old(self)@.contains_key(key@),
            },
    {
        let ghost s0 = self.entries@;
        proof {
            self.lemma_entries();
        }
        match self.find(key) {
            Some(i) => {
                let removed = self.entries.remove(i);
                proof {
                    let s1 = self.entries@;
                    assert(s1 == s0.remove(i as int));
                    assert forall|a: int, b: int| 0 <= a < b < s1.len() implies (#[trigger] s1[a]).0@
                        != (#[trigger] s1[b]).0@ by {
                        let a0 = if a < i { a } else { a + 1 };
                        let b0 = if b < i { b } else { b + 1 };
                        assert(s0[a0] == s1[a] && s0[b0] == s1[b]);
                    }
                    self.lemma_entries();
                    assert forall|x: K::V| has_key(s1, x) == (has_key(s0, x) && x != key@) by {
                        if has_key(s1, x) {
                            let a = choose|a: int| 0 <= a < s1.len() && (#[trigger] s1[a]).0@ == x;
                            let a0 = if a < i { a } else { a + 1 };
                            assert(s0[a0] == s1[a]);
                            assert(s0[a0].0@ != s0[i as int].0@);
                        }
                        if has_key(s0, x) && x != key@ {
                            let a0 = choose|a0: int| 0 <= a0 < s0.len() && (#[trigger] s0[a0]).0@ == x;
                            let a = if a0 < i { a0 } else { a0 - 1 };
                            assert(s1[a] == s0[a0]);
                        }
                    }
                    assert forall|x: K::V| has_key(s1, x) implies entries_map(s1)[x]
                        == entries_map(s0).remove(key@)[x] by {
                        let a = choose|a: int| 0 <= a < s1.len() && (#[trigger] s1[a]).0@ == x;
                        let a0 = if a < i { a } else { a + 1 };
                        assert(s0[a0] == s1[a]);
                        let b0 = choose|b0: int| 0 <= b0 < s0.len() && (#[trigger] s0[b0]).0@ == x;
                        assert(a0 == b0);
                    }
                    assert(entries_map(s1) =~= entries_map(s0).remove(key@));
                }
                Some(removed.1)
            },
            None => {
                assert(old(self)@.remove(key@) =~= old(self)@);
                None
            },
        }
    }
}

} // verus!
