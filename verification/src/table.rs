//! A keyed table of values with 128-bit identifiers as keys.
//!
//! Entries keep their insertion order; no key occurs twice. The table is
//! viewed as a finite map from key to value.

use vstd::prelude::*;

verus! {

/// No key occurs twice among the entries.
pub open spec fn keys_unique<V>(s: Seq<(u128, V)>) -> bool {
    forall|i: int, j: int| 0 <= i < s.len() && 0 <= j < s.len() && i != j ==> s[i].0 != s[j].0
}

/// Some entry carries key `k`.
pub open spec fn seq_has_key<V>(s: Seq<(u128, V)>, k: u128) -> bool {
    exists|i: int| 0 <= i < s.len() && s[i].0 == k
}

/// Position of the entry that carries key `k`.
pub open spec fn seq_key_index<V>(s: Seq<(u128, V)>, k: u128) -> int {
    choose|i: int| 0 <= i < s.len() && s[i].0 == k
}

/// The map from key to value that a sequence of entries stands for.
pub open spec fn seq_to_map<V>(s: Seq<(u128, V)>) -> Map<u128, V> {
    Map::new(|k: u128| seq_has_key(s, k), |k: u128| s[seq_key_index(s, k)].1)
}

/// Where keys are unique, the entry at position `i` gives the map's value at its key.
pub proof fn lemma_entry_in_map<V>(s: Seq<(u128, V)>, i: int)
    requires
        keys_unique(s),
        0 <= i < s.len(),
    ensures
        seq_to_map(s).contains_key(s[i].0),
        seq_to_map(s)[s[i].0] == s[i].1,
        seq_key_index(s, s[i].0) == i,
{
    assert(seq_has_key(s, s[i].0));
}

/// The number of keys of the map is the number of entries.
pub proof fn lemma_map_len<V>(s: Seq<(u128, V)>)
    requires
        keys_unique(s),
    ensures
        seq_to_map(s).dom().finite(),
        seq_to_map(s).dom().len() == s.len(),
    decreases s.len(),
{
    let m = seq_to_map(s);
    if s.len() == 0 {
        assert(m.dom() =~= Set::<u128>::empty());
    } else {
        let t = s.drop_last();
        let k = s.last().0;
        assert(keys_unique(t));
        lemma_map_len(t);
        assert forall|x: u128| m.dom().contains(x) <==> seq_to_map(t).dom().insert(k).contains(x) by {
            if m.dom().contains(x) {
                let i = choose|i: int| 0 <= i < s.len() && s[i].0 == x;
                if i < t.len() {
                    assert(t[i].0 == x);
                }
            }
            if seq_to_map(t).dom().contains(x) {
                let i = choose|i: int| 0 <= i < t.len() && t[i].0 == x;
                assert(s[i].0 == x);
            }
            if x == k {
                assert(s[s.len() - 1].0 == x);
            }
        }
        assert(m.dom() =~= seq_to_map(t).dom().insert(k));
        assert(!seq_to_map(t).dom().contains(k)) by {
            if seq_to_map(t).dom().contains(k) {
                let i = choose|i: int| 0 <= i < t.len() && t[i].0 == k;
                assert(s[i].0 == s[s.len() - 1].0);
            }
        }
    }
}

/// A table of values keyed by 128-bit identifiers.
#[derive(Debug)]
pub struct IdTable<V> {
    entries: Vec<(u128, V)>,
}

impl<V> IdTable<V> {
    /// The entries in insertion order.
    pub closed spec fn entries(self) -> Seq<(u128, V)> {
        self.entries@
    }

    /// The table as a map from key to value.
    pub open spec fn map(self) -> Map<u128, V> {
        seq_to_map(self.entries())
    }

    /// Well-formedness: no key occurs twice.
    pub closed spec fn wf(self) -> bool {
        keys_unique(self.entries@)
    }

    /// Facts that hold of every table: keys are unique, the map has as many
    /// keys as there are entries, and each entry is the map's value at its key.
    pub proof fn lemma_wf(self)
        requires
            self.wf(),
        ensures
            keys_unique(self.entries()),
            self.map().dom().finite(),
            self.map().dom().len() == self.entries().len(),
            forall|i: int|
                0 <= i < self.entries().len() ==> #[trigger] self.map().contains_key(
                    self.entries()[i].0,
                ) && self.map()[self.entries()[i].0] == self.entries()[i].1,
    {
        lemma_map_len(self.entries@);
        assert forall|i: int| 0 <= i < self.entries().len() implies #[trigger] self.map().contains_key(
            self.entries()[i].0,
        ) && self.map()[self.entries()[i].0] == self.entries()[i].1 by {
            lemma_entry_in_map(self.entries@, i);
        }
    }

    /// An empty table.
    pub fn new() -> (t: Self)
        ensures
            t.wf(),
            t.entries() == Seq::<(u128, V)>::empty(),
            t.map() == Map::<u128, V>::empty(),
    {
        let t = IdTable { entries: Vec::new() };
        assert(t.map() =~= Map::<u128, V>::empty());
        t
    }

    /// Number of entries.
    pub fn len(&self) -> (n: usize)
        requires
            self.wf(),
        ensures
            n == self.entries().len(),
            n == self.map().dom().len(),
    {
        proof {
            lemma_map_len(self.entries@);
        }
        self.entries.len()
    }

    /// Position of the entry with key `k`, if any.
    pub fn find(&self, k: u128) -> (r: Option<usize>)
        requires
            self.wf(),
        ensures
            r is None <==> !self.map().contains_key(k),
            r matches Some(i) ==> i < self.entries().len() && self.entries()[i as int].0 == k
                && self.map()[k] == self.entries()[i as int].1,
    {
        let mut i: usize = 0;
        while i < self.entries.len()
            invariant
                i <= self.entries@.len(),
                keys_unique(self.entries@),
                forall|j: int| 0 <= j < i ==> self.entries@[j].0 != k,
            decreases self.entries@.len() - i,
        {
            if self.entries[i].0 == k {
                proof {
                    lemma_entry_in_map(self.entries@, i as int);
                }
                return Some(i);
            }
            i = i + 1;
        }
        assert(!seq_has_key(self.entries@, k));
        None
    }

    /// Whether some entry has key `k`.
    pub fn contains_key(&self, k: u128) -> (b: bool)
        requires
            self.wf(),
        ensures
            b == self.map().contains_key(k),
    {
        self.find(k).is_some()
    }

    /// The value at key `k`, if any.
    pub fn get(&self, k: u128) -> (r: Option<&V>)
        requires
            self.wf(),
        ensures
            r is None <==> !self.map().contains_key(k),
            r matches Some(v) ==> *v == self.map()[k],
    {
        match self.find(k) {
            Some(i) => Some(&self.entries[i].1),
            None => None,
        }
    }

    /// The key and value of the entry at position `i`.
    pub fn entry_at(&self, i: usize) -> (r: (u128, &V))
        requires
            i < self.entries().len(),
        ensures
            r.0 == self.entries()[i as int].0,
            *r.1 == self.entries()[i as int].1,
    {
        let e = &self.entries[i];
        (e.0, &e.1)
    }

    /// Adds an entry for a key that is not in the table; it comes last.
    pub fn insert_new(&mut self, k: u128, v: V)
        requires
            old(self).wf(),
            !old(self).map().contains_key(k),
        ensures
            final(self).wf(),
            final(self).entries() == old(self).entries().push((k, v)),
            final(self).map() == old(self).map().insert(k, v),
    {
        let ghost s0 = self.entries@;
        self.entries.push((k, v));
        let ghost s1 = self.entries@;
        assert(keys_unique(s1)) by {
            assert forall|i: int, j: int|
                0 <= i < s1.len() && 0 <= j < s1.len() && i != j implies s1[i].0 != s1[j].0 by {
                if i < s0.len() && j == s0.len() as int {
                    assert(s0[i].0 == s1[i].0);
                    if s0[i].0 == k {
                        assert(seq_has_key(s0, k));
                    }
                }
                if j < s0.len() && i == s0.len() as int {
                    assert(s0[j].0 == s1[j].0);
                    if s0[j].0 == k {
                        assert(seq_has_key(s0, k));
                    }
                }
            }
        }
        proof {
            lemma_entry_in_map(s1, s0.len() as int);
            assert forall|x: u128|
                #[trigger] seq_to_map(s1).contains_key(x) <==> seq_to_map(s0).insert(
                    k,
                    v,
                ).contains_key(x) by {
                if seq_to_map(s1).contains_key(x) {
                    let i = choose|i: int| 0 <= i < s1.len() && s1[i].0 == x;
                    if i < s0.len() {
                        assert(s0[i].0 == x);
                    }
                }
                if seq_to_map(s0).contains_key(x) {
                    let i = choose|i: int| 0 <= i < s0.len() && s0[i].0 == x;
                    assert(s1[i].0 == x);
                }
            }
            assert forall|x: u128| #[trigger]
                seq_to_map(s1).contains_key(x) implies seq_to_map(s1)[x] == seq_to_map(s0).insert(
                k,
                v,
            )[x] by {
                if x != k {
                    let i = choose|i: int| 0 <= i < s1.len() && s1[i].0 == x;
                    lemma_entry_in_map(s1, i);
                    assert(i < s0.len());
                    assert(s0[i] == s1[i]);
                    assert(keys_unique(s0));
                    lemma_entry_in_map(s0, i);
                }
            }
            assert(seq_to_map(s1) =~= seq_to_map(s0).insert(k, v));
        }
    }

    /// Replaces the value at position `i`, keeping its key.
    pub fn set_at(&mut self, i: usize, v: V)
        requires
            old(self).wf(),
            i < old(self).entries().len(),
        ensures
            final(self).wf(),
            final(self).entries() == old(self).entries().update(
                i as int,
                (old(self).entries()[i as int].0, v),
            ),
            final(self).map() == old(self).map().insert(old(self).entries()[i as int].0, v),
    {
        let ghost s0 = self.entries@;
        let k = self.entries[i].0;
        self.entries.set(i, (k, v));
        let ghost s1 = self.entries@;
        assert(keys_unique(s1)) by {
            assert forall|a: int, b: int|
                0 <= a < s1.len() && 0 <= b < s1.len() && a != b implies s1[a].0 != s1[b].0 by {
                assert(s1[a].0 == s0[a].0);
                assert(s1[b].0 == s0[b].0);
            }
        }
        proof {
            assert forall|x: u128|
                #[trigger] seq_to_map(s1).contains_key(x) <==> seq_to_map(s0).contains_key(x) by {
                if seq_to_map(s1).contains_key(x) {
                    let j = choose|j: int| 0 <= j < s1.len() && s1[j].0 == x;
                    assert(s0[j].0 == x);
                }
                if seq_to_map(s0).contains_key(x) {
                    let j = choose|j: int| 0 <= j < s0.len() && s0[j].0 == x;
                    assert(s1[j].0 == x);
                }
            }
            lemma_entry_in_map(s0, i as int);
            assert forall|x: u128| #[trigger]
                seq_to_map(s1).contains_key(x) implies seq_to_map(s1)[x] == seq_to_map(s0).insert(
                k,
                v,
            )[x] by {
                let j = choose|j: int| 0 <= j < s1.len() && s1[j].0 == x;
                lemma_entry_in_map(s1, j);
                lemma_entry_in_map(s0, j);
                if j == i as int {
                } else {
                    assert(s1[j] == s0[j]);
                }
            }
            assert(seq_to_map(s1) =~= seq_to_map(s0).insert(k, v));
        }
    }

    /// Sets the value at key `k`: replaces it where the key is present, else
    /// adds the entry last.
    pub fn upsert(&mut self, k: u128, v: V)
        requires
            old(self).wf(),
        ensures
            final(self).wf(),
            final(self).map() == old(self).map().insert(k, v),
            old(self).map().contains_key(k) ==> final(self).entries().len() == old(
                self,
            ).entries().len(),
            old(self).map().contains_key(k) ==> final(self).entries() == old(self).entries().update(
                seq_key_index(old(self).entries(), k),
                (k, v),
            ),
            !old(self).map().contains_key(k) ==> final(self).entries() == old(
                self,
            ).entries().push((k, v)),
    {
        match self.find(k) {
            Some(i) => {
                proof {
                    lemma_entry_in_map(self.entries@, i as int);
                }
                self.set_at(i, v)
            },
            None => self.insert_new(k, v),
        }
    }

    /// Removes the entry with key `k` and hands back its value, if any.
    pub fn remove(&mut self, k: u128) -> (r: Option<V>)
        requires
            old(self).wf(),
        ensures
            final(self).wf(),
            r is None <==> !old(self).map().contains_key(k),
            r matches Some(v) ==> v == old(self).map()[k],
            final(self).map() == old(self).map().remove(k),
            r is None ==> final(self).entries() == old(self).entries(),
            r is Some ==> final(self).entries().len() + 1 == old(self).entries().len(),
            r is Some ==> 0 <= seq_key_index(old(self).entries(), k) < old(self).entries().len()
                && old(self).entries()[seq_key_index(old(self).entries(), k)].0 == k
                && final(self).entries() == old(self).entries().remove(
                seq_key_index(old(self).entries(), k),
            ),
    {
        match self.find(k) {
            None => {
                proof {
                    assert(self.map().remove(k) =~= self.map());
                }
                None
            },
            Some(i) => {
                let ghost s0 = self.entries@;
                proof {
                    lemma_entry_in_map(s0, i as int);
                }
                let e = self.entries.remove(i);
                let ghost s1 = self.entries@;
                assert(s1 =~= s0.remove(i as int));
                assert(keys_unique(s1)) by {
                    assert forall|a: int, b: int|
                        0 <= a < s1.len() && 0 <= b < s1.len() && a != b implies s1[a].0
                        != s1[b].0 by {
                        let a0 = if a < i { a } else { a + 1 };
                        let b0 = if b < i { b } else { b + 1 };
                        assert(s1[a] == s0[a0]);
                        assert(s1[b] == s0[b0]);
                    }
                }
                proof {
                    assert forall|x: u128|
                        #[trigger] seq_to_map(s1).contains_key(x) <==> seq_to_map(s0).remove(
                            k,
                        ).contains_key(x) by {
                        if seq_to_map(s1).contains_key(x) {
                            let j = choose|j: int| 0 <= j < s1.len() && s1[j].0 == x;
                            let j0 = if j < i { j } else { j + 1 };
                            assert(s0[j0].0 == x);
                            assert(j0 != i);
                        }
                        if seq_to_map(s0).remove(k).contains_key(x) {
                            let j = choose|j: int| 0 <= j < s0.len() && s0[j].0 == x;
                            assert(j != i);
                            if j < i {
                                assert(s1[j].0 == x);
                            } else {
                                assert(s1[j - 1].0 == x);
                            }
                        }
                    }
                    assert forall|x: u128| #[trigger]
                        seq_to_map(s1).contains_key(x) implies seq_to_map(s1)[x] == seq_to_map(
                        s0,
                    ).remove(k)[x] by {
                        let j = choose|j: int| 0 <= j < s1.len() && s1[j].0 == x;
                        let j0 = if j < i { j } else { j + 1 };
                        lemma_entry_in_map(s1, j);
                        lemma_entry_in_map(s0, j0);
                    }
                    assert(seq_to_map(s1) =~= seq_to_map(s0).remove(k));
                }
                Some(e.1)
            },
        }
    }

    /// Removes the entry at position `i` and hands back its key and value.
    pub fn remove_at(&mut self, i: usize) -> (r: (u128, V))
        requires
            old(self).wf(),
            i < old(self).entries().len(),
        ensures
            final(self).wf(),
            r.0 == old(self).entries()[i as int].0,
            r.1 == old(self).entries()[i as int].1,
            final(self).entries() == old(self).entries().remove(i as int),
            final(self).map() == old(self).map().remove(r.0),
    {
        let k = self.entries[i].0;
        proof {
            lemma_entry_in_map(self.entries@, i as int);
        }
        let v = self.remove(k);
        (k, v.unwrap())
    }
}

} // verus!
