//! A table keyed by 64-bit handles: the registries the layer keeps of
//! instances, devices, queues, swapchains and GL contexts.
use std::collections::HashMap;
use vstd::prelude::*;
use vstd::std_specs::iter::IteratorSpec;

verus! {

/// The map that a list of entries denotes, later entries overriding earlier ones.
pub open spec fn table_map<V>(s: Seq<(u64, V)>) -> Map<u64, V>
    decreases s.len(),
{
    if s.len() == 0 {
        Map::empty()
    } else {
        table_map(s.drop_last()).insert(s.last().0, s.last().1)
    }
}

/// No key occurs twice.
pub open spec fn keys_unique<V>(s: Seq<(u64, V)>) -> bool {
    forall|i: int, j: int| 0 <= i < j < s.len() ==> s[i].0 != s[j].0
}

proof fn lemma_lookup<V>(s: Seq<(u64, V)>)
    requires
        keys_unique(s),
    ensures
        forall|i: int|
            0 <= i < s.len() ==> #[trigger] table_map(s).contains_key(s[i].0) && table_map(s)[s[i].0] == s[i].1,
        forall|k: u64| #[trigger] table_map(s).contains_key(k) ==> exists|i: int| 0 <= i < s.len() && s[i].0 == k,
    decreases s.len(),
{
    if s.len() > 0 {
        let p = s.drop_last();
        assert(keys_unique(p));
        lemma_lookup(p);
        assert(table_map(s) == table_map(p).insert(s.last().0, s.last().1));
        assert forall|i: int| 0 <= i < s.len() implies #[trigger] table_map(s).contains_key(s[i].0)
            && table_map(s)[s[i].0] == s[i].1 by {
            if i < s.len() - 1 {
                assert(p[i] == s[i]);
                assert(s[i].0 != s[s.len() - 1].0);
                assert(table_map(p).contains_key(p[i].0));
            }
        }
        assert forall|k: u64| #[trigger] table_map(s).contains_key(k) implies exists|i: int|
            0 <= i < s.len() && s[i].0 == k by {
            if k != s.last().0 {
                assert(table_map(p).contains_key(k));
                let i = choose|i: int| 0 <= i < p.len() && p[i].0 == k;
                assert(s[i] == p[i]);
            } else {
                assert(s[s.len() - 1].0 == k);
            }
        }
    }
}

/// A table from 64-bit keys to values, held in a `HashMap`.
pub struct KeyTable<V: Copy> {
    map: HashMap<u64, V>,
}

impl<V: Copy> View for KeyTable<V> {
    type V = Map<u64, V>;

    closed spec fn view(&self) -> Map<u64, V> {
        self.map@
    }
}

impl<V: Copy> KeyTable<V> {
    /// An empty table.
    pub fn new() -> (r: KeyTable<V>)
        ensures
            r@ == Map::<u64, V>::empty(),
    {
        KeyTable { map: HashMap::new() }
    }

    /// The value stored under `k`.
    pub fn get(&self, k: u64) -> (r: Option<V>)
        ensures
            r == (if self@.contains_key(k) {
                Some(self@[k])
            } else {
                None
            }),
    {
        broadcast use vstd::std_specs::hash::group_hash_axioms;
        match self.map.get(&k) {
            Some(v) => Some(*v),
            None => None,
        }
    }

    /// Whether `k` has a value.
    pub fn contains(&self, k: u64) -> (r: bool)
        ensures
            r == self@.contains_key(k),
    {
        broadcast use vstd::std_specs::hash::group_hash_axioms;
        self.map.contains_key(&k)
    }

    /// Stores `v` under `k`, replacing what was there.
    pub fn put(&mut self, k: u64, v: V)
        ensures
            final(self)@ == old(self)@.insert(k, v),
    {
        broadcast use vstd::std_specs::hash::group_hash_axioms;
        self.map.insert(k, v);
    }

    /// Removes the value under `k`, returning it.
    pub fn remove(&mut self, k: u64) -> (r: Option<V>)
        ensures
            r == (if old(self)@.contains_key(k) {
                Some(old(self)@[k])
            } else {
                None
            }),
            final(self)@ == old(self)@.remove(k),
    {
        broadcast use vstd::std_specs::hash::group_hash_axioms;
        self.map.remove(&k)
    }

    /// Whether the table holds nothing.
    pub fn is_empty(&self) -> (r: bool)
        ensures
            r == (self@ == Map::<u64, V>::empty()),
    {
        broadcast use vstd::std_specs::hash::group_hash_axioms;
        let r = self.map.is_empty();
        if r {
            assert(self@ =~= Map::<u64, V>::empty());
        } else {
            assert(self@.dom() != Map::<u64, V>::empty().dom());
        }
        r
    }

    /// The keys that have values, each once, in the order the map lists them.
    pub fn keys(&self) -> (r: Vec<u64>)
        ensures
            forall|k: u64| self@.contains_key(k) <==> #[trigger] r@.contains(k),
            r@.no_duplicates(),
    {
        broadcast use vstd::std_specs::hash::group_hash_axioms;
        let mut out: Vec<u64> = Vec::new();
        let keys_iter = self.map.keys();
        let ghost ks = IteratorSpec::remaining(&keys_iter);
        for k in it: keys_iter
            invariant
                it.seq() == ks,
                out@ == ks.take(it.index()).unref(),
            ensures
                out@ == ks.unref(),
        {
            out.push(*k);
            assert(out@ =~= ks.take(it.index() + 1).unref());
        }
        assert forall|k: u64| self@.contains_key(k) <==> #[trigger] out@.contains(k) by {
            assert(ks.unref().to_set() == self@.dom());
            if out@.contains(k) {
                assert(ks.unref().to_set().contains(k));
            }
            if self@.contains_key(k) {
                assert(ks.unref().to_set().contains(k));
            }
        }
        assert(out@.no_duplicates()) by {
            assert forall|i: int, j: int| 0 <= i < out@.len() && 0 <= j < out@.len() && i != j implies out@[i]
                != out@[j] by {
                assert(ks[i] != ks[j]);
            }
        }
        out
    }

    /// Takes every entry out, leaving the table empty.
    pub fn drain(&mut self) -> (r: Vec<(u64, V)>)
        ensures
            table_map(r@) == old(self)@,
            keys_unique(r@),
            final(self)@ == Map::<u64, V>::empty(),
    {
        broadcast use vstd::std_specs::hash::group_hash_axioms;
        let ks = self.keys();
        let ghost m = self@;
        let mut out: Vec<(u64, V)> = Vec::new();
        let mut i: usize = 0;
        while i < ks.len()
            invariant
                self@ == m,
                i <= ks.len(),
                forall|k: u64| m.contains_key(k) <==> #[trigger] ks@.contains(k),
                ks@.no_duplicates(),
                out@.len() == i,
                forall|j: int| 0 <= j < i ==> #[trigger] out@[j] == (ks@[j], m[ks@[j]]),
            decreases ks.len() - i,
        {
            let k = ks[i];
            assert(ks@.contains(k));
            match self.get(k) {
                Some(v) => out.push((k, v)),
                None => {
                    assert(false);
                },
            }
            i = i + 1;
        }
        self.map.clear();
        proof {
            assert(keys_unique(out@)) by {
                assert forall|a: int, b: int| 0 <= a < b < out@.len() implies out@[a].0 != out@[b].0 by {
                    assert(out@[a].0 == ks@[a]);
                    assert(out@[b].0 == ks@[b]);
                }
            }
            lemma_lookup(out@);
            assert forall|k: u64| #[trigger] table_map(out@).contains_key(k) <==> m.contains_key(k) by {
                if m.contains_key(k) {
                    assert(ks@.contains(k));
                    let j = choose|j: int| 0 <= j < ks@.len() && ks@[j] == k;
                    assert(out@[j].0 == k);
                }
                if table_map(out@).contains_key(k) {
                    let j = choose|j: int| 0 <= j < out@.len() && out@[j].0 == k;
                    assert(ks@[j] == k);
                    assert(ks@.contains(k));
                }
            }
            assert forall|k: u64| #[trigger] table_map(out@).contains_key(k) implies table_map(out@)[k] == m[k] by {
                let j = choose|j: int| 0 <= j < out@.len() && out@[j].0 == k;
                assert(table_map(out@)[out@[j].0] == out@[j].1);
            }
            assert(table_map(out@) =~= m);
        }
        out
    }
}

} // verus!
