//! A small association map from `u64` keys to values. It is the library's
//! model of one keyed record group inside the host's persistent key-value
//! storage; its abstract contents are a `Map<u64, V>`.

use vstd::prelude::*;

verus! {

/// A map from `u64` keys to values, backed by a vector of entries whose
/// keys are pairwise distinct.
pub struct KvMap<V> {
    entries: Vec<(u64, V)>,
}

impl<V> View for KvMap<V> {
    type V = Map<u64, V>;

    closed spec fn view(&self) -> Map<u64, V> {
        KvMap::<V>::map_of(self.entries@)
    }
}

impl<V> KvMap<V> {
    /// The abstract contents of an entry sequence, inserted entry by entry.
    spec fn map_of(s: Seq<(u64, V)>) -> Map<u64, V>
        decreases s.len(),
    {
        if s.len() == 0 {
            Map::empty()
        } else {
            KvMap::<V>::map_of(s.drop_last()).insert(s.last().0, s.last().1)
        }
    }

    /// Entry keys are pairwise distinct.
    spec fn keys_unique(s: Seq<(u64, V)>) -> bool {
        forall|i: int, j: int| 0 <= i < j < s.len() ==> s[i].0 != s[j].0
    }

    /// The map is well formed: no key occurs in two entries.
    pub closed spec fn wf(&self) -> bool {
        KvMap::<V>::keys_unique(self.entries@)
    }

    /// A key is in the abstract contents exactly when some entry holds it.
    proof fn lemma_map_of_contains(s: Seq<(u64, V)>, k: u64)
        ensures
            KvMap::<V>::map_of(s).contains_key(k) <==> (exists|i: int|
                0 <= i < s.len() && s[i].0 == k),
        decreases s.len(),
    {
        if s.len() > 0 {
            let t = s.drop_last();
            KvMap::<V>::lemma_map_of_contains(t, k);
            if s.last().0 == k {
                assert(s[s.len() - 1].0 == k);
            } else {
                if KvMap::<V>::map_of(s).contains_key(k) {
                    let i = choose|i: int| 0 <= i < t.len() && t[i].0 == k;
                    assert(s[i].0 == k);
                }
                if exists|i: int| 0 <= i < s.len() && s[i].0 == k {
                    let i = choose|i: int| 0 <= i < s.len() && s[i].0 == k;
                    assert(t[i].0 == k);
                }
            }
        }
    }

    /// With distinct keys, each entry gives the abstract value of its key.
    proof fn lemma_map_of_index(s: Seq<(u64, V)>, i: int)
        requires
            KvMap::<V>::keys_unique(s),
            0 <= i < s.len(),
        ensures
            KvMap::<V>::map_of(s).contains_key(s[i].0),
            KvMap::<V>::map_of(s)[s[i].0] == s[i].1,
        decreases s.len(),
    {
        let t = s.drop_last();
        if i < s.len() - 1 {
            KvMap::<V>::lemma_map_of_index(t, i);
            assert(s[i].0 != s.last().0);
        }
    }

    /// Replacing the value of entry `i` inserts over the entry's key.
    proof fn lemma_map_of_update(s: Seq<(u64, V)>, i: int, v: V)
        requires
            KvMap::<V>::keys_unique(s),
            0 <= i < s.len(),
        ensures
            KvMap::<V>::map_of(s.update(i, (s[i].0, v))) == KvMap::<V>::map_of(s).insert(
                s[i].0,
                v,
            ),
            KvMap::<V>::keys_unique(s.update(i, (s[i].0, v))),
        decreases s.len(),
    {
        let k = s[i].0;
        let s2 = s.update(i, (k, v));
        let t = s.drop_last();
        if i == s.len() - 1 {
            assert(s2.drop_last() =~= t);
            assert(KvMap::<V>::map_of(s2) =~= KvMap::<V>::map_of(s).insert(k, v));
        } else {
            assert(s2.drop_last() =~= t.update(i, (k, v)));
            KvMap::<V>::lemma_map_of_update(t, i, v);
            assert(s.last().0 != k);
            assert(KvMap::<V>::map_of(s2) =~= KvMap::<V>::map_of(s).insert(k, v));
        }
    }

    /// Removing entry `i` removes the entry's key from the contents.
    proof fn lemma_map_of_remove(s: Seq<(u64, V)>, i: int)
        requires
            KvMap::<V>::keys_unique(s),
            0 <= i < s.len(),
        ensures
            KvMap::<V>::map_of(s.remove(i)) == KvMap::<V>::map_of(s).remove(s[i].0),
            KvMap::<V>::keys_unique(s.remove(i)),
        decreases s.len(),
    {
        let k = s[i].0;
        let t = s.drop_last();
        if i == s.len() - 1 {
            assert(s.remove(i) =~= t);
            KvMap::<V>::lemma_map_of_contains(t, k);
            assert(forall|j: int| 0 <= j < t.len() ==> t[j].0 != k);
            assert(!KvMap::<V>::map_of(t).contains_key(k));
            assert(KvMap::<V>::map_of(s.remove(i)) =~= KvMap::<V>::map_of(s).remove(k));
        } else {
            assert(s.remove(i).drop_last() =~= t.remove(i));
            assert(s.remove(i).last() == s.last());
            KvMap::<V>::lemma_map_of_remove(t, i);
            assert(s.last().0 != k);
            assert(KvMap::<V>::map_of(s.remove(i)) =~= KvMap::<V>::map_of(s).remove(k));
        }
    }

    /// An empty map.
    pub fn new() -> (m: Self)
        ensures
            m.wf(),
            m@ == Map::<u64, V>::empty(),
    {
        KvMap { entries: Vec::new() }
    }

    /// The index of the entry that holds `key`, if any.
    fn index_of(&self, key: u64) -> (r: Option<usize>)
        ensures
            match r {
                Some(i) => i < self.entries@.len() && self.entries@[i as int].0 == key,
                None => forall|i: int| 0 <= i < self.entries@.len() ==> self.entries@[i].0 != key,
            },
    {
        let n = self.entries.len();
        let mut j: usize = 0;
        while j < n
            invariant
                j <= n,
                n == self.entries@.len(),
                forall|i: int| 0 <= i < j ==> self.entries@[i].0 != key,
            decreases n - j,
        {
            if self.entries[j].0 == key {
                return Some(j);
            }
            j = j + 1;
        }
        None
    }

    /// The value stored under `key`, if any.
    pub fn get(&self, key: u64) -> (r: Option<&V>)
        requires
            self.wf(),
        ensures
            match r {
                Some(v) => self@.contains_key(key) && *v == self@[key],
                None => !self@.contains_key(key),
            },
    {
        proof {
            KvMap::<V>::lemma_map_of_contains(self.entries@, key);
        }
        match self.index_of(key) {
            Some(i) => {
                proof {
                    KvMap::<V>::lemma_map_of_index(self.entries@, i as int);
                }
                Some(&self.entries[i].1)
            },
            None => None,
        }
    }

    /// Store `value` under `key`, replacing any previous value.
    pub fn set(&mut self, key: u64, value: V)
        requires
            old(self).wf(),
        ensures
            final(self).wf(),
            final(self)@ == old(self)@.insert(key, value),
    {
        match self.index_of(key) {
            Some(i) => {
                proof {
                    KvMap::<V>::lemma_map_of_update(self.entries@, i as int, value);
                }
                let k = self.entries[i].0;
                self.entries.set(i, (k, value));
            },
            None => {
                proof {
                    let s = self.entries@;
                    assert(s.push((key, value)).drop_last() =~= s);
                    assert(KvMap::<V>::keys_unique(s.push((key, value))));
                }
                self.entries.push((key, value));
            },
        }
    }

    /// Delete the entry under `key`, if there is one.
    pub fn remove(&mut self, key: u64)
        requires
            old(self).wf(),
        ensures
            final(self).wf(),
            final(self)@ == old(self)@.remove(key),
    {
        proof {
            KvMap::<V>::lemma_map_of_contains(self.entries@, key);
        }
        match self.index_of(key) {
            Some(i) => {
                proof {
                    KvMap::<V>::lemma_map_of_remove(self.entries@, i as int);
                }
                self.entries.remove(i);
            },
            None => {
                proof {
                    assert(self@.remove(key) =~= self@);
                }
            },
        }
    }
}

} // verus!
