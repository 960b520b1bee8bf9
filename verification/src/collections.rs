//! Keyed collections used by the analysis context.
//!
//! `KeyMap` is an insertion-ordered map whose keys are compared by their
//! contents; its view is a mathematical map from key values to value values.
//! The analysis keys its maps by names; vstd specifies std's hash maps for keys
//! whose hashing obeys its key model, which does not take in `String` keys, so
//! the lookups here are verified against the key contents instead.

use vstd::prelude::*;

verus! {

/// A key that can be compared and duplicated by its contents.
pub trait MapKey: DeepView + Sized {
    fn same_key(&self, other: &Self) -> (r: bool)
        ensures
            r == (self.deep_view() == other.deep_view()),
    ;

    fn copy_key(&self) -> (r: Self)
        ensures
            r.deep_view() == self.deep_view(),
    ;
}

impl MapKey for String {
    fn same_key(&self, other: &Self) -> (r: bool) {
        *self == *other
    }

    fn copy_key(&self) -> (r: Self) {
        self.clone()
    }
}

impl MapKey for (String, String) {
    fn same_key(&self, other: &Self) -> (r: bool) {
        self.0 == other.0 && self.1 == other.1
    }

    fn copy_key(&self) -> (r: Self) {
        (self.0.clone(), self.1.clone())
    }
}

/// An insertion-ordered map with content-compared keys.
pub struct KeyMap<K, Val> {
    entries: Vec<(K, Val)>,
}

impl<K: MapKey, Val: DeepView> KeyMap<K, Val> {
    /// The keys in insertion order.
    pub closed spec fn key_seq(&self) -> Seq<K::V> {
        self.entries@.map_values(|e: (K, Val)| e.0.deep_view())
    }

    /// The values, in the order of their keys.
    pub closed spec fn value_seq(&self) -> Seq<Val::V> {
        self.entries@.map_values(|e: (K, Val)| e.1.deep_view())
    }

    /// No key occurs twice.
    pub closed spec fn wf(&self) -> bool {
        self.key_seq().no_duplicates()
    }

    /// The map from each key to its value.
    pub closed spec fn as_map(&self) -> Map<K::V, Val::V> {
        Map::new(
            |k: K::V| self.key_seq().contains(k),
            |k: K::V| self.value_seq()[self.key_seq().index_of(k)],
        )
    }

    /// Each position of the key sequence holds a key of the map, with its value.
    pub proof fn lemma_index(&self, i: int)
        requires
            self.wf(),
            0 <= i < self.key_seq().len(),
        ensures
            self.as_map().contains_key(self.key_seq()[i]),
            self.as_map()[self.key_seq()[i]] == self.value_seq()[i],
            self.value_seq().len() == self.key_seq().len(),
    {
        let k = self.key_seq()[i];
        assert(self.key_seq().contains(k));
        let j = self.key_seq().index_of(k);
        assert(self.key_seq()[j] == k);
    }

    /// No key occurs twice in the key sequence.
    pub proof fn lemma_keys_distinct(&self)
        requires
            self.wf(),
        ensures
            forall|a: int, b: int| 0 <= a < b < self.key_seq().len() ==> self.key_seq()[a] != self.key_seq()[b],
    {
    }

    /// The keys of the map are exactly the entries of the key sequence.
    pub proof fn lemma_domain(&self)
        requires
            self.wf(),
        ensures
            forall|k: K::V| #[trigger] self.as_map().contains_key(k) <==> self.key_seq().contains(k),
            self.value_seq().len() == self.key_seq().len(),
            forall|i: int| 0 <= i < self.key_seq().len() ==> #[trigger] self.as_map()[self.key_seq()[i]] == self.value_seq()[i],
    {
        assert forall|i: int| 0 <= i < self.key_seq().len() implies #[trigger] self.as_map()[self.key_seq()[i]] == self.value_seq()[i] by {
            self.lemma_index(i);
        }
    }

    pub fn new() -> (r: Self)
        ensures
            r.wf(),
            r.as_map() == Map::<K::V, Val::V>::empty(),
            r.key_seq() == Seq::<K::V>::empty(),
            r.value_seq() == Seq::<Val::V>::empty(),
    {
        let r = KeyMap { entries: Vec::new() };
        assert(r.key_seq() =~= Seq::<K::V>::empty());
        assert(r.value_seq() =~= Seq::<Val::V>::empty());
        assert(r.as_map() =~= Map::<K::V, Val::V>::empty());
        r
    }

    pub fn len(&self) -> (r: usize)
        ensures
            r == self.key_seq().len(),
            r == self.value_seq().len(),
    {
        self.entries.len()
    }

    fn find(&self, k: &K) -> (r: Option<usize>)
        requires
            self.wf(),
        ensures
            r matches Some(i) ==> i < self.key_seq().len() && self.key_seq()[i as int] == k.deep_view(),
            r is None ==> !self.key_seq().contains(k.deep_view()),
    {
        let mut i: usize = 0;
        while i < self.entries.len()
            invariant
                0 <= i <= self.entries@.len(),
                forall|j: int| 0 <= j < i ==> self.key_seq()[j] != k.deep_view(),
            decreases self.entries@.len() - i,
        {
            if self.entries[i].0.same_key(k) {
                return Some(i);
            }
            i = i + 1;
        }
        None
    }

    pub fn key_at(&self, i: usize) -> (r: &K)
        requires
            i < self.key_seq().len(),
        ensures
            r.deep_view() == self.key_seq()[i as int],
    {
        &self.entries[i].0
    }

    pub fn value_at(&self, i: usize) -> (r: &Val)
        requires
            i < self.key_seq().len(),
        ensures
            r.deep_view() == self.value_seq()[i as int],
    {
        &self.entries[i].1
    }

    pub fn contains_key(&self, k: &K) -> (r: bool)
        requires
            self.wf(),
        ensures
            r == self.as_map().contains_key(k.deep_view()),
    {
        self.find(k).is_some()
    }

    pub fn get(&self, k: &K) -> (r: Option<&Val>)
        requires
            self.wf(),
        ensures
            r.is_some() == self.as_map().contains_key(k.deep_view()),
            r matches Some(v) ==> v.deep_view() == self.as_map()[k.deep_view()],
    {
        match self.find(k) {
            Some(i) => {
                proof {
                    self.lemma_index(i as int);
                }
                Some(&self.entries[i].1)
            },
            None => None,
        }
    }

    /// Sets the value of `k`: an existing key keeps its position, a new key goes last.
    pub fn insert(&mut self, k: K, v: Val)
        requires
            old(self).wf(),
        ensures
            final(self).wf(),
            final(self).as_map() == old(self).as_map().insert(k.deep_view(), v.deep_view()),
            old(self).key_seq().contains(k.deep_view()) ==> final(self).key_seq() == old(self).key_seq(),
            !old(self).key_seq().contains(k.deep_view()) ==> final(self).key_seq() == old(self).key_seq().push(k.deep_view()),
    {
        let ghost kv = k.deep_view();
        let ghost vv = v.deep_view();
        let ghost old_keys = self.key_seq();
        let ghost old_vals = self.value_seq();
        match self.find(&k) {
            Some(i) => {
                self.entries.set(i, (k, v));
                assert(self.key_seq() =~= old_keys);
                assert(self.key_seq()[i as int] == kv);
                assert(self.key_seq().contains(kv));
                assert(self.value_seq() =~= old_vals.update(i as int, vv));
            },
            None => {
                self.entries.push((k, v));
                assert(self.key_seq() =~= old_keys.push(kv));
                assert(self.key_seq()[old_keys.len() as int] == kv);
                assert(self.key_seq().contains(kv));
                assert(self.value_seq() =~= old_vals.push(vv));
                assert forall|a: int, b: int| 0 <= a < b < self.key_seq().len() implies self.key_seq()[a] != self.key_seq()[b] by {
                    if b == old_keys.len() {
                        assert(old_keys[a] == self.key_seq()[a]);
                    }
                }
            },
        }
        proof {
            self.lemma_domain();
            old(self).lemma_domain();
            assert forall|key: K::V| #[trigger] self.as_map().contains_key(key) <==> old(self).as_map().insert(kv, vv).contains_key(key) by {
                if key != kv && self.key_seq().contains(key) {
                    let j = choose|j: int| 0 <= j < self.key_seq().len() && self.key_seq()[j] == key;
                    assert(old_keys[j] == key);
                }
                if old_keys.contains(key) {
                    let j = choose|j: int| 0 <= j < old_keys.len() && old_keys[j] == key;
                    assert(self.key_seq()[j] == key);
                }
            }
            assert forall|key: K::V| #[trigger] self.as_map().contains_key(key) implies self.as_map()[key] == old(self).as_map().insert(kv, vv)[key] by {
                let j = choose|j: int| 0 <= j < self.key_seq().len() && self.key_seq()[j] == key;
                if key == kv {
                    assert(self.value_seq()[j] == vv);
                } else {
                    assert(old_keys[j] == key);
                    assert(self.value_seq()[j] == old_vals[j]);
                }
            }
            assert(self.as_map() =~= old(self).as_map().insert(kv, vv));
        }
    }

    /// Sets the value of `k` only when `k` has none yet.
    pub fn insert_if_absent(&mut self, k: K, v: Val)
        requires
            old(self).wf(),
        ensures
            final(self).wf(),
            old(self).as_map().contains_key(k.deep_view()) ==> final(self).as_map() == old(self).as_map(),
            !old(self).as_map().contains_key(k.deep_view()) ==> final(self).as_map() == old(self).as_map().insert(k.deep_view(), v.deep_view()),
    {
        if !self.contains_key(&k) {
            self.insert(k, v);
        }
    }

    /// Removes `k`, handing back its value; the other keys keep their order.
    pub fn remove(&mut self, k: &K) -> (r: Option<Val>)
        requires
            old(self).wf(),
        ensures
            final(self).wf(),
            final(self).as_map() == old(self).as_map().remove(k.deep_view()),
            r.is_some() == old(self).as_map().contains_key(k.deep_view()),
            r matches Some(v) ==> v.deep_view() == old(self).as_map()[k.deep_view()],
    {
        let ghost kv = k.deep_view();
        let ghost old_keys = self.key_seq();
        let ghost old_vals = self.value_seq();
        proof {
            old(self).lemma_domain();
        }
        match self.find(k) {
            Some(i) => {
                proof {
                    old(self).lemma_index(i as int);
                }
                let (_, v) = self.entries.remove(i);
                assert(self.key_seq() =~= old_keys.remove(i as int));
                assert(self.value_seq() =~= old_vals.remove(i as int));
                proof {
                    assert forall|a: int, b: int| 0 <= a < b < self.key_seq().len() implies self.key_seq()[a] != self.key_seq()[b] by {
                        let a2 = if a < i { a } else { a + 1 };
                        let b2 = if b < i { b } else { b + 1 };
                        assert(self.key_seq()[a] == old_keys[a2]);
                        assert(self.key_seq()[b] == old_keys[b2]);
                    }
                    self.lemma_domain();
                    assert forall|key: K::V| #[trigger] self.as_map().contains_key(key) <==> old(self).as_map().remove(kv).contains_key(key) by {
                        if self.key_seq().contains(key) {
                            let j = choose|j: int| 0 <= j < self.key_seq().len() && self.key_seq()[j] == key;
                            let j2 = if j < i { j } else { j + 1 };
                            assert(old_keys[j2] == key);
                            assert(j2 != i);
                        }
                        if old_keys.contains(key) && key != kv {
                            let j = choose|j: int| 0 <= j < old_keys.len() && old_keys[j] == key;
                            assert(j != i);
                            let j2 = if j < i { j } else { j - 1 };
                            assert(self.key_seq()[j2] == key);
                        }
                    }
                    assert forall|key: K::V| #[trigger] self.as_map().contains_key(key) implies self.as_map()[key] == old(self).as_map().remove(kv)[key] by {
                        let j = choose|j: int| 0 <= j < self.key_seq().len() && self.key_seq()[j] == key;
                        let j2 = if j < i { j } else { j + 1 };
                        assert(old_keys[j2] == key);
                        assert(self.value_seq()[j] == old_vals[j2]);
                    }
                    assert(self.as_map() =~= old(self).as_map().remove(kv));
                }
                Some(v)
            },
            None => {
                assert(self.as_map() =~= old(self).as_map().remove(kv));
                None
            },
        }
    }

    /// Replacing the value at position `i` keeps the keys and sets that key's value.
    proof fn lemma_value_update(a: Self, b: Self, i: int)
        requires
            a.wf(),
            0 <= i < a.entries@.len(),
            b.entries@.len() == a.entries@.len(),
            b.entries@[i].0 == a.entries@[i].0,
            forall|j: int| 0 <= j < a.entries@.len() && j != i ==> b.entries@[j] == a.entries@[j],
        ensures
            b.wf(),
            b.key_seq() == a.key_seq(),
            b.as_map() == a.as_map().insert(a.key_seq()[i], b.value_seq()[i]),
    {
        assert(b.key_seq() =~= a.key_seq());
        a.lemma_domain();
        b.lemma_domain();
        assert(b.value_seq() =~= a.value_seq().update(i, b.value_seq()[i]));
        let kv = a.key_seq()[i];
        assert(a.key_seq().contains(kv));
        assert forall|key: K::V| #[trigger] b.as_map().contains_key(key) implies b.as_map()[key] == a.as_map().insert(kv, b.value_seq()[i])[key] by {
            let j = choose|j: int| 0 <= j < b.key_seq().len() && b.key_seq()[j] == key;
            if j != i {
                assert(key != kv);
            }
        }
        assert(b.as_map() =~= a.as_map().insert(kv, b.value_seq()[i]));
    }

    /// A mutable reference to the value of `k`; the keys stay as they are.
    pub fn get_mut(&mut self, k: &K) -> (r: Option<&mut Val>)
        requires
            old(self).wf(),
        ensures
            r.is_some() == old(self).as_map().contains_key(k.deep_view()),
            r matches Some(v) ==> v.deep_view() == old(self).as_map()[k.deep_view()],
            r matches Some(v) ==> final(self).wf(),
            r matches Some(v) ==> final(self).key_seq() == old(self).key_seq(),
            r matches Some(v) ==> final(self).as_map() == old(self).as_map().insert(k.deep_view(), final(v).deep_view()),
            r is None ==> *final(self) == *old(self),
    {
        match self.find(k) {
            Some(i) => {
                proof {
                    old(self).lemma_index(i as int);
                    let a = *old(self);
                    assert forall|b: Self|
                        b.entries@.len() == a.entries@.len() && b.entries@[i as int].0 == a.entries@[i as int].0
                            && (forall|j: int| 0 <= j < a.entries@.len() && j != i ==> b.entries@[j] == a.entries@[j])
                        implies #[trigger] b.wf() && b.key_seq() == a.key_seq()
                            && b.as_map() == a.as_map().insert(a.key_seq()[i as int], b.value_seq()[i as int]) by {
                        Self::lemma_value_update(a, b, i as int);
                    }
                }
                let entry = &mut self.entries[i];
                Some(&mut entry.1)
            },
            None => None,
        }
    }
}

impl<K: MapKey, Val: DeepView> KeyMap<K, Val> {
    /// The values, in the order of their keys.
    pub fn into_values(self) -> (r: Vec<Val>)
        ensures
            r.deep_view() == self.value_seq(),
    {
        let ghost vals = self.value_seq();
        let mut entries = self.entries;
        let ghost all = entries@;
        let mut out: Vec<Val> = Vec::new();
        let mut i: usize = 0;
        let n = entries.len();
        assert(all.skip(0) =~= all);
        while i < n
            invariant
                n == all.len(),
                vals == all.map_values(|e: (K, Val)| e.1.deep_view()),
                0 <= i <= n,
                entries@ == all.skip(i as int),
                out.deep_view() == vals.take(i as int),
            decreases n - i,
        {
            let (_, v) = entries.remove(0);
            let ghost before = out.deep_view();
            let ghost vv = v.deep_view();
            out.push(v);
            assert(out.deep_view() =~= before.push(vv));
            assert(vals.take(i + 1) =~= vals.take(i as int).push(vals[i as int]));
            assert(entries@ =~= all.skip(i + 1));
            i = i + 1;
        }
        assert(vals.take(n as int) =~= vals);
        out
    }
}

impl<K: MapKey, Val: DeepView> DeepView for KeyMap<K, Val> {
    type V = Map<K::V, Val::V>;

    open spec fn deep_view(&self) -> Map<K::V, Val::V> {
        self.as_map()
    }
}

} // verus!
