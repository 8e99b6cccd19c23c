//! A small string-keyed table held as a vector of distinct keys.
use vstd::prelude::*;

verus! {

/// An association list from string keys to values, with no key repeated.
#[derive(Debug)]
pub struct KeyedVec<V> {
    items: Vec<(String, V)>,
}

/// Whether some entry of `items` has the key `k`.
pub open spec fn has_key_at<V>(items: Seq<(String, V)>, k: Seq<char>) -> bool {
    exists|i: int| 0 <= i < items.len() && (#[trigger] items[i]).0@ == k
}

impl<V> KeyedVec<V> {
    /// No key occurs twice.
    #[verifier::type_invariant]
    pub closed spec fn distinct_keys(self) -> bool {
        forall|i: int, j: int|
            0 <= i < self.items.len() && 0 <= j < self.items.len() && i != j
                ==> (#[trigger] self.items[i]).0@ != (#[trigger] self.items[j]).0@
    }

    /// The entries in their order of insertion.
    pub closed spec fn entries(self) -> Seq<(String, V)> {
        self.items@
    }

    /// The table as a map from key to value.
    pub open spec fn view(self) -> Map<Seq<char>, V> {
        Map::new(
            |k: Seq<char>| has_key_at(self.entries(), k),
            |k: Seq<char>|
                self.entries()[choose|i: int|
                    0 <= i < self.entries().len() && (#[trigger] self.entries()[i]).0@ == k].1,
        )
    }

    proof fn lemma_entry_in_view(self, i: int)
        requires
            self.distinct_keys(),
            0 <= i < self.entries().len(),
        ensures
            self@.contains_key(self.entries()[i].0@),
            self@[self.entries()[i].0@] == self.entries()[i].1,
    {
        let k = self.entries()[i].0@;
        assert(has_key_at(self.entries(), k));
        let j = choose|j: int| 0 <= j < self.entries().len() && (#[trigger] self.entries()[j]).0@ == k;
        assert(self.items[j].0@ == self.items[i].0@);
    }

    pub fn new() -> (r: Self)
        ensures
            r@ == Map::<Seq<char>, V>::empty(),
    {
        let r = KeyedVec { items: Vec::new() };
        assert(r@ =~= Map::<Seq<char>, V>::empty());
        r
    }

    pub fn len(&self) -> (r: usize)
        ensures
            r == self.entries().len(),
            r == self@.len(),
    {
        proof {
            use_type_invariant(self);
            self.lemma_len();
        }
        self.items.len()
    }

    proof fn lemma_len(self)
        requires
            self.distinct_keys(),
        ensures
            self@.dom().len() == self.entries().len(),
        decreases self.entries().len(),
    {
        let n = self.entries().len() as int;
        let keys = Seq::new(n as nat, |i: int| self.entries()[i].0@);
        assert(keys.no_duplicates());
        assert(self@.dom() =~= keys.to_set()) by {
            assert forall|k: Seq<char>| self@.dom().contains(k) implies keys.to_set().contains(k) by {
                let i = choose|i: int| 0 <= i < n && (#[trigger] self.entries()[i]).0@ == k;
                assert(keys[i] == k);
            }
            assert forall|k: Seq<char>| keys.to_set().contains(k) implies self@.dom().contains(k) by {
                let i = choose|i: int| 0 <= i < keys.len() && keys[i] == k;
                assert(has_key_at(self.entries(), k));
            }
        }
        keys.unique_seq_to_set();
    }

    /// Whether the table holds no entry.
    pub fn is_empty(&self) -> (r: bool)
        ensures
            r == (self@ == Map::<Seq<char>, V>::empty()),
    {
        if self.items.len() == 0 {
            assert(self@ =~= Map::<Seq<char>, V>::empty());
            true
        } else {
            proof {
                use_type_invariant(self);
                self.lemma_entry_in_view(0);
                assert(!Map::<Seq<char>, V>::empty().contains_key(self.entries()[0].0@));
            }
            false
        }
    }

    /// The key and value stored at position `i`.
    pub fn entry(&self, i: usize) -> (r: (&String, &V))
        requires
            i < self.entries().len(),
        ensures
            *r.0 == self.entries()[i as int].0,
            *r.1 == self.entries()[i as int].1,
            self@.contains_key(r.0@),
            self@[r.0@] == *r.1,
    {
        proof {
            use_type_invariant(self);
            self.lemma_entry_in_view(i as int);
        }
        let e = &self.items[i];
        (&e.0, &e.1)
    }

    /// The position of `key`, if it is present.
    fn position(&self, key: &String) -> (r: Option<usize>)
        ensures
            match r {
                Some(i) => i < self.entries().len() && self.entries()[i as int].0@ == key@,
                None => !self@.contains_key(key@),
            },
    {
        let mut i: usize = 0;
        while i < self.items.len()
            invariant
                i <= self.items.len(),
                forall|j: int| 0 <= j < i ==> (#[trigger] self.items[j]).0@ != key@,
            decreases self.items.len() - i,
        {
            if self.items[i].0 == *key {
                return Some(i);
            }
            i = i + 1;
        }
        None
    }

    /// Whether `key` is present.
    pub fn contains_key(&self, key: &str) -> (r: bool)
        ensures
            r == self@.contains_key(key@),
    {
        let owned = key.to_owned();
        self.position(&owned).is_some()
    }

    /// The value stored under `key`, if any.
    pub fn get(&self, key: &str) -> (r: Option<&V>)
        ensures
            match r {
                Some(v) => self@.contains_key(key@) && self@[key@] == *v,
                None => !self@.contains_key(key@),
            },
    {
        proof {
            use_type_invariant(self);
        }
        let owned = key.to_owned();
        match self.position(&owned) {
            Some(i) => {
                proof {
                    self.lemma_entry_in_view(i as int);
                }
                Some(&self.items[i].1)
            },
            None => None,
        }
    }

    /// Stores `value` under `key`, replacing what was there.
    pub fn insert(&mut self, key: String, value: V)
        ensures
            final(self)@ == old(self)@.insert(key@, value),
    {
        proof {
            use_type_invariant(&*self);
        }
        let ghost k = key@;
        let ghost v = value;
        let ghost before = self.items@;
        let ghost p: int;
        let found = self.position(&key);
        let mut taken = KeyedVec { items: Vec::new() };
        std::mem::swap(self, &mut taken);
        let mut items = taken.items;
        match found {
            Some(i) => {
                items.set(i, (key, value));
                proof {
                    p = i as int;
                }
            },
            None => {
                items.push((key, value));
                proof {
                    p = before.len() as int;
                }
            },
        }
        proof {
            let after = items@;
            assert(after[p].0@ == k && after[p].1 == v);
            assert forall|a: int, b: int|
                0 <= a < after.len() && 0 <= b < after.len() && a != b implies
                (#[trigger] after[a]).0@ != (#[trigger] after[b]).0@ by {
                if a != p && b != p {
                    assert(before[a].0@ != before[b].0@);
                } else if a == p {
                    assert(after[b] == before[b]);
                    if p < before.len() {
                        assert(before[p].0@ != before[b].0@);
                    } else {
                        assert(!has_key_at(before, k));
                    }
                } else {
                    assert(after[a] == before[a]);
                    if p < before.len() {
                        assert(before[p].0@ != before[a].0@);
                    } else {
                        assert(!has_key_at(before, k));
                    }
                }
            }
        }
        *self = KeyedVec { items };
        proof {
            let after = self.items@;
            assert(after[p].0@ == k && after[p].1 == v);
            assert forall|j: int| 0 <= j < after.len() && j != p implies after[j] == before[j]
                && 0 <= j < before.len() by {}
            assert forall|j: int| 0 <= j < before.len() && before[j].0@ != k implies after[j]
                == before[j] by {}
            let target = old(self)@.insert(k, v);
            assert forall|q: Seq<char>| #[trigger] self@.contains_key(q) == target.contains_key(q)
                && (self@.contains_key(q) ==> self@[q] == target[q]) by {
                if q == k {
                    self.lemma_entry_in_view(p);
                } else {
                    if self@.contains_key(q) {
                        let j = choose|j: int| 0 <= j < after.len() && (#[trigger] after[j]).0@ == q;
                        self.lemma_entry_in_view(j);
                        old(self).lemma_entry_in_view(j);
                    }
                    if old(self)@.contains_key(q) {
                        let j = choose|j: int| 0 <= j < before.len() && (#[trigger] before[j]).0@ == q;
                        self.lemma_entry_in_view(j);
                        old(self).lemma_entry_in_view(j);
                    }
                }
            }
            assert(self@ =~= target);
        }
    }

    /// Removes every entry.
    pub fn clear(&mut self)
        ensures
            final(self)@ == Map::<Seq<char>, V>::empty(),
    {
        *self = KeyedVec { items: Vec::new() };
        assert(self@ =~= Map::<Seq<char>, V>::empty());
    }
}

} // verus!
