//! A small map from text keys to values, kept in insertion order.
//!
//! The gateway's tables (buckets, ledgers, provider metrics) are keyed by
//! short ids and hold a handful of entries; a vector with distinct keys
//! serves them, and its contents are a `Map` in every contract.

use vstd::prelude::*;

verus! {

/// A map from text keys to values. No key occurs twice.
pub struct TextMap<V> {
    entries: Vec<(String, V)>,
}

/// The texts of the first `n` of the keys.
pub open spec fn key_texts(keys: Seq<String>, n: int) -> Set<Seq<char>> {
    Set::new(|k: Seq<char>| exists|t: int| 0 <= t < n && (#[trigger] keys[t])@ == k)
}

/// Whether entry `i` has the key `key`.
pub open spec fn keyed<V>(entries: Seq<(String, V)>, key: Seq<char>, i: int) -> bool {
    0 <= i < entries.len() && entries[i].0@ == key
}

impl<V> TextMap<V> {
    #[verifier::type_invariant]
    spec fn distinct_keys(self) -> bool {
        forall|i: int, j: int|
            0 <= i < j < self.entries@.len() ==> self.entries@[i].0@ != self.entries@[j].0@
    }

    /// The entries in insertion order, each key by its text.
    pub closed spec fn listing(self) -> Seq<(Seq<char>, V)> {
        Seq::new(self.entries@.len(), |i: int| (self.entries@[i].0@, self.entries@[i].1))
    }

    /// The contents.
    pub closed spec fn view(self) -> Map<Seq<char>, V> {
        Map::new(
            |k: Seq<char>| exists|i: int| keyed(self.entries@, k, i),
            |k: Seq<char>| self.entries@[choose|i: int| keyed(self.entries@, k, i)].1,
        )
    }

    proof fn lemma_entry(self, i: int)
        requires
            self.distinct_keys(),
            0 <= i < self.entries@.len(),
        ensures
            self@.contains_key(self.entries@[i].0@),
            self@[self.entries@[i].0@] == self.entries@[i].1,
    {
        let k = self.entries@[i].0@;
        assert(keyed(self.entries@, k, i));
        let c = choose|c: int| keyed(self.entries@, k, c);
        assert(c == i);
    }

    spec fn key_set(entries: Seq<(String, V)>) -> Set<Seq<char>> {
        Set::new(|k: Seq<char>| exists|i: int| keyed(entries, k, i))
    }

    proof fn lemma_count(entries: Seq<(String, V)>)
        requires
            forall|i: int, j: int| 0 <= i < j < entries.len() ==> entries[i].0@ != entries[j].0@,
        ensures
            Self::key_set(entries).finite(),
            Self::key_set(entries).len() == entries.len(),
        decreases entries.len(),
    {
        if entries.len() == 0 {
            assert(Self::key_set(entries) =~= Set::empty());
        } else {
            let head = entries.drop_last();
            let last = entries.last().0@;
            Self::lemma_count(head);
            assert(Self::key_set(entries) =~= Self::key_set(head).insert(last)) by {
                assert forall|k: Seq<char>| Self::key_set(entries).contains(k) implies Self::key_set(
                    head,
                ).insert(last).contains(k) by {
                    let i = choose|i: int| keyed(entries, k, i);
                    if i < head.len() {
                        assert(keyed(head, k, i));
                    }
                }
                assert forall|k: Seq<char>| Self::key_set(head).insert(last).contains(
                    k,
                ) implies Self::key_set(entries).contains(k) by {
                    if k == last {
                        assert(keyed(entries, k, entries.len() - 1));
                    } else {
                        let i = choose|i: int| keyed(head, k, i);
                        assert(keyed(entries, k, i));
                    }
                }
            }
            assert(!Self::key_set(head).contains(last)) by {
                if Self::key_set(head).contains(last) {
                    let i = choose|i: int| keyed(head, last, i);
                    assert(entries[i].0@ == entries[entries.len() - 1].0@);
                }
            }
        }
    }

    /// An empty map.
    pub fn new() -> (m: Self)
        ensures
            m@ == Map::<Seq<char>, V>::empty(),
            m.listing().len() == 0,
    {
        let m = TextMap { entries: Vec::new() };
        assert(m@ =~= Map::<Seq<char>, V>::empty());
        m
    }

    /// How many keys the map holds. The listing holds each key of the
    /// contents once, with its value, and nothing else.
    pub fn len(&self) -> (n: usize)
        ensures
            n == self.listing().len(),
            self@.dom().finite(),
            n == self@.dom().len(),
            forall|i: int|
                0 <= i < self.listing().len() ==> self@.contains_key(#[trigger] self.listing()[i].0)
                    && self@[self.listing()[i].0] == self.listing()[i].1,
            forall|i: int, j: int|
                0 <= i < j < self.listing().len() ==> self.listing()[i].0 != self.listing()[j].0,
            forall|k: Seq<char>|
                self@.contains_key(k) ==> exists|i: int|
                    0 <= i < self.listing().len() && #[trigger] self.listing()[i].0 == k,
    {
        proof {
            use_type_invariant(self);
            assert forall|i: int| 0 <= i < self.listing().len() implies self@.contains_key(
                #[trigger] self.listing()[i].0,
            ) && self@[self.listing()[i].0] == self.listing()[i].1 by {
                self.lemma_entry(i);
            }
            assert forall|k: Seq<char>| self@.contains_key(k) implies exists|i: int|
                0 <= i < self.listing().len() && #[trigger] self.listing()[i].0 == k by {
                let i = choose|i: int| keyed(self.entries@, k, i);
                assert(self.listing()[i].0 == k);
            }
            Self::lemma_count(self.entries@);
            assert(self@.dom() =~= Self::key_set(self.entries@));
        }
        self.entries.len()
    }

    fn position(&self, key: &str) -> (r: Option<usize>)
        ensures
            match r {
                Some(i) => keyed(self.entries@, key@, i as int),
                None => forall|i: int| !keyed(self.entries@, key@, i),
            },
    {
        let mut i: usize = 0;
        while i < self.entries.len()
            invariant
                i <= self.entries.len(),
                forall|j: int| 0 <= j < i ==> self.entries@[j].0@ != key@,
            decreases self.entries.len() - i,
        {
            if crate::text::str_eq(self.entries[i].0.as_str(), key) {
                return Some(i);
            }
            i += 1;
        }
        None
    }

    /// Whether the map holds the key.
    pub fn contains_key(&self, key: &str) -> (b: bool)
        ensures
            b == self@.contains_key(key@),
    {
        match self.position(key) {
            Some(i) => {
                assert(keyed(self.entries@, key@, i as int));
                true
            },
            None => false,
        }
    }

    /// The value of a key.
    pub fn get(&self, key: &str) -> (r: Option<&V>)
        ensures
            match r {
                Some(v) => self@.contains_key(key@) && *v == self@[key@],
                None => !self@.contains_key(key@),
            },
    {
        match self.position(key) {
            Some(i) => {
                proof {
                    use_type_invariant(self);
                    self.lemma_entry(i as int);
                }
                Some(&self.entries[i].1)
            },
            None => None,
        }
    }

    /// Sets the value of a key; a new key goes to the end of the listing.
    pub fn insert(&mut self, key: String, value: V)
        ensures
            final(self)@ == old(self)@.insert(key@, value),
            old(self)@.contains_key(key@) ==> final(self).listing().len() == old(self).listing().len(),
            !old(self)@.contains_key(key@) ==> final(self).listing() == old(self).listing().push(
                (key@, value),
            ),
    {
        proof {
            use_type_invariant(&*self);
        }
        let ghost before = *self;
        match self.position(key.as_str()) {
            Some(i) => {
                assert(keyed(self.entries@, key@, i as int));
                let mut entries: Vec<(String, V)> = Vec::new();
                core::mem::swap(&mut self.entries, &mut entries);
                entries.set(i, (key, value));
                self.entries = entries;
                proof {
                    assert forall|k: Seq<char>| self@.contains_key(k) == before@.insert(
                        key@,
                        value,
                    ).contains_key(k) by {
                        if self@.contains_key(k) {
                            let j = choose|j: int| keyed(self.entries@, k, j);
                            assert(keyed(before.entries@, k, j));
                        }
                        if before@.insert(key@, value).contains_key(k) {
                            if k == key@ {
                                assert(keyed(self.entries@, k, i as int));
                            } else {
                                let j = choose|j: int| keyed(before.entries@, k, j);
                                assert(keyed(self.entries@, k, j));
                            }
                        }
                    }
                    assert forall|k: Seq<char>| self@.contains_key(k) implies self@[k]
                        == before@.insert(key@, value)[k] by {
                        let j = choose|j: int| keyed(self.entries@, k, j);
                        self.lemma_entry(j);
                        if j != i {
                            before.lemma_entry(j);
                        }
                    }
                    assert(self@ =~= before@.insert(key@, value));
                }
            },
            None => {
                let mut entries: Vec<(String, V)> = Vec::new();
                core::mem::swap(&mut self.entries, &mut entries);
                entries.push((key, value));
                proof {
                    assert forall|a: int, b: int| 0 <= a < b < entries@.len() implies entries@[a].0@
                        != entries@[b].0@ by {
                        if b == entries@.len() - 1 {
                            assert(!keyed(before.entries@, key@, a));
                        }
                    }
                }
                self.entries = entries;
                proof {
                    let n = before.entries@.len() as int;
                    assert forall|k: Seq<char>| self@.contains_key(k) == before@.insert(
                        key@,
                        value,
                    ).contains_key(k) by {
                        if self@.contains_key(k) {
                            let j = choose|j: int| keyed(self.entries@, k, j);
                            if j < n {
                                assert(keyed(before.entries@, k, j));
                            }
                        }
                        if before@.insert(key@, value).contains_key(k) {
                            if k == key@ {
                                assert(keyed(self.entries@, k, n));
                            } else {
                                let j = choose|j: int| keyed(before.entries@, k, j);
                                assert(keyed(self.entries@, k, j));
                            }
                        }
                    }
                    assert forall|k: Seq<char>| self@.contains_key(k) implies self@[k]
                        == before@.insert(key@, value)[k] by {
                        let j = choose|j: int| keyed(self.entries@, k, j);
                        self.lemma_entry(j);
                        if j < n {
                            before.lemma_entry(j);
                        }
                    }
                    assert(self@ =~= before@.insert(key@, value));
                    assert(self.listing() =~= before.listing().push((key@, value)));
                }
            },
        }
    }

    /// Takes a key out of the map and gives its value.
    pub fn remove(&mut self, key: &str) -> (r: Option<V>)
        ensures
            final(self)@ == old(self)@.remove(key@),
            match r {
                Some(v) => old(self)@.contains_key(key@) && v == old(self)@[key@],
                None => !old(self)@.contains_key(key@),
            },
    {
        proof {
            use_type_invariant(&*self);
        }
        let ghost before = *self;
        match self.position(key) {
            Some(i) => {
                proof {
                    before.lemma_entry(i as int);
                }
                let mut entries: Vec<(String, V)> = Vec::new();
                core::mem::swap(&mut self.entries, &mut entries);
                let e = entries.remove(i);
                self.entries = entries;
                proof {
                    assert forall|k: Seq<char>| self@.contains_key(k) == before@.remove(
                        key@,
                    ).contains_key(k) by {
                        if self@.contains_key(k) {
                            let j = choose|j: int| keyed(self.entries@, k, j);
                            if j < i {
                                assert(keyed(before.entries@, k, j));
                            } else {
                                assert(keyed(before.entries@, k, j + 1));
                            }
                        }
                        if before@.remove(key@).contains_key(k) {
                            let j = choose|j: int| keyed(before.entries@, k, j);
                            if j < i {
                                assert(keyed(self.entries@, k, j));
                            } else {
                                assert(keyed(self.entries@, k, j - 1));
                            }
                        }
                    }
                    assert forall|k: Seq<char>| self@.contains_key(k) implies self@[k]
                        == before@.remove(key@)[k] by {
                        let j = choose|j: int| keyed(self.entries@, k, j);
                        self.lemma_entry(j);
                        if j < i {
                            before.lemma_entry(j);
                        } else {
                            before.lemma_entry(j + 1);
                        }
                    }
                    assert(self@ =~= before@.remove(key@));
                }
                Some(e.1)
            },
            None => {
                assert(self@ =~= before@.remove(key@));
                None
            },
        }
    }

    /// Takes every one of the keys out of the map.
    pub fn remove_all(&mut self, keys: &Vec<String>)
        ensures
            final(self)@ == old(self)@.remove_keys(key_texts(keys@, keys@.len() as int)),
    {
        let ghost before = self@;
        let mut j: usize = 0;
        assert(self@ =~= before.remove_keys(key_texts(keys@, 0)));
        while j < keys.len()
            invariant
                j <= keys@.len(),
                self@ == before.remove_keys(key_texts(keys@, j as int)),
            decreases keys@.len() - j,
        {
            self.remove(keys[j].as_str());
            proof {
                assert(key_texts(keys@, j + 1) =~= key_texts(keys@, j as int).insert(keys@[j as int]@))
                    by {
                    assert forall|k: Seq<char>|
                        key_texts(keys@, j as int).insert(keys@[j as int]@).contains(
                            k,
                        ) implies key_texts(keys@, j + 1).contains(k) by {
                        if k == keys@[j as int]@ {
                            assert(keys@[j as int]@ == k);
                        } else {
                            let t = choose|t: int| 0 <= t < j && (#[trigger] keys@[t])@ == k;
                            assert(keys@[t]@ == k);
                        }
                    }
                }
                assert(self@ =~= before.remove_keys(key_texts(keys@, j + 1)));
            }
            j += 1;
        }
    }

    /// The key and the value at a place of the listing.
    pub fn entry_at(&self, i: usize) -> (r: (&String, &V))
        requires
            i < self.listing().len(),
        ensures
            r.0@ == self.listing()[i as int].0,
            *r.1 == self.listing()[i as int].1,
            self@.contains_key(r.0@),
            self@[r.0@] == *r.1,
    {
        proof {
            use_type_invariant(self);
            self.lemma_entry(i as int);
        }
        (&self.entries[i].0, &self.entries[i].1)
    }
}

} // verus!
