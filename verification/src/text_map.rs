//! A map from text, kept in the order in which its keys were added.

use vstd::prelude::*;
use crate::text::same_text;

verus! {

/// A map whose keys are told apart by their characters.
#[derive(Debug)]
pub struct TextMap<V> {
    entries: Vec<(String, V)>,
}

/// Whether `key` stands at place `i` of `entries`.
spec fn key_at<V>(entries: Seq<(String, V)>, i: int, key: Seq<char>) -> bool {
    0 <= i < entries.len() && entries[i].0@ == key
}

impl<V> View for TextMap<V> {
    type V = Map<Seq<char>, V>;

    closed spec fn view(&self) -> Map<Seq<char>, V> {
        Map::new(
            |key: Seq<char>| exists|i: int| key_at(self.entries@, i, key),
            |key: Seq<char>| self.entries@[choose|i: int| key_at(self.entries@, i, key)].1,
        )
    }
}

impl<V> TextMap<V> {
    /// The keys, in the order in which they were added.
    pub closed spec fn keys(self) -> Seq<Seq<char>> {
        self.entries@.map_values(|entry: (String, V)| entry.0@)
    }

    /// No key occurs twice.
    pub closed spec fn wf(self) -> bool {
        forall|i: int, j: int|
            0 <= i < j < self.entries@.len() ==> (#[trigger] self.entries@[i]).0@ != (
            #[trigger] self.entries@[j]).0@
    }

    proof fn lemma_entry(self, i: int)
        requires
            self.wf(),
            0 <= i < self.entries@.len(),
        ensures
            self@.contains_key(self.entries@[i].0@),
            self@[self.entries@[i].0@] == self.entries@[i].1,
            self.keys()[i] == self.entries@[i].0@,
    {
        let key = self.entries@[i].0@;
        assert(key_at(self.entries@, i, key));
        let j = choose|j: int| key_at(self.entries@, j, key);
        assert(key_at(self.entries@, j, key));
    }

    /// The keys are exactly those of the map, each once.
    pub proof fn lemma_keys(self)
        requires
            self.wf(),
        ensures
            self.keys().no_duplicates(),
            self.keys().len() == self@.len(),
            self@.dom().finite(),
            forall|i: int| 0 <= i < self.keys().len() ==> self@.contains_key(#[trigger] self.keys()[i]),
            forall|key: Seq<char>| #[trigger]
                self@.contains_key(key) ==> exists|i: int|
                    0 <= i < self.keys().len() && #[trigger] self.keys()[i] == key,
    {
        assert forall|i: int| 0 <= i < self.keys().len() implies self@.contains_key(
            #[trigger] self.keys()[i],
        ) by {
            self.lemma_entry(i);
        }
        assert forall|key: Seq<char>| #[trigger] self@.contains_key(key) implies exists|i: int|
            0 <= i < self.keys().len() && #[trigger] self.keys()[i] == key by {
            let i = choose|i: int| key_at(self.entries@, i, key);
            assert(key_at(self.entries@, i, key));
            assert(self.keys()[i] == key);
        }
        assert(self@.dom() =~= self.keys().to_set());
        self.keys().unique_seq_to_set();
    }

    pub fn new() -> (map: Self)
        ensures
            map.wf(),
            map@ == Map::<Seq<char>, V>::empty(),
    {
        let map = TextMap { entries: Vec::new() };
        assert(map@ =~= Map::<Seq<char>, V>::empty());
        map
    }

    pub fn len(&self) -> (len: usize)
        requires
            self.wf(),
        ensures
            len == self@.len(),
            len == self.keys().len(),
            self@.dom().finite(),
    {
        proof {
            self.lemma_keys();
        }
        self.entries.len()
    }

    fn find(&self, key: &str) -> (place: Option<usize>)
        requires
            self.wf(),
        ensures
            match place {
                Some(i) => key_at(self.entries@, i as int, key@) && self@.contains_key(key@)
                    && self@[key@] == self.entries@[i as int].1,
                None => !self@.contains_key(key@),
            },
    {
        let mut i: usize = 0;
        while i < self.entries.len()
            invariant
                self.wf(),
                i <= self.entries.len(),
                forall|j: int| 0 <= j < i ==> !key_at(self.entries@, j, key@),
            decreases self.entries.len() - i,
        {
            if same_text(self.entries[i].0.as_str(), key) {
                proof {
                    self.lemma_entry(i as int);
                }
                return Some(i);
            }
            i = i + 1;
        }
        assert(forall|j: int| !key_at(self.entries@, j, key@));
        None
    }

    pub fn contains_key(&self, key: &str) -> (found: bool)
        requires
            self.wf(),
        ensures
            found == self@.contains_key(key@),
    {
        self.find(key).is_some()
    }

    pub fn get(&self, key: &str) -> (value: Option<&V>)
        requires
            self.wf(),
        ensures
            match value {
                Some(value) => self@.contains_key(key@) && self@[key@] == *value,
                None => !self@.contains_key(key@),
            },
    {
        match self.find(key) {
            Some(i) => Some(&self.entries[i].1),
            None => None,
        }
    }

    /// The value that was added at place `i`.
    pub fn value_at(&self, i: usize) -> (value: &V)
        requires
            self.wf(),
            i < self.keys().len(),
        ensures
            self@.contains_key(self.keys()[i as int]),
            self@[self.keys()[i as int]] == *value,
    {
        proof {
            self.lemma_entry(i as int);
        }
        &self.entries[i].1
    }

    proof fn lemma_update(before: Self, after: Self, i: int, value: V)
        requires
            before.wf(),
            0 <= i < before.entries@.len(),
            after.entries@ == before.entries@.update(i, (before.entries@[i].0, value)),
        ensures
            after.wf(),
            after.keys() == before.keys(),
            after@ == before@.insert(before.entries@[i].0@, value),
    {
        assert(after.keys() =~= before.keys());
        assert(after.wf());
        let changed = before@.insert(before.entries@[i].0@, value);
        assert forall|key: Seq<char>| #[trigger] after@.contains_key(key) == changed.contains_key(
            key,
        ) by {
            if after@.contains_key(key) {
                let j = choose|j: int| key_at(after.entries@, j, key);
                assert(key_at(before.entries@, j, key));
            }
            if before@.contains_key(key) {
                let j = choose|j: int| key_at(before.entries@, j, key);
                assert(key_at(after.entries@, j, key));
            }
            assert(key_at(after.entries@, i, before.entries@[i].0@));
        }
        assert forall|key: Seq<char>| #[trigger] after@.contains_key(key) implies after@[key]
            == changed[key] by {
            let j = choose|j: int| key_at(after.entries@, j, key);
            assert(key_at(after.entries@, j, key));
            after.lemma_entry(j);
            before.lemma_entry(j);
            before.lemma_entry(i);
        }
        assert(after@ =~= changed);
    }

    /// The value of a key, to be changed in place.
    pub fn get_mut(&mut self, key: &str) -> (value: Option<&mut V>)
        requires
            old(self).wf(),
        ensures
            final(self).wf(),
            final(self).keys() == old(self).keys(),
            match value {
                Some(value) => {
                    &&& old(self)@.contains_key(key@)
                    &&& *value == old(self)@[key@]
                    &&& final(self)@ == old(self)@.insert(key@, *final(value))
                },
                None => !old(self)@.contains_key(key@) && final(self)@ == old(self)@,
            },
    {
        match self.find(key) {
            Some(i) => Some(self.value_at_mut(i)),
            None => None,
        }
    }

    /// The value that was added at place `i`, to be changed in place.
    pub fn value_at_mut(&mut self, i: usize) -> (value: &mut V)
        requires
            old(self).wf(),
            i < old(self).keys().len(),
        ensures
            final(self).wf(),
            final(self).keys() == old(self).keys(),
            old(self)@.contains_key(old(self).keys()[i as int]),
            *value == old(self)@[old(self).keys()[i as int]],
            final(self)@ == old(self)@.insert(old(self).keys()[i as int], *final(value)),
    {
        proof {
            self.lemma_entry(i as int);
            assert forall|after: Self, value: V|
                #[trigger] after.entries@ == #[trigger] self.entries@.update(
                    i as int,
                    (self.entries@[i as int].0, value),
                ) implies after.wf() && after.keys() == self.keys() && after@ == self@.insert(
                self.entries@[i as int].0@,
                value,
            ) by {
                Self::lemma_update(*self, after, i as int, value);
            }
        }
        &mut self.entries[i].1
    }

    /// Adds a key that is not present.
    pub fn insert_new(&mut self, key: String, value: V)
        requires
            old(self).wf(),
            !old(self)@.contains_key(key@),
        ensures
            final(self).wf(),
            final(self)@ == old(self)@.insert(key@, value),
    {
        let ghost before = *self;
        self.entries.push((key, value));
        proof {
            assert forall|j: int| 0 <= j < before.entries@.len() implies (
            #[trigger] before.entries@[j]).0@ != key@ by {
                before.lemma_entry(j);
            }
            assert(self.wf());
            let n = before.entries@.len() as int;
            assert forall|k: Seq<char>| #[trigger] self@.contains_key(k) == before@.insert(
                key@,
                value,
            ).contains_key(k) by {
                if self@.contains_key(k) && k != key@ {
                    let j = choose|j: int| key_at(self.entries@, j, k);
                    assert(key_at(before.entries@, j, k));
                }
                if before@.contains_key(k) {
                    let j = choose|j: int| key_at(before.entries@, j, k);
                    assert(key_at(self.entries@, j, k));
                }
                assert(key_at(self.entries@, n, key@));
            }
            assert forall|k: Seq<char>| #[trigger] self@.contains_key(k) implies self@[k]
                == before@.insert(key@, value)[k] by {
                let j = choose|j: int| key_at(self.entries@, j, k);
                assert(key_at(self.entries@, j, k));
                self.lemma_entry(j);
                if j < n {
                    before.lemma_entry(j);
                }
            }
            assert(self@ =~= before@.insert(key@, value));
        }
    }

    /// Takes a key out, if it is present.
    pub fn remove(&mut self, key: &str)
        requires
            old(self).wf(),
        ensures
            final(self).wf(),
            final(self)@ == old(self)@.remove(key@),
    {
        let ghost before = *self;
        match self.find(key) {
            Some(i) => {
                self.entries.remove(i);
                proof {
                    let i = i as int;
                    assert forall|j: int| 0 <= j < self.entries@.len() implies self.entries@[j]
                        == before.entries@[if j < i {
                        j
                    } else {
                        j + 1
                    }] by {}
                    assert(self.wf());
                    assert forall|k: Seq<char>| #[trigger] self@.contains_key(k) == before@.remove(
                        key@,
                    ).contains_key(k) by {
                        if self@.contains_key(k) {
                            let j = choose|j: int| key_at(self.entries@, j, k);
                            assert(key_at(self.entries@, j, k));
                            before.lemma_entry(
                                if j < i {
                                    j
                                } else {
                                    j + 1
                                },
                            );
                        }
                        if before@.contains_key(k) && k != key@ {
                            let j = choose|j: int| key_at(before.entries@, j, k);
                            assert(key_at(before.entries@, j, k));
                            assert(key_at(
                                self.entries@,
                                if j < i {
                                    j
                                } else {
                                    j - 1
                                },
                                k,
                            ));
                        }
                    }
                    assert forall|k: Seq<char>| #[trigger] self@.contains_key(k) implies self@[k]
                        == before@.remove(key@)[k] by {
                        let j = choose|j: int| key_at(self.entries@, j, k);
                        assert(key_at(self.entries@, j, k));
                        self.lemma_entry(j);
                        before.lemma_entry(
                            if j < i {
                                j
                            } else {
                                j + 1
                            },
                        );
                    }
                    assert(self@ =~= before@.remove(key@));
                }
            },
            None => {
                assert(self@ =~= before@.remove(key@));
            },
        }
    }

    pub fn clear(&mut self)
        ensures
            final(self).wf(),
            final(self)@ == Map::<Seq<char>, V>::empty(),
    {
        self.entries.clear();
        assert(self@ =~= Map::<Seq<char>, V>::empty());
    }
}

} // verus!
