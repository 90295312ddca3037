//! A map from texts to values, walked in the order of its keys.

use vstd::prelude::*;

verus! {

/// A map keyed by text. Its entries are kept sorted by key, without a key
/// occurring twice.
pub struct TextMap<V> {
    entries: Vec<(String, V)>,
}

/// The keys of `entries` in ascending order, none of them twice.
pub open spec fn keys_ascend<V>(entries: Seq<(String, V)>) -> bool {
    forall|i: int, j: int|
        0 <= i < j < entries.len() ==> crate::text::text_less(
            #[trigger] entries[i].0@,
            #[trigger] entries[j].0@,
        )
}

/// Whether `entries` holds `key` at position `i`.
pub open spec fn key_at<V>(entries: Seq<(String, V)>, key: Seq<char>, i: int) -> bool {
    0 <= i < entries.len() && entries[i].0@ == key
}

/// The map that the entries stand for.
pub open spec fn entries_map<V>(entries: Seq<(String, V)>) -> Map<Seq<char>, V> {
    Map::new(
        |key: Seq<char>| exists|i: int| key_at(entries, key, i),
        |key: Seq<char>| entries[choose|i: int| key_at(entries, key, i)].1,
    )
}

proof fn lemma_entry<V>(entries: Seq<(String, V)>, i: int)
    requires
        keys_ascend(entries),
        0 <= i < entries.len(),
    ensures
        entries_map(entries).contains_key(entries[i].0@),
        entries_map(entries)[entries[i].0@] == entries[i].1,
{
    let key = entries[i].0@;
    assert(key_at(entries, key, i));
    let j = choose|j: int| key_at(entries, key, j);
    crate::text::lemma_text_less_irreflexive(key);
    assert(j == i);
}

impl<V> View for TextMap<V> {
    type V = Map<Seq<char>, V>;

    closed spec fn view(&self) -> Map<Seq<char>, V> {
        entries_map(self.entries@)
    }
}

impl<V> TextMap<V> {
    #[verifier::type_invariant]
    spec fn sorted(&self) -> bool {
        keys_ascend(self.entries@)
    }

    /// A map without entries.
    pub fn new() -> (map: Self)
        ensures
            map@ == Map::<Seq<char>, V>::empty(),
    {
        let map = TextMap { entries: Vec::new() };
        assert(map@ =~= Map::<Seq<char>, V>::empty());
        map
    }

    /// The value under `key`.
    pub fn get(&self, key: &str) -> (value: Option<&V>)
        ensures
            match value {
                Some(value) => self@.contains_key(key@) && *value == self@[key@],
                None => !self@.contains_key(key@),
            },
    {
        proof {
            use_type_invariant(self);
        }
        let mut i: usize = 0;
        while i < self.entries.len()
            invariant
                i <= self.entries@.len(),
                keys_ascend(self.entries@),
                forall|j: int| 0 <= j < i ==> self.entries@[j].0@ != key@,
            decreases self.entries@.len() - i,
        {
            if crate::text::str_eq(self.entries[i].0.as_str(), key) {
                proof {
                    lemma_entry(self.entries@, i as int);
                }
                return Some(&self.entries[i].1);
            }
            i += 1;
        }
        None
    }

    /// Puts `value` under `key`, in the place of a value that stood there.
    pub fn insert(&mut self, key: String, value: V)
        ensures
            final(self)@ == old(self)@.insert(key@, value),
    {
        proof {
            use_type_invariant(&*self);
        }
        let mut entries: Vec<(String, V)> = Vec::new();
        std::mem::swap(&mut entries, &mut self.entries);
        let ghost before = entries@;
        let ghost name = key@;
        let mut i: usize = 0;
        while i < entries.len() && crate::text::is_text_less(entries[i].0.as_str(), key.as_str())
            invariant
                i <= entries@.len(),
                entries@ == before,
                forall|j: int| 0 <= j < i ==> crate::text::text_less(before[j].0@, key@),
            decreases entries@.len() - i,
        {
            i += 1;
        }
        if i < entries.len() && crate::text::str_eq(entries[i].0.as_str(), key.as_str()) {
            entries.set(i, (key, value));
            proof {
                assert(entries@ =~= before.update(i as int, (key, value)));
                assert forall|a: int, b: int|
                    0 <= a < b < entries@.len() implies crate::text::text_less(
                    #[trigger] entries@[a].0@,
                    #[trigger] entries@[b].0@,
                ) by {
                    assert(before[a].0@ == entries@[a].0@);
                    assert(before[b].0@ == entries@[b].0@);
                }
            }
        } else {
            let ghost at = i as int;
            proof {
                if at < before.len() {
                    crate::text::lemma_text_less_total(before[at].0@, name);
                }
            }
            entries.insert(i, (key, value));
            proof {
                assert(entries@ =~= before.insert(at, (key, value)));
                assert forall|a: int, b: int|
                    0 <= a < b < entries@.len() implies crate::text::text_less(
                    #[trigger] entries@[a].0@,
                    #[trigger] entries@[b].0@,
                ) by {
                    let x = if a < at { a } else { a - 1 };
                    let y = if b < at { b } else { b - 1 };
                    if a == at {
                        assert(entries@[b] == before[y]);
                        if y > at {
                            assert(crate::text::text_less(before[at].0@, before[y].0@));
                            crate::text::lemma_text_less_transitive(name, before[at].0@, before[y].0@);
                        }
                    } else if b == at {
                        assert(entries@[a] == before[x]);
                    } else {
                        assert(entries@[a] == before[x]);
                        assert(entries@[b] == before[y]);
                    }
                }
            }
        }
        proof {
            let after = entries@;
            let old_map = entries_map(before);
            assert forall|k: Seq<char>| entries_map(after).contains_key(k) == old_map.insert(
                name,
                value,
            ).contains_key(k) by {
                if entries_map(after).contains_key(k) && k != name {
                    let j = choose|j: int| key_at(after, k, j);
                    let p = if after.len() == before.len() || j < i { j } else { j - 1 };
                    assert(key_at(before, k, p));
                }
                if old_map.contains_key(k) && k != name {
                    let j = choose|j: int| key_at(before, k, j);
                    let p = if after.len() == before.len() || j < i { j } else { j + 1 };
                    assert(key_at(after, k, p));
                }
                if k == name {
                    assert(key_at(after, k, i as int));
                }
            }
            assert forall|k: Seq<char>| #[trigger]
                entries_map(after).contains_key(k) implies entries_map(after)[k] == old_map.insert(
                name,
                value,
            )[k] by {
                if k == name {
                    lemma_entry(after, i as int);
                } else {
                    let j = choose|j: int| key_at(after, k, j);
                    let p = if after.len() == before.len() || j < i { j } else { j - 1 };
                    lemma_entry(after, j);
                    lemma_entry(before, p);
                }
            }
            assert(entries_map(after) =~= old_map.insert(name, value));
        }
        self.entries = entries;
    }

    /// Takes `key` and its value out.
    pub fn remove(&mut self, key: &str)
        ensures
            final(self)@ == old(self)@.remove(key@),
    {
        proof {
            use_type_invariant(&*self);
        }
        let mut entries: Vec<(String, V)> = Vec::new();
        std::mem::swap(&mut entries, &mut self.entries);
        let ghost before = entries@;
        let mut i: usize = 0;
        while i < entries.len() && !crate::text::str_eq(entries[i].0.as_str(), key)
            invariant
                i <= entries@.len(),
                entries@ == before,
                forall|j: int| 0 <= j < i ==> before[j].0@ != key@,
            decreases entries@.len() - i,
        {
            i += 1;
        }
        if i < entries.len() {
            entries.remove(i);
        }
        proof {
            let after = entries@;
            let at = i as int;
            assert forall|a: int, b: int|
                0 <= a < b < after.len() implies crate::text::text_less(
                #[trigger] after[a].0@,
                #[trigger] after[b].0@,
            ) by {
                assert(after[a] == before[if a < at { a } else { a + 1 }]);
                assert(after[b] == before[if b < at { b } else { b + 1 }]);
            }
            crate::text::lemma_text_less_irreflexive(key@);
            assert forall|k: Seq<char>| entries_map(after).contains_key(k) == entries_map(
                before,
            ).remove(key@).contains_key(k) by {
                if entries_map(after).contains_key(k) {
                    let j = choose|j: int| key_at(after, k, j);
                    let p = if j < at { j } else { j + 1 };
                    assert(key_at(before, k, p));
                    assert(at < before.len() ==> key_at(before, key@, at));
                }
                if entries_map(before).contains_key(k) && k != key@ {
                    let j = choose|j: int| key_at(before, k, j);
                    let p = if j < at { j } else { j - 1 };
                    assert(key_at(after, k, p));
                }
            }
            assert forall|k: Seq<char>| #[trigger]
                entries_map(after).contains_key(k) implies entries_map(after)[k] == entries_map(
                before,
            )[k] by {
                let j = choose|j: int| key_at(after, k, j);
                let p = if j < at { j } else { j + 1 };
                lemma_entry(after, j);
                lemma_entry(before, p);
            }
            assert(entries_map(after) =~= entries_map(before).remove(key@));
        }
        self.entries = entries;
    }

    /// How many entries the map has.
    pub fn len(&self) -> (len: usize)
        ensures
            self@.dom().finite(),
            len == self@.dom().len(),
    {
        proof {
            use_type_invariant(self);
            let keys = self.entries@.map_values(|entry: (String, V)| entry.0@);
            assert(keys.no_duplicates()) by {
                assert forall|i: int, j: int| 0 <= i < j < keys.len() implies keys[i] != keys[j] by {
                    assert(keys[i] == self.entries@[i].0@);
                    assert(keys[j] == self.entries@[j].0@);
                    crate::text::lemma_text_less_irreflexive(keys[i]);
                }
            }
            keys.unique_seq_to_set();
            assert forall|key: Seq<char>| self@.dom().contains(key) == keys.to_set().contains(key) by {
                if self@.dom().contains(key) {
                    let i = choose|i: int| key_at(self.entries@, key, i);
                    assert(keys[i] == key);
                }
                if keys.contains(key) {
                    let i = choose|i: int| 0 <= i < keys.len() && keys[i] == key;
                    assert(key_at(self.entries@, key, i));
                }
            }
            assert(self@.dom() =~= keys.to_set());
        }
        self.entries.len()
    }

    /// The entries in ascending order of their keys.
    pub fn in_order(&self) -> (entries: &Vec<(String, V)>)
        ensures
            keys_ascend(entries@),
            forall|i: int|
                0 <= i < entries@.len() ==> self@.contains_key(#[trigger] entries@[i].0@)
                    && self@[entries@[i].0@] == entries@[i].1,
            forall|key: Seq<char>| #[trigger]
                self@.contains_key(key) ==> exists|i: int| key_at(entries@, key, i),
    {
        proof {
            use_type_invariant(self);
            assert forall|i: int| 0 <= i < self.entries@.len() implies self@.contains_key(
                #[trigger] self.entries@[i].0@,
            ) && self@[self.entries@[i].0@] == self.entries@[i].1 by {
                lemma_entry(self.entries@, i);
            }
        }
        &self.entries
    }
}

} // verus!
