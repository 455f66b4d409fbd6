//! A finite map from strings to strings.

use crate::assoc::{
    assoc_map, distinct_keys, has_key, lemma_assoc_contains, lemma_assoc_finite, lemma_assoc_index,
    lemma_assoc_len, lemma_assoc_push, lemma_assoc_update,
};
use vstd::prelude::*;
use vstd::set_lib::lemma_subset_equality;
use vstd::std_specs::cmp::PartialEqSpecImpl;

verus! {

/// A map from strings to strings, held as a list of entries in which no key
/// occurs twice. Its view is the mathematical map from each key's characters
/// to its value's characters.
///
/// The hash maps of `std` are not used: of a map with `String` keys the
/// verifier knows nothing after an `insert`, not even that the key is there,
/// because it has no model of how a `String` is hashed and compared. What a
/// hash map gives its users is kept as the invariant of this type: each key
/// occurs once, and an `insert` under a key that is there replaces its
/// value.
#[derive(Debug)]
pub struct StringMap {
    entries: Vec<(String, String)>,
}

/// The keys and values of `entries` as character sequences.
pub open spec fn text_pairs(entries: Seq<(String, String)>) -> Seq<(Seq<char>, Seq<char>)> {
    entries.map_values(|e: (String, String)| (e.0@, e.1@))
}

impl View for StringMap {
    type V = Map<Seq<char>, Seq<char>>;

    closed spec fn view(&self) -> Map<Seq<char>, Seq<char>> {
        assoc_map(text_pairs(self.entries@))
    }
}

impl StringMap {
    #[verifier::type_invariant]
    spec fn well_formed(self) -> bool {
        distinct_keys(text_pairs(self.entries@))
    }

    /// The view of a map has finitely many keys.
    pub proof fn lemma_finite(&self)
        ensures
            self@.dom().finite(),
    {
        lemma_assoc_finite(text_pairs(self.entries@));
    }

    /// An empty map.
    pub fn new() -> (map: StringMap)
        ensures
            map@ == Map::<Seq<char>, Seq<char>>::empty(),
    {
        let map = StringMap { entries: Vec::new() };
        assert(text_pairs(map.entries@) =~= Seq::empty());
        map
    }

    /// The position of the entry with the key `key`, if there is one.
    fn position(&self, key: &String) -> (at: Option<usize>)
        ensures
            match at {
                Some(i) => i < self.entries.len() && self.entries@[i as int].0@ == key@,
                None => !self@.contains_key(key@),
            },
    {
        let mut i: usize = 0;
        while i < self.entries.len()
            invariant
                i <= self.entries.len(),
                forall|k: int| 0 <= k < i ==> self.entries@[k].0@ != key@,
            decreases self.entries.len() - i,
        {
            if self.entries[i].0 == *key {
                return Some(i);
            }
            i += 1;
        }
        proof {
            let pairs = text_pairs(self.entries@);
            lemma_assoc_contains(pairs, key@);
            if has_key(pairs, key@) {
                let j = choose|j: int| 0 <= j < pairs.len() && (#[trigger] pairs[j]).0 == key@;
                assert(self.entries@[j].0@ != key@);
            }
        }
        None
    }

    /// Puts `value` under `key`, in place of what was there.
    pub fn insert(&mut self, key: String, value: String)
        ensures
            final(self)@ == old(self)@.insert(key@, value@),
    {
        proof {
            use_type_invariant(&*self);
        }
        let ghost before = text_pairs(self.entries@);
        let found = self.position(&key);
        let mut entries: Vec<(String, String)> = Vec::new();
        assert(text_pairs(entries@) =~= Seq::empty());
        std::mem::swap(&mut self.entries, &mut entries);
        match found {
            Some(i) => {
                proof {
                    lemma_assoc_update(before, i as int, value@);
                    assert(text_pairs(entries@.update(i as int, (key, value))) =~= before.update(
                        i as int,
                        (before[i as int].0, value@),
                    ));
                }
                entries.set(i, (key, value));
            },
            None => {
                proof {
                    lemma_assoc_push(before, key@, value@);
                    lemma_assoc_contains(before, key@);
                    let after = before.push((key@, value@));
                    assert(text_pairs(entries@.push((key, value))) =~= after);
                    assert forall|a: int, b: int| 0 <= a < b < after.len() implies after[a].0
                        != after[b].0 by {
                        if b == before.len() {
                            assert(before[a].0 != key@);
                        } else {
                            assert(before[a].0 != before[b].0);
                        }
                    }
                }
                entries.push((key, value));
            },
        }
        self.entries = entries;
    }

    /// The value under `key`, if the map has that key.
    pub fn get(&self, key: &str) -> (value: Option<&String>)
        ensures
            match value {
                Some(v) => self@.contains_key(key@) && v@ == self@[key@],
                None => !self@.contains_key(key@),
            },
    {
        proof {
            use_type_invariant(self);
        }
        let owned = key.to_string();
        match self.position(&owned) {
            Some(i) => {
                proof {
                    lemma_assoc_index(text_pairs(self.entries@), i as int);
                }
                Some(&self.entries[i].1)
            },
            None => None,
        }
    }

    /// Whether the map has the key `key`.
    pub fn contains_key(&self, key: &str) -> (found: bool)
        ensures
            found == self@.contains_key(key@),
    {
        self.get(key).is_some()
    }

    /// The number of keys.
    pub fn len(&self) -> (n: usize)
        ensures
            n == self@.len(),
    {
        proof {
            use_type_invariant(self);
            lemma_assoc_len(text_pairs(self.entries@));
        }
        self.entries.len()
    }

    /// Whether the map has no key.
    pub fn is_empty(&self) -> (empty: bool)
        ensures
            empty == (self@ == Map::<Seq<char>, Seq<char>>::empty()),
            empty == (self@.len() == 0),
    {
        proof {
            use_type_invariant(self);
            let pairs = text_pairs(self.entries@);
            lemma_assoc_len(pairs);
            if pairs.len() == 0 {
                assert(self@ =~= Map::empty());
            } else {
                lemma_assoc_index(pairs, 0);
            }
        }
        self.entries.len() == 0
    }

    /// Puts every entry of `other` into the map. Where both have a key, the
    /// value of `other` stays.
    pub fn extend(&mut self, other: &StringMap)
        ensures
            final(self)@ == old(self)@.union_prefer_right(other@),
    {
        let ghost start = self@;
        let ghost added = text_pairs(other.entries@);
        let mut i: usize = 0;
        assert(added.take(0) =~= Seq::empty());
        assert(self@ =~= start.union_prefer_right(assoc_map(added.take(0))));
        while i < other.entries.len()
            invariant
                i <= other.entries.len(),
                added == text_pairs(other.entries@),
                self@ == start.union_prefer_right(assoc_map(added.take(i as int))),
            decreases other.entries.len() - i,
        {
            let ghost so_far = assoc_map(added.take(i as int));
            let key = other.entries[i].0.clone();
            let value = other.entries[i].1.clone();
            self.insert(key, value);
            proof {
                assert(added.take(i + 1).drop_last() =~= added.take(i as int));
                assert(added.take(i + 1).last() == (key@, value@));
                assert(start.union_prefer_right(so_far).insert(key@, value@)
                    =~= start.union_prefer_right(so_far.insert(key@, value@)));
            }
            i += 1;
        }
        assert(added.take(other.entries.len() as int) =~= added);
    }
}

impl Clone for StringMap {
    fn clone(&self) -> (copy: Self)
        ensures
            copy@ == self@,
    {
        let mut copy = StringMap::new();
        copy.extend(self);
        assert(Map::<Seq<char>, Seq<char>>::empty().union_prefer_right(self@) =~= self@);
        copy
    }
}

impl PartialEq for StringMap {
    /// Two maps are equal where they hold the same values under the same
    /// keys, in whatever order they were filled.
    fn eq(&self, other: &Self) -> (equal: bool) {
        proof {
            use_type_invariant(self);
            use_type_invariant(other);
            lemma_assoc_len(text_pairs(self.entries@));
            lemma_assoc_len(text_pairs(other.entries@));
        }
        if self.entries.len() != other.entries.len() {
            return false;
        }
        let ghost pairs = text_pairs(self.entries@);
        let mut i: usize = 0;
        while i < self.entries.len()
            invariant
                i <= self.entries.len(),
                pairs == text_pairs(self.entries@),
                distinct_keys(pairs),
                self@ == assoc_map(pairs),
                forall|k: int|
                    0 <= k < i ==> other@.contains_key(#[trigger] pairs[k].0) && other@[pairs[k].0]
                        == pairs[k].1,
            decreases self.entries.len() - i,
        {
            proof {
                lemma_assoc_index(pairs, i as int);
            }
            match other.get(self.entries[i].0.as_str()) {
                Some(value) => {
                    if !(*value == self.entries[i].1) {
                        return false;
                    }
                },
                None => {
                    return false;
                },
            }
            i += 1;
        }
        proof {
            assert forall|key: Seq<char>| #[trigger]
                self@.contains_key(key) implies other@.contains_key(key) && other@[key]
                == self@[key] by {
                lemma_assoc_contains(pairs, key);
                let k = choose|k: int| 0 <= k < pairs.len() && (#[trigger] pairs[k]).0 == key;
                lemma_assoc_index(pairs, k);
            }
            assert forall|key: Seq<char>| self@.dom().contains(key) implies other@.dom().contains(
                key,
            ) by {
                assert(self@.contains_key(key));
            }
            assert(self@.dom().subset_of(other@.dom()));
            lemma_assoc_finite(text_pairs(other.entries@));
            lemma_assoc_finite(pairs);
            lemma_subset_equality(self@.dom(), other@.dom());
            assert(self@ =~= other@);
        }
        true
    }
}

impl PartialEqSpecImpl for StringMap {
    open spec fn obeys_eq_spec() -> bool {
        true
    }

    open spec fn eq_spec(&self, other: &Self) -> bool {
        self@ == other@
    }
}

impl Eq for StringMap {

}

impl Default for StringMap {
    fn default() -> (map: Self)
        ensures
            map@ == Map::<Seq<char>, Seq<char>>::empty(),
    {
        StringMap::new()
    }
}

} // verus!
