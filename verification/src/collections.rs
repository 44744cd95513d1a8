/*
 This Source Code Form is subject to the terms of the Mozilla Public
 License, v. 2.0. If a copy of the MPL was not distributed with this
 file, You can obtain one at http://mozilla.org/MPL/2.0/.
*/

//! String-keyed collections with exact set and map semantics.
//!
//! The audit reports, the metadata property bags and the UUID-keyed object
//! store all need small maps and sets keyed by strings. These are kept as
//! vectors of pairwise-distinct keys, so that lengths mean cardinalities
//! and iteration order is the order of first insertion.

use vstd::prelude::*;

use crate::strutil::{contains_str, lemma_str_seq_set_contains, lemma_str_seq_set_finite,
    str_eq, str_seq_set, unique_strs};

verus! {

/// The map read off a sequence of key-value pairs; a later binding of a
/// key wins over an earlier one.
pub open spec fn pair_map<V>(s: Seq<(String, V)>) -> Map<Seq<char>, V>
    decreases s.len(),
{
    if s.len() == 0 {
        Map::empty()
    } else {
        pair_map(s.drop_last()).insert(s.last().0@, s.last().1)
    }
}

/// The keys of a sequence of key-value pairs, in sequence order.
pub open spec fn pair_keys<V>(s: Seq<(String, V)>) -> Seq<Seq<char>> {
    s.map_values(|p: (String, V)| p.0@)
}

/// No two pairs of the sequence share a key.
pub open spec fn unique_pair_keys<V>(s: Seq<(String, V)>) -> bool {
    forall|i: int, j: int| 0 <= i < j < s.len() ==> s[i].0@ != s[j].0@
}

/// A key is in the map exactly when some pair holds it.
pub proof fn lemma_pair_map_contains<V>(s: Seq<(String, V)>, k: Seq<char>)
    ensures
        pair_map(s).dom().contains(k) <==> exists|i: int| 0 <= i < s.len() && s[i].0@ == k,
    decreases s.len(),
{
    if s.len() > 0 {
        lemma_pair_map_contains(s.drop_last(), k);
        if s.last().0@ == k {
            assert(s[s.len() - 1].0@ == k);
        } else if pair_map(s).dom().contains(k) {
            let i = choose|i: int| 0 <= i < s.drop_last().len() && s.drop_last()[i].0@ == k;
            assert(s[i].0@ == k);
        } else if exists|i: int| 0 <= i < s.len() && s[i].0@ == k {
            let i = choose|i: int| 0 <= i < s.len() && s[i].0@ == k;
            assert(s.drop_last()[i].0@ == k);
        }
    }
}

/// The domain of the map is finite, no larger than the sequence, and of
/// the sequence's exact length when keys are pairwise distinct.
pub proof fn lemma_pair_map_len<V>(s: Seq<(String, V)>)
    ensures
        pair_map(s).dom().finite(),
        pair_map(s).dom().len() <= s.len(),
        unique_pair_keys(s) ==> pair_map(s).dom().len() == s.len(),
    decreases s.len(),
{
    if s.len() > 0 {
        lemma_pair_map_len(s.drop_last());
        if unique_pair_keys(s) {
            assert(unique_pair_keys(s.drop_last())) by {
                assert(forall|i: int|
                    0 <= i < s.drop_last().len() ==> s.drop_last()[i] == s[i]);
            }
            assert(!pair_map(s.drop_last()).dom().contains(s.last().0@)) by {
                lemma_pair_map_contains(s.drop_last(), s.last().0@);
            }
        }
    }
}

/// Under pairwise-distinct keys, the pair at position `i` is the map's
/// binding of its key.
pub proof fn lemma_pair_map_index<V>(s: Seq<(String, V)>, i: int)
    requires
        0 <= i < s.len(),
        unique_pair_keys(s),
    ensures
        pair_map(s).dom().contains(s[i].0@),
        pair_map(s)[s[i].0@] == s[i].1,
    decreases s.len(),
{
    if i == s.len() - 1 {
        assert(s[i] == s.last());
    } else {
        assert(unique_pair_keys(s.drop_last())) by {
            assert(forall|j: int| 0 <= j < s.drop_last().len() ==> s.drop_last()[j] == s[j]);
        }
        lemma_pair_map_index(s.drop_last(), i);
        assert(s.drop_last()[i] == s[i]);
        assert(s[i].0@ != s.last().0@);
    }
}

/// Replacing the pair at `i` by another with the same key is a map
/// insertion at that key, and keeps keys pairwise distinct.
pub proof fn lemma_pair_map_update<V>(s: Seq<(String, V)>, i: int, p: (String, V))
    requires
        0 <= i < s.len(),
        unique_pair_keys(s),
        s[i].0@ == p.0@,
    ensures
        pair_map(s.update(i, p)) =~= pair_map(s).insert(p.0@, p.1),
        unique_pair_keys(s.update(i, p)),
    decreases s.len(),
{
    let t = s.update(i, p);
    if i == s.len() - 1 {
        assert(t.drop_last() =~= s.drop_last());
        assert(t.last() == p);
    } else {
        assert(unique_pair_keys(s.drop_last())) by {
            assert(forall|j: int| 0 <= j < s.drop_last().len() ==> s.drop_last()[j] == s[j]);
        }
        lemma_pair_map_update(s.drop_last(), i, p);
        assert(t.drop_last() =~= s.drop_last().update(i, p));
        assert(t.last() == s.last());
        assert(s[i].0@ != s.last().0@);
        assert(pair_map(t) =~= pair_map(s).insert(p.0@, p.1));
    }
}

/// Inserting a pair with a fresh key at any position is a map insertion
/// at that key, and keeps keys pairwise distinct.
pub proof fn lemma_pair_map_insert_at<V>(s: Seq<(String, V)>, i: int, p: (String, V))
    requires
        0 <= i <= s.len(),
        forall|j: int| 0 <= j < s.len() ==> (#[trigger] s[j]).0@ != p.0@,
        unique_pair_keys(s),
    ensures
        pair_map(s.insert(i, p)) =~= pair_map(s).insert(p.0@, p.1),
        unique_pair_keys(s.insert(i, p)),
    decreases s.len() - i,
{
    let t = s.insert(i, p);
    if i == s.len() {
        assert(t =~= s.push(p));
        assert(t.drop_last() =~= s);
    } else {
        assert(t.last() == s.last());
        assert(t.drop_last() =~= s.drop_last().insert(i, p));
        assert(unique_pair_keys(s.drop_last())) by {
            assert(forall|j: int| 0 <= j < s.drop_last().len() ==> s.drop_last()[j] == s[j]);
        }
        assert(forall|j: int|
            0 <= j < s.drop_last().len() ==> (#[trigger] s.drop_last()[j]).0@ != p.0@);
        lemma_pair_map_insert_at(s.drop_last(), i, p);
        assert(s[s.len() - 1].0@ != p.0@);
        assert(pair_map(t) =~= pair_map(s).insert(p.0@, p.1));
        assert(forall|x: int, y: int|
            0 <= x < y < t.len() ==> t[x].0@ != t[y].0@) by {
            assert(forall|x: int| 0 <= x < t.len() - 1 ==> t[x] == t.drop_last()[x]);
            assert(t[t.len() - 1] == s[s.len() - 1]);
            assert(forall|x: int|
                0 <= x < t.len() - 1 ==> (#[trigger] t.drop_last()[x]).0@ == p.0@ || exists|y: int|
                    0 <= y < s.len() - 1 && t.drop_last()[x].0@ == (#[trigger] s[y]).0@) by {
                assert(forall|x: int|
                    0 <= x < i ==> (#[trigger] t.drop_last()[x]) == s.drop_last()[x]
                        && s.drop_last()[x] == s[x]);
                assert(forall|x: int|
                    i < x < t.len() - 1 ==> (#[trigger] t.drop_last()[x]) == s.drop_last()[x - 1]
                        && s.drop_last()[x - 1] == s[x - 1]);
            }
        }
    }
}

/// A set of strings. Kept as a vector of pairwise-distinct strings, so the
/// vector's length is the set's cardinality and iteration sees each member
/// once, in the order of first insertion.
#[derive(Debug)]
pub struct StrSet {
    items: Vec<String>,
}

impl StrSet {
    /// The strings this set holds.
    pub closed spec fn set_view(self) -> Set<Seq<char>> {
        str_seq_set(self.items@)
    }

    /// The members in insertion order.
    pub closed spec fn items_view(self) -> Seq<Seq<char>> {
        self.items@.map_values(|s: String| s@)
    }

    #[verifier::type_invariant]
    spec fn inv(self) -> bool {
        unique_strs(self.items@)
    }

    /// The empty set.
    pub fn new() -> (s: StrSet)
        ensures
            s.set_view() == Set::<Seq<char>>::empty(),
            s.items_view() == Seq::<Seq<char>>::empty(),
    {
        let items: Vec<String> = Vec::new();
        proof {
            assert(items@.map_values(|s: String| s@) =~= Seq::<Seq<char>>::empty());
        }
        StrSet { items }
    }

    /// Add `key`; a member already present is not added again.
    pub fn insert(&mut self, key: &str)
        ensures
            final(self).set_view() == old(self).set_view().insert(key@),
            old(self).set_view().contains(key@) ==> final(self).items_view() == old(
                self,
            ).items_view(),
            !old(self).set_view().contains(key@) ==> final(self).items_view() == old(
                self,
            ).items_view().push(key@),
    {
        proof {
            use_type_invariant(&*self);
        }
        if !contains_str(&self.items, key) {
            let ghost before = self.items@;
            let item = key.to_owned();
            let mut items: Vec<String> = Vec::new();
            core::mem::swap(&mut items, &mut self.items);
            items.push(item);
            proof {
                lemma_str_seq_set_contains(before, key@);
                assert(items@.drop_last() =~= before);
                assert(str_seq_set(items@) == str_seq_set(before).insert(key@));
                assert(items@.map_values(|s: String| s@) =~= before.map_values(
                    |s: String| s@,
                ).push(key@));
            }
            core::mem::swap(&mut items, &mut self.items);
        } else {
            proof {
                assert(self.set_view().insert(key@) =~= self.set_view());
            }
        }
    }

    /// Whether `key` is a member.
    pub fn contains(&self, key: &str) -> (r: bool)
        ensures
            r == self.set_view().contains(key@),
    {
        contains_str(&self.items, key)
    }

    /// How many members the set has.
    pub fn count(&self) -> (n: usize)
        ensures
            n == self.set_view().len(),
    {
        proof {
            use_type_invariant(&*self);
            lemma_str_seq_set_finite(self.items@);
        }
        self.items.len()
    }

    /// The members, each once, in insertion order.
    pub fn items(&self) -> (r: &Vec<String>)
        ensures
            r@.map_values(|s: String| s@) == self.items_view(),
            str_seq_set(r@) == self.set_view(),
            unique_strs(r@),
    {
        proof {
            use_type_invariant(&*self);
        }
        &self.items
    }
}

/// A map from strings to values. Kept as a vector of pairs with pairwise-
/// distinct keys: the vector's length is the map's cardinality, binding a
/// bound key replaces its value in place, and iteration sees the keys in
/// the order of first insertion.
#[derive(Debug)]
pub struct KvMap<V> {
    entries: Vec<(String, V)>,
}

impl<V> KvMap<V> {
    /// The map this collection holds.
    pub closed spec fn map_view(self) -> Map<Seq<char>, V> {
        pair_map(self.entries@)
    }

    /// The keys in insertion order.
    pub closed spec fn keys_view(self) -> Seq<Seq<char>> {
        pair_keys(self.entries@)
    }

    #[verifier::type_invariant]
    spec fn inv(self) -> bool {
        unique_pair_keys(self.entries@)
    }

    /// The empty map.
    pub fn new() -> (m: KvMap<V>)
        ensures
            m.map_view() == Map::<Seq<char>, V>::empty(),
            m.keys_view() == Seq::<Seq<char>>::empty(),
    {
        let entries: Vec<(String, V)> = Vec::new();
        proof {
            assert(pair_keys(entries@) =~= Seq::<Seq<char>>::empty());
        }
        KvMap { entries }
    }

    /// The position of `key` among the entries, if bound.
    fn find_index(&self, key: &str) -> (r: Option<usize>)
        ensures
            match r {
                Some(i) => i < self.keys_view().len() && self.keys_view()[i as int] == key@,
                None => !self.map_view().dom().contains(key@),
            },
    {
        let mut i: usize = 0;
        while i < self.entries.len()
            invariant
                i <= self.entries.len(),
                forall|j: int| 0 <= j < i ==> self.entries@[j].0@ != key@,
            decreases self.entries.len() - i,
        {
            if str_eq(self.entries[i].0.as_str(), key) {
                return Some(i);
            }
            i += 1;
        }
        proof {
            lemma_pair_map_contains(self.entries@, key@);
        }
        None
    }

    /// Bind `key` to `value`. A bound key keeps its position and takes the
    /// new value; a new key goes to the end.
    pub fn insert(&mut self, key: &str, value: V)
        ensures
            final(self).map_view() == old(self).map_view().insert(key@, value),
            old(self).map_view().dom().contains(key@) ==> final(self).keys_view() == old(
                self,
            ).keys_view(),
            !old(self).map_view().dom().contains(key@) ==> final(self).keys_view() == old(
                self,
            ).keys_view().push(key@),
    {
        proof {
            use_type_invariant(&*self);
        }
        let idx = self.find_index(key);
        let pair = (key.to_owned(), value);
        let ghost before = self.entries@;
        let mut entries: Vec<(String, V)> = Vec::new();
        core::mem::swap(&mut entries, &mut self.entries);
        match idx {
            Some(i) => {
                proof {
                    lemma_pair_map_contains(before, key@);
                    lemma_pair_map_update(before, i as int, pair);
                }
                entries[i] = pair;
                proof {
                    assert(pair_keys(entries@) =~= pair_keys(before));
                }
            },
            None => {
                entries.push(pair);
                proof {
                    lemma_pair_map_contains(before, key@);
                    assert(entries@.drop_last() =~= before);
                    assert(pair_keys(entries@) =~= pair_keys(before).push(key@));
                }
            },
        }
        core::mem::swap(&mut entries, &mut self.entries);
    }

    /// Bind `key` to `value`, keeping the keys in ascending lexicographic
    /// order: a bound key keeps its position and takes the new value; a
    /// new key goes just before the first key it does not read after.
    pub fn insert_sorted(&mut self, key: &str, value: V)
        ensures
            final(self).map_view() == old(self).map_view().insert(key@, value),
            old(self).map_view().dom().contains(key@) ==> final(self).keys_view() == old(
                self,
            ).keys_view(),
            !old(self).map_view().dom().contains(key@) ==> final(self).keys_view()
                == crate::strutil::sorted_insert(old(self).keys_view(), key@),
    {
        proof {
            use_type_invariant(&*self);
        }
        let idx = self.find_index(key);
        let pair = (key.to_owned(), value);
        let ghost before = self.entries@;
        let mut entries: Vec<(String, V)> = Vec::new();
        core::mem::swap(&mut entries, &mut self.entries);
        match idx {
            Some(i) => {
                proof {
                    lemma_pair_map_contains(before, key@);
                    lemma_pair_map_update(before, i as int, pair);
                }
                entries[i] = pair;
                proof {
                    assert(pair_keys(entries@) =~= pair_keys(before));
                }
            },
            None => {
                let mut pos: usize = 0;
                while pos < entries.len() && crate::strutil::str_lt(entries[pos].0.as_str(), key)
                    invariant
                        pos <= entries@.len(),
                        entries@ == before,
                        forall|j: int|
                            0 <= j < pos ==> crate::strutil::lex_lt(
                                (#[trigger] entries@[j]).0@,
                                key@,
                            ),
                    decreases entries@.len() - pos,
                {
                    pos += 1;
                }
                proof {
                    lemma_pair_map_contains(before, key@);
                    assert(forall|j: int|
                        0 <= j < before.len() ==> (#[trigger] before[j]).0@ != key@);
                    lemma_pair_map_insert_at(before, pos as int, pair);
                    assert(forall|j: int|
                        0 <= j < pos ==> crate::strutil::lex_lt(
                            #[trigger] pair_keys(before)[j],
                            key@,
                        ));
                    if pos < before.len() {
                        assert(!crate::strutil::lex_lt(pair_keys(before)[pos as int], key@));
                    }
                    crate::strutil::lemma_sorted_insert_at(pair_keys(before), key@, pos as int);
                }
                entries.insert(pos, pair);
                proof {
                    assert(pair_keys(entries@) =~= pair_keys(before).subrange(0, pos as int)
                        + seq![key@] + pair_keys(before).subrange(
                        pos as int,
                        pair_keys(before).len() as int,
                    ));
                }
            },
        }
        core::mem::swap(&mut entries, &mut self.entries);
    }

    /// Whether `key` is bound.
    pub fn contains_key(&self, key: &str) -> (r: bool)
        ensures
            r == self.map_view().dom().contains(key@),
    {
        proof {
            lemma_pair_map_contains(self.entries@, key@);
        }
        match self.find_index(key) {
            Some(i) => {
                proof {
                    assert(self.entries@[i as int].0@ == key@);
                }
                true
            },
            None => false,
        }
    }

    /// The value bound to `key`, if any.
    pub fn get(&self, key: &str) -> (r: Option<&V>)
        ensures
            match r {
                Some(v) => self.map_view().dom().contains(key@) && self.map_view()[key@] == *v,
                None => !self.map_view().dom().contains(key@),
            },
    {
        proof {
            use_type_invariant(&*self);
        }
        match self.find_index(key) {
            Some(i) => {
                proof {
                    lemma_pair_map_index(self.entries@, i as int);
                }
                Some(&self.entries[i].1)
            },
            None => None,
        }
    }

    /// How many keys are bound.
    pub fn len(&self) -> (n: usize)
        ensures
            n == self.map_view().dom().len(),
            n == self.keys_view().len(),
    {
        proof {
            use_type_invariant(&*self);
            lemma_pair_map_len(self.entries@);
        }
        self.entries.len()
    }

    /// Whether no key is bound.
    pub fn is_empty(&self) -> (r: bool)
        ensures
            r == (self.keys_view().len() == 0),
    {
        self.entries.len() == 0
    }

    /// The key at position `i`, in insertion order.
    pub fn key_at(&self, i: usize) -> (r: &String)
        requires
            i < self.keys_view().len(),
        ensures
            r@ == self.keys_view()[i as int],
            self.map_view().dom().contains(r@),
    {
        proof {
            use_type_invariant(&*self);
            lemma_pair_map_index(self.entries@, i as int);
        }
        &self.entries[i].0
    }

    /// The value at position `i`: the binding of the key at `i`.
    pub fn value_at(&self, i: usize) -> (r: &V)
        requires
            i < self.keys_view().len(),
        ensures
            self.map_view().dom().contains(self.keys_view()[i as int]),
            *r == self.map_view()[self.keys_view()[i as int]],
    {
        proof {
            use_type_invariant(&*self);
            lemma_pair_map_index(self.entries@, i as int);
        }
        &self.entries[i].1
    }
}

} // verus!
