/*
 This Source Code Form is subject to the terms of the Mozilla Public
 License, v. 2.0. If a copy of the MPL was not distributed with this
 file, You can obtain one at http://mozilla.org/MPL/2.0/.
*/

//! The property-list value tree and its typed accessors.
//!
//! A property list is a tagged tree over strings, integers, reals,
//! booleans, dates, byte blobs, arrays and string-keyed dictionaries.
//! Reading the documents from disk happens outside this crate; callers
//! build `Value` trees out of plain data and hand them in.
//!
//! Each typed accessor returns `Some` only when the key exists *and* the
//! stored variant matches the requested type; there is no coercion, and a
//! missing or mistyped key yields `None`, never a default.

use vstd::prelude::*;

use crate::strutil::str_eq;

verus! {

/// An absolute point in time (UTC), as seconds and subsecond nanoseconds
/// since the Unix epoch. Property-list dates are normalized to this
/// representation whatever timezone encoding the source used.
#[derive(Clone, Copy, Debug, PartialEq, Eq, Structural)]
pub struct PlistDate {
    pub seconds: i64,
    pub nanos: u32,
}

/// One entry of a property-list dictionary.
#[derive(Debug, PartialEq)]
pub struct DictEntry {
    pub key: String,
    pub value: Value,
}

/// A property-list dictionary: string keys mapped to values, in document
/// order. A later entry with the same key shadows an earlier one, as
/// `insert` always records the latest binding.
#[derive(Debug, PartialEq)]
pub struct Dictionary {
    /// The entries in document order; later entries shadow earlier ones.
    pub entries: Vec<DictEntry>,
}

/// A property-list value: the tagged union at the root of every on-disk
/// record. `Real` carries the decimal rendering of the floating value,
/// which is all the library's rules ever read of one.
#[derive(Debug, PartialEq)]
pub enum Value {
    Str(String),
    Int(i64),
    Real(String),
    Boolean(bool),
    Date(PlistDate),
    Data(Vec<u8>),
    Array(Vec<Value>),
    Dict(Dictionary),
}

/// The value bound to `key` in `s`: the latest matching entry wins.
pub open spec fn entries_lookup(s: Seq<DictEntry>, key: Seq<char>) -> Option<Value>
    decreases s.len(),
{
    if s.len() == 0 {
        None
    } else if s.last().key@ == key {
        Some(s.last().value)
    } else {
        entries_lookup(s.drop_last(), key)
    }
}

/// The set of keys of the entries of `s`.
pub open spec fn entries_key_set(s: Seq<DictEntry>) -> Set<Seq<char>>
    decreases s.len(),
{
    if s.len() == 0 {
        Set::empty()
    } else {
        entries_key_set(s.drop_last()).insert(s.last().key@)
    }
}

/// A key is bound exactly when it is in the key set.
pub proof fn lemma_lookup_key_set(s: Seq<DictEntry>, key: Seq<char>)
    ensures
        entries_lookup(s, key) is Some <==> entries_key_set(s).contains(key),
    decreases s.len(),
{
    if s.len() > 0 {
        lemma_lookup_key_set(s.drop_last(), key);
    }
}

impl Dictionary {
    /// The entries, in document order.
    pub closed spec fn pairs(self) -> Seq<DictEntry> {
        self.entries@
    }

    /// The value bound to `key`, if any.
    pub open spec fn spec_get(self, key: Seq<char>) -> Option<Value> {
        entries_lookup(self.pairs(), key)
    }

    /// The set of keys present in the dictionary.
    pub open spec fn key_set(self) -> Set<Seq<char>> {
        entries_key_set(self.pairs())
    }

    /// An empty dictionary.
    pub fn new() -> (d: Dictionary)
        ensures
            d.pairs() == Seq::<DictEntry>::empty(),
    {
        Dictionary { entries: Vec::new() }
    }

    /// Bind `key` to `value`. The new binding shadows any earlier one.
    pub fn insert(&mut self, key: &str, value: Value)
        ensures
            final(self).pairs().len() == old(self).pairs().len() + 1,
            final(self).pairs().drop_last() == old(self).pairs(),
            final(self).pairs().last().key@ == key@,
            final(self).pairs().last().value == value,
            final(self).spec_get(key@) == Some(value),
            final(self).key_set() == old(self).key_set().insert(key@),
            forall|k: Seq<char>| k != key@ ==> final(self).spec_get(k) == old(self).spec_get(k),
    {
        let ghost before = self.entries@;
        let entry = DictEntry { key: key.to_owned(), value };
        self.entries.push(entry);
        proof {
            assert(self.entries@.drop_last() =~= before);
        }
    }

    /// How many entries the dictionary holds.
    pub fn entry_count(&self) -> (n: usize)
        ensures
            n == self.pairs().len(),
    {
        self.entries.len()
    }

    /// The entry at position `i`, in document order.
    pub fn entry_at(&self, i: usize) -> (e: &DictEntry)
        requires
            i < self.pairs().len(),
        ensures
            *e == self.pairs()[i as int],
    {
        &self.entries[i]
    }

    /// Look `key` up: the latest entry with that key, if any. The found
    /// value is a component of the dictionary, so recursion may descend
    /// into it.
    pub fn get(&self, key: &str) -> (r: Option<&Value>)
        ensures
            match r {
                Some(v) => self.spec_get(key@) == Some(*v) && (decreases_to!(*self => *v)),
                None => self.spec_get(key@) is None,
            },
    {
        let ghost s = self.entries@;
        proof {
            assert(s.subrange(0, s.len() as int) =~= s);
        }
        let mut i: usize = self.entries.len();
        while i > 0
            invariant
                i <= s.len(),
                s == self.entries@,
                entries_lookup(s, key@) == entries_lookup(s.subrange(0, i as int), key@),
            decreases i,
        {
            i -= 1;
            let e = &self.entries[i];
            if str_eq(e.key.as_str(), key) {
                proof {
                    let sub = s.subrange(0, i as int + 1);
                    assert(sub.last() == s[i as int]);
                    broadcast use vstd::std_specs::vec::group_vec_axioms;

                    assert(decreases_to!(self.entries => self.entries@));
                    assert(decreases_to!(self.entries@ => self.entries@[i as int]));
                    assert(decreases_to!(*self => self.entries@[i as int].value));
                }
                return Some(&e.value);
            }
            proof {
                let sub = s.subrange(0, i as int + 1);
                assert(sub.last() == s[i as int]);
                assert(sub.drop_last() =~= s.subrange(0, i as int));
            }
        }
        proof {
            assert(s.subrange(0, 0) =~= Seq::<DictEntry>::empty());
        }
        None
    }
}

/// The string bound to `key`, when the entry is string-typed.
pub open spec fn lookup_str(d: Dictionary, key: Seq<char>) -> Option<String> {
    match d.spec_get(key) {
        Some(Value::Str(s)) => Some(s),
        _ => None,
    }
}

/// The integer bound to `key`, when the entry is integer-typed.
pub open spec fn lookup_int(d: Dictionary, key: Seq<char>) -> Option<i64> {
    match d.spec_get(key) {
        Some(Value::Int(i)) => Some(i),
        _ => None,
    }
}

/// The non-negative integer bound to `key`, as an unsigned value.
pub open spec fn lookup_uint(d: Dictionary, key: Seq<char>) -> Option<u64> {
    match d.spec_get(key) {
        Some(Value::Int(i)) => if i >= 0 {
            Some(i as u64)
        } else {
            None
        },
        _ => None,
    }
}

/// The boolean bound to `key`, when the entry is boolean-typed.
pub open spec fn lookup_bool(d: Dictionary, key: Seq<char>) -> Option<bool> {
    match d.spec_get(key) {
        Some(Value::Boolean(b)) => Some(b),
        _ => None,
    }
}

/// The date bound to `key`, when the entry is date-typed.
pub open spec fn lookup_date(d: Dictionary, key: Seq<char>) -> Option<PlistDate> {
    match d.spec_get(key) {
        Some(Value::Date(dt)) => Some(dt),
        _ => None,
    }
}

/// The bytes bound to `key`, when the entry is data-typed.
pub open spec fn lookup_data(d: Dictionary, key: Seq<char>) -> Option<Seq<u8>> {
    match d.spec_get(key) {
        Some(Value::Data(v)) => Some(v@),
        _ => None,
    }
}

/// The elements bound to `key`, when the entry is array-typed.
pub open spec fn lookup_array(d: Dictionary, key: Seq<char>) -> Option<Seq<Value>> {
    match d.spec_get(key) {
        Some(Value::Array(a)) => Some(a@),
        _ => None,
    }
}

/// The dictionary bound to `key`, when the entry is dictionary-typed.
pub open spec fn lookup_dict(d: Dictionary, key: Seq<char>) -> Option<Dictionary> {
    match d.spec_get(key) {
        Some(Value::Dict(inner)) => Some(inner),
        _ => None,
    }
}

/// String under `key`, or `None` when absent or differently typed.
pub fn get_str_value(dict: &Dictionary, key: &str) -> (r: Option<String>)
    ensures
        r == lookup_str(*dict, key@),
{
    match dict.get(key) {
        Some(Value::Str(s)) => Some(s.clone()),
        _ => None,
    }
}

/// Signed integer under `key`, or `None` when absent or differently typed.
pub fn get_int_value(dict: &Dictionary, key: &str) -> (r: Option<i64>)
    ensures
        r == lookup_int(*dict, key@),
{
    match dict.get(key) {
        Some(Value::Int(i)) => Some(*i),
        _ => None,
    }
}

/// Unsigned integer under `key`, or `None` when absent, negative, or
/// differently typed.
pub fn get_uint_value(dict: &Dictionary, key: &str) -> (r: Option<u64>)
    ensures
        r == lookup_uint(*dict, key@),
{
    match dict.get(key) {
        Some(Value::Int(i)) => {
            if *i >= 0 {
                Some(*i as u64)
            } else {
                None
            }
        },
        _ => None,
    }
}

/// Boolean under `key`, or `None` when absent or differently typed.
pub fn get_bool_value(dict: &Dictionary, key: &str) -> (r: Option<bool>)
    ensures
        r == lookup_bool(*dict, key@),
{
    match dict.get(key) {
        Some(Value::Boolean(b)) => Some(*b),
        _ => None,
    }
}

/// Date under `key`, or `None` when absent or differently typed.
pub fn get_date_value(dict: &Dictionary, key: &str) -> (r: Option<PlistDate>)
    ensures
        r == lookup_date(*dict, key@),
{
    match dict.get(key) {
        Some(Value::Date(d)) => Some(*d),
        _ => None,
    }
}

/// Bytes under `key`, or `None` when absent or differently typed.
pub fn get_data_value(dict: &Dictionary, key: &str) -> (r: Option<Vec<u8>>)
    ensures
        match r {
            Some(v) => lookup_data(*dict, key@) == Some(v@),
            None => lookup_data(*dict, key@) is None,
        },
{
    match dict.get(key) {
        Some(Value::Data(d)) => Some(copy_bytes(d)),
        _ => None,
    }
}

/// Array elements under `key`, or `None` when absent or differently typed.
pub fn get_array_value<'a>(dict: &'a Dictionary, key: &str) -> (r: Option<&'a Vec<Value>>)
    ensures
        match r {
            Some(a) => lookup_array(*dict, key@) == Some(a@) && (decreases_to!(*dict => *a)),
            None => lookup_array(*dict, key@) is None,
        },
{
    match dict.get(key) {
        Some(Value::Array(a)) => Some(a),
        _ => None,
    }
}

/// Nested dictionary under `key`, or `None` when absent or differently
/// typed.
pub fn get_dict_value<'a>(dict: &'a Dictionary, key: &str) -> (r: Option<&'a Dictionary>)
    ensures
        match r {
            Some(d) => lookup_dict(*dict, key@) == Some(*d) && (decreases_to!(*dict => *d)),
            None => lookup_dict(*dict, key@) is None,
        },
{
    match dict.get(key) {
        Some(Value::Dict(d)) => Some(d),
        _ => None,
    }
}

/// An owned copy of a byte vector.
pub fn copy_bytes(v: &Vec<u8>) -> (r: Vec<u8>)
    ensures
        r@ == v@,
{
    let mut out: Vec<u8> = Vec::new();
    let mut i: usize = 0;
    while i < v.len()
        invariant
            i <= v.len(),
            out@ == v@.subrange(0, i as int),
        decreases v.len() - i,
    {
        out.push(v[i]);
        proof {
            assert(out@ =~= v@.subrange(0, i as int + 1));
        }
        i += 1;
    }
    proof {
        assert(out@ =~= v@);
    }
    out
}

/// Deep structural equality of two values: equal tags, equal plain
/// contents, and — for arrays and dictionaries — pairwise equal entries.
/// Two values built independently from the same document are alike even
/// where the prover cannot identify their backing vectors.
pub open spec fn value_like(a: Value, b: Value) -> bool
    decreases a,
{
    match (a, b) {
        (Value::Str(x), Value::Str(y)) => x@ == y@,
        (Value::Int(x), Value::Int(y)) => x == y,
        (Value::Real(x), Value::Real(y)) => x@ == y@,
        (Value::Boolean(x), Value::Boolean(y)) => x == y,
        (Value::Date(x), Value::Date(y)) => x == y,
        (Value::Data(x), Value::Data(y)) => x@ == y@,
        (Value::Array(x), Value::Array(y)) => {
            &&& x@.len() == y@.len()
            &&& forall|i: int| 0 <= i < x@.len() ==> value_like(#[trigger] x@[i], y@[i])
        },
        (Value::Dict(x), Value::Dict(y)) => {
            &&& x.entries@.len() == y.entries@.len()
            &&& forall|i: int|
                0 <= i < x.entries@.len() ==> {
                    &&& (#[trigger] x.entries@[i]).key@ == y.entries@[i].key@
                    &&& value_like(x.entries@[i].value, y.entries@[i].value)
                }
        },
        _ => false,
    }
}

/// Deep structural equality of two dictionaries.
pub open spec fn dict_like(a: Dictionary, b: Dictionary) -> bool {
    value_like(Value::Dict(a), Value::Dict(b))
}

/// `value_like` is reflexive.
pub proof fn value_like_refl(a: Value)
    ensures
        value_like(a, a),
    decreases a,
{
    match a {
        Value::Array(x) => {
            assert forall|i: int| 0 <= i < x@.len() implies value_like(
                #[trigger] x@[i],
                x@[i],
            ) by {
                value_like_refl(x@[i]);
            }
        },
        Value::Dict(x) => {
            assert forall|i: int|
                0 <= i < x.entries@.len() implies (#[trigger] x.entries@[i]).key@
                == x.entries@[i].key@ && value_like(x.entries@[i].value, x.entries@[i].value) by {
                value_like_refl(x.entries@[i].value);
            }
        },
        _ => {},
    }
}

impl Value {
    /// A deep copy of the value.
    pub fn duplicate(&self) -> (r: Value)
        ensures
            value_like(r, *self),
        decreases *self,
    {
        match self {
            Value::Str(s) => Value::Str(s.clone()),
            Value::Int(i) => Value::Int(*i),
            Value::Real(s) => Value::Real(s.clone()),
            Value::Boolean(b) => Value::Boolean(*b),
            Value::Date(d) => Value::Date(*d),
            Value::Data(d) => Value::Data(copy_bytes(d)),
            Value::Array(a) => Value::Array(duplicate_values(a)),
            Value::Dict(d) => Value::Dict(d.duplicate()),
        }
    }
}

/// Pairwise deep structural equality of two value sequences.
pub open spec fn values_like(x: Seq<Value>, y: Seq<Value>) -> bool {
    &&& x.len() == y.len()
    &&& forall|i: int| 0 <= i < x.len() ==> value_like(#[trigger] x[i], y[i])
}

/// A deep copy of a vector of values.
pub fn duplicate_values(a: &Vec<Value>) -> (r: Vec<Value>)
    ensures
        values_like(r@, a@),
    decreases *a,
{
    let mut out: Vec<Value> = Vec::new();
    let mut i: usize = 0;
    while i < a.len()
        invariant
            i <= a.len(),
            out@.len() == i,
            forall|j: int| 0 <= j < i ==> value_like(#[trigger] out@[j], a@[j]),
        decreases a.len() - i,
    {
        out.push(a[i].duplicate());
        i += 1;
    }
    out
}

impl Dictionary {
    /// A deep copy of the dictionary.
    pub fn duplicate(&self) -> (r: Dictionary)
        ensures
            dict_like(r, *self),
        decreases *self,
    {
        let mut out: Vec<DictEntry> = Vec::new();
        let mut i: usize = 0;
        while i < self.entries.len()
            invariant
                i <= self.entries.len(),
                out@.len() == i,
                forall|j: int|
                    0 <= j < i ==> (#[trigger] out@[j]).key@ == self.entries@[j].key@ && value_like(
                        out@[j].value,
                        self.entries@[j].value,
                    ),
            decreases self.entries.len() - i,
        {
            let e = &self.entries[i];
            out.push(DictEntry { key: e.key.clone(), value: e.value.duplicate() });
            i += 1;
        }
        Dictionary { entries: out }
    }
}

} // verus!
