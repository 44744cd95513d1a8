/*
 This Source Code Form is subject to the terms of the Mozilla Public
 License, v. 2.0. If a copy of the MPL was not distributed with this
 file, You can obtain one at http://mozilla.org/MPL/2.0/.
*/

//! Small verified helpers over strings and string collections that the
//! audit bookkeeping and the record loaders share.

use vstd::prelude::*;

verus! {

/// The set of (viewed) strings held by a sequence of `String`s.
pub open spec fn str_seq_set(s: Seq<String>) -> Set<Seq<char>>
    decreases s.len(),
{
    if s.len() == 0 {
        Set::empty()
    } else {
        str_seq_set(s.drop_last()).insert(s.last()@)
    }
}

/// No two strings of the sequence read the same.
pub open spec fn unique_strs(s: Seq<String>) -> bool {
    forall|i: int, j: int| 0 <= i < j < s.len() ==> s[i]@ != s[j]@
}

/// Membership in `str_seq_set` is membership at some index.
pub proof fn lemma_str_seq_set_contains(s: Seq<String>, k: Seq<char>)
    ensures
        str_seq_set(s).contains(k) <==> exists|i: int| 0 <= i < s.len() && s[i]@ == k,
    decreases s.len(),
{
    if s.len() > 0 {
        lemma_str_seq_set_contains(s.drop_last(), k);
        if s.last()@ == k {
            assert(s[s.len() - 1]@ == k);
        } else if str_seq_set(s).contains(k) {
            let i = choose|i: int| 0 <= i < s.drop_last().len() && s.drop_last()[i]@ == k;
            assert(s[i]@ == k);
        } else if exists|i: int| 0 <= i < s.len() && s[i]@ == k {
            let i = choose|i: int| 0 <= i < s.len() && s[i]@ == k;
            assert(s.drop_last()[i]@ == k);
        }
    }
}

/// `str_seq_set` is finite, and a sequence of pairwise-distinct strings
/// holds exactly as many strings as its set.
pub proof fn lemma_str_seq_set_finite(s: Seq<String>)
    ensures
        str_seq_set(s).finite(),
        str_seq_set(s).len() <= s.len(),
        unique_strs(s) ==> str_seq_set(s).len() == s.len(),
    decreases s.len(),
{
    if s.len() > 0 {
        lemma_str_seq_set_finite(s.drop_last());
        if unique_strs(s) {
            assert(unique_strs(s.drop_last())) by {
                assert(forall|i: int, j: int|
                    0 <= i < j < s.drop_last().len() ==> s.drop_last()[i]@ == s[i]@
                        && s.drop_last()[j]@ == s[j]@);
            }
            assert(!str_seq_set(s.drop_last()).contains(s.last()@)) by {
                lemma_str_seq_set_contains(s.drop_last(), s.last()@);
            }
        }
    }
}

/// Whether two string slices read the same.
///
/// Comparison goes through owned `String`s because that is the string
/// equality vstd gives an exact meaning to.
pub fn str_eq(a: &str, b: &str) -> (r: bool)
    ensures
        r == (a@ == b@),
{
    let oa = a.to_owned();
    let ob = b.to_owned();
    oa == ob
}

/// Whether `v` holds a string reading as `key`.
pub fn contains_str(v: &Vec<String>, key: &str) -> (r: bool)
    ensures
        r == str_seq_set(v@).contains(key@),
{
    let mut i: usize = 0;
    while i < v.len()
        invariant
            i <= v.len(),
            forall|j: int| 0 <= j < i ==> v@[j]@ != key@,
        decreases v.len() - i,
    {
        if str_eq(v[i].as_str(), key) {
            proof {
                lemma_str_seq_set_contains(v@, key@);
            }
            return true;
        }
        i += 1;
    }
    proof {
        lemma_str_seq_set_contains(v@, key@);
    }
    false
}

/// Lexicographic order on strings, by character code: whether `a` reads
/// strictly before `b`.
pub open spec fn lex_lt(a: Seq<char>, b: Seq<char>) -> bool
    decreases a.len(),
{
    if b.len() == 0 {
        false
    } else if a.len() == 0 {
        true
    } else if a.first() == b.first() {
        lex_lt(a.drop_first(), b.drop_first())
    } else {
        (a.first() as u32) < (b.first() as u32)
    }
}

/// Strings that agree on a prefix compare as their remainders do.
proof fn lemma_lex_lt_skip(a: Seq<char>, b: Seq<char>, i: int)
    requires
        0 <= i <= a.len(),
        i <= b.len(),
        forall|j: int| 0 <= j < i ==> a[j] == b[j],
    ensures
        lex_lt(a, b) == lex_lt(a.skip(i), b.skip(i)),
    decreases i,
{
    if i == 0 {
        assert(a.skip(0) =~= a);
        assert(b.skip(0) =~= b);
    } else {
        assert(a.first() == b.first());
        let a1 = a.drop_first();
        let b1 = b.drop_first();
        assert(forall|j: int| 0 <= j < i - 1 ==> a1[j] == b1[j]);
        lemma_lex_lt_skip(a1, b1, i - 1);
        assert(a1.skip(i - 1) =~= a.skip(i));
        assert(b1.skip(i - 1) =~= b.skip(i));
    }
}

/// Whether `a` reads strictly before `b`, by character code.
pub fn str_lt(a: &str, b: &str) -> (r: bool)
    ensures
        r == lex_lt(a@, b@),
{
    let alen = a.unicode_len();
    let blen = b.unicode_len();
    let mut i: usize = 0;
    while i < alen && i < blen && a.get_char(i) == b.get_char(i)
        invariant
            i <= alen,
            i <= blen,
            alen == a@.len(),
            blen == b@.len(),
            forall|j: int| 0 <= j < i ==> a@[j] == b@[j],
        decreases alen - i,
    {
        i += 1;
    }
    proof {
        lemma_lex_lt_skip(a@, b@, i as int);
    }
    if i == blen {
        false
    } else if i == alen {
        true
    } else {
        (a.get_char(i) as u32) < (b.get_char(i) as u32)
    }
}

/// `key` placed into `keys` just before the first member it does not read
/// after; a sequence in ascending order stays in ascending order.
pub open spec fn sorted_insert(keys: Seq<Seq<char>>, key: Seq<char>) -> Seq<Seq<char>>
    decreases keys.len(),
{
    if keys.len() == 0 {
        seq![key]
    } else if lex_lt(keys.first(), key) {
        seq![keys.first()] + sorted_insert(keys.drop_first(), key)
    } else {
        seq![key] + keys
    }
}

/// What characterizes `sorted_insert`: the key lands at the first position
/// whose member does not read before it.
pub proof fn lemma_sorted_insert_at(keys: Seq<Seq<char>>, key: Seq<char>, i: int)
    requires
        0 <= i <= keys.len(),
        forall|j: int| 0 <= j < i ==> lex_lt(#[trigger] keys[j], key),
        i < keys.len() ==> !lex_lt(keys[i], key),
    ensures
        sorted_insert(keys, key) =~= keys.subrange(0, i) + seq![key] + keys.subrange(
            i,
            keys.len() as int,
        ),
    decreases i,
{
    if i == 0 {
        if keys.len() == 0 {
            assert(sorted_insert(keys, key) =~= seq![key]);
        } else {
            assert(!lex_lt(keys.first(), key));
        }
        assert(keys.subrange(0, 0) =~= Seq::<Seq<char>>::empty());
        assert(keys.subrange(0, keys.len() as int) =~= keys);
    } else {
        assert(lex_lt(keys.first(), key));
        let rest = keys.drop_first();
        assert(forall|j: int| 0 <= j < i - 1 ==> lex_lt(#[trigger] rest[j], key)) by {
            assert(forall|j: int| 0 <= j < i - 1 ==> rest[j] == keys[j + 1]);
        }
        lemma_sorted_insert_at(rest, key, i - 1);
        assert(rest.subrange(0, i - 1) =~= keys.subrange(1, i));
        assert(rest.subrange(i - 1, rest.len() as int) =~= keys.subrange(i, keys.len() as int));
        assert(sorted_insert(keys, key) =~= seq![keys.first()] + (keys.subrange(1, i) + seq![key]
            + keys.subrange(i, keys.len() as int)));
    }
}

/// `prefix` and `rest`, joined with a dot: the namespaced form of an
/// audited key.
pub fn dotted(prefix: &str, rest: &str) -> (r: String)
    ensures
        r@ == prefix@ + "."@ + rest@,
{
    let mut s = prefix.to_owned();
    s.append(".");
    s.append(rest);
    s
}

} // verus!
