/*
 This Source Code Form is subject to the terms of the Mozilla Public
 License, v. 2.0. If a copy of the MPL was not distributed with this
 file, You can obtain one at http://mozilla.org/MPL/2.0/.
*/

//! Decimal rendering of integers, for audit keys and XMP values.

use vstd::prelude::*;

verus! {

/// The character for one decimal digit.
pub open spec fn digit_char(d: nat) -> char {
    if d == 0 {
        '0'
    } else if d == 1 {
        '1'
    } else if d == 2 {
        '2'
    } else if d == 3 {
        '3'
    } else if d == 4 {
        '4'
    } else if d == 5 {
        '5'
    } else if d == 6 {
        '6'
    } else if d == 7 {
        '7'
    } else if d == 8 {
        '8'
    } else {
        '9'
    }
}

/// The decimal rendering of a natural number, most significant digit
/// first, without leading zeros (a sole zero for zero).
pub open spec fn dec_str(n: nat) -> Seq<char>
    decreases n,
{
    if n < 10 {
        seq![digit_char(n)]
    } else {
        dec_str(n / 10).push(digit_char(n % 10))
    }
}

/// The decimal rendering of a signed integer: a minus sign and the
/// magnitude for negative values.
pub open spec fn int_str(i: int) -> Seq<char> {
    if i < 0 {
        seq!['-'] + dec_str((-i) as nat)
    } else {
        dec_str(i as nat)
    }
}

/// Digits collected least significant first, read back most significant
/// first.
spec fn rev_digit_chars(v: Seq<u64>) -> Seq<char>
    decreases v.len(),
{
    if v.len() == 0 {
        Seq::empty()
    } else {
        seq![digit_char(v.last() as nat)] + rev_digit_chars(v.drop_last())
    }
}

proof fn lemma_rev_digit_first(v: Seq<u64>)
    requires
        v.len() > 0,
    ensures
        rev_digit_chars(v) =~= rev_digit_chars(v.drop_first()) + seq![digit_char(v.first() as nat)],
    decreases v.len(),
{
    if v.len() == 1 {
        assert(v.drop_first() =~= Seq::<u64>::empty());
        assert(v.drop_last() =~= Seq::<u64>::empty());
        assert(v.last() == v.first());
    } else {
        lemma_rev_digit_first(v.drop_last());
        assert(v.drop_first().drop_last() =~= v.drop_last().drop_first());
        assert(v.drop_last().first() == v.first());
        assert(v.drop_first().last() == v.last());
        assert(rev_digit_chars(v.drop_first()) == seq![digit_char(v.last() as nat)]
            + rev_digit_chars(v.drop_first().drop_last()));
        assert(rev_digit_chars(v) =~= seq![digit_char(v.last() as nat)] + (rev_digit_chars(
            v.drop_last().drop_first(),
        ) + seq![digit_char(v.first() as nat)]));
    }
}

/// The string for one decimal digit.
fn digit_text(d: u64) -> (r: &'static str)
    requires
        d < 10,
    ensures
        r@ == seq![digit_char(d as nat)],
{
    if d == 0 {
        proof {
            reveal_strlit("0");
        }
        "0"
    } else if d == 1 {
        proof {
            reveal_strlit("1");
        }
        "1"
    } else if d == 2 {
        proof {
            reveal_strlit("2");
        }
        "2"
    } else if d == 3 {
        proof {
            reveal_strlit("3");
        }
        "3"
    } else if d == 4 {
        proof {
            reveal_strlit("4");
        }
        "4"
    } else if d == 5 {
        proof {
            reveal_strlit("5");
        }
        "5"
    } else if d == 6 {
        proof {
            reveal_strlit("6");
        }
        "6"
    } else if d == 7 {
        proof {
            reveal_strlit("7");
        }
        "7"
    } else if d == 8 {
        proof {
            reveal_strlit("8");
        }
        "8"
    } else {
        proof {
            reveal_strlit("9");
        }
        "9"
    }
}

/// The decimal rendering of an unsigned integer.
pub fn u64_to_string(n: u64) -> (r: String)
    ensures
        r@ == dec_str(n as nat),
{
    let mut digs: Vec<u64> = Vec::new();
    let mut m: u64 = n;
    loop
        invariant
            digs@.len() == 0 ==> m == n,
            m > 0 ==> dec_str(n as nat) =~= dec_str(m as nat) + rev_digit_chars(digs@),
            m == 0 && digs@.len() > 0 ==> dec_str(n as nat) =~= rev_digit_chars(digs@),
            forall|j: int| 0 <= j < digs@.len() ==> digs@[j] < 10,
        ensures
            digs@.len() > 0,
            dec_str(n as nat) =~= rev_digit_chars(digs@),
            forall|j: int| 0 <= j < digs@.len() ==> digs@[j] < 10,
        decreases m, (if digs@.len() == 0 { 1int } else { 0int }),
    {
        if m == 0 && digs.len() > 0 {
            break;
        }
        let ghost old_digs = digs@;
        let ghost m0 = m;
        let d: u64 = m % 10;
        digs.push(d);
        proof {
            assert(digs@.drop_last() =~= old_digs);
            assert(rev_digit_chars(digs@) =~= seq![digit_char(d as nat)] + rev_digit_chars(
                old_digs,
            ));
            if m0 == 0 {
                // only reachable with no digits yet, so the whole number is 0
                assert(old_digs.len() == 0);
                assert(n == 0);
                assert(rev_digit_chars(old_digs) =~= Seq::<char>::empty());
                assert(dec_str(n as nat) =~= rev_digit_chars(digs@));
            } else if m0 >= 10 {
                assert(dec_str(m0 as nat) == dec_str((m0 as nat) / 10).push(
                    digit_char((m0 as nat) % 10),
                ));
                assert(dec_str((m0 / 10) as nat) + rev_digit_chars(digs@) =~= dec_str(m0 as nat)
                    + rev_digit_chars(old_digs));
            } else {
                assert(dec_str(m0 as nat) =~= seq![digit_char(m0 as nat)]);
                assert(rev_digit_chars(digs@) =~= dec_str(m0 as nat) + rev_digit_chars(old_digs));
                assert(dec_str(n as nat) =~= rev_digit_chars(digs@));
            }
        }
        m = m / 10;
    }
    let mut s = String::new();
    let mut i: usize = digs.len();
    while i > 0
        invariant
            i <= digs@.len(),
            s@ =~= rev_digit_chars(digs@.subrange(i as int, digs@.len() as int)),
            forall|j: int| 0 <= j < digs@.len() ==> digs@[j] < 10,
        decreases i,
    {
        i -= 1;
        let ghost before = digs@.subrange(i as int + 1, digs@.len() as int);
        let t = digit_text(digs[i]);
        s.append(t);
        proof {
            let now = digs@.subrange(i as int, digs@.len() as int);
            lemma_rev_digit_first(now);
            assert(now.drop_first() =~= before);
            assert(now.first() == digs@[i as int]);
        }
    }
    proof {
        assert(digs@.subrange(0, digs@.len() as int) =~= digs@);
    }
    s
}

/// The decimal rendering of an unsigned integer too wide for `u64`.
pub fn u128_to_string(n: u128) -> (r: String)
    ensures
        r@ == dec_str(n as nat),
{
    let mut digs: Vec<u64> = Vec::new();
    let mut m: u128 = n;
    loop
        invariant
            digs@.len() == 0 ==> m == n,
            m > 0 ==> dec_str(n as nat) =~= dec_str(m as nat) + rev_digit_chars(digs@),
            m == 0 && digs@.len() > 0 ==> dec_str(n as nat) =~= rev_digit_chars(digs@),
            forall|j: int| 0 <= j < digs@.len() ==> digs@[j] < 10,
        ensures
            digs@.len() > 0,
            dec_str(n as nat) =~= rev_digit_chars(digs@),
            forall|j: int| 0 <= j < digs@.len() ==> digs@[j] < 10,
        decreases m, (if digs@.len() == 0 { 1int } else { 0int }),
    {
        if m == 0 && digs.len() > 0 {
            break;
        }
        let ghost old_digs = digs@;
        let ghost m0 = m;
        let d: u64 = (m % 10) as u64;
        digs.push(d);
        proof {
            assert(digs@.drop_last() =~= old_digs);
            assert(rev_digit_chars(digs@) =~= seq![digit_char(d as nat)] + rev_digit_chars(
                old_digs,
            ));
            if m0 == 0 {
                assert(old_digs.len() == 0);
                assert(n == 0);
                assert(rev_digit_chars(old_digs) =~= Seq::<char>::empty());
                assert(dec_str(n as nat) =~= rev_digit_chars(digs@));
            } else if m0 >= 10 {
                assert(dec_str(m0 as nat) == dec_str((m0 as nat) / 10).push(
                    digit_char((m0 as nat) % 10),
                ));
                assert(dec_str((m0 / 10) as nat) + rev_digit_chars(digs@) =~= dec_str(m0 as nat)
                    + rev_digit_chars(old_digs));
            } else {
                assert(dec_str(m0 as nat) =~= seq![digit_char(m0 as nat)]);
                assert(rev_digit_chars(digs@) =~= dec_str(m0 as nat) + rev_digit_chars(old_digs));
                assert(dec_str(n as nat) =~= rev_digit_chars(digs@));
            }
        }
        m = m / 10;
    }
    let mut s = String::new();
    let mut i: usize = digs.len();
    while i > 0
        invariant
            i <= digs@.len(),
            s@ =~= rev_digit_chars(digs@.subrange(i as int, digs@.len() as int)),
            forall|j: int| 0 <= j < digs@.len() ==> digs@[j] < 10,
        decreases i,
    {
        i -= 1;
        let ghost before = digs@.subrange(i as int + 1, digs@.len() as int);
        let t = digit_text(digs[i]);
        s.append(t);
        proof {
            let now = digs@.subrange(i as int, digs@.len() as int);
            lemma_rev_digit_first(now);
            assert(now.drop_first() =~= before);
            assert(now.first() == digs@[i as int]);
        }
    }
    proof {
        assert(digs@.subrange(0, digs@.len() as int) =~= digs@);
    }
    s
}

/// The decimal rendering of a signed integer scaled by one hundred.
pub fn i64_times100_string(i: i64) -> (r: String)
    ensures
        r@ == int_str(100 * (i as int)),
{
    let wide: i128 = (i as i128) * 100;
    if wide >= 0 {
        u128_to_string(wide as u128)
    } else {
        proof {
            reveal_strlit("-");
        }
        let mut s = "-".to_owned();
        let digits = u128_to_string((-wide) as u128);
        s.append(digits.as_str());
        proof {
            assert(s@ =~= seq!['-'] + dec_str((-(100 * (i as int))) as nat));
        }
        s
    }
}

/// The decimal rendering of a signed integer.
pub fn i64_to_string(i: i64) -> (r: String)
    ensures
        r@ == int_str(i as int),
{
    if i >= 0 {
        u64_to_string(i as u64)
    } else {
        let wide: i128 = i as i128;
        let mag: u64 = (-wide) as u64;
        proof {
            reveal_strlit("-");
        }
        let mut s = "-".to_owned();
        let digits = u64_to_string(mag);
        s.append(digits.as_str());
        proof {
            assert(s@ =~= seq!['-'] + dec_str((-(i as int)) as nat));
        }
        s
    }
}

/// Whether `c` is a decimal digit.
pub open spec fn spec_is_digit(c: char) -> bool {
    48 <= c as u32 <= 57
}

/// Whether every character of `s` is a decimal digit.
pub open spec fn all_digits(s: Seq<char>) -> bool {
    forall|i: int| 0 <= i < s.len() ==> spec_is_digit(#[trigger] s[i])
}

/// The position of the first dot of `s`, if any.
pub open spec fn first_dot(s: Seq<char>) -> Option<int>
    decreases s.len(),
{
    if s.len() == 0 {
        None
    } else if s.first() == '.' {
        Some(0)
    } else {
        match first_dot(s.drop_first()) {
            Some(i) => Some(i + 1),
            None => None,
        }
    }
}

/// What characterizes `first_dot`: the dot at the returned position is
/// the earliest one.
pub proof fn lemma_first_dot(s: Seq<char>, i: int)
    requires
        0 <= i <= s.len(),
        forall|j: int| 0 <= j < i ==> s[j] != '.',
        i < s.len() ==> s[i] == '.',
    ensures
        i < s.len() ==> first_dot(s) == Some(i),
        i == s.len() ==> first_dot(s) is None,
    decreases s.len(),
{
    if s.len() > 0 {
        if s.first() == '.' {
            assert(i == 0);
        } else {
            let t = s.drop_first();
            assert(forall|j: int| 0 <= j < i - 1 ==> t[j] != '.');
            lemma_first_dot(t, i - 1);
        }
    }
}

/// `s` without its leading zeros; a sole zero stays.
pub open spec fn strip_zeros(s: Seq<char>) -> Seq<char>
    decreases s.len(),
{
    if s.len() <= 1 {
        s
    } else if s.first() == '0' {
        strip_zeros(s.drop_first())
    } else {
        s
    }
}

/// What characterizes `strip_zeros`: dropping exactly the run of leading
/// zeros, stopping before the last character.
pub proof fn lemma_strip_zeros(s: Seq<char>, k: int)
    requires
        0 <= k < s.len(),
        forall|j: int| 0 <= j < k ==> s[j] == '0',
        k == s.len() - 1 || s[k] != '0',
    ensures
        strip_zeros(s) =~= s.skip(k),
    decreases k,
{
    if k == 0 {
        assert(s.skip(0) =~= s);
        if s.len() > 1 && s.first() == '0' {
            // then s[0] != '0' is false and k must be s.len() - 1 == 0,
            // contradicting s.len() > 1
            assert(false);
        }
    } else {
        assert(s.first() == '0');
        assert(s.len() > 1);
        let t = s.drop_first();
        assert(forall|j: int| 0 <= j < k - 1 ==> t[j] == '0');
        assert(k - 1 == t.len() - 1 || t[k - 1] != '0');
        lemma_strip_zeros(t, k - 1);
        assert(t.skip(k - 1) =~= s.skip(k));
    }
}

/// The digit part and the remainder of the shift: the first two fraction
/// digits (zero-padded) join the integer digits, and any further fraction
/// digits stay behind the point.
pub open spec fn shifted_digits(d: Seq<char>, f: Seq<char>) -> Seq<char> {
    let f2 = if f.len() >= 2 {
        f.take(2)
    } else if f.len() == 1 {
        f + seq!['0']
    } else {
        seq!['0', '0']
    };
    let rest = if f.len() > 2 {
        f.skip(2)
    } else {
        Seq::<char>::empty()
    };
    let digits = strip_zeros(d + f2);
    if rest.len() > 0 {
        digits + seq!['.'] + rest
    } else {
        digits
    }
}

/// A non-negative decimal rendering, multiplied by one hundred: the
/// decimal point moves two places right. `None` for text that is not a
/// plain decimal rendering.
pub open spec fn spec_shift100_mag(s: Seq<char>) -> Option<Seq<char>> {
    match first_dot(s) {
        Some(i) => {
            let d = s.take(i);
            let f = s.skip(i + 1);
            if d.len() > 0 && all_digits(d) && f.len() > 0 && all_digits(f) {
                Some(shifted_digits(d, f))
            } else {
                None
            }
        },
        None => if s.len() > 0 && all_digits(s) {
            Some(s + seq!['0', '0'])
        } else {
            None
        },
    }
}

/// A decimal rendering, multiplied by one hundred; a leading minus sign
/// carries over.
pub open spec fn spec_shift100(s: Seq<char>) -> Option<Seq<char>> {
    if s.len() > 0 && s.first() == '-' {
        match spec_shift100_mag(s.skip(1)) {
            Some(t) => Some(seq!['-'] + t),
            None => None,
        }
    } else {
        spec_shift100_mag(s)
    }
}

/// Whether `c` is a decimal digit.
pub fn is_digit(c: char) -> (r: bool)
    ensures
        r == spec_is_digit(c),
{
    let u = c as u32;
    48 <= u && u <= 57
}

/// Whether every character of `s` is a decimal digit.
fn check_all_digits(s: &str) -> (r: bool)
    ensures
        r == all_digits(s@),
{
    let n = s.unicode_len();
    let mut i: usize = 0;
    while i < n
        invariant
            i <= n,
            n == s@.len(),
            forall|j: int| 0 <= j < i ==> spec_is_digit(#[trigger] s@[j]),
        decreases n - i,
    {
        if !is_digit(s.get_char(i)) {
            return false;
        }
        i += 1;
    }
    true
}

/// The position of the first dot of `s`, if any.
fn find_dot(s: &str) -> (r: Option<usize>)
    ensures
        match r {
            Some(i) => first_dot(s@) == Some(i as int) && i < s@.len(),
            None => first_dot(s@) is None,
        },
{
    let n = s.unicode_len();
    let mut i: usize = 0;
    while i < n
        invariant
            i <= n,
            n == s@.len(),
            forall|j: int| 0 <= j < i ==> s@[j] != '.',
        decreases n - i,
    {
        if s.get_char(i) == '.' {
            proof {
                lemma_first_dot(s@, i as int);
            }
            return Some(i);
        }
        i += 1;
    }
    proof {
        lemma_first_dot(s@, n as int);
    }
    None
}

/// `s` without its leading zeros; a sole zero stays.
fn strip_leading_zeros<'a>(s: &'a str) -> (r: &'a str)
    requires
        s@.len() > 0,
    ensures
        r@ == strip_zeros(s@),
{
    let n = s.unicode_len();
    let mut k: usize = 0;
    while k < n - 1 && s.get_char(k) == '0'
        invariant
            k <= n - 1,
            n == s@.len(),
            n >= 1,
            forall|j: int| 0 <= j < k ==> s@[j] == '0',
        decreases n - k,
    {
        k += 1;
    }
    proof {
        lemma_strip_zeros(s@, k as int);
    }
    s.substring_char(k, n)
}

/// The non-negative part of the shift.
fn shift100_mag(s: &str) -> (r: Option<String>)
    ensures
        match r {
            Some(t) => spec_shift100_mag(s@) == Some(t@),
            None => spec_shift100_mag(s@) is None,
        },
{
    let n = s.unicode_len();
    match find_dot(s) {
        Some(dot) => {
            let d = s.substring_char(0, dot);
            let f = s.substring_char(dot + 1, n);
            proof {
                assert(d@ =~= s@.take(dot as int));
                assert(f@ =~= s@.skip(dot as int + 1));
            }
            if d.unicode_len() == 0 || !check_all_digits(d) || f.unicode_len() == 0
                || !check_all_digits(f) {
                return None;
            }
            let flen = f.unicode_len();
            let mut joined = d.to_owned();
            let mut rest: String = String::new();
            if flen >= 2 {
                joined.append(f.substring_char(0, 2));
                rest = f.substring_char(2, flen).to_owned();
                proof {
                    assert(f@.subrange(0, 2) =~= f@.take(2));
                    assert(f@.subrange(2, f@.len() as int) =~= f@.skip(2));
                }
            } else {
                proof {
                    reveal_strlit("0");
                }
                joined.append(f);
                joined.append("0");
                proof {
                    assert(joined@ =~= d@ + (f@ + seq!['0']));
                }
            }
            let digits = strip_leading_zeros(joined.as_str());
            let mut out = digits.to_owned();
            if !rest.as_str().is_empty() {
                proof {
                    reveal_strlit(".");
                }
                out.append(".");
                out.append(rest.as_str());
                proof {
                    assert(out@ =~= strip_zeros(joined@) + seq!['.'] + rest@);
                }
            }
            proof {
                if flen >= 2 {
                    assert(joined@ =~= d@ + f@.take(2));
                }
                if rest@.len() == 0 && flen > 2 {
                    assert(f@.skip(2).len() == 0);
                }
            }
            Some(out)
        },
        None => {
            if n == 0 || !check_all_digits(s) {
                return None;
            }
            proof {
                reveal_strlit("00");
            }
            let mut out = s.to_owned();
            out.append("00");
            proof {
                assert(out@ =~= s@ + seq!['0', '0']);
            }
            Some(out)
        },
    }
}

/// A decimal rendering, multiplied by one hundred by moving the decimal
/// point two places right: the exact scaling of the source text, not a
/// floating-point product. `None` for text that is not a plain decimal
/// rendering.
pub fn shift100(s: &str) -> (r: Option<String>)
    ensures
        match r {
            Some(t) => spec_shift100(s@) == Some(t@),
            None => spec_shift100(s@) is None,
        },
{
    let n = s.unicode_len();
    if n > 0 && s.get_char(0) == '-' {
        let mag = s.substring_char(1, n);
        proof {
            assert(mag@ =~= s@.skip(1));
        }
        match shift100_mag(mag) {
            Some(t) => {
                proof {
                    reveal_strlit("-");
                }
                let mut out = "-".to_owned();
                out.append(t.as_str());
                proof {
                    assert(out@ =~= seq!['-'] + t@);
                }
                Some(out)
            },
            None => None,
        }
    } else {
        shift100_mag(s)
    }
}

} // verus!
