/*
 This Source Code Form is subject to the terms of the Mozilla Public
 License, v. 2.0. If a copy of the MPL was not distributed with this
 file, You can obtain one at http://mozilla.org/MPL/2.0/.
*/

//! Audit reporting: which keys of a source dictionary were parsed, which
//! were skipped and for what reason, and which were left unaccounted for.
//!
//! Every record loader extracts its fields through the audited accessors
//! below, so the bookkeeping sits beside the extraction itself. A caller
//! not interested in the audit passes a fresh `Report` and drops it.

use vstd::prelude::*;

use crate::collections::{KvMap, StrSet};
use crate::plutils::{lookup_array, lookup_bool, lookup_data, lookup_date, lookup_dict,
    lookup_int, lookup_str, Dictionary, PlistDate, Value};
use crate::strutil::dotted;

verus! {

/// Why a key was passed over rather than parsed.
#[derive(Clone, Copy, Debug, PartialEq, Eq, Structural)]
pub enum SkipReason {
    /// No reason
    NoReason,
    /// Didn't find it
    NotFound,
    /// Unknown property
    UnknownProp,
    /// Wrong type
    InvalidType,
    /// Data is invalid
    InvalidData,
    /// Couldn't be parsed
    ParseFailed,
    /// Deliberately ignore
    Ignore,
}

/// Individual report for an object: the keys that were parsed, the keys
/// that were skipped with the reason, and the keys of the source that
/// nothing accounted for.
#[derive(Debug)]
pub struct Report {
    ignored: StrSet,
    skipped: KvMap<SkipReason>,
    parsed: StrSet,
}

/// The three key classes of a report, as one value: what a report says
/// once the strings it holds are read as sets and a map. The record
/// loaders state their whole audit trail as a function over this view.
#[verifier::ext_equal]
pub ghost struct AuditView {
    pub parsed: Set<Seq<char>>,
    pub skipped: Map<Seq<char>, SkipReason>,
    pub ignored: Set<Seq<char>>,
}

/// The keys of `d` that `r` accounts for neither as parsed nor as skipped.
pub open spec fn unaccounted(r: Report, d: Dictionary) -> Set<Seq<char>> {
    d.key_set().difference(r.parsed_set()).difference(r.skipped_map().dom())
}

/// `ks`, each member prefixed with `p` and a dot.
pub open spec fn prefixed_set(p: Seq<char>, ks: Set<Seq<char>>) -> Set<Seq<char>> {
    Set::new(|s: Seq<char>| exists|k: Seq<char>| ks.contains(k) && s == p + "."@ + k)
}

/// `ks` under the optional namespace: unchanged without one, dot-prefixed
/// with one.
pub open spec fn with_ns(ns: Option<Seq<char>>, ks: Set<Seq<char>>) -> Set<Seq<char>> {
    match ns {
        Some(p) => prefixed_set(p, ks),
        None => ks,
    }
}

/// The view of an optional namespace argument.
pub open spec fn ns_view(ns: Option<&str>) -> Option<Seq<char>> {
    match ns {
        Some(p) => Some(p@),
        None => None,
    }
}

/// One audited field extraction: the key lands among the parsed keys when
/// the typed lookup succeeded, and among the skipped keys as `NotFound`
/// when it did not.
pub open spec fn step_get(v: AuditView, key: Seq<char>, ok: bool) -> AuditView {
    if ok {
        AuditView { parsed: v.parsed.insert(key), ..v }
    } else {
        AuditView { skipped: v.skipped.insert(key, SkipReason::NotFound), ..v }
    }
}

/// One explicit skip record.
pub open spec fn step_skip(v: AuditView, key: Seq<char>, reason: SkipReason) -> AuditView {
    AuditView { skipped: v.skipped.insert(key, reason), ..v }
}

/// One explicit parsed record.
pub open spec fn step_parsed(v: AuditView, key: Seq<char>) -> AuditView {
    AuditView { parsed: v.parsed.insert(key), ..v }
}

/// The closing `audit_ignored` pass: every key of `d` not yet parsed or
/// skipped joins the ignored keys, under the optional namespace prefix.
pub open spec fn step_ignored(v: AuditView, d: Dictionary, ns: Option<Seq<char>>) -> AuditView {
    AuditView {
        ignored: v.ignored + with_ns(
            ns,
            d.key_set().difference(v.parsed).difference(v.skipped.dom()),
        ),
        ..v
    }
}

/// Prefixing distributes over inserting a member.
proof fn lemma_prefixed_insert(p: Seq<char>, ks: Set<Seq<char>>, k: Seq<char>)
    ensures
        prefixed_set(p, ks.insert(k)) =~= prefixed_set(p, ks).insert(p + "."@ + k),
{
    assert forall|s: Seq<char>| prefixed_set(p, ks.insert(k)).contains(s) implies prefixed_set(
        p,
        ks,
    ).insert(p + "."@ + k).contains(s) by {
        let w = choose|w: Seq<char>| ks.insert(k).contains(w) && s == p + "."@ + w;
        if w != k {
            assert(ks.contains(w));
        }
    }
    assert forall|s: Seq<char>| prefixed_set(p, ks).insert(p + "."@ + k).contains(s)
        implies prefixed_set(p, ks.insert(k)).contains(s) by {
        if prefixed_set(p, ks).contains(s) {
            let w = choose|w: Seq<char>| ks.contains(w) && s == p + "."@ + w;
            assert(ks.insert(k).contains(w));
        } else {
            assert(ks.insert(k).contains(k));
        }
    }
}

/// An empty set prefixes to an empty set.
proof fn lemma_prefixed_empty(p: Seq<char>)
    ensures
        prefixed_set(p, Set::<Seq<char>>::empty()) =~= Set::<Seq<char>>::empty(),
{
}

impl Report {
    /// The keys recorded as parsed.
    pub closed spec fn parsed_set(self) -> Set<Seq<char>> {
        self.parsed.set_view()
    }

    /// The keys recorded as skipped, with the reason.
    pub closed spec fn skipped_map(self) -> Map<Seq<char>, SkipReason> {
        self.skipped.map_view()
    }

    /// The keys recorded as ignored.
    pub closed spec fn ignored_set(self) -> Set<Seq<char>> {
        self.ignored.set_view()
    }

    /// The three key classes as one value.
    pub open spec fn audit_view(self) -> AuditView {
        AuditView {
            parsed: self.parsed_set(),
            skipped: self.skipped_map(),
            ignored: self.ignored_set(),
        }
    }

    /// A fresh, empty report.
    pub fn new() -> (r: Report)
        ensures
            r.parsed_set() == Set::<Seq<char>>::empty(),
            r.skipped_map() == Map::<Seq<char>, SkipReason>::empty(),
            r.ignored_set() == Set::<Seq<char>>::empty(),
    {
        Report { ignored: StrSet::new(), skipped: KvMap::new(), parsed: StrSet::new() }
    }

    /// Record `key` as ignored.
    pub fn ignore(&mut self, key: &str)
        ensures
            final(self).ignored_set() == old(self).ignored_set().insert(key@),
            final(self).parsed_set() == old(self).parsed_set(),
            final(self).skipped_map() == old(self).skipped_map(),
    {
        self.ignored.insert(key);
    }

    /// The ignored keys.
    pub fn get_ignored(&self) -> (r: &StrSet)
        ensures
            r.set_view() == self.ignored_set(),
    {
        &self.ignored
    }

    /// How many keys were ignored.
    pub fn ignored_count(&self) -> (n: usize)
        ensures
            n == self.ignored_set().len(),
    {
        self.ignored.count()
    }

    /// Record `key` as skipped for `reason`. A later record for the same
    /// key replaces the earlier reason.
    pub fn skip(&mut self, key: &str, reason: SkipReason)
        ensures
            final(self).skipped_map() == old(self).skipped_map().insert(key@, reason),
            final(self).parsed_set() == old(self).parsed_set(),
            final(self).ignored_set() == old(self).ignored_set(),
    {
        self.skipped.insert(key, reason);
    }

    /// The skipped keys with their reasons.
    pub fn get_skipped(&self) -> (r: &KvMap<SkipReason>)
        ensures
            r.map_view() == self.skipped_map(),
    {
        &self.skipped
    }

    /// How many keys were skipped.
    pub fn skipped_count(&self) -> (n: usize)
        ensures
            n == self.skipped_map().dom().len(),
    {
        self.skipped.len()
    }

    /// Record `key` as parsed.
    pub fn parsed(&mut self, key: &str)
        ensures
            final(self).parsed_set() == old(self).parsed_set().insert(key@),
            final(self).skipped_map() == old(self).skipped_map(),
            final(self).ignored_set() == old(self).ignored_set(),
    {
        self.parsed.insert(key);
    }

    /// The parsed keys.
    pub fn get_parsed(&self) -> (r: &StrSet)
        ensures
            r.set_view() == self.parsed_set(),
    {
        &self.parsed
    }

    /// How many keys were parsed.
    pub fn parsed_count(&self) -> (n: usize)
        ensures
            n == self.parsed_set().len(),
    {
        self.parsed.count()
    }

    /// Record as ignored every key of `dict` that this report accounts for
    /// neither as parsed nor as skipped, under the optional namespace
    /// prefix. The parsed and skipped records are left as they are.
    pub fn audit_ignored(&mut self, dict: &Dictionary, ns: Option<&str>)
        ensures
            final(self).parsed_set() == old(self).parsed_set(),
            final(self).skipped_map() == old(self).skipped_map(),
            final(self).ignored_set() == old(self).ignored_set() + with_ns(
                ns_view(ns),
                unaccounted(*old(self), *dict),
            ),
            final(self).audit_view() == step_ignored(old(self).audit_view(), *dict, ns_view(ns)),
    {
        let ghost all = dict.pairs();
        let n = dict.entry_count();
        let mut i: usize = 0;
        proof {
            assert(crate::plutils::entries_key_set(all.subrange(0, 0)) =~= Set::<
                Seq<char>,
            >::empty());
            match ns {
                Some(p) => {
                    lemma_prefixed_empty(p@);
                },
                None => {},
            }
            assert(self.ignored_set() =~= old(self).ignored_set() + with_ns(
                ns_view(ns),
                crate::plutils::entries_key_set(all.subrange(0, 0)).difference(
                    old(self).parsed_set(),
                ).difference(old(self).skipped_map().dom()),
            ));
        }
        while i < n
            invariant
                i <= n,
                n == all.len(),
                all == dict.pairs(),
                self.parsed_set() == old(self).parsed_set(),
                self.skipped_map() == old(self).skipped_map(),
                self.ignored_set() == old(self).ignored_set() + with_ns(
                    ns_view(ns),
                    crate::plutils::entries_key_set(all.subrange(0, i as int)).difference(
                        old(self).parsed_set(),
                    ).difference(old(self).skipped_map().dom()),
                ),
            decreases n - i,
        {
            let ghost seen = crate::plutils::entries_key_set(all.subrange(0, i as int));
            let ghost missing = seen.difference(old(self).parsed_set()).difference(
                old(self).skipped_map().dom(),
            );
            let e = dict.entry_at(i);
            let key = e.key.as_str();
            proof {
                assert(all.subrange(0, i as int + 1).last() == all[i as int]);
                assert(all.subrange(0, i as int + 1).drop_last() =~= all.subrange(0, i as int));
            }
            let known = self.parsed.contains(key) || self.skipped.contains_key(key);
            if !known {
                match ns {
                    Some(p) => {
                        let full = dotted(p, key);
                        self.ignore(full.as_str());
                        proof {
                            lemma_prefixed_insert(p@, missing, key@);
                            assert(self.ignored_set() =~= old(self).ignored_set() + with_ns(
                                ns_view(ns),
                                missing.insert(key@),
                            ));
                            assert(seen.insert(key@).difference(
                                old(self).parsed_set(),
                            ).difference(old(self).skipped_map().dom()) =~= missing.insert(key@));
                        }
                    },
                    None => {
                        self.ignore(key);
                        proof {
                            assert(self.ignored_set() =~= old(self).ignored_set() + missing.insert(
                                key@,
                            ));
                            assert(seen.insert(key@).difference(
                                old(self).parsed_set(),
                            ).difference(old(self).skipped_map().dom()) =~= missing.insert(key@));
                        }
                    },
                }
            } else {
                proof {
                    assert(seen.insert(key@).difference(old(self).parsed_set()).difference(
                        old(self).skipped_map().dom(),
                    ) =~= missing);
                }
            }
            i += 1;
        }
        proof {
            assert(all.subrange(0, n as int) =~= all);
        }
    }
}

/// The audit reporter: the library-wide aggregation of one report per
/// loaded file or object, plus top-level skip and ignore events, to
/// establish what the loaders miss.
#[derive(Debug)]
pub struct Reporter {
    ignored: StrSet,
    skipped: KvMap<SkipReason>,
    parsed: KvMap<Report>,
}

impl Reporter {
    /// The names recorded as ignored.
    pub closed spec fn ignored_set(self) -> Set<Seq<char>> {
        self.ignored.set_view()
    }

    /// The names recorded as skipped, with the reason.
    pub closed spec fn skipped_map(self) -> Map<Seq<char>, SkipReason> {
        self.skipped.map_view()
    }

    /// The per-object reports, keyed by the name they were filed under.
    pub closed spec fn parsed_map(self) -> Map<Seq<char>, Report> {
        self.parsed.map_view()
    }

    /// A fresh, empty reporter.
    pub fn new() -> (r: Reporter)
        ensures
            r.ignored_set() == Set::<Seq<char>>::empty(),
            r.skipped_map() == Map::<Seq<char>, SkipReason>::empty(),
            r.parsed_map() == Map::<Seq<char>, Report>::empty(),
    {
        Reporter { ignored: StrSet::new(), skipped: KvMap::new(), parsed: KvMap::new() }
    }

    /// Record `key` as ignored.
    pub fn ignore(&mut self, key: &str)
        ensures
            final(self).ignored_set() == old(self).ignored_set().insert(key@),
            final(self).skipped_map() == old(self).skipped_map(),
            final(self).parsed_map() == old(self).parsed_map(),
    {
        self.ignored.insert(key);
    }

    /// The ignored names.
    pub fn get_ignored(&self) -> (r: &StrSet)
        ensures
            r.set_view() == self.ignored_set(),
    {
        &self.ignored
    }

    /// How many names were ignored.
    pub fn ignored_count(&self) -> (n: usize)
        ensures
            n == self.ignored_set().len(),
    {
        self.ignored.count()
    }

    /// Record `key` as skipped for `reason`.
    pub fn skip(&mut self, key: &str, reason: SkipReason)
        ensures
            final(self).skipped_map() == old(self).skipped_map().insert(key@, reason),
            final(self).ignored_set() == old(self).ignored_set(),
            final(self).parsed_map() == old(self).parsed_map(),
    {
        self.skipped.insert(key, reason);
    }

    /// The skipped names with their reasons.
    pub fn get_skipped(&self) -> (r: &KvMap<SkipReason>)
        ensures
            r.map_view() == self.skipped_map(),
    {
        &self.skipped
    }

    /// How many names were skipped.
    pub fn skipped_count(&self) -> (n: usize)
        ensures
            n == self.skipped_map().dom().len(),
    {
        self.skipped.len()
    }

    /// File the report of one parsed object under `key`.
    pub fn parsed(&mut self, key: &str, report: Report)
        ensures
            final(self).parsed_map() == old(self).parsed_map().insert(key@, report),
            final(self).ignored_set() == old(self).ignored_set(),
            final(self).skipped_map() == old(self).skipped_map(),
    {
        self.parsed.insert(key, report);
    }

    /// The per-object reports.
    pub fn get_parsed(&self) -> (r: &KvMap<Report>)
        ensures
            r.map_view() == self.parsed_map(),
    {
        &self.parsed
    }

    /// How many objects were parsed.
    pub fn parsed_count(&self) -> (n: usize)
        ensures
            n == self.parsed_map().dom().len(),
    {
        self.parsed.len()
    }
}

/// For every dictionary missing a key, the typed lookups all read the key
/// as absent, and the audited extraction of it records a `NotFound` skip
/// beside an unchanged parsed set — never a default value.
pub proof fn lemma_missing_key_is_skipped(d: Dictionary, key: Seq<char>, v: AuditView)
    requires
        !d.key_set().contains(key),
    ensures
        lookup_str(d, key) is None,
        lookup_int(d, key) is None,
        lookup_bool(d, key) is None,
        lookup_date(d, key) is None,
        lookup_data(d, key) is None,
        lookup_array(d, key) is None,
        lookup_dict(d, key) is None,
        step_get(v, key, false).skipped == v.skipped.insert(key, SkipReason::NotFound),
        step_get(v, key, false).parsed == v.parsed,
        step_get(v, key, false).ignored == v.ignored,
{
    crate::plutils::lemma_lookup_key_set(d.pairs(), key);
}

/// After an `audit_ignored` pass without a namespace, the three key
/// classes cover the source dictionary: every key of the dictionary is
/// parsed, skipped or ignored; nothing was newly ignored beyond the
/// dictionary's keys; and no newly ignored key is also parsed or skipped.
/// When the report started with an empty ignored set, the parsed, skipped
/// and ignored keys that lie in the dictionary partition its key set
/// exactly.
pub proof fn lemma_audit_partition(before: Report, after: Report, d: Dictionary)
    requires
        after.parsed_set() == before.parsed_set(),
        after.skipped_map() == before.skipped_map(),
        after.ignored_set() == before.ignored_set() + unaccounted(before, d),
    ensures
        d.key_set() <= after.parsed_set() + after.skipped_map().dom() + after.ignored_set(),
        (after.ignored_set() - before.ignored_set()).disjoint(after.parsed_set()),
        (after.ignored_set() - before.ignored_set()).disjoint(after.skipped_map().dom()),
        before.ignored_set() == Set::<Seq<char>>::empty() ==> after.parsed_set().intersect(
            d.key_set(),
        ) + after.skipped_map().dom().intersect(d.key_set()) + after.ignored_set()
            =~= d.key_set(),
{
    assert(d.key_set() <= after.parsed_set() + after.skipped_map().dom() + after.ignored_set());
    assert((after.ignored_set() - before.ignored_set()).disjoint(after.parsed_set()));
    assert((after.ignored_set() - before.ignored_set()).disjoint(after.skipped_map().dom()));
    if before.ignored_set() == Set::<Seq<char>>::empty() {
        assert(after.parsed_set().intersect(d.key_set()) + after.skipped_map().dom().intersect(
            d.key_set(),
        ) + after.ignored_set() =~= d.key_set());
    }
}

/// String under `key`, recorded as parsed when present and string-typed,
/// as a `NotFound` skip otherwise — never a default value.
pub fn audit_get_str_value(dict: &Dictionary, key: &str, report: &mut Report) -> (r: Option<
    String,
>)
    ensures
        r == lookup_str(*dict, key@),
        r is Some ==> final(report).parsed_set() == old(report).parsed_set().insert(key@)
            && final(report).skipped_map() == old(report).skipped_map(),
        r is None ==> final(report).skipped_map() == old(report).skipped_map().insert(
            key@,
            SkipReason::NotFound,
        ) && final(report).parsed_set() == old(report).parsed_set(),
        final(report).ignored_set() == old(report).ignored_set(),
        final(report).audit_view() == step_get(old(report).audit_view(), key@, r is Some),
{
    let value = crate::plutils::get_str_value(dict, key);
    match value {
        Some(_) => report.parsed(key),
        _ => report.skip(key, SkipReason::NotFound),
    }
    value
}

/// Integer under `key`, recorded as parsed when present and integer-typed,
/// as a `NotFound` skip otherwise — never a default value.
pub fn audit_get_int_value(dict: &Dictionary, key: &str, report: &mut Report) -> (r: Option<i64>)
    ensures
        r == lookup_int(*dict, key@),
        r is Some ==> final(report).parsed_set() == old(report).parsed_set().insert(key@)
            && final(report).skipped_map() == old(report).skipped_map(),
        r is None ==> final(report).skipped_map() == old(report).skipped_map().insert(
            key@,
            SkipReason::NotFound,
        ) && final(report).parsed_set() == old(report).parsed_set(),
        final(report).ignored_set() == old(report).ignored_set(),
        final(report).audit_view() == step_get(old(report).audit_view(), key@, r is Some),
{
    let value = crate::plutils::get_int_value(dict, key);
    match value {
        Some(_) => report.parsed(key),
        _ => report.skip(key, SkipReason::NotFound),
    }
    value
}

/// Boolean under `key`, recorded as parsed when present and boolean-typed,
/// as a `NotFound` skip otherwise — never a default value.
pub fn audit_get_bool_value(dict: &Dictionary, key: &str, report: &mut Report) -> (r: Option<bool>)
    ensures
        r == lookup_bool(*dict, key@),
        r is Some ==> final(report).parsed_set() == old(report).parsed_set().insert(key@)
            && final(report).skipped_map() == old(report).skipped_map(),
        r is None ==> final(report).skipped_map() == old(report).skipped_map().insert(
            key@,
            SkipReason::NotFound,
        ) && final(report).parsed_set() == old(report).parsed_set(),
        final(report).ignored_set() == old(report).ignored_set(),
        final(report).audit_view() == step_get(old(report).audit_view(), key@, r is Some),
{
    let value = crate::plutils::get_bool_value(dict, key);
    match value {
        Some(_) => report.parsed(key),
        _ => report.skip(key, SkipReason::NotFound),
    }
    value
}

/// Nested dictionary under `key`, recorded as parsed when present and
/// dictionary-typed, as a `NotFound` skip otherwise.
pub fn audit_get_dict_value<'a>(dict: &'a Dictionary, key: &str, report: &mut Report) -> (r:
    Option<&'a Dictionary>)
    ensures
        match r {
            Some(d) => lookup_dict(*dict, key@) == Some(*d),
            None => lookup_dict(*dict, key@) is None,
        },
        r is Some ==> final(report).parsed_set() == old(report).parsed_set().insert(key@)
            && final(report).skipped_map() == old(report).skipped_map(),
        r is None ==> final(report).skipped_map() == old(report).skipped_map().insert(
            key@,
            SkipReason::NotFound,
        ) && final(report).parsed_set() == old(report).parsed_set(),
        final(report).ignored_set() == old(report).ignored_set(),
        final(report).audit_view() == step_get(old(report).audit_view(), key@, r is Some),
{
    let value = crate::plutils::get_dict_value(dict, key);
    match value {
        Some(_) => report.parsed(key),
        _ => report.skip(key, SkipReason::NotFound),
    }
    value
}

/// Array elements under `key`, recorded as parsed when present and
/// array-typed, as a `NotFound` skip otherwise.
pub fn audit_get_array_value<'a>(dict: &'a Dictionary, key: &str, report: &mut Report) -> (r:
    Option<&'a Vec<Value>>)
    ensures
        match r {
            Some(a) => lookup_array(*dict, key@) == Some(a@),
            None => lookup_array(*dict, key@) is None,
        },
        r is Some ==> final(report).parsed_set() == old(report).parsed_set().insert(key@)
            && final(report).skipped_map() == old(report).skipped_map(),
        r is None ==> final(report).skipped_map() == old(report).skipped_map().insert(
            key@,
            SkipReason::NotFound,
        ) && final(report).parsed_set() == old(report).parsed_set(),
        final(report).ignored_set() == old(report).ignored_set(),
        final(report).audit_view() == step_get(old(report).audit_view(), key@, r is Some),
{
    let value = crate::plutils::get_array_value(dict, key);
    match value {
        Some(_) => report.parsed(key),
        _ => report.skip(key, SkipReason::NotFound),
    }
    value
}

/// Date under `key`, recorded as parsed when present and date-typed, as a
/// `NotFound` skip otherwise — never a default value.
pub fn audit_get_date_value(dict: &Dictionary, key: &str, report: &mut Report) -> (r: Option<
    PlistDate,
>)
    ensures
        r == lookup_date(*dict, key@),
        r is Some ==> final(report).parsed_set() == old(report).parsed_set().insert(key@)
            && final(report).skipped_map() == old(report).skipped_map(),
        r is None ==> final(report).skipped_map() == old(report).skipped_map().insert(
            key@,
            SkipReason::NotFound,
        ) && final(report).parsed_set() == old(report).parsed_set(),
        final(report).ignored_set() == old(report).ignored_set(),
        final(report).audit_view() == step_get(old(report).audit_view(), key@, r is Some),
{
    let value = crate::plutils::get_date_value(dict, key);
    match value {
        Some(_) => report.parsed(key),
        _ => report.skip(key, SkipReason::NotFound),
    }
    value
}

/// Bytes under `key`, recorded as parsed when present and data-typed, as a
/// `NotFound` skip otherwise — never a default value.
pub fn audit_get_data_value(dict: &Dictionary, key: &str, report: &mut Report) -> (r: Option<
    Vec<u8>,
>)
    ensures
        match r {
            Some(v) => lookup_data(*dict, key@) == Some(v@),
            None => lookup_data(*dict, key@) is None,
        },
        r is Some ==> final(report).parsed_set() == old(report).parsed_set().insert(key@)
            && final(report).skipped_map() == old(report).skipped_map(),
        r is None ==> final(report).skipped_map() == old(report).skipped_map().insert(
            key@,
            SkipReason::NotFound,
        ) && final(report).parsed_set() == old(report).parsed_set(),
        final(report).ignored_set() == old(report).ignored_set(),
        final(report).audit_view() == step_get(old(report).audit_view(), key@, r is Some),
{
    let value = crate::plutils::get_data_value(dict, key);
    match value {
        Some(_) => report.parsed(key),
        _ => report.skip(key, SkipReason::NotFound),
    }
    value
}

} // verus!
