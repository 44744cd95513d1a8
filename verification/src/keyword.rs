/*
 This Source Code Form is subject to the terms of the Mozilla Public
 License, v. 2.0. If a copy of the MPL was not distributed with this
 file, You can obtain one at http://mozilla.org/MPL/2.0/.
*/

//! Keywords: a tree of named tags, parsed from one plist document.

use vstd::prelude::*;

use crate::audit::{audit_get_int_value, step_get, step_skip, AuditView, Report, SkipReason};
use crate::store::Wrapper;
use crate::{AplibObject, AplibType, PlistLoadable};
use crate::plutils::{get_array_value, get_int_value, get_str_value, lookup_array, lookup_int,
    lookup_str, Dictionary, Value};

verus! {

broadcast use vstd::seq::group_seq_axioms, vstd::std_specs::vec::group_vec_axioms;

/// An Aperture keyword. Children keywords form a tree; a child's
/// `parent_uuid` is its parent's `uuid` in the source data, with no
/// back-references stored.
#[derive(Debug, PartialEq)]
pub struct Keyword {
    /// The uuid
    pub uuid: Option<String>,
    /// The numeric id in the model
    pub model_id: Option<i64>,
    /// The parent uuid
    pub parent_uuid: Option<String>,
    /// Name of the keyword
    pub name: Option<String>,
    /// Children keywords. Their parent_uuid will be self.uuid
    pub children: Option<Vec<Keyword>>,
}

/// Whether the keyword `k` is exactly what the dictionary `d` encodes:
/// the four typed fields, and recursively the children under `zChildren`,
/// one per dictionary element, in source order.
pub open spec fn keyword_matches(k: Keyword, d: Dictionary) -> bool
    decreases k, 0int, 0int,
{
    &&& k.uuid == lookup_str(d, "uuid"@)
    &&& k.model_id == lookup_int(d, "modelId"@)
    &&& k.parent_uuid == lookup_str(d, "parentUuid"@)
    &&& k.name == lookup_str(d, "name"@)
    &&& keywords_opt_match(k.children, lookup_array(d, "zChildren"@))
}

/// Whether an optional child list matches an optional source array.
pub open spec fn keywords_opt_match(ks: Option<Vec<Keyword>>, a: Option<Seq<Value>>) -> bool
    decreases ks, 1int, 0int,
{
    match (a, ks) {
        (Some(elems), Some(v)) => keywords_match_seq(v@, elems),
        (None, None) => true,
        _ => false,
    }
}

/// Whether `ks` holds, in order, one matching keyword per dictionary
/// element of `elems`, with the other elements passed over.
pub open spec fn keywords_match_seq(ks: Seq<Keyword>, elems: Seq<Value>) -> bool
    decreases ks, 2int, elems.len(),
{
    if elems.len() == 0 {
        ks.len() == 0
    } else {
        match elems.last() {
            Value::Dict(d) => ks.len() > 0 && keyword_matches(ks.last(), d) && keywords_match_seq(
                ks.drop_last(),
                elems.drop_last(),
            ),
            _ => keywords_match_seq(ks, elems.drop_last()),
        }
    }
}

/// Structural equality of two keywords: equal fields and pairwise equal
/// children.
pub open spec fn keyword_like(k1: Keyword, k2: Keyword) -> bool
    decreases k1, 0int, 0int,
{
    &&& k1.uuid == k2.uuid
    &&& k1.model_id == k2.model_id
    &&& k1.parent_uuid == k2.parent_uuid
    &&& k1.name == k2.name
    &&& keywords_opt_like(k1.children, k2.children)
}

/// Structural equality of two optional keyword lists.
pub open spec fn keywords_opt_like(k1: Option<Vec<Keyword>>, k2: Option<Vec<Keyword>>) -> bool
    decreases k1, 1int, 0int,
{
    match (k1, k2) {
        (Some(v1), Some(v2)) => keywords_like(v1@, v2@),
        (None, None) => true,
        _ => false,
    }
}

/// Pairwise structural equality of two keyword lists.
pub open spec fn keywords_like(k1: Seq<Keyword>, k2: Seq<Keyword>) -> bool
    decreases k1, 2int, 0int,
{
    &&& k1.len() == k2.len()
    &&& k1.len() > 0 ==> keyword_like(k1.last(), k2.last()) && keywords_like(
        k1.drop_last(),
        k2.drop_last(),
    )
}

/// Reading the same document twice yields structurally equal trees: the
/// parse relation is a function of the source value, so two lists that
/// both match the same keyword array are equal, member by member,
/// recursively.
pub proof fn lemma_keyword_parse_deterministic(a: Seq<Value>, k1: Seq<Keyword>, k2: Seq<Keyword>)
    requires
        keywords_match_seq(k1, a),
        keywords_match_seq(k2, a),
    ensures
        keywords_like(k1, k2),
    decreases k1, 2int, a.len(),
{
    if a.len() > 0 {
        match a.last() {
            Value::Dict(d) => {
                lemma_keyword_parse_deterministic(a.drop_last(), k1.drop_last(), k2.drop_last());
                lemma_keyword_matches_deterministic(k1.last(), k2.last(), d);
            },
            _ => {
                lemma_keyword_parse_deterministic(a.drop_last(), k1, k2);
            },
        }
    }
}

/// Two keywords that match the same dictionary agree on every field and,
/// recursively, on their children.
pub proof fn lemma_keyword_matches_deterministic(k1: Keyword, k2: Keyword, d: Dictionary)
    requires
        keyword_matches(k1, d),
        keyword_matches(k2, d),
    ensures
        keyword_like(k1, k2),
    decreases k1, 0int, 0int,
{
    match (lookup_array(d, "zChildren"@), k1.children, k2.children) {
        (Some(elems), Some(v1), Some(v2)) => {
            lemma_keyword_parse_deterministic(elems, v1@, v2@);
        },
        _ => {},
    }
}

impl Keyword {
    /// Convert a plist array to a vector of keywords, one per dictionary
    /// element.
    pub fn from_array(oa: Option<&Vec<Value>>) -> (r: Option<Vec<Keyword>>)
        ensures
            match (oa, r) {
                (Some(a), Some(ks)) => keywords_match_seq(ks@, a@),
                (None, None) => true,
                _ => false,
            },
    {
        match oa {
            Some(a) => Some(Keyword::from_values(a)),
            None => None,
        }
    }

    /// Convert each dictionary element of `a` to a keyword, in order.
    pub fn from_values(a: &Vec<Value>) -> (r: Vec<Keyword>)
        ensures
            keywords_match_seq(r@, a@),
        decreases *a, 1int,
    {
        let mut keywords: Vec<Keyword> = Vec::new();
        let mut i: usize = 0;
        while i < a.len()
            invariant
                i <= a.len(),
                keywords_match_seq(keywords@, a@.subrange(0, i as int)),
            decreases a.len() - i,
        {
            proof {
                assert(a@.subrange(0, i as int + 1).last() == a@[i as int]);
                assert(a@.subrange(0, i as int + 1).drop_last() =~= a@.subrange(0, i as int));
            }
            let ghost before = keywords@;
            if let Value::Dict(kw) = &a[i] {
                proof {
                    assert(decreases_to!(*a => a@[i as int]));
                }
                let k = Keyword::from(kw);
                keywords.push(k);
                proof {
                    assert(keywords@.drop_last() =~= before);
                }
            }
            i += 1;
        }
        proof {
            assert(a@.subrange(0, a@.len() as int) =~= a@);
        }
        keywords
    }

    /// Create a new keyword from a plist dictionary; recursively creates
    /// the children.
    pub fn from(d: &Dictionary) -> (k: Keyword)
        ensures
            keyword_matches(k, *d),
        decreases *d, 2int,
    {
        Keyword {
            uuid: get_str_value(d, "uuid"),
            model_id: get_int_value(d, "modelId"),
            parent_uuid: get_str_value(d, "parentUuid"),
            name: get_str_value(d, "name"),
            children: match get_array_value(d, "zChildren") {
                Some(a) => Some(Keyword::from_values(a)),
                None => None,
            },
        }
    }
}

/// The audit trail of `parse_keywords`: the version key parsed or skipped
/// as `NotFound`, and a version outside the supported pair additionally
/// recorded as an `InvalidData` skip — observable, not fatal.
pub open spec fn keywords_plist_audit(v: AuditView, d: Dictionary) -> AuditView {
    match lookup_int(d, "keywords_version"@) {
        Some(ver) => {
            let v1 = step_get(v, "keywords_version"@, true);
            if ver != 6 && ver != 7 {
                step_skip(v1, "keywords_version"@, SkipReason::InvalidData)
            } else {
                v1
            }
        },
        None => step_get(v, "keywords_version"@, false),
    }
}

/// Parse keywords from the root value of the keywords plist document.
/// `None` when the root is not a dictionary, the `keywords_version` key is
/// missing, or the `keywords` array is missing. A version other than the
/// two known ones is recorded in the report and does not stop the parse.
pub fn parse_keywords(plist: &Value, report: &mut Report) -> (r: Option<Vec<Keyword>>)
    ensures
        match plist {
            Value::Dict(d) => {
                &&& final(report).audit_view() == keywords_plist_audit(
                    old(report).audit_view(),
                    *d,
                )
                &&& match lookup_int(*d, "keywords_version"@) {
                    Some(_) => match (lookup_array(*d, "keywords"@), r) {
                        (Some(a), Some(ks)) => keywords_match_seq(ks@, a),
                        (None, None) => true,
                        _ => false,
                    },
                    None => r is None,
                }
            },
            _ => r is None && final(report).audit_view() == old(report).audit_view(),
        },
{
    match plist {
        Value::Dict(dict) => {
            let version = match audit_get_int_value(dict, "keywords_version", report) {
                Some(v) => v,
                None => {
                    return None;
                },
            };
            // Version 3.4.5 of Aperture writes version 7.
            if version != 6 && version != 7 {
                report.skip("keywords_version", SkipReason::InvalidData);
            }
            Keyword::from_array(get_array_value(dict, "keywords"))
        },
        _ => None,
    }
}


impl AplibObject for Keyword {
    open spec fn spec_uuid(&self) -> Option<String> {
        self.uuid
    }

    open spec fn spec_parent(&self) -> Option<String> {
        self.parent_uuid
    }

    open spec fn spec_model_id(&self) -> Option<i64> {
        self.model_id
    }

    open spec fn spec_obj_type(&self) -> AplibType {
        AplibType::Keyword
    }

    open spec fn spec_wrapped(&self, w: Wrapper) -> bool {
        w is Empty
    }

    fn wrap(obj: Keyword) -> (w: Wrapper) {
        Wrapper::Empty
    }

    fn obj_type(&self) -> (t: AplibType) {
        AplibType::Keyword
    }

    fn is_valid(&self) -> (r: bool) {
        self.uuid.is_some()
    }

    fn uuid(&self) -> (r: &Option<String>) {
        &self.uuid
    }

    fn parent(&self) -> (r: &Option<String>) {
        &self.parent_uuid
    }

    fn model_id(&self) -> (r: i64) {
        match &self.model_id {
            Some(i) => *i,
            None => 0,
        }
    }
}

} // verus!
