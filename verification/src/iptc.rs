/*
 This Source Code Form is subject to the terms of the Mozilla Public
 License, v. 2.0. If a copy of the MPL was not distributed with this
 file, You can obtain one at http://mozilla.org/MPL/2.0/.
*/

//! The IPTC property bag of a version, and its translation to XMP.

use vstd::prelude::*;

use crate::audit::{step_skip, AuditView, Report, SkipReason};
use crate::collections::KvMap;
use crate::plutils::{DictEntry, Dictionary, Value};
use crate::strutil::{sorted_insert, str_eq};
use crate::xmp::{field_view, put_property, spec_prefix, ToXmp, Xmp, XmpProperty, XmpRule,
    XmpTranslator, XmpValueView, NS_DC, NS_IPTC4XMP, NS_PHOTOSHOP, NS_XMP, NS_XMP_RIGHTS};

verus! {

/// One IPTC value: absent, or a text.
#[derive(Debug)]
pub enum IptcValue {
    /// No value.
    Absent,
    /// A text value.
    Str(String),
}

/// The translation rule for an IPTC property name: where in XMP the value
/// lands. `None` for a name the table does not know.
pub open spec fn iptc_rule(key: Seq<char>) -> Option<XmpRule> {
    if key == "Byline"@ {
        Some(XmpRule::Property(NS_DC@, "creator"@, None))
    } else if key == "BylineTitle"@ {
        Some(XmpRule::Property(NS_PHOTOSHOP@, "AuthorsPosition"@, None))
    } else if key == "Caption/Abstract"@ {
        Some(XmpRule::Property(NS_DC@, "description"@, None))
    } else if key == "CiAdrCity"@ {
        Some(XmpRule::Property(NS_IPTC4XMP@, "CreatorContactInfo"@, Some((NS_IPTC4XMP@, "CiAdrCity"@))))
    } else if key == "CiAdrCtry"@ {
        Some(XmpRule::Property(NS_IPTC4XMP@, "CreatorContactInfo"@, Some((NS_IPTC4XMP@, "CiAdrCtry"@))))
    } else if key == "CiAdrExtadr"@ {
        Some(XmpRule::Property(NS_IPTC4XMP@, "CreatorContactInfo"@, Some((NS_IPTC4XMP@, "CiAdrExtadr"@))))
    } else if key == "CiAdrPcode"@ {
        Some(XmpRule::Property(NS_IPTC4XMP@, "CreatorContactInfo"@, Some((NS_IPTC4XMP@, "CiAdrPcode"@))))
    } else if key == "CiAdrRegion"@ {
        Some(XmpRule::Property(NS_IPTC4XMP@, "CreatorContactInfo"@, Some((NS_IPTC4XMP@, "CiAdrRegion"@))))
    } else if key == "CiEmailWork"@ {
        Some(XmpRule::Property(NS_IPTC4XMP@, "CreatorContactInfo"@, Some((NS_IPTC4XMP@, "CiEmailWork"@))))
    } else if key == "CiTelWork"@ {
        Some(XmpRule::Property(NS_IPTC4XMP@, "CreatorContactInfo"@, Some((NS_IPTC4XMP@, "CiTelWork"@))))
    } else if key == "City"@ {
        Some(XmpRule::Property(NS_PHOTOSHOP@, "City"@, None))
    } else if key == "CiUrlWork"@ {
        Some(XmpRule::Property(NS_IPTC4XMP@, "CreatorContactInfo"@, Some((NS_IPTC4XMP@, "CiUrlWork"@))))
    } else if key == "CopyrightNotice"@ {
        Some(XmpRule::Property(NS_DC@, "rights"@, None))
    } else if key == "Country/PrimaryLocationCode"@ {
        Some(XmpRule::Property(NS_IPTC4XMP@, "CountryCode"@, None))
    } else if key == "Country/PrimaryLocationName"@ {
        Some(XmpRule::Property(NS_PHOTOSHOP@, "Country"@, None))
    } else if key == "Credit"@ {
        Some(XmpRule::Property(NS_PHOTOSHOP@, "Credit"@, None))
    } else if key == "Headline"@ {
        Some(XmpRule::Property(NS_PHOTOSHOP@, "Headline"@, None))
    } else if key == "Keywords"@ {
        Some(XmpRule::Property(NS_DC@, "subject"@, None))
    } else if key == "ObjectAttributeReference"@ {
        Some(XmpRule::Property(NS_IPTC4XMP@, "IntellectualGenre"@, None))
    } else if key == "ObjectName"@ {
        Some(XmpRule::Property(NS_DC@, "title"@, None))
    } else if key == "OriginalTransmissionReference"@ {
        Some(XmpRule::Property(NS_PHOTOSHOP@, "TransmissionReference"@, None))
    } else if key == "Province/State"@ {
        Some(XmpRule::Property(NS_PHOTOSHOP@, "State"@, None))
    } else if key == "Scene"@ {
        Some(XmpRule::Property(NS_IPTC4XMP@, "Scene"@, None))
    } else if key == "Source"@ {
        Some(XmpRule::Property(NS_PHOTOSHOP@, "Source"@, None))
    } else if key == "SpecialInstructions"@ {
        Some(XmpRule::Property(NS_PHOTOSHOP@, "Instructions"@, None))
    } else if key == "SubjectReference"@ {
        Some(XmpRule::Property(NS_IPTC4XMP@, "SubjectReference"@, None))
    } else if key == "SubLocation"@ {
        Some(XmpRule::Property(NS_IPTC4XMP@, "Location"@, None))
    } else if key == "StarRating"@ {
        Some(XmpRule::Property(NS_XMP@, "Rating"@, None))
    } else if key == "UsageTerms"@ {
        Some(XmpRule::Property(NS_XMP_RIGHTS@, "UsageTerms"@, None))
    } else if key == "Writer/Editor"@ {
        Some(XmpRule::Property(NS_PHOTOSHOP@, "CaptionWriter"@, None))
    } else {
        None
    }
}

/// The translation rule for an IPTC property name.
pub fn iptc_translator(key: &str) -> (r: Option<XmpTranslator>)
    ensures
        crate::xmp::translator_matches(r, iptc_rule(key@)),
{
    if str_eq(key, "Byline") {
        Some(XmpTranslator::Property(XmpProperty::new(NS_DC, "creator")))
    } else if str_eq(key, "BylineTitle") {
        Some(XmpTranslator::Property(XmpProperty::new(NS_PHOTOSHOP, "AuthorsPosition")))
    } else if str_eq(key, "Caption/Abstract") {
        Some(XmpTranslator::Property(XmpProperty::new(NS_DC, "description")))
    } else if str_eq(key, "CiAdrCity") {
        Some(XmpTranslator::Property(XmpProperty::new_field(
            NS_IPTC4XMP,
            "CreatorContactInfo",
            XmpProperty::new(NS_IPTC4XMP, "CiAdrCity"),
        )))
    } else if str_eq(key, "CiAdrCtry") {
        Some(XmpTranslator::Property(XmpProperty::new_field(
            NS_IPTC4XMP,
            "CreatorContactInfo",
            XmpProperty::new(NS_IPTC4XMP, "CiAdrCtry"),
        )))
    } else if str_eq(key, "CiAdrExtadr") {
        Some(XmpTranslator::Property(XmpProperty::new_field(
            NS_IPTC4XMP,
            "CreatorContactInfo",
            XmpProperty::new(NS_IPTC4XMP, "CiAdrExtadr"),
        )))
    } else if str_eq(key, "CiAdrPcode") {
        Some(XmpTranslator::Property(XmpProperty::new_field(
            NS_IPTC4XMP,
            "CreatorContactInfo",
            XmpProperty::new(NS_IPTC4XMP, "CiAdrPcode"),
        )))
    } else if str_eq(key, "CiAdrRegion") {
        Some(XmpTranslator::Property(XmpProperty::new_field(
            NS_IPTC4XMP,
            "CreatorContactInfo",
            XmpProperty::new(NS_IPTC4XMP, "CiAdrRegion"),
        )))
    } else if str_eq(key, "CiEmailWork") {
        Some(XmpTranslator::Property(XmpProperty::new_field(
            NS_IPTC4XMP,
            "CreatorContactInfo",
            XmpProperty::new(NS_IPTC4XMP, "CiEmailWork"),
        )))
    } else if str_eq(key, "CiTelWork") {
        Some(XmpTranslator::Property(XmpProperty::new_field(
            NS_IPTC4XMP,
            "CreatorContactInfo",
            XmpProperty::new(NS_IPTC4XMP, "CiTelWork"),
        )))
    } else if str_eq(key, "City") {
        Some(XmpTranslator::Property(XmpProperty::new(NS_PHOTOSHOP, "City")))
    } else if str_eq(key, "CiUrlWork") {
        Some(XmpTranslator::Property(XmpProperty::new_field(
            NS_IPTC4XMP,
            "CreatorContactInfo",
            XmpProperty::new(NS_IPTC4XMP, "CiUrlWork"),
        )))
    } else if str_eq(key, "CopyrightNotice") {
        Some(XmpTranslator::Property(XmpProperty::new(NS_DC, "rights")))
    } else if str_eq(key, "Country/PrimaryLocationCode") {
        Some(XmpTranslator::Property(XmpProperty::new(NS_IPTC4XMP, "CountryCode")))
    } else if str_eq(key, "Country/PrimaryLocationName") {
        Some(XmpTranslator::Property(XmpProperty::new(NS_PHOTOSHOP, "Country")))
    } else if str_eq(key, "Credit") {
        Some(XmpTranslator::Property(XmpProperty::new(NS_PHOTOSHOP, "Credit")))
    } else if str_eq(key, "Headline") {
        Some(XmpTranslator::Property(XmpProperty::new(NS_PHOTOSHOP, "Headline")))
    } else if str_eq(key, "Keywords") {
        Some(XmpTranslator::Property(XmpProperty::new(NS_DC, "subject")))
    } else if str_eq(key, "ObjectAttributeReference") {
        Some(XmpTranslator::Property(XmpProperty::new(NS_IPTC4XMP, "IntellectualGenre")))
    } else if str_eq(key, "ObjectName") {
        Some(XmpTranslator::Property(XmpProperty::new(NS_DC, "title")))
    } else if str_eq(key, "OriginalTransmissionReference") {
        Some(XmpTranslator::Property(XmpProperty::new(NS_PHOTOSHOP, "TransmissionReference")))
    } else if str_eq(key, "Province/State") {
        Some(XmpTranslator::Property(XmpProperty::new(NS_PHOTOSHOP, "State")))
    } else if str_eq(key, "Scene") {
        Some(XmpTranslator::Property(XmpProperty::new(NS_IPTC4XMP, "Scene")))
    } else if str_eq(key, "Source") {
        Some(XmpTranslator::Property(XmpProperty::new(NS_PHOTOSHOP, "Source")))
    } else if str_eq(key, "SpecialInstructions") {
        Some(XmpTranslator::Property(XmpProperty::new(NS_PHOTOSHOP, "Instructions")))
    } else if str_eq(key, "SubjectReference") {
        Some(XmpTranslator::Property(XmpProperty::new(NS_IPTC4XMP, "SubjectReference")))
    } else if str_eq(key, "SubLocation") {
        Some(XmpTranslator::Property(XmpProperty::new(NS_IPTC4XMP, "Location")))
    } else if str_eq(key, "StarRating") {
        Some(XmpTranslator::Property(XmpProperty::new(NS_XMP, "Rating")))
    } else if str_eq(key, "UsageTerms") {
        Some(XmpTranslator::Property(XmpProperty::new(NS_XMP_RIGHTS, "UsageTerms")))
    } else if str_eq(key, "Writer/Editor") {
        Some(XmpTranslator::Property(XmpProperty::new(NS_PHOTOSHOP, "CaptionWriter")))
    } else {
        None
    }
}

/// IPTC properties of a version.
#[derive(Debug)]
pub struct IptcProperties {
    /// The bag of typed values, keyed by the source property name, with
    /// the keys kept in ascending lexicographic order.
    pub bag: KvMap<IptcValue>,
}

/// The bag read off the entries of an `iptcProperties` dictionary: each
/// string entry under its key; entries of other types left out.
pub open spec fn iptc_bag(entries: Seq<DictEntry>) -> Map<Seq<char>, IptcValue>
    decreases entries.len(),
{
    if entries.len() == 0 {
        Map::empty()
    } else {
        let prev = iptc_bag(entries.drop_last());
        match entries.last().value {
            Value::Str(s) => prev.insert(entries.last().key@, IptcValue::Str(s)),
            _ => prev,
        }
    }
}

/// The bag's key order: one entry per string-typed key of the dictionary,
/// in ascending lexicographic order — the order the translation engine
/// walks the bag in.
pub open spec fn iptc_keys(entries: Seq<DictEntry>) -> Seq<Seq<char>>
    decreases entries.len(),
{
    if entries.len() == 0 {
        Seq::empty()
    } else {
        let prev = iptc_keys(entries.drop_last());
        match entries.last().value {
            Value::Str(_) => if iptc_bag(entries.drop_last()).dom().contains(entries.last().key@) {
                prev
            } else {
                sorted_insert(prev, entries.last().key@)
            },
            _ => prev,
        }
    }
}

/// The audit trail of decoding an `iptcProperties` dictionary: an entry
/// that is not a string is skipped as `InvalidType`, and a string entry
/// whose name the translation table does not know as `UnknownProp`, each
/// under the `Iptc.` prefix.
pub open spec fn iptc_audit(v: AuditView, entries: Seq<DictEntry>) -> AuditView
    decreases entries.len(),
{
    if entries.len() == 0 {
        v
    } else {
        let prev = iptc_audit(v, entries.drop_last());
        let key = entries.last().key@;
        match entries.last().value {
            Value::Str(_) => if iptc_rule(key) is None {
                step_skip(prev, "Iptc."@ + key, SkipReason::UnknownProp)
            } else {
                prev
            },
            _ => step_skip(prev, "Iptc."@ + key, SkipReason::InvalidType),
        }
    }
}

/// The audit trail of an optional `iptcProperties` dictionary.
pub open spec fn iptc_opt_audit(v: AuditView, d: Option<Dictionary>) -> AuditView {
    match d {
        Some(d) => iptc_audit(v, d.pairs()),
        None => v,
    }
}

impl IptcProperties {
    /// Decode the `iptcProperties` dictionary, when there is one.
    pub fn from(dict: Option<&Dictionary>, report: &mut Report) -> (r: Option<IptcProperties>)
        ensures
            match (dict, r) {
                (Some(d), Some(p)) => p.bag.map_view() == iptc_bag(d.pairs())
                    && p.bag.keys_view() == iptc_keys(d.pairs()),
                (None, None) => true,
                _ => false,
            },
            final(report).audit_view() == iptc_opt_audit(
                old(report).audit_view(),
                match dict {
                    Some(d) => Some(*d),
                    None => None,
                },
            ),
    {
        let dict = match dict {
            Some(d) => d,
            None => {
                return None;
            },
        };
        let mut values: KvMap<IptcValue> = KvMap::new();
        let n = dict.entry_count();
        let mut i: usize = 0;
        while i < n
            invariant
                i <= n,
                n == dict.pairs().len(),
                values.map_view() == iptc_bag(dict.pairs().subrange(0, i as int)),
                values.keys_view() == iptc_keys(dict.pairs().subrange(0, i as int)),
                report.audit_view() == iptc_audit(
                    old(report).audit_view(),
                    dict.pairs().subrange(0, i as int),
                ),
            decreases n - i,
        {
            proof {
                assert(dict.pairs().subrange(0, i as int + 1).last() == dict.pairs()[i as int]);
                assert(dict.pairs().subrange(0, i as int + 1).drop_last() =~= dict.pairs().subrange(
                    0,
                    i as int,
                ));
            }
            let e = dict.entry_at(i);
            match &e.value {
                Value::Str(s) => {
                    values.insert_sorted(e.key.as_str(), IptcValue::Str(s.clone()));
                    if iptc_translator(e.key.as_str()).is_none() {
                        let mut key = "Iptc.".to_owned();
                        key.append(e.key.as_str());
                        report.skip(key.as_str(), SkipReason::UnknownProp);
                    }
                },
                _ => {
                    let mut key = "Iptc.".to_owned();
                    key.append(e.key.as_str());
                    report.skip(key.as_str(), SkipReason::InvalidType);
                },
            }
            i += 1;
        }
        proof {
            assert(dict.pairs().subrange(0, n as int) =~= dict.pairs());
        }
        Some(IptcProperties { bag: values })
    }
}

/// One IPTC bag entry pushed into the XMP properties: a text value whose
/// name has a direct-property rule lands there; everything else writes
/// nothing.
pub open spec fn iptc_xmp_write(
    props: Map<(Seq<char>, Seq<char>), XmpValueView>,
    key: Seq<char>,
    val: IptcValue,
) -> Map<(Seq<char>, Seq<char>), XmpValueView> {
    match val {
        IptcValue::Str(s) => match iptc_rule(key) {
            Some(XmpRule::Property(ns, property, field)) => put_property(
                props,
                ns,
                property,
                None,
                field,
                s@,
            ),
            _ => props,
        },
        IptcValue::Absent => props,
    }
}

/// The whole bag pushed into the XMP properties, in bag order.
pub open spec fn iptc_xmp_fold(
    props: Map<(Seq<char>, Seq<char>), XmpValueView>,
    keys: Seq<Seq<char>>,
    m: Map<Seq<char>, IptcValue>,
) -> Map<(Seq<char>, Seq<char>), XmpValueView>
    decreases keys.len(),
{
    if keys.len() == 0 {
        props
    } else {
        iptc_xmp_write(iptc_xmp_fold(props, keys.drop_last(), m), keys.last(), m[keys.last()])
    }
}

impl ToXmp for IptcProperties {
    /// Push every translated bag entry into `xmp`, in the bag's ascending
    /// key order.
    fn to_xmp(&self, xmp: &mut Xmp) -> (r: bool)
        ensures
            r,
            final(xmp).props() == iptc_xmp_fold(
                old(xmp).props(),
                self.bag.keys_view(),
                self.bag.map_view(),
            ),
    {
        let n = self.bag.len();
        let mut i: usize = 0;
        while i < n
            invariant
                n == self.bag.keys_view().len(),
                i <= n,
                xmp.props() == iptc_xmp_fold(
                    old(xmp).props(),
                    self.bag.keys_view().subrange(0, i as int),
                    self.bag.map_view(),
                ),
            decreases n - i,
        {
            proof {
                assert(self.bag.keys_view().subrange(0, i as int + 1).last()
                    == self.bag.keys_view()[i as int]);
                assert(self.bag.keys_view().subrange(0, i as int + 1).drop_last()
                    =~= self.bag.keys_view().subrange(0, i as int));
            }
            let key = self.bag.key_at(i);
            let value = self.bag.value_at(i);
            match value {
                IptcValue::Str(s) => {
                    match iptc_translator(key.as_str()) {
                        Some(XmpTranslator::Property(prop)) => {
                            prop.put_into_xmp(s.as_str(), xmp);
                        },
                        _ => {},
                    }
                },
                IptcValue::Absent => {},
            }
            i += 1;
        }
        proof {
            assert(self.bag.keys_view().subrange(0, n as int) =~= self.bag.keys_view());
        }
        true
    }
}

} // verus!
