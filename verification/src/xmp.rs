/*
 This Source Code Form is subject to the terms of the Mozilla Public
 License, v. 2.0. If a copy of the MPL was not distributed with this
 file, You can obtain one at http://mozilla.org/MPL/2.0/.
*/

//! The XMP metadata object that the translation engine writes into, and
//! the property descriptors the translation tables use.
//!
//! The object models XMP properties as a mapping from a namespace and a
//! property path to either a scalar text value or an array of text values.
//! Serializing it to a sidecar file is a collaborator's concern, outside
//! this crate.

use vstd::prelude::*;

use crate::strutil::str_eq;

verus! {

/// Dublin Core namespace.
pub const NS_DC: &'static str = "http://purl.org/dc/elements/1.1/";

/// IPTC4XMP Core namespace.
pub const NS_IPTC4XMP: &'static str = "http://iptc.org/std/Iptc4xmpCore/1.0/xmlns/";

/// XMP basic namespace.
pub const NS_XMP: &'static str = "http://ns.adobe.com/xap/1.0/";

/// XMP rights namespace.
pub const NS_XMP_RIGHTS: &'static str = "http://ns.adobe.com/xap/1.0/rights/";

/// Photoshop namespace.
pub const NS_PHOTOSHOP: &'static str = "http://ns.adobe.com/photoshop/1.0/";

/// Exif namespace.
pub const NS_EXIF: &'static str = "http://ns.adobe.com/exif/1.0/";

/// Exif auxiliary namespace.
pub const NS_EXIF_AUX: &'static str = "http://ns.adobe.com/exif/1.0/aux/";

/// TIFF namespace.
pub const NS_TIFF: &'static str = "http://ns.adobe.com/tiff/1.0/";

/// The registered prefix of a namespace, colon included, for composing a
/// structure-field path.
pub open spec fn spec_prefix(ns: Seq<char>) -> Option<Seq<char>> {
    if ns == NS_DC@ {
        Some("dc:"@)
    } else if ns == NS_IPTC4XMP@ {
        Some("Iptc4xmpCore:"@)
    } else if ns == NS_XMP@ {
        Some("xmp:"@)
    } else if ns == NS_XMP_RIGHTS@ {
        Some("xmpRights:"@)
    } else if ns == NS_PHOTOSHOP@ {
        Some("photoshop:"@)
    } else if ns == NS_EXIF@ {
        Some("exif:"@)
    } else if ns == NS_EXIF_AUX@ {
        Some("aux:"@)
    } else if ns == NS_TIFF@ {
        Some("tiff:"@)
    } else {
        None
    }
}

/// The registered prefix of a namespace, colon included.
pub fn namespace_prefix(ns: &str) -> (r: Option<String>)
    ensures
        match r {
            Some(p) => spec_prefix(ns@) == Some(p@),
            None => spec_prefix(ns@) is None,
        },
{
    if str_eq(ns, NS_DC) {
        Some("dc:".to_owned())
    } else if str_eq(ns, NS_IPTC4XMP) {
        Some("Iptc4xmpCore:".to_owned())
    } else if str_eq(ns, NS_XMP) {
        Some("xmp:".to_owned())
    } else if str_eq(ns, NS_XMP_RIGHTS) {
        Some("xmpRights:".to_owned())
    } else if str_eq(ns, NS_PHOTOSHOP) {
        Some("photoshop:".to_owned())
    } else if str_eq(ns, NS_EXIF) {
        Some("exif:".to_owned())
    } else if str_eq(ns, NS_EXIF_AUX) {
        Some("aux:".to_owned())
    } else if str_eq(ns, NS_TIFF) {
        Some("tiff:".to_owned())
    } else {
        None
    }
}

/// One XMP value: a scalar text, or an ordered array of texts.
#[derive(Debug)]
pub enum XmpValue {
    Scalar(String),
    Array(Vec<String>),
}

/// The mathematical reading of one XMP value.
#[verifier::ext_equal]
pub ghost enum XmpValueView {
    Scalar(Seq<char>),
    Array(Seq<Seq<char>>),
}

impl XmpValue {
    /// The mathematical reading of this value.
    pub open spec fn view_of(self) -> XmpValueView {
        match self {
            XmpValue::Scalar(s) => XmpValueView::Scalar(s@),
            XmpValue::Array(v) => XmpValueView::Array(v@.map_values(|x: String| x@)),
        }
    }
}

/// One recorded property.
#[derive(Debug)]
pub struct XmpEntry {
    pub ns: String,
    pub path: String,
    pub value: XmpValue,
}

/// The property map read off a sequence of entries; a later write to a
/// property wins over an earlier one.
pub open spec fn xmp_entries_map(s: Seq<XmpEntry>) -> Map<(Seq<char>, Seq<char>), XmpValueView>
    decreases s.len(),
{
    if s.len() == 0 {
        Map::empty()
    } else {
        xmp_entries_map(s.drop_last()).insert(
            (s.last().ns@, s.last().path@),
            s.last().value.view_of(),
        )
    }
}

/// An in-process XMP metadata object.
#[derive(Debug)]
pub struct Xmp {
    entries: Vec<XmpEntry>,
}

/// The array contents after setting one item: an existing array is
/// updated in place at a held index and extended by one text otherwise; a
/// scalar or missing property starts a fresh one-element array.
pub open spec fn array_after_set(
    prev: Option<XmpValueView>,
    index: int,
    value: Seq<char>,
) -> Seq<Seq<char>> {
    match prev {
        Some(XmpValueView::Array(a)) => if 0 <= index < a.len() {
            a.update(index, value)
        } else {
            a.push(value)
        },
        _ => seq![value],
    }
}

impl Xmp {
    /// The properties this object holds.
    pub closed spec fn props(self) -> Map<(Seq<char>, Seq<char>), XmpValueView> {
        xmp_entries_map(self.entries@)
    }

    /// A fresh, empty XMP object.
    pub fn new() -> (x: Xmp)
        ensures
            x.props() == Map::<(Seq<char>, Seq<char>), XmpValueView>::empty(),
    {
        Xmp { entries: Vec::new() }
    }

    /// The entry recorded latest for the property, if any.
    fn find(&self, ns: &str, path: &str) -> (r: Option<&XmpEntry>)
        ensures
            match r {
                Some(e) => self.props().dom().contains((ns@, path@)) && e.ns@ == ns@ && e.path@
                    == path@ && self.props()[(ns@, path@)] == e.value.view_of(),
                None => !self.props().dom().contains((ns@, path@)),
            },
    {
        let ghost s = self.entries@;
        proof {
            assert(s.subrange(0, s.len() as int) =~= s);
        }
        let mut i: usize = self.entries.len();
        while i > 0
            invariant
                i <= s.len(),
                s == self.entries@,
                xmp_entries_map(s).dom().contains((ns@, path@)) == xmp_entries_map(
                    s.subrange(0, i as int),
                ).dom().contains((ns@, path@)),
                xmp_entries_map(s).dom().contains((ns@, path@)) ==> xmp_entries_map(s)[
                    (ns@, path@)] == xmp_entries_map(s.subrange(0, i as int))[(ns@, path@)],
            decreases i,
        {
            i -= 1;
            let e = &self.entries[i];
            proof {
                let sub = s.subrange(0, i as int + 1);
                assert(sub.last() == s[i as int]);
                assert(sub.drop_last() =~= s.subrange(0, i as int));
            }
            if str_eq(e.ns.as_str(), ns) && str_eq(e.path.as_str(), path) {
                return Some(e);
            }
        }
        proof {
            assert(s.subrange(0, 0) =~= Seq::<XmpEntry>::empty());
        }
        None
    }

    /// Record a scalar property value; a later write wins.
    pub fn set_property(&mut self, ns: &str, path: &str, value: &str) -> (r: bool)
        ensures
            r,
            final(self).props() == old(self).props().insert(
                (ns@, path@),
                XmpValueView::Scalar(value@),
            ),
    {
        let ghost before = self.entries@;
        let entry = XmpEntry {
            ns: ns.to_owned(),
            path: path.to_owned(),
            value: XmpValue::Scalar(value.to_owned()),
        };
        self.entries.push(entry);
        proof {
            assert(self.entries@.drop_last() =~= before);
        }
        true
    }

    /// Record one item of an array property. An index into the existing
    /// array replaces that item; any other index appends; a property that
    /// is not an array starts a fresh one-element array.
    pub fn set_array_item(&mut self, ns: &str, name: &str, index: i32, value: &str) -> (r: bool)
        ensures
            r,
            final(self).props() == old(self).props().insert(
                (ns@, name@),
                XmpValueView::Array(
                    array_after_set(
                        if old(self).props().dom().contains((ns@, name@)) {
                            Some(old(self).props()[(ns@, name@)])
                        } else {
                            None
                        },
                        index as int,
                        value@,
                    ),
                ),
            ),
    {
        let mut items: Vec<String> = Vec::new();
        let mut replaced: bool = false;
        let ghost prev = if self.props().dom().contains((ns@, name@)) {
            Some(self.props()[(ns@, name@)])
        } else {
            None
        };
        match self.find(ns, name) {
            Some(e) => {
                match &e.value {
                    XmpValue::Array(a) => {
                        let mut i: usize = 0;
                        while i < a.len()
                            invariant
                                i <= a.len(),
                                items@.len() == i,
                                forall|j: int|
                                    0 <= j < i ==> items@[j]@ == if j == index as int {
                                        value@
                                    } else {
                                        a@[j]@
                                    },
                            decreases a.len() - i,
                        {
                            if index >= 0 && i == index as usize {
                                items.push(value.to_owned());
                            } else {
                                items.push(a[i].clone());
                            }
                            i += 1;
                        }
                        if !(index >= 0 && (index as usize) < a.len()) {
                            items.push(value.to_owned());
                        }
                        proof {
                            let av = a@.map_values(|x: String| x@);
                            let iv = items@.map_values(|x: String| x@);
                            if 0 <= index < a@.len() {
                                assert(iv =~= av.update(index as int, value@));
                            } else {
                                assert(iv =~= av.push(value@));
                            }
                        }
                    },
                    _ => {
                        items.push(value.to_owned());
                        proof {
                            assert(items@.map_values(|x: String| x@) =~= seq![value@]);
                        }
                    },
                }
            },
            None => {
                items.push(value.to_owned());
                proof {
                    assert(items@.map_values(|x: String| x@) =~= seq![value@]);
                }
            },
        }
        let ghost before = self.entries@;
        let entry = XmpEntry {
            ns: ns.to_owned(),
            path: name.to_owned(),
            value: XmpValue::Array(items),
        };
        self.entries.push(entry);
        proof {
            assert(self.entries@.drop_last() =~= before);
            assert(self.entries@.last().value.view_of() =~= XmpValueView::Array(
                array_after_set(prev, index as int, value@),
            ));
        }
        true
    }

    /// The scalar value of a property, if the property holds one.
    pub fn get_property(&self, ns: &str, path: &str) -> (r: Option<String>)
        ensures
            match r {
                Some(s) => self.props().dom().contains((ns@, path@)) && self.props()[(ns@, path@)]
                    == XmpValueView::Scalar(s@),
                None => !self.props().dom().contains((ns@, path@)) || !(self.props()[(ns@, path@)]
                    is Scalar),
            },
    {
        match self.find(ns, path) {
            Some(e) => match &e.value {
                XmpValue::Scalar(s) => Some(s.clone()),
                _ => None,
            },
            None => None,
        }
    }

    /// The item of an array property at `index`, if the property holds an
    /// array that long.
    pub fn get_array_item(&self, ns: &str, name: &str, index: usize) -> (r: Option<String>)
        ensures
            match r {
                Some(s) => {
                    &&& self.props().dom().contains((ns@, name@))
                    &&& self.props()[(ns@, name@)] matches XmpValueView::Array(a)
                    &&& index < a.len() && a[index as int] == s@
                },
                None => !self.props().dom().contains((ns@, name@)) || !(self.props()[(ns@, name@)]
                    is Array) || (self.props()[(ns@, name@)] matches XmpValueView::Array(a)
                    && a.len() <= index),
            },
    {
        match self.find(ns, name) {
            Some(e) => match &e.value {
                XmpValue::Array(a) => {
                    if index < a.len() {
                        Some(a[index].clone())
                    } else {
                        None
                    }
                },
                _ => None,
            },
            None => None,
        }
    }

    /// How many items an array property holds, if it holds an array.
    pub fn get_array_len(&self, ns: &str, name: &str) -> (r: Option<usize>)
        ensures
            match r {
                Some(n) => {
                    &&& self.props().dom().contains((ns@, name@))
                    &&& self.props()[(ns@, name@)] matches XmpValueView::Array(a)
                    &&& a.len() == n
                },
                None => !self.props().dom().contains((ns@, name@)) || !(self.props()[(ns@, name@)]
                    is Array),
            },
    {
        match self.find(ns, name) {
            Some(e) => match &e.value {
                XmpValue::Array(a) => Some(a.len()),
                _ => None,
            },
            None => None,
        }
    }
}

/// Define a property.
#[derive(Debug)]
pub struct XmpProperty {
    /// The namespace URI
    pub ns: String,
    /// The property name
    pub property: String,
    /// The index (if an array)
    pub index: Option<i32>,
    /// The sub property if applicable
    pub field: Option<Box<XmpProperty>>,
}

/// Where a property write lands and what it writes: the property map
/// after pushing `value` through the descriptor. A descriptor naming a
/// structure field composes the field path with the field namespace's
/// registered prefix, and writes nothing when no prefix is known.
pub open spec fn put_property(
    props: Map<(Seq<char>, Seq<char>), XmpValueView>,
    ns: Seq<char>,
    property: Seq<char>,
    index: Option<i32>,
    field: Option<(Seq<char>, Seq<char>)>,
    value: Seq<char>,
) -> Map<(Seq<char>, Seq<char>), XmpValueView> {
    if index is None && field is None {
        props.insert((ns, property), XmpValueView::Scalar(value))
    } else {
        match field {
            Some((fns, fprop)) => match spec_prefix(fns) {
                Some(pre) => props.insert(
                    (ns, property + "/"@ + pre + fprop),
                    XmpValueView::Scalar(value),
                ),
                None => props,
            },
            None => match index {
                Some(i) => props.insert(
                    (ns, property),
                    XmpValueView::Array(
                        array_after_set(
                            if props.dom().contains((ns, property)) {
                                Some(props[(ns, property)])
                            } else {
                                None
                            },
                            i as int,
                            value,
                        ),
                    ),
                ),
                None => props,
            },
        }
    }
}

/// The field part of a property descriptor, as namespace and name views.
pub open spec fn field_view(p: XmpProperty) -> Option<(Seq<char>, Seq<char>)> {
    match p.field {
        Some(f) => Some((f.ns@, f.property@)),
        None => None,
    }
}

impl XmpProperty {
    /// Create a new basic property.
    pub fn new(ns: &str, property: &str) -> (p: XmpProperty)
        ensures
            p.ns@ == ns@,
            p.property@ == property@,
            p.index is None,
            p.field is None,
    {
        XmpProperty { ns: ns.to_owned(), property: property.to_owned(), index: None, field: None }
    }

    /// Create a new property that addresses a structure field.
    pub fn new_field(ns: &str, property: &str, field: XmpProperty) -> (p: XmpProperty)
        ensures
            p.ns@ == ns@,
            p.property@ == property@,
            p.index is None,
            field_view(p) == Some((field.ns@, field.property@)),
    {
        XmpProperty {
            ns: ns.to_owned(),
            property: property.to_owned(),
            index: None,
            field: Some(Box::new(field)),
        }
    }

    /// Put the property `value` into the XMP meta. Reports whether a
    /// write happened.
    pub fn put_into_xmp(&self, value: &str, xmp: &mut Xmp) -> (r: bool)
        ensures
            final(xmp).props() == put_property(
                old(xmp).props(),
                self.ns@,
                self.property@,
                self.index,
                field_view(*self),
                value@,
            ),
            r == if self.index is None && field_view(*self) is None {
                true
            } else {
                match field_view(*self) {
                    Some((fns, fprop)) => spec_prefix(fns) is Some,
                    None => true,
                }
            },
    {
        if self.index.is_none() && self.field.is_none() {
            return xmp.set_property(self.ns.as_str(), self.property.as_str(), value);
        } else if let Some(field) = &self.field {
            if let Some(prefix) = namespace_prefix(field.ns.as_str()) {
                let mut property = self.property.clone();
                property.append("/");
                property.append(prefix.as_str());
                property.append(field.property.as_str());
                return xmp.set_property(self.ns.as_str(), property.as_str(), value);
            }
            return false;
        } else if let Some(index) = self.index {
            return xmp.set_array_item(self.ns.as_str(), self.property.as_str(), index, value);
        }
        false
    }
}

/// Specify a translation method.
#[derive(Debug)]
pub enum XmpTranslator {
    /// Simple property mapping.
    Property(XmpProperty),
    /// Custom conversion, dispatched on the source key.
    Custom,
    /// Ignore the property.
    Ignore,
}

/// A translation rule, read mathematically: the namespace, name and
/// optional structure field of a direct property mapping, or one of the
/// two other methods.
#[verifier::ext_equal]
pub ghost enum XmpRule {
    Property(Seq<char>, Seq<char>, Option<(Seq<char>, Seq<char>)>),
    Custom,
    Ignore,
}

/// Whether an optional translator reads as an optional rule.
pub open spec fn translator_matches(t: Option<XmpTranslator>, r: Option<XmpRule>) -> bool {
    match (t, r) {
        (Some(XmpTranslator::Property(p)), Some(XmpRule::Property(ns, property, field))) => {
            &&& p.ns@ == ns
            &&& p.property@ == property
            &&& p.index is None
            &&& field_view(p) == field
        },
        (Some(XmpTranslator::Custom), Some(XmpRule::Custom)) => true,
        (Some(XmpTranslator::Ignore), Some(XmpRule::Ignore)) => true,
        (None, None) => true,
        _ => false,
    }
}

/// Trait for conversion to XMP.
pub trait ToXmp {
    /// Push the object properties to the `xmp` XMP meta.
    fn to_xmp(&self, xmp: &mut Xmp) -> bool;
}

} // verus!
