/*
  This Source Code Form is subject to the terms of the Mozilla Public
  License, v. 2.0. If a copy of the MPL was not distributed with this
  file, You can obtain one at http://mozilla.org/MPL/2.0/.
 */

//! The Exif property bag of a version, and its translation to XMP,
//! including the custom conversions for the ISO speed array and the lens
//! information string.

use vstd::prelude::*;

use crate::audit::{step_skip, AuditView, Report, SkipReason};
use crate::collections::KvMap;
use crate::decimal::{i64_times100_string, i64_to_string, int_str, shift100, spec_shift100};
use crate::plutils::{DictEntry, Dictionary, PlistDate, Value};
use crate::strutil::{sorted_insert, str_eq};
use crate::xmp::{array_after_set, put_property, spec_prefix, ToXmp, Xmp, XmpProperty, XmpRule,
    XmpTranslator, XmpValueView, NS_DC, NS_EXIF, NS_EXIF_AUX, NS_TIFF, NS_XMP};

verus! {

/// One Exif value: absent, or one of the typed kinds Aperture stores.
/// `Real` carries the decimal rendering of the floating value.
#[derive(Debug)]
pub enum ExifValue {
    /// No value.
    Absent,
    /// An integer value.
    Int(i64),
    /// A text value.
    Str(String),
    /// A date value.
    Date(PlistDate),
    /// A real value, as its decimal rendering.
    Real(String),
}

/// The translation rule for an Exif property name: where in XMP the value
/// lands, a custom conversion, or a deliberate drop. `None` for a name the
/// table does not know.
pub open spec fn exif_rule(key: Seq<char>) -> Option<XmpRule> {
    if key == "ApertureValue"@ {
        Some(XmpRule::Property(NS_EXIF@, "ApertureValue"@, None))
    } else if key == "Artist"@ {
        Some(XmpRule::Property(NS_DC@, "creator"@, None))
    } else if key == "CameraSerialNumber"@ {
        Some(XmpRule::Property(NS_EXIF_AUX@, "SerialNumber"@, None))
    } else if key == "CaptureDayOfMonth"@ {
        Some(XmpRule::Custom)
    } else if key == "CaptureDayOfWeek"@ {
        Some(XmpRule::Ignore)
    } else if key == "CaptureHourOfDay"@ {
        Some(XmpRule::Ignore)
    } else if key == "CaptureMinuteOfHour"@ {
        Some(XmpRule::Ignore)
    } else if key == "CaptureMonthOfYear"@ {
        Some(XmpRule::Ignore)
    } else if key == "CaptureSecondOfMinute"@ {
        Some(XmpRule::Ignore)
    } else if key == "CaptureYear"@ {
        Some(XmpRule::Ignore)
    } else if key == "ColorSpace"@ {
        Some(XmpRule::Property(NS_EXIF@, "ColorSpace"@, None))
    } else if key == "Copyright"@ {
        Some(XmpRule::Property(NS_DC@, "rights"@, None))
    } else if key == "Contrast"@ {
        Some(XmpRule::Property(NS_EXIF@, "Contrast"@, None))
    } else if key == "Depth"@ {
        Some(XmpRule::Property(NS_TIFF@, "BitsPerSample"@, None))
    } else if key == "ExifVersion"@ {
        Some(XmpRule::Property(NS_EXIF@, "ExifVersion"@, None))
    } else if key == "ExposureBiasValue"@ {
        Some(XmpRule::Property(NS_EXIF@, "ExposureBiasValue"@, None))
    } else if key == "ExposureMode"@ {
        Some(XmpRule::Property(NS_EXIF@, "ExposureMode"@, None))
    } else if key == "ExposureProgram"@ {
        Some(XmpRule::Property(NS_EXIF@, "ExposureProgram"@, None))
    } else if key == "Firmware"@ {
        Some(XmpRule::Property(NS_EXIF_AUX@, "Firmware"@, None))
    } else if key == "Flash"@ {
        Some(XmpRule::Custom)
    } else if key == "FlashExposureComp"@ {
        Some(XmpRule::Property(NS_EXIF_AUX@, "FlashCompensation"@, None))
    } else if key == "FlashPixVersion"@ {
        Some(XmpRule::Property(NS_EXIF@, "FlashPixVersion"@, None))
    } else if key == "FocalLength"@ {
        Some(XmpRule::Property(NS_EXIF@, "FocalLength"@, None))
    } else if key == "FocusDistance"@ {
        Some(XmpRule::Property(NS_EXIF_AUX@, "ApproximateFocusDistance"@, None))
    } else if key == "ISOSpeedRating"@ {
        Some(XmpRule::Custom)
    } else if key == "ISOSpeedRatings"@ {
        Some(XmpRule::Custom)
    } else if key == "ImageDate"@ {
        Some(XmpRule::Property(NS_EXIF@, "DateTimeOriginal"@, None))
    } else if key == "ImageDescription"@ {
        Some(XmpRule::Property(NS_DC@, "description"@, None))
    } else if key == "Latitude"@ {
        Some(XmpRule::Property(NS_EXIF@, "GPSLatitude"@, None))
    } else if key == "LensMaxMM"@ {
        Some(XmpRule::Ignore)
    } else if key == "LensMinMM"@ {
        Some(XmpRule::Custom)
    } else if key == "LensModel"@ {
        Some(XmpRule::Property(NS_EXIF_AUX@, "Lens"@, None))
    } else if key == "LightSource"@ {
        Some(XmpRule::Property(NS_EXIF@, "LightSource"@, None))
    } else if key == "Longitude"@ {
        Some(XmpRule::Property(NS_EXIF@, "GPSLongitude"@, None))
    } else if key == "Make"@ {
        Some(XmpRule::Property(NS_TIFF@, "Make"@, None))
    } else if key == "MaxApertureValue"@ {
        Some(XmpRule::Property(NS_EXIF@, "MaxApertureValue"@, None))
    } else if key == "MeteringMode"@ {
        Some(XmpRule::Property(NS_EXIF@, "MeteringMode"@, None))
    } else if key == "Model"@ {
        Some(XmpRule::Property(NS_TIFF@, "Model"@, None))
    } else if key == "OwnerName"@ {
        Some(XmpRule::Property(NS_EXIF_AUX@, "OwnerName"@, None))
    } else if key == "PixelHeight"@ {
        Some(XmpRule::Property(NS_EXIF@, "PixelYDimension"@, None))
    } else if key == "PixelWidth"@ {
        Some(XmpRule::Property(NS_EXIF@, "PixelXDimension"@, None))
    } else if key == "Saturation"@ {
        Some(XmpRule::Property(NS_EXIF@, "Saturation"@, None))
    } else if key == "SceneCaptureType"@ {
        Some(XmpRule::Property(NS_EXIF@, "SceneCaptureType"@, None))
    } else if key == "Sharpness"@ {
        Some(XmpRule::Property(NS_EXIF@, "Sharpness"@, None))
    } else if key == "ShutterSpeed"@ {
        Some(XmpRule::Property(NS_EXIF@, "ShutterSpeedValue"@, None))
    } else if key == "Software"@ {
        Some(XmpRule::Property(NS_XMP@, "CreatorTool"@, None))
    } else if key == "WhiteBalance"@ {
        Some(XmpRule::Property(NS_EXIF@, "SceneCaptureType"@, None))
    } else {
        None
    }
}

/// The translation rule for an Exif property name.
pub fn exif_translator(key: &str) -> (r: Option<XmpTranslator>)
    ensures
        crate::xmp::translator_matches(r, exif_rule(key@)),
{
    if str_eq(key, "ApertureValue") {
        Some(XmpTranslator::Property(XmpProperty::new(NS_EXIF, "ApertureValue")))
    } else if str_eq(key, "Artist") {
        Some(XmpTranslator::Property(XmpProperty::new(NS_DC, "creator")))
    } else if str_eq(key, "CameraSerialNumber") {
        Some(XmpTranslator::Property(XmpProperty::new(NS_EXIF_AUX, "SerialNumber")))
    } else if str_eq(key, "CaptureDayOfMonth") {
        Some(XmpTranslator::Custom)
    } else if str_eq(key, "CaptureDayOfWeek") {
        Some(XmpTranslator::Ignore)
    } else if str_eq(key, "CaptureHourOfDay") {
        Some(XmpTranslator::Ignore)
    } else if str_eq(key, "CaptureMinuteOfHour") {
        Some(XmpTranslator::Ignore)
    } else if str_eq(key, "CaptureMonthOfYear") {
        Some(XmpTranslator::Ignore)
    } else if str_eq(key, "CaptureSecondOfMinute") {
        Some(XmpTranslator::Ignore)
    } else if str_eq(key, "CaptureYear") {
        Some(XmpTranslator::Ignore)
    } else if str_eq(key, "ColorSpace") {
        Some(XmpTranslator::Property(XmpProperty::new(NS_EXIF, "ColorSpace")))
    } else if str_eq(key, "Copyright") {
        Some(XmpTranslator::Property(XmpProperty::new(NS_DC, "rights")))
    } else if str_eq(key, "Contrast") {
        Some(XmpTranslator::Property(XmpProperty::new(NS_EXIF, "Contrast")))
    } else if str_eq(key, "Depth") {
        Some(XmpTranslator::Property(XmpProperty::new(NS_TIFF, "BitsPerSample")))
    } else if str_eq(key, "ExifVersion") {
        Some(XmpTranslator::Property(XmpProperty::new(NS_EXIF, "ExifVersion")))
    } else if str_eq(key, "ExposureBiasValue") {
        Some(XmpTranslator::Property(XmpProperty::new(NS_EXIF, "ExposureBiasValue")))
    } else if str_eq(key, "ExposureMode") {
        Some(XmpTranslator::Property(XmpProperty::new(NS_EXIF, "ExposureMode")))
    } else if str_eq(key, "ExposureProgram") {
        Some(XmpTranslator::Property(XmpProperty::new(NS_EXIF, "ExposureProgram")))
    } else if str_eq(key, "Firmware") {
        Some(XmpTranslator::Property(XmpProperty::new(NS_EXIF_AUX, "Firmware")))
    } else if str_eq(key, "Flash") {
        Some(XmpTranslator::Custom)
    } else if str_eq(key, "FlashExposureComp") {
        Some(XmpTranslator::Property(XmpProperty::new(NS_EXIF_AUX, "FlashCompensation")))
    } else if str_eq(key, "FlashPixVersion") {
        Some(XmpTranslator::Property(XmpProperty::new(NS_EXIF, "FlashPixVersion")))
    } else if str_eq(key, "FocalLength") {
        Some(XmpTranslator::Property(XmpProperty::new(NS_EXIF, "FocalLength")))
    } else if str_eq(key, "FocusDistance") {
        Some(XmpTranslator::Property(XmpProperty::new(NS_EXIF_AUX, "ApproximateFocusDistance")))
    } else if str_eq(key, "ISOSpeedRating") {
        Some(XmpTranslator::Custom)
    } else if str_eq(key, "ISOSpeedRatings") {
        Some(XmpTranslator::Custom)
    } else if str_eq(key, "ImageDate") {
        Some(XmpTranslator::Property(XmpProperty::new(NS_EXIF, "DateTimeOriginal")))
    } else if str_eq(key, "ImageDescription") {
        Some(XmpTranslator::Property(XmpProperty::new(NS_DC, "description")))
    } else if str_eq(key, "Latitude") {
        Some(XmpTranslator::Property(XmpProperty::new(NS_EXIF, "GPSLatitude")))
    } else if str_eq(key, "LensMaxMM") {
        Some(XmpTranslator::Ignore)
    } else if str_eq(key, "LensMinMM") {
        Some(XmpTranslator::Custom)
    } else if str_eq(key, "LensModel") {
        Some(XmpTranslator::Property(XmpProperty::new(NS_EXIF_AUX, "Lens")))
    } else if str_eq(key, "LightSource") {
        Some(XmpTranslator::Property(XmpProperty::new(NS_EXIF, "LightSource")))
    } else if str_eq(key, "Longitude") {
        Some(XmpTranslator::Property(XmpProperty::new(NS_EXIF, "GPSLongitude")))
    } else if str_eq(key, "Make") {
        Some(XmpTranslator::Property(XmpProperty::new(NS_TIFF, "Make")))
    } else if str_eq(key, "MaxApertureValue") {
        Some(XmpTranslator::Property(XmpProperty::new(NS_EXIF, "MaxApertureValue")))
    } else if str_eq(key, "MeteringMode") {
        Some(XmpTranslator::Property(XmpProperty::new(NS_EXIF, "MeteringMode")))
    } else if str_eq(key, "Model") {
        Some(XmpTranslator::Property(XmpProperty::new(NS_TIFF, "Model")))
    } else if str_eq(key, "OwnerName") {
        Some(XmpTranslator::Property(XmpProperty::new(NS_EXIF_AUX, "OwnerName")))
    } else if str_eq(key, "PixelHeight") {
        Some(XmpTranslator::Property(XmpProperty::new(NS_EXIF, "PixelYDimension")))
    } else if str_eq(key, "PixelWidth") {
        Some(XmpTranslator::Property(XmpProperty::new(NS_EXIF, "PixelXDimension")))
    } else if str_eq(key, "Saturation") {
        Some(XmpTranslator::Property(XmpProperty::new(NS_EXIF, "Saturation")))
    } else if str_eq(key, "SceneCaptureType") {
        Some(XmpTranslator::Property(XmpProperty::new(NS_EXIF, "SceneCaptureType")))
    } else if str_eq(key, "Sharpness") {
        Some(XmpTranslator::Property(XmpProperty::new(NS_EXIF, "Sharpness")))
    } else if str_eq(key, "ShutterSpeed") {
        Some(XmpTranslator::Property(XmpProperty::new(NS_EXIF, "ShutterSpeedValue")))
    } else if str_eq(key, "Software") {
        Some(XmpTranslator::Property(XmpProperty::new(NS_XMP, "CreatorTool")))
    } else if str_eq(key, "WhiteBalance") {
        Some(XmpTranslator::Property(XmpProperty::new(NS_EXIF, "SceneCaptureType")))
    } else {
        None
    }
}

/// How one plist value classifies into an Exif value; `None` for the
/// kinds the bag does not hold.
pub open spec fn exif_classify(v: Value) -> Option<ExifValue> {
    match v {
        Value::Int(n) => Some(ExifValue::Int(n)),
        Value::Real(s) => Some(ExifValue::Real(s)),
        Value::Str(s) => Some(ExifValue::Str(s)),
        Value::Date(d) => Some(ExifValue::Date(d)),
        _ => None,
    }
}

/// The bag read off the entries of an `exifProperties` dictionary: each
/// classifiable entry under its key; entries of other types left out.
pub open spec fn exif_bag(entries: Seq<DictEntry>) -> Map<Seq<char>, ExifValue>
    decreases entries.len(),
{
    if entries.len() == 0 {
        Map::empty()
    } else {
        let prev = exif_bag(entries.drop_last());
        match exif_classify(entries.last().value) {
            Some(ev) => prev.insert(entries.last().key@, ev),
            None => prev,
        }
    }
}

/// The bag's key order: one entry per classifiable key of the dictionary,
/// in ascending lexicographic order — the order the translation engine
/// walks the bag in.
pub open spec fn exif_keys(entries: Seq<DictEntry>) -> Seq<Seq<char>>
    decreases entries.len(),
{
    if entries.len() == 0 {
        Seq::empty()
    } else {
        let prev = exif_keys(entries.drop_last());
        match exif_classify(entries.last().value) {
            Some(_) => if exif_bag(entries.drop_last()).dom().contains(entries.last().key@) {
                prev
            } else {
                sorted_insert(prev, entries.last().key@)
            },
            None => prev,
        }
    }
}

/// The audit trail of decoding an `exifProperties` dictionary: an entry of
/// an unclassifiable type is skipped as `InvalidType`, and a classified
/// entry whose name the translation table does not know as `UnknownProp`,
/// each under the `Exif.` prefix.
pub open spec fn exif_audit(v: AuditView, entries: Seq<DictEntry>) -> AuditView
    decreases entries.len(),
{
    if entries.len() == 0 {
        v
    } else {
        let prev = exif_audit(v, entries.drop_last());
        let key = entries.last().key@;
        match exif_classify(entries.last().value) {
            Some(_) => if exif_rule(key) is None {
                step_skip(prev, "Exif."@ + key, SkipReason::UnknownProp)
            } else {
                prev
            },
            None => step_skip(prev, "Exif."@ + key, SkipReason::InvalidType),
        }
    }
}

/// The audit trail of an optional `exifProperties` dictionary.
pub open spec fn exif_opt_audit(v: AuditView, d: Option<Dictionary>) -> AuditView {
    match d {
        Some(d) => exif_audit(v, d.pairs()),
        None => v,
    }
}

/// Exif properties of a version.
#[derive(Debug)]
pub struct ExifProperties {
    /// The bag of typed values, keyed by the source property name, with
    /// the keys kept in ascending lexicographic order.
    pub bag: KvMap<ExifValue>,
}

impl ExifProperties {
    /// Decode the `exifProperties` dictionary, when there is one.
    pub fn from(dict: Option<&Dictionary>, report: &mut Report) -> (r: Option<ExifProperties>)
        ensures
            match (dict, r) {
                (Some(d), Some(p)) => p.bag.map_view() == exif_bag(d.pairs())
                    && p.bag.keys_view() == exif_keys(d.pairs()),
                (None, None) => true,
                _ => false,
            },
            final(report).audit_view() == exif_opt_audit(
                old(report).audit_view(),
                match dict {
                    Some(d) => Some(*d),
                    None => None,
                },
            ),
    {
        let dict = match dict {
            Some(d) => d,
            None => {
                return None;
            },
        };
        let mut values: KvMap<ExifValue> = KvMap::new();
        let n = dict.entry_count();
        let mut i: usize = 0;
        while i < n
            invariant
                i <= n,
                n == dict.pairs().len(),
                values.map_view() == exif_bag(dict.pairs().subrange(0, i as int)),
                values.keys_view() == exif_keys(dict.pairs().subrange(0, i as int)),
                report.audit_view() == exif_audit(
                    old(report).audit_view(),
                    dict.pairs().subrange(0, i as int),
                ),
            decreases n - i,
        {
            proof {
                assert(dict.pairs().subrange(0, i as int + 1).last() == dict.pairs()[i as int]);
                assert(dict.pairs().subrange(0, i as int + 1).drop_last() =~= dict.pairs().subrange(
                    0,
                    i as int,
                ));
            }
            let e = dict.entry_at(i);
            let ev: Option<ExifValue> = match &e.value {
                Value::Int(n) => Some(ExifValue::Int(*n)),
                Value::Real(s) => Some(ExifValue::Real(s.clone())),
                Value::Str(s) => Some(ExifValue::Str(s.clone())),
                Value::Date(d) => Some(ExifValue::Date(*d)),
                _ => None,
            };
            match ev {
                Some(ev) => {
                    values.insert_sorted(e.key.as_str(), ev);
                    if exif_translator(e.key.as_str()).is_none() {
                        let mut key = "Exif.".to_owned();
                        key.append(e.key.as_str());
                        report.skip(key.as_str(), SkipReason::UnknownProp);
                    }
                },
                None => {
                    let mut key = "Exif.".to_owned();
                    key.append(e.key.as_str());
                    report.skip(key.as_str(), SkipReason::InvalidType);
                },
            }
            i += 1;
        }
        proof {
            assert(dict.pairs().subrange(0, n as int) =~= dict.pairs());
        }
        Some(ExifProperties { bag: values })
    }
}

/// The text an Exif value converts to for a direct property write:
/// defined for text and integer values only.
pub open spec fn spec_value_to_string(v: ExifValue) -> Option<Seq<char>> {
    match v {
        ExifValue::Str(s) => Some(s@),
        ExifValue::Int(i) => Some(int_str(i as int)),
        _ => None,
    }
}

impl ExifProperties {
    /// Convert a value to a string for a direct property write. Text
    /// passes through; integers render in plain decimal; dates and reals
    /// have no direct conversion.
    pub fn value_to_string(value: &ExifValue) -> (r: Option<String>)
        ensures
            match r {
                Some(s) => spec_value_to_string(*value) == Some(s@),
                None => spec_value_to_string(*value) is None,
            },
    {
        match value {
            ExifValue::Str(s) => Some(s.clone()),
            ExifValue::Int(i) => Some(i64_to_string(*i)),
            _ => None,
        }
    }
}

/// The property map after the ISO conversion: an integer
/// `ISOSpeedRatings` in the bag becomes the item at position zero of the
/// XMP `ISOSpeedRatings` array — a scalar on the Aperture side, an array
/// on the XMP side.
pub open spec fn iso_write(
    props: Map<(Seq<char>, Seq<char>), XmpValueView>,
    m: Map<Seq<char>, ExifValue>,
) -> Map<(Seq<char>, Seq<char>), XmpValueView> {
    if m.dom().contains("ISOSpeedRatings"@) {
        match m["ISOSpeedRatings"@] {
            ExifValue::Int(i) => props.insert(
                (NS_EXIF@, "ISOSpeedRatings"@),
                XmpValueView::Array(
                    array_after_set(
                        if props.dom().contains((NS_EXIF@, "ISOSpeedRatings"@)) {
                            Some(props[(NS_EXIF@, "ISOSpeedRatings"@)])
                        } else {
                            None
                        },
                        0,
                        int_str(i as int),
                    ),
                ),
            ),
            _ => props,
        }
    } else {
        props
    }
}

/// The text a lens endpoint scales to: an integer renders as itself times
/// one hundred; a real moves its decimal point two places right; other
/// kinds do not convert.
pub open spec fn lens_endpoint(v: ExifValue) -> Option<Seq<char>> {
    match v {
        ExifValue::Int(i) => Some(int_str(100 * (i as int))),
        ExifValue::Real(s) => spec_shift100(s@),
        _ => None,
    }
}

/// The property map after the lens conversion: when both `LensMinMM` and
/// `LensMaxMM` are in the bag and both scale, the four-rational EXIF
/// LensInfo string `<min*100>/100 <max*100>/100 0/1 0/1` lands under the
/// auxiliary namespace; otherwise the rule is a no-op.
pub open spec fn lens_write(
    props: Map<(Seq<char>, Seq<char>), XmpValueView>,
    m: Map<Seq<char>, ExifValue>,
) -> Map<(Seq<char>, Seq<char>), XmpValueView> {
    if m.dom().contains("LensMinMM"@) && m.dom().contains("LensMaxMM"@) {
        match (lens_endpoint(m["LensMinMM"@]), lens_endpoint(m["LensMaxMM"@])) {
            (Some(a), Some(b)) => props.insert(
                (NS_EXIF_AUX@, "LensInfo"@),
                XmpValueView::Scalar(a + "/100 "@ + b + "/100 0/1 0/1"@),
            ),
            _ => props,
        }
    } else {
        props
    }
}

/// The property map after the custom conversion a key dispatches to.
pub open spec fn custom_write(
    props: Map<(Seq<char>, Seq<char>), XmpValueView>,
    key: Seq<char>,
    m: Map<Seq<char>, ExifValue>,
) -> Map<(Seq<char>, Seq<char>), XmpValueView> {
    if key == "ISOSpeedRatings"@ || key == "ISOSpeedRating"@ {
        iso_write(props, m)
    } else if key == "LensMinMM"@ {
        lens_write(props, m)
    } else {
        props
    }
}

impl ExifProperties {
    /// The text a lens endpoint scales to.
    fn endpoint_string(value: &ExifValue) -> (r: Option<String>)
        ensures
            match r {
                Some(s) => lens_endpoint(*value) == Some(s@),
                None => lens_endpoint(*value) is None,
            },
    {
        match value {
            ExifValue::Int(i) => Some(i64_times100_string(*i)),
            ExifValue::Real(s) => shift100(s.as_str()),
            _ => None,
        }
    }

    /// ISOSpeedRatings is an array in XMP: write the scalar as its first
    /// item.
    fn iso(&self, xmp: &mut Xmp)
        ensures
            final(xmp).props() == iso_write(old(xmp).props(), self.bag.map_view()),
    {
        match self.bag.get("ISOSpeedRatings") {
            Some(ExifValue::Int(i)) => {
                let text = i64_to_string(*i);
                xmp.set_array_item(NS_EXIF, "ISOSpeedRatings", 0, text.as_str());
            },
            _ => {},
        }
    }

    /// Convert the paired lens endpoints to the LensInfo string.
    fn lens_info(&self, xmp: &mut Xmp)
        ensures
            final(xmp).props() == lens_write(old(xmp).props(), self.bag.map_view()),
    {
        let min = match self.bag.get("LensMinMM") {
            Some(v) => v,
            None => {
                return;
            },
        };
        let max = match self.bag.get("LensMaxMM") {
            Some(v) => v,
            None => {
                return;
            },
        };
        let min_text = match Self::endpoint_string(min) {
            Some(s) => s,
            None => {
                return;
            },
        };
        let max_text = match Self::endpoint_string(max) {
            Some(s) => s,
            None => {
                return;
            },
        };
        let mut value = min_text;
        value.append("/100 ");
        value.append(max_text.as_str());
        value.append("/100 0/1 0/1");
        xmp.set_property(NS_EXIF_AUX, "LensInfo", value.as_str());
    }

    /// Dispatch a custom conversion by the source key.
    fn custom_value_to_string(&self, key: &str, xmp: &mut Xmp)
        ensures
            final(xmp).props() == custom_write(old(xmp).props(), key@, self.bag.map_view()),
    {
        if str_eq(key, "ISOSpeedRatings") || str_eq(key, "ISOSpeedRating") {
            self.iso(xmp);
        } else if str_eq(key, "LensMinMM") {
            self.lens_info(xmp);
        }
    }
}

/// One Exif bag entry pushed into the XMP properties: a direct rule
/// writes the converted text when one is defined; a custom rule runs its
/// conversion; everything else writes nothing.
pub open spec fn exif_xmp_write(
    props: Map<(Seq<char>, Seq<char>), XmpValueView>,
    key: Seq<char>,
    m: Map<Seq<char>, ExifValue>,
) -> Map<(Seq<char>, Seq<char>), XmpValueView> {
    match exif_rule(key) {
        Some(XmpRule::Property(ns, property, field)) => match spec_value_to_string(m[key]) {
            Some(s) => put_property(props, ns, property, None, field, s),
            None => props,
        },
        Some(XmpRule::Custom) => custom_write(props, key, m),
        _ => props,
    }
}

/// The whole bag pushed into the XMP properties, in bag order.
pub open spec fn exif_xmp_fold(
    props: Map<(Seq<char>, Seq<char>), XmpValueView>,
    keys: Seq<Seq<char>>,
    m: Map<Seq<char>, ExifValue>,
) -> Map<(Seq<char>, Seq<char>), XmpValueView>
    decreases keys.len(),
{
    if keys.len() == 0 {
        props
    } else {
        exif_xmp_write(exif_xmp_fold(props, keys.drop_last(), m), keys.last(), m)
    }
}

impl ToXmp for ExifProperties {
    /// Push every translated bag entry into `xmp`, in the bag's ascending
    /// key order; of two source names that write one destination property
    /// the name reading later wins.
    fn to_xmp(&self, xmp: &mut Xmp) -> (r: bool)
        ensures
            r,
            final(xmp).props() == exif_xmp_fold(
                old(xmp).props(),
                self.bag.keys_view(),
                self.bag.map_view(),
            ),
    {
        let n = self.bag.len();
        let mut i: usize = 0;
        while i < n
            invariant
                n == self.bag.keys_view().len(),
                i <= n,
                xmp.props() == exif_xmp_fold(
                    old(xmp).props(),
                    self.bag.keys_view().subrange(0, i as int),
                    self.bag.map_view(),
                ),
            decreases n - i,
        {
            proof {
                assert(self.bag.keys_view().subrange(0, i as int + 1).last()
                    == self.bag.keys_view()[i as int]);
                assert(self.bag.keys_view().subrange(0, i as int + 1).drop_last()
                    =~= self.bag.keys_view().subrange(0, i as int));
            }
            let key = self.bag.key_at(i).clone();
            let value = self.bag.value_at(i);
            match exif_translator(key.as_str()) {
                Some(XmpTranslator::Property(prop)) => {
                    match Self::value_to_string(value) {
                        Some(text) => {
                            prop.put_into_xmp(text.as_str(), xmp);
                        },
                        None => {},
                    }
                },
                Some(XmpTranslator::Custom) => {
                    self.custom_value_to_string(key.as_str(), xmp);
                },
                _ => {},
            }
            i += 1;
        }
        proof {
            assert(self.bag.keys_view().subrange(0, n as int) =~= self.bag.keys_view());
        }
        true
    }
}

} // verus!
