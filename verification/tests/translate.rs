/*
 This Source Code Form is subject to the terms of the Mozilla Public
 License, v. 2.0. If a copy of the MPL was not distributed with this
 file, You can obtain one at http://mozilla.org/MPL/2.0/.
*/

//! The XMP translation engine and its value conversions.

use aplib::audit::{Report, SkipReason};
use aplib::decimal::{i64_to_string, shift100, u64_to_string};
use aplib::exif::ExifProperties;
use aplib::iptc::IptcProperties;
use aplib::plutils::{Dictionary, Value};
use aplib::PlistLoadable;
use aplib::xmp::{ToXmp, Xmp, XmpProperty, NS_DC, NS_EXIF, NS_EXIF_AUX, NS_IPTC4XMP, NS_PHOTOSHOP};

#[test]
fn test_xmp() {
    let mut xmp = Xmp::new();

    let prop1 = XmpProperty::new(NS_DC, "creator");
    let prop2 = XmpProperty::new_field(
        NS_IPTC4XMP,
        "CreatorContactInfo",
        XmpProperty::new(NS_IPTC4XMP, "CiAdrCity"),
    );
    assert!(prop1.put_into_xmp("Batman", &mut xmp));
    assert!(prop2.put_into_xmp("Gotham", &mut xmp));

    let value = xmp.get_property(NS_DC, "creator");
    assert!(value.is_some());
    assert_eq!(value.unwrap(), "Batman");

    let nested = xmp.get_property(NS_IPTC4XMP, "CreatorContactInfo/Iptc4xmpCore:CiAdrCity");
    assert!(nested.is_some());
    assert_eq!(nested.unwrap(), "Gotham");
}

#[test]
fn lens_info_rule_scales_integer_endpoints() {
    // LensMinMM=24 with LensMaxMM=70 gives the four-rational string.
    let mut exif = Dictionary::new();
    exif.insert("LensMinMM", Value::Int(24));
    exif.insert("LensMaxMM", Value::Int(70));
    let mut report = Report::new();
    let bag = ExifProperties::from(Some(&exif), &mut report).unwrap();

    let mut xmp = Xmp::new();
    assert!(bag.to_xmp(&mut xmp));
    let value = xmp.get_property(NS_EXIF_AUX, "LensInfo");
    assert_eq!(value.unwrap(), "2400/100 7000/100 0/1 0/1");
}

#[test]
fn lens_info_rule_scales_real_endpoints() {
    // A real endpoint moves its decimal point two places right, exactly.
    let mut exif = Dictionary::new();
    exif.insert("LensMinMM", Value::Real("24.5".to_string()));
    exif.insert("LensMaxMM", Value::Real("0.125".to_string()));
    let mut report = Report::new();
    let bag = ExifProperties::from(Some(&exif), &mut report).unwrap();

    let mut xmp = Xmp::new();
    assert!(bag.to_xmp(&mut xmp));
    let value = xmp.get_property(NS_EXIF_AUX, "LensInfo");
    assert_eq!(value.unwrap(), "2450/100 12.5/100 0/1 0/1");
}

#[test]
fn lens_info_rule_needs_both_endpoints() {
    let mut exif = Dictionary::new();
    exif.insert("LensMinMM", Value::Int(24));
    let mut report = Report::new();
    let bag = ExifProperties::from(Some(&exif), &mut report).unwrap();

    let mut xmp = Xmp::new();
    assert!(bag.to_xmp(&mut xmp));
    assert!(xmp.get_property(NS_EXIF_AUX, "LensInfo").is_none());
}

#[test]
fn iso_rule_writes_a_one_element_array() {
    // ISOSpeedRatings=400 lands as the sole item of an XMP array.
    let mut exif = Dictionary::new();
    exif.insert("ISOSpeedRatings", Value::Int(400));
    let mut report = Report::new();
    let bag = ExifProperties::from(Some(&exif), &mut report).unwrap();

    let mut xmp = Xmp::new();
    assert!(bag.to_xmp(&mut xmp));
    assert_eq!(xmp.get_array_len(NS_EXIF, "ISOSpeedRatings"), Some(1));
    assert_eq!(
        xmp.get_array_item(NS_EXIF, "ISOSpeedRatings", 0).unwrap(),
        "400"
    );
}

#[test]
fn exif_value_conversion_covers_text_and_integers() {
    let mut exif = Dictionary::new();
    exif.insert("Make", Value::Str("Canon".to_string()));
    exif.insert("ApertureValue", Value::Int(4));
    exif.insert("FocalLength", Value::Real("35.0".to_string()));
    let mut report = Report::new();
    let bag = ExifProperties::from(Some(&exif), &mut report).unwrap();

    let mut xmp = Xmp::new();
    assert!(bag.to_xmp(&mut xmp));
    assert_eq!(
        xmp.get_property("http://ns.adobe.com/tiff/1.0/", "Make").unwrap(),
        "Canon"
    );
    assert_eq!(xmp.get_property(NS_EXIF, "ApertureValue").unwrap(), "4");
    // A real value has no direct-property conversion.
    assert!(xmp.get_property(NS_EXIF, "FocalLength").is_none());
}

#[test]
fn exif_decode_audits_unknown_and_invalid_entries() {
    let mut exif = Dictionary::new();
    exif.insert("SomethingNew", Value::Int(1));
    exif.insert("Broken", Value::Boolean(true));
    exif.insert("Make", Value::Str("Canon".to_string()));
    let mut report = Report::new();
    let bag = ExifProperties::from(Some(&exif), &mut report).unwrap();
    assert!(bag.bag.contains_key("SomethingNew"));
    assert!(!bag.bag.contains_key("Broken"));
    assert_eq!(
        report.get_skipped().get("Exif.SomethingNew"),
        Some(&SkipReason::UnknownProp)
    );
    assert_eq!(
        report.get_skipped().get("Exif.Broken"),
        Some(&SkipReason::InvalidType)
    );
    assert!(report.get_skipped().get("Exif.Make").is_none());
}

#[test]
fn iptc_translation_writes_direct_properties() {
    let mut iptc = Dictionary::new();
    iptc.insert("Byline", Value::Str("Ada".to_string()));
    iptc.insert("City", Value::Str("London".to_string()));
    iptc.insert("CiAdrCity", Value::Str("London".to_string()));
    iptc.insert("Unheard", Value::Str("x".to_string()));
    iptc.insert("Bad", Value::Int(2));
    let mut report = Report::new();
    let bag = IptcProperties::from(Some(&iptc), &mut report).unwrap();
    assert_eq!(
        report.get_skipped().get("Iptc.Unheard"),
        Some(&SkipReason::UnknownProp)
    );
    assert_eq!(
        report.get_skipped().get("Iptc.Bad"),
        Some(&SkipReason::InvalidType)
    );

    let mut xmp = Xmp::new();
    assert!(bag.to_xmp(&mut xmp));
    assert_eq!(xmp.get_property(NS_DC, "creator").unwrap(), "Ada");
    assert_eq!(xmp.get_property(NS_PHOTOSHOP, "City").unwrap(), "London");
    assert_eq!(
        xmp.get_property(NS_IPTC4XMP, "CreatorContactInfo/Iptc4xmpCore:CiAdrCity")
            .unwrap(),
        "London"
    );
}

#[test]
fn iptc_overwrites_exif_on_shared_properties() {
    // A version pushes Exif before IPTC, so IPTC wins the dc:creator slot.
    let mut iptc = Dictionary::new();
    iptc.insert("Byline", Value::Str("From IPTC".to_string()));
    let mut exif = Dictionary::new();
    exif.insert("Artist", Value::Str("From Exif".to_string()));
    let mut dict = Dictionary::new();
    dict.insert("uuid", Value::Str("v1".to_string()));
    dict.insert("iptcProperties", Value::Dict(iptc));
    dict.insert("exifProperties", Value::Dict(exif));

    let mut report = Report::new();
    let version =
        aplib::version::Version::from_plist(&Value::Dict(dict), &mut report).unwrap();
    let mut xmp = Xmp::new();
    assert!(aplib::version::Version::to_xmp(&version, &mut xmp));
    assert_eq!(xmp.get_property(NS_DC, "creator").unwrap(), "From IPTC");
}

#[test]
fn decimal_renderings_are_exact() {
    assert_eq!(u64_to_string(0), "0");
    assert_eq!(u64_to_string(400), "400");
    assert_eq!(u64_to_string(18446744073709551615), "18446744073709551615");
    assert_eq!(i64_to_string(0), "0");
    assert_eq!(i64_to_string(-12345), "-12345");
    assert_eq!(i64_to_string(i64::MIN), "-9223372036854775808");

    assert_eq!(shift100("24").unwrap(), "2400");
    assert_eq!(shift100("24.5").unwrap(), "2450");
    assert_eq!(shift100("0.125").unwrap(), "12.5");
    assert_eq!(shift100("-0.001").unwrap(), "-0.1");
    assert_eq!(shift100("0.0").unwrap(), "0");
    assert!(shift100("nonsense").is_none());
    assert!(shift100("1.2.3").is_none());
}

#[test]
fn array_items_replace_and_append() {
    let mut xmp = Xmp::new();
    assert!(xmp.set_array_item(NS_EXIF, "ISOSpeedRatings", 0, "100"));
    assert!(xmp.set_array_item(NS_EXIF, "ISOSpeedRatings", 1, "200"));
    assert!(xmp.set_array_item(NS_EXIF, "ISOSpeedRatings", 0, "80"));
    assert_eq!(xmp.get_array_len(NS_EXIF, "ISOSpeedRatings"), Some(2));
    assert_eq!(
        xmp.get_array_item(NS_EXIF, "ISOSpeedRatings", 0).unwrap(),
        "80"
    );
    assert_eq!(
        xmp.get_array_item(NS_EXIF, "ISOSpeedRatings", 1).unwrap(),
        "200"
    );
}

#[test]
fn exif_translation_runs_in_ascending_key_order() {
    // Both names write the same destination; the bag walks its keys in
    // ascending order, so the later-reading name wins whatever order the
    // document listed them in.
    let mut exif = Dictionary::new();
    exif.insert("WhiteBalance", Value::Str("from WhiteBalance".to_string()));
    exif.insert("SceneCaptureType", Value::Str("from SceneCaptureType".to_string()));
    let mut report = Report::new();
    let bag = ExifProperties::from(Some(&exif), &mut report).unwrap();

    let mut xmp = Xmp::new();
    assert!(bag.to_xmp(&mut xmp));
    assert_eq!(
        xmp.get_property(NS_EXIF, "SceneCaptureType").unwrap(),
        "from WhiteBalance"
    );
}
