/*
 This Source Code Form is subject to the terms of the Mozilla Public
 License, v. 2.0. If a copy of the MPL was not distributed with this
 file, You can obtain one at http://mozilla.org/MPL/2.0/.
*/

//! The record loaders, fed with documents built as plain values.

use aplib::album::{Album, Subclass};
use aplib::audit::{Report, SkipReason};
use aplib::folder::{Folder, Type};
use aplib::keyword::parse_keywords;
use aplib::master::Master;
use aplib::plutils::{Dictionary, Value};
use aplib::version::Version;
use aplib::xmp::{ToXmp, Xmp, NS_DC, NS_EXIF};
use aplib::PlistLoadable;

fn album_plist() -> Value {
    let mut info = Dictionary::new();
    info.insert("uuid", Value::Str("gOnttfpzQoOxcwLpFS9DQg".to_string()));
    info.insert("folderUuid", Value::Str("TopLevelAlbums".to_string()));
    info.insert("modelId", Value::Int(601));
    info.insert("albumSubclass", Value::Int(1));
    info.insert("albumType", Value::Int(1));
    info.insert("version", Value::Int(110));
    info.insert("sortAscending", Value::Boolean(true));
    info.insert(
        "sortKeyPath",
        Value::Str("exifProperties.ImageDate".to_string()),
    );
    let mut dict = Dictionary::new();
    dict.insert("InfoDictionary", Value::Dict(info));
    Value::Dict(dict)
}

#[test]
fn test_album_parse() {
    let mut report = Report::new();
    let album = Album::from_plist(&album_plist(), &mut report);
    assert!(album.is_some());
    let album = album.unwrap();

    assert_eq!(album.uuid.as_ref().unwrap(), "gOnttfpzQoOxcwLpFS9DQg");
    assert_eq!(album.folder_uuid.as_ref().unwrap(), "TopLevelAlbums");
    assert_eq!(album.model_id.unwrap(), 601);
    assert_eq!(*album.subclass.as_ref().unwrap(), Subclass::Implicit);
    assert_eq!(album.album_type.unwrap(), 1);
    assert!(album.query_folder_uuid.is_none());
    assert_eq!(album.db_version.unwrap(), 110);
    assert!(album.sort_asc.unwrap());
    assert_eq!(album.sort_key.as_ref().unwrap(), "exifProperties.ImageDate");
    assert!(album.name.is_none());
}

#[test]
fn test_album_content_parse() {
    let mut info = Dictionary::new();
    info.insert("uuid", Value::Str("x6yNun58SB2sImfCarTJHA".to_string()));
    info.insert("folderUuid", Value::Str("TopLevelAlbums".to_string()));
    info.insert("modelId", Value::Int(181));
    info.insert("albumSubclass", Value::Int(3));
    info.insert("albumType", Value::Int(1));
    info.insert("version", Value::Int(110));
    info.insert("sortAscending", Value::Boolean(true));
    info.insert(
        "sortKeyPath",
        Value::Str("exifProperties.ImageDate".to_string()),
    );
    info.insert("name", Value::Str("Flickr".to_string()));
    let mut dict = Dictionary::new();
    dict.insert("InfoDictionary", Value::Dict(info));
    dict.insert(
        "versionUuids",
        Value::Array(vec![Value::Str("BF6nuoBnTumzoXyexdmXlw".to_string())]),
    );

    let mut report = Report::new();
    let album = Album::from_plist(&Value::Dict(dict), &mut report);
    assert!(album.is_some());
    let album = album.unwrap();

    assert_eq!(album.uuid.as_ref().unwrap(), "x6yNun58SB2sImfCarTJHA");
    assert_eq!(album.folder_uuid.as_ref().unwrap(), "TopLevelAlbums");
    assert_eq!(album.model_id.unwrap(), 181);
    assert_eq!(*album.subclass.as_ref().unwrap(), Subclass::User);
    assert_eq!(album.album_type.unwrap(), 1);
    assert!(album.query_folder_uuid.is_none());
    assert_eq!(album.db_version.unwrap(), 110);
    assert!(album.sort_asc.unwrap());
    assert_eq!(album.sort_key.as_ref().unwrap(), "exifProperties.ImageDate");
    assert_eq!(album.name.as_ref().unwrap(), "Flickr");
    assert!(album.content.is_some());
    let content = &album.content.as_ref().unwrap();
    assert_eq!(content.len(), 1);
    assert_eq!(content[0], "BF6nuoBnTumzoXyexdmXlw");
}

#[test]
fn album_content_needs_user_subclass() {
    // The content guard: a present, array-typed versionUuids key loads no
    // content for a non-User album and is skipped as invalid data.
    let mut info = Dictionary::new();
    info.insert("uuid", Value::Str("a1".to_string()));
    info.insert("albumSubclass", Value::Int(2));
    let mut dict = Dictionary::new();
    dict.insert("InfoDictionary", Value::Dict(info));
    dict.insert(
        "versionUuids",
        Value::Array(vec![Value::Str("v1".to_string())]),
    );

    let mut report = Report::new();
    let album = Album::from_plist(&Value::Dict(dict), &mut report).unwrap();
    assert_eq!(*album.subclass.as_ref().unwrap(), Subclass::Smart);
    assert!(album.content.is_none());
    assert_eq!(
        report.get_skipped().get("versionUuids"),
        Some(&SkipReason::InvalidData)
    );
}

#[test]
fn enum_decoding_is_total() {
    // Out-of-range codes map to the Invalid variant, never an error.
    assert_eq!(Subclass::from_int(0), Subclass::Invalid);
    assert_eq!(Subclass::from_int(99), Subclass::Invalid);
    assert_eq!(Subclass::from_int(-1), Subclass::Invalid);
    assert_eq!(Type::from(0), Type::Invalid);
    assert_eq!(Type::from(77), Type::Invalid);
    assert_eq!(Type::from(-3), Type::Invalid);

    let mut dict = Dictionary::new();
    dict.insert("uuid", Value::Str("f1".to_string()));
    dict.insert("folderType", Value::Int(7));
    let mut report = Report::new();
    let folder = Folder::from_plist(&Value::Dict(dict), &mut report).unwrap();
    assert_eq!(*folder.folder_type.as_ref().unwrap(), Type::Invalid);
}

#[test]
fn test_folder_parse() {
    let mut dict = Dictionary::new();
    dict.insert("uuid", Value::Str("a%TX9lmjQVWvuK9u6RNhGQ".to_string()));
    dict.insert("parentFolderUuid", Value::Str("AllProjectsItem".to_string()));
    dict.insert("modelId", Value::Int(333));
    dict.insert("folderType", Value::Int(1));
    dict.insert("version", Value::Int(110));
    dict.insert("folderPath", Value::Str("1/3/333/".to_string()));
    dict.insert("name", Value::Str("2011".to_string()));
    dict.insert(
        "implicitAlbumUuid",
        Value::Str("J0+f3AmESPer4GHGv4BgAQ".to_string()),
    );

    let mut report = Report::new();
    let folder = Folder::from_plist(&Value::Dict(dict), &mut report);
    assert!(folder.is_some());
    let folder = folder.unwrap();

    assert_eq!(folder.uuid.as_ref().unwrap(), "a%TX9lmjQVWvuK9u6RNhGQ");
    assert_eq!(folder.parent_uuid.as_ref().unwrap(), "AllProjectsItem");
    assert_eq!(folder.model_id.unwrap(), 333);
    assert_eq!(*folder.folder_type.as_ref().unwrap(), Type::Folder);
    assert_eq!(folder.db_version.unwrap(), 110);
    assert!(folder.project_version.is_none());
    assert_eq!(folder.path.as_ref().unwrap(), "1/3/333/");
    assert_eq!(folder.name.as_ref().unwrap(), "2011");
    assert_eq!(
        folder.implicit_album_uuid.as_ref().unwrap(),
        "J0+f3AmESPer4GHGv4BgAQ"
    );
}

#[test]
fn folder_absent_project_version_stays_absent() {
    // Absence is data: a missing projectVersion reads back as None while
    // an explicit zero reads back as zero.
    let mut dict = Dictionary::new();
    dict.insert("uuid", Value::Str("f2".to_string()));
    let mut report = Report::new();
    let folder = Folder::from_plist(&Value::Dict(dict), &mut report).unwrap();
    assert!(folder.project_version.is_none());
    assert_eq!(
        report.get_skipped().get("projectVersion"),
        Some(&SkipReason::NotFound)
    );

    let mut dict = Dictionary::new();
    dict.insert("uuid", Value::Str("f3".to_string()));
    dict.insert("projectVersion", Value::Int(0));
    let mut report = Report::new();
    let folder = Folder::from_plist(&Value::Dict(dict), &mut report).unwrap();
    assert_eq!(folder.project_version, Some(0));
}

#[test]
fn test_master_parse() {
    let mut dict = Dictionary::new();
    dict.insert("uuid", Value::Str("JpLq7STrRMmgm5YZTm6IzA".to_string()));
    dict.insert("projectUuid", Value::Str("evHgvM2oQ3GR0j6gEMnNTQ".to_string()));
    dict.insert(
        "originalVersionUuid",
        Value::Str("VF%CkiTKQy+h53Oyr7KCOA".to_string()),
    );
    dict.insert(
        "colorSpaceName",
        Value::Str("kCGColorSpaceGenericHDR".to_string()),
    );
    dict.insert("fileIsReference", Value::Boolean(true));
    dict.insert("fileName", Value::Str("img_8826.cr2".to_string()));
    dict.insert("type", Value::Str("IMGT".to_string()));
    dict.insert("subtype", Value::Str("RAWST".to_string()));

    let mut report = Report::new();
    let master = Master::from_plist(&Value::Dict(dict), &mut report);
    assert!(master.is_some());
    let master = master.unwrap();

    assert_eq!(master.uuid.as_ref().unwrap(), "JpLq7STrRMmgm5YZTm6IzA");
    assert_eq!(master.project_uuid.as_ref().unwrap(), "evHgvM2oQ3GR0j6gEMnNTQ");
    assert_eq!(
        master.original_version_uuid.as_ref().unwrap(),
        "VF%CkiTKQy+h53Oyr7KCOA"
    );
    assert_eq!(
        master.color_space_name.as_ref().unwrap(),
        "kCGColorSpaceGenericHDR"
    );
    assert!(master.is_reference.unwrap());
    assert_eq!(master.filename.as_ref().unwrap(), "img_8826.cr2");
    assert_eq!(master.master_type.as_ref().unwrap(), "IMGT");
    assert_eq!(master.subtype.as_ref().unwrap(), "RAWST");
}

#[test]
fn test_version_parse() {
    let mut iptc = Dictionary::new();
    iptc.insert("Byline", Value::Str("Hubert Figuiere".to_string()));
    iptc.insert("CiAdrCity", Value::Str("Montreal".to_string()));
    let mut exif = Dictionary::new();
    exif.insert("ApertureValue", Value::Int(4));
    exif.insert("Depth", Value::Int(8));
    let mut dict = Dictionary::new();
    dict.insert("uuid", Value::Str("MHMIbw5CQaiMgQ3n7g2w2A".to_string()));
    dict.insert("isOriginal", Value::Boolean(true));
    dict.insert("masterUuid", Value::Str("WZMCPPRHR%C3nffgeeS4IQ".to_string()));
    dict.insert("name", Value::Str("img_3136".to_string()));
    dict.insert("iptcProperties", Value::Dict(iptc));
    dict.insert("exifProperties", Value::Dict(exif));

    let mut report = Report::new();
    let version = Version::from_plist(&Value::Dict(dict), &mut report);
    assert!(version.is_some());
    let version = version.unwrap();

    assert_eq!(version.uuid.as_ref().unwrap(), "MHMIbw5CQaiMgQ3n7g2w2A");
    assert!(version.is_original.unwrap());
    assert_eq!(version.master_uuid.as_ref().unwrap(), "WZMCPPRHR%C3nffgeeS4IQ");
    assert_eq!(version.name.as_ref().unwrap(), "img_3136");
    assert!(version.iptc.is_some());
    let iptc = version.iptc.as_ref().unwrap();
    assert!(iptc.bag.contains_key("Byline"));
    assert!(iptc.bag.contains_key("CiAdrCity"));
    let exif = version.exif.as_ref().unwrap();
    assert!(exif.bag.contains_key("ApertureValue"));
    assert!(exif.bag.contains_key("Depth"));
    // The pre-registered bookkeeping keys are deliberately ignored.
    assert_eq!(
        report.get_skipped().get("statistics"),
        Some(&SkipReason::Ignore)
    );

    let mut xmp = Xmp::new();
    let result = version.to_xmp(&mut xmp);
    assert!(result);

    let value = xmp.get_property(NS_DC, "creator");
    assert!(value.is_some());
    assert_eq!(value.unwrap(), "Hubert Figuiere");

    let value = xmp.get_property(NS_EXIF, "ApertureValue");
    assert!(value.is_some());
    assert_eq!(value.unwrap(), "4");
}

#[test]
fn keyword_parse_is_idempotent() {
    // Reloading the same document twice yields structurally equal trees.
    let mut child = Dictionary::new();
    child.insert("uuid", Value::Str("kw-2".to_string()));
    child.insert("parentUuid", Value::Str("kw-1".to_string()));
    child.insert("name", Value::Str("beach".to_string()));
    let mut root = Dictionary::new();
    root.insert("uuid", Value::Str("kw-1".to_string()));
    root.insert("name", Value::Str("holiday".to_string()));
    root.insert("modelId", Value::Int(7));
    root.insert("zChildren", Value::Array(vec![Value::Dict(child)]));
    let mut doc = Dictionary::new();
    doc.insert("keywords_version", Value::Int(6));
    doc.insert("keywords", Value::Array(vec![Value::Dict(root)]));
    let doc = Value::Dict(doc);

    let mut r1 = Report::new();
    let first = parse_keywords(&doc, &mut r1).unwrap();
    let mut r2 = Report::new();
    let second = parse_keywords(&doc, &mut r2).unwrap();
    assert_eq!(first, second);

    assert_eq!(first.len(), 1);
    assert_eq!(first[0].uuid.as_ref().unwrap(), "kw-1");
    assert_eq!(first[0].name.as_ref().unwrap(), "holiday");
    assert_eq!(first[0].model_id.unwrap(), 7);
    let children = first[0].children.as_ref().unwrap();
    assert_eq!(children.len(), 1);
    assert_eq!(children[0].uuid.as_ref().unwrap(), "kw-2");
    assert_eq!(children[0].parent_uuid.as_ref().unwrap(), "kw-1");
    assert_eq!(children[0].name.as_ref().unwrap(), "beach");
}

#[test]
fn keyword_version_warning_is_observable() {
    // A version outside the supported pair parses anyway, with a
    // structured InvalidData record instead of a console warning.
    let mut doc = Dictionary::new();
    doc.insert("keywords_version", Value::Int(5));
    doc.insert("keywords", Value::Array(vec![]));
    let mut report = Report::new();
    let parsed = parse_keywords(&Value::Dict(doc), &mut report);
    assert!(parsed.is_some());
    assert_eq!(
        report.get_skipped().get("keywords_version"),
        Some(&SkipReason::InvalidData)
    );

    let mut doc = Dictionary::new();
    doc.insert("keywords_version", Value::Int(7));
    doc.insert("keywords", Value::Array(vec![]));
    let mut report = Report::new();
    let parsed = parse_keywords(&Value::Dict(doc), &mut report);
    assert!(parsed.is_some());
    assert!(report.get_skipped().get("keywords_version").is_none());
}

#[test]
fn loader_rejects_non_dictionary_roots() {
    let mut report = Report::new();
    assert!(Album::from_plist(&Value::Int(1), &mut report).is_none());
    assert!(Folder::from_plist(&Value::Boolean(true), &mut report).is_none());
    assert!(Master::from_plist(&Value::Str("x".to_string()), &mut report).is_none());
    assert!(Version::from_plist(&Value::Array(vec![]), &mut report).is_none());
    assert!(parse_keywords(&Value::Int(0), &mut report).is_none());
}

#[test]
fn folder_notes_are_decoded_and_audited() {
    let mut note = Dictionary::new();
    note.insert("note", Value::Str("shot in the rain".to_string()));
    note.insert("attachedToUuid", Value::Str("f-9".to_string()));
    note.insert("surprise", Value::Int(5));
    let mut dict = Dictionary::new();
    dict.insert("uuid", Value::Str("f-9".to_string()));
    dict.insert(
        "notes",
        Value::Array(vec![Value::Dict(note), Value::Int(3)]),
    );

    let mut report = Report::new();
    let folder = Folder::from_plist(&Value::Dict(dict), &mut report).unwrap();
    let notes = folder.notes.as_ref().unwrap();
    assert_eq!(notes.len(), 1);
    assert_eq!(notes[0].note.as_ref().unwrap(), "shot in the rain");
    assert_eq!(notes[0].attached_to_uuid.as_ref().unwrap(), "f-9");
    assert!(notes[0].uuid.is_none());
    // The non-dictionary element is skipped by position; the unknown key
    // of the note lands in the ignored set under the notes namespace.
    assert_eq!(
        report.get_skipped().get("notes[1]"),
        Some(&SkipReason::InvalidType)
    );
    assert!(report.get_ignored().contains("notes.surprise"));
}

#[test]
fn typed_date_and_data_accessors_are_exact() {
    let stamp = aplib::plutils::PlistDate {
        seconds: 1323613405,
        nanos: 500,
    };
    let mut dict = Dictionary::new();
    dict.insert("when", Value::Date(stamp));
    dict.insert("blob", Value::Data(vec![202, 254]));
    assert_eq!(aplib::plutils::get_date_value(&dict, "when"), Some(stamp));
    assert_eq!(aplib::plutils::get_data_value(&dict, "blob"), Some(vec![202, 254]));
    assert!(aplib::plutils::get_date_value(&dict, "blob").is_none());
    assert!(aplib::plutils::get_data_value(&dict, "when").is_none());
    assert!(aplib::plutils::get_date_value(&dict, "gone").is_none());
}
