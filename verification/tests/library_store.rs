/*
 This Source Code Form is subject to the terms of the Mozilla Public
 License, v. 2.0. If a copy of the MPL was not distributed with this
 file, You can obtain one at http://mozilla.org/MPL/2.0/.
*/

//! The library orchestration: store, identity check and audit reporting.

use aplib::audit::{Report, Reporter, SkipReason};
use aplib::library::{Library, ModelInfo, BUNDLE_IDENTIFIER, KEYWORDS_PLIST};
use aplib::plutils::{get_str_value, Dictionary, Value};
use aplib::audit::audit_get_str_value;
use aplib::{AplibObject, AplibType, PlistLoadable, StoreWrapper};

fn info_plist(version: Option<&str>, bundle: Option<&str>) -> Value {
    let mut dict = Dictionary::new();
    if let Some(v) = version {
        dict.insert("CFBundleShortVersionString", Value::Str(v.to_string()));
    }
    if let Some(b) = bundle {
        dict.insert("CFBundleIdentifier", Value::Str(b.to_string()));
    }
    dict.insert("CFBundleName", Value::Str("Aperture".to_string()));
    Value::Dict(dict)
}

#[test]
fn library_version_accepts_the_bundle() {
    let mut library = Library::new();
    library.set_auditor(Some(Reporter::new()));
    let plist = info_plist(Some("3.4.5"), Some(BUNDLE_IDENTIFIER));
    {
        let version = library.library_version(&plist, "Info.plist");
        assert_eq!(version.unwrap(), "3.4.5");
    }
    // The info document's report is filed, with the unknown key ignored.
    let auditor = library.auditor().unwrap();
    assert_eq!(auditor.parsed_count(), 1);
    let report = auditor.get_parsed().get("Info.plist").unwrap();
    assert!(report.get_parsed().contains("CFBundleShortVersionString"));
    assert!(report.get_parsed().contains("CFBundleIdentifier"));
    assert!(report.get_ignored().contains("CFBundleName"));
}

#[test]
fn library_version_rejects_foreign_bundles() {
    let mut library = Library::new();
    let plist = info_plist(Some("3.4.5"), Some("com.example.other"));
    let result = library.library_version(&plist, "Info.plist");
    assert_eq!(result.unwrap_err(), SkipReason::InvalidData);

    let mut library = Library::new();
    let plist = info_plist(Some("3.4.5"), None);
    let result = library.library_version(&plist, "Info.plist");
    assert_eq!(result.unwrap_err(), SkipReason::NotFound);

    let mut library = Library::new();
    let plist = info_plist(None, Some(BUNDLE_IDENTIFIER));
    let result = library.library_version(&plist, "Info.plist");
    assert_eq!(result.unwrap_err(), SkipReason::NotFound);
}

#[test]
fn audited_accessor_records_missing_keys() {
    // A missing key reads as None and records a NotFound skip — never a
    // default value.
    let mut dict = Dictionary::new();
    dict.insert("present", Value::Str("here".to_string()));
    let mut report = Report::new();
    let value = audit_get_str_value(&dict, "absent", &mut report);
    assert!(value.is_none());
    assert_eq!(
        report.get_skipped().get("absent"),
        Some(&SkipReason::NotFound)
    );
    assert!(!report.get_parsed().contains("absent"));

    let value = audit_get_str_value(&dict, "present", &mut report);
    assert_eq!(value.unwrap(), "here");
    assert!(report.get_parsed().contains("present"));
}

#[test]
fn audit_ignored_partitions_the_source_keys() {
    // parsed, skipped and ignored together cover the dictionary exactly.
    let mut dict = Dictionary::new();
    dict.insert("a", Value::Str("1".to_string()));
    dict.insert("b", Value::Int(2));
    dict.insert("c", Value::Boolean(true));
    let mut report = Report::new();
    let a = audit_get_str_value(&dict, "a", &mut report);
    assert!(a.is_some());
    report.skip("b", SkipReason::Ignore);
    report.audit_ignored(&dict, None);

    assert!(report.get_parsed().contains("a"));
    assert_eq!(report.get_skipped().get("b"), Some(&SkipReason::Ignore));
    assert!(report.get_ignored().contains("c"));
    assert!(!report.get_ignored().contains("a"));
    assert!(!report.get_ignored().contains("b"));
    assert_eq!(report.parsed_count(), 1);
    assert_eq!(report.skipped_count(), 1);
    assert_eq!(report.ignored_count(), 1);
}

#[test]
fn audit_ignored_prefixes_namespaced_keys() {
    let mut dict = Dictionary::new();
    dict.insert("someCache", Value::Int(1));
    let mut report = Report::new();
    report.audit_ignored(&dict, Some("customInfo"));
    assert!(report.get_ignored().contains("customInfo.someCache"));
}

#[test]
fn store_keys_objects_by_uuid() {
    let mut library = Library::new();
    let mut dict = Dictionary::new();
    dict.insert("uuid", Value::Str("f-1".to_string()));
    dict.insert("name", Value::Str("2011".to_string()));
    assert!(library.load_folder(&Value::Dict(dict), "Folders/f-1.apfolder"));
    assert!(library.folders().contains("f-1"));

    match library.get("f-1") {
        Some(aplib::StoreWrapper::Folder(folder)) => {
            assert_eq!(folder.name.as_ref().unwrap(), "2011");
        }
        _ => panic!("folder not stored"),
    }
    assert!(library.get("f-2").is_none());
}

#[test]
fn failed_documents_are_reported() {
    let mut library = Library::new();
    library.set_auditor(Some(Reporter::new()));
    assert!(!library.load_album(&Value::Int(3), "Albums/bad.apalbum"));
    let auditor = library.auditor().unwrap();
    assert_eq!(
        auditor.get_skipped().get("Albums/bad.apalbum"),
        Some(&SkipReason::ParseFailed)
    );
}

#[test]
fn resolve_master_path_prefers_the_volume() {
    let mut library = Library::new();

    let mut master = Dictionary::new();
    master.insert("uuid", Value::Str("m-1".to_string()));
    master.insert("imagePath", Value::Str("2011/img_0001.cr2".to_string()));
    master.insert("fileVolumeUuid", Value::Str("vol-1".to_string()));
    assert!(library.load_master(&Value::Dict(master), "m-1.apmaster"));

    // The referenced volume is not stored yet.
    assert!(library.resolve_master_path("m-1").is_none());

    assert!(library.load_volume_row(
        Some(9),
        Some("vol-1".to_string()),
        Some("Backup".to_string()),
        Some("disk-1".to_string()),
    ));
    assert_eq!(
        library.resolve_master_path("m-1").unwrap(),
        "/Volumes/Backup/2011/img_0001.cr2"
    );

    let mut master = Dictionary::new();
    master.insert("uuid", Value::Str("m-2".to_string()));
    master.insert("imagePath", Value::Str("2011/img_0002.cr2".to_string()));
    assert!(library.load_master(&Value::Dict(master), "m-2.apmaster"));
    assert_eq!(
        library.resolve_master_path("m-2").unwrap(),
        "Masters/2011/img_0002.cr2"
    );
}

#[test]
fn list_keywords_files_its_report() {
    let mut library = Library::new();
    library.set_auditor(Some(Reporter::new()));
    let mut kw = Dictionary::new();
    kw.insert("uuid", Value::Str("kw-1".to_string()));
    kw.insert("name", Value::Str("holiday".to_string()));
    let mut doc = Dictionary::new();
    doc.insert("keywords_version", Value::Int(7));
    doc.insert("keywords", Value::Array(vec![Value::Dict(kw)]));

    let keywords = library.list_keywords(&Value::Dict(doc)).unwrap();
    assert_eq!(keywords.len(), 1);
    let auditor = library.auditor().unwrap();
    assert!(auditor.get_parsed().get(KEYWORDS_PLIST).is_some());

    let none = library.list_keywords(&Value::Int(1));
    assert!(none.is_none());
    let auditor = library.auditor().unwrap();
    assert_eq!(
        auditor.get_skipped().get(KEYWORDS_PLIST),
        Some(&SkipReason::ParseFailed)
    );
}

#[test]
fn model_info_reads_the_data_model_document() {
    let mut dict = Dictionary::new();
    dict.insert("DatabaseVersion", Value::Int(110));
    dict.insert("DatabaseMinorVersion", Value::Int(122));
    dict.insert("masterCount", Value::Int(2));
    dict.insert("databaseUuid", Value::Str("db-1".to_string()));
    let info = ModelInfo::parse(&Value::Dict(dict)).unwrap();
    assert_eq!(info.db_version, Some(110));
    assert_eq!(info.db_minor_version, Some(122));
    assert_eq!(info.master_count, Some(2));
    assert_eq!(info.db_uuid.as_ref().unwrap(), "db-1");
    assert!(info.project_version.is_none());
    assert!(ModelInfo::parse(&Value::Int(2)).is_none());
}

#[test]
fn typed_accessors_do_not_coerce() {
    let mut dict = Dictionary::new();
    dict.insert("number", Value::Int(42));
    assert!(get_str_value(&dict, "number").is_none());
    assert_eq!(aplib::plutils::get_int_value(&dict, "number"), Some(42));
    assert_eq!(aplib::plutils::get_uint_value(&dict, "number"), Some(42));
    dict.insert("negative", Value::Int(-1));
    assert!(aplib::plutils::get_uint_value(&dict, "negative").is_none());
    assert!(aplib::plutils::get_bool_value(&dict, "number").is_none());
}

#[test]
fn duplicated_values_compare_equal() {
    let mut inner = Dictionary::new();
    inner.insert("k", Value::Str("v".to_string()));
    let tree = Value::Array(vec![
        Value::Int(1),
        Value::Dict(inner),
        Value::Data(vec![1, 2, 3]),
    ]);
    let copy = tree.duplicate();
    assert_eq!(copy, tree);
}

#[test]
fn wrapped_objects_expose_uuid_and_parent() {
    let mut dict = Dictionary::new();
    dict.insert("uuid", Value::Str("al-1".to_string()));
    let mut outer = Dictionary::new();
    outer.insert("InfoDictionary", Value::Dict(dict));
    let mut report = Report::new();
    let album =
        aplib::Album::from_plist(&Value::Dict(outer), &mut report).unwrap();
    assert!(album.is_valid());
    assert_eq!(album.obj_type(), AplibType::Album);
    assert_eq!(album.uuid().as_ref().unwrap(), "al-1");
    assert!(album.parent().is_none());
    // no modelId in the source: the accessor defaults to zero
    assert_eq!(album.model_id(), 0);

    let wrapped = aplib::Album::wrap(album);
    assert_eq!(wrapped.uuid().unwrap(), "al-1");
    assert!(wrapped.parent_uuid().is_none());
}

#[test]
fn resolve_master_path_needs_an_image_path() {
    let mut library = Library::new();
    let mut master = Dictionary::new();
    master.insert("uuid", Value::Str("m-3".to_string()));
    assert!(library.load_master(&Value::Dict(master), "m-3.apmaster"));
    assert!(library.resolve_master_path("m-3").is_none());
    assert!(library.resolve_master_path("missing").is_none());
}

#[test]
fn store_reports_whether_the_uuid_was_new() {
    let volume = aplib::volume::Volume::from_row_values(
        Some(1),
        Some("v-1".to_string()),
        Some("Backup".to_string()),
        None,
    );
    let mut library = Library::new();
    assert!(library.store(aplib::volume::Volume::wrap(volume)));
    let volume = aplib::volume::Volume::from_row_values(
        Some(2),
        Some("v-1".to_string()),
        Some("Newer".to_string()),
        None,
    );
    // the same uuid again: replaced, and reported as not new
    assert!(!library.store(aplib::volume::Volume::wrap(volume)));
    match library.get("v-1") {
        Some(StoreWrapper::Volume(v)) => {
            assert_eq!(v.volume_name.as_ref().unwrap(), "Newer");
            assert_eq!(v.model_id, Some(2));
        }
        _ => panic!("volume not stored"),
    }
    // an object without a uuid is not stored
    let nameless = aplib::volume::Volume::from_row_values(None, None, None, None);
    assert!(!library.store(aplib::volume::Volume::wrap(nameless)));
}

#[test]
fn library_version_is_cached_after_the_first_check() {
    // A later call returns the stored version whatever document it sees.
    let mut library = Library::new();
    let plist = info_plist(Some("3.4.5"), Some(BUNDLE_IDENTIFIER));
    assert_eq!(
        library.library_version(&plist, "Info.plist").unwrap(),
        "3.4.5"
    );
    let other = info_plist(Some("9.9.9"), Some("com.example.other"));
    assert_eq!(
        library.library_version(&other, "Info.plist").unwrap(),
        "3.4.5"
    );
}
