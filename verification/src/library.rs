/*
 This Source Code Form is subject to the terms of the Mozilla Public
 License, v. 2.0. If a copy of the MPL was not distributed with this
 file, You can obtain one at http://mozilla.org/MPL/2.0/.
*/

//! Library orchestration: the UUID-keyed object store, the bundle
//! identity check, and the per-document loading steps.
//!
//! Walking the bundle's directories and reading its files happens outside
//! this crate: the caller lists the documents, parses each into a plist
//! value, and hands every value here with a label (the file's path) for
//! the audit reporter. One call per document loads the record, stores it
//! under its uuid, and files or records the audit outcome, exactly as the
//! per-kind contracts state.

use vstd::prelude::*;

use crate::album::{album_audit, album_fields_match, Album};
use crate::audit::{step_get, step_ignored, step_skip, AuditView, Report, Reporter, SkipReason};
use crate::collections::{KvMap, StrSet};
use crate::folder::{folder_audit, folder_fields_match, Folder};
use crate::keyword::{keywords_match_seq, keywords_plist_audit, parse_keywords, Keyword};
use crate::master::{master_audit, master_fields_match, Master};
use crate::plutils::{get_bool_value, get_int_value, get_str_value, lookup_array, lookup_bool,
    lookup_dict, lookup_int, lookup_str, Dictionary, Value};
use crate::store::Wrapper;
use crate::strutil::str_eq;
use crate::version::{version_audit, version_fields_match, Version};
use crate::volume::{volume_audit, volume_fields_match, Volume};
use crate::{AplibObject, PlistLoadable};

verus! {

/// The bundle identifier an Aperture library's `Info.plist` must carry.
pub const BUNDLE_IDENTIFIER: &'static str = "com.apple.Aperture.library";

/// The name the keywords document's report is filed under.
pub const KEYWORDS_PLIST: &'static str = "Keywords.plist";

/// Info of the library data model.
#[derive(Debug)]
pub struct ModelInfo {
    pub is_iphoto_library: Option<bool>,
    pub db_version: Option<i64>,
    pub db_minor_back_compatible_version: Option<i64>,
    pub db_minor_version: Option<i64>,
    pub db_uuid: Option<String>,
    pub create_date: Option<String>,
    pub image_io_version: Option<String>,
    pub raw_camera_bundle_version: Option<String>,
    pub touched_by_aperture: Option<bool>,
    pub master_count: Option<i64>,
    pub version_count: Option<i64>,
    pub project_compat_back_to_version: Option<i64>,
    pub project_version: Option<i64>,
}

/// Whether `m` holds exactly the typed fields of `d`.
pub open spec fn model_info_fields_match(m: ModelInfo, d: Dictionary) -> bool {
    &&& m.db_uuid == lookup_str(d, "databaseUuid"@)
    &&& m.db_minor_back_compatible_version == lookup_int(
        d,
        "DatabaseCompatibleBackToMinorVersion"@,
    )
    &&& m.db_minor_version == lookup_int(d, "DatabaseMinorVersion"@)
    &&& m.db_version == lookup_int(d, "DatabaseVersion"@)
    &&& m.is_iphoto_library == lookup_bool(d, "isIPhotoLibrary"@)
    &&& m.create_date == lookup_str(d, "createDate"@)
    &&& m.image_io_version == lookup_str(d, "imageIOVersion"@)
    &&& m.raw_camera_bundle_version == lookup_str(d, "rawCameraBundleVersion"@)
    &&& m.touched_by_aperture == lookup_bool(d, "touchedByAperture"@)
    &&& m.master_count == lookup_int(d, "masterCount"@)
    &&& m.version_count == lookup_int(d, "versionCount"@)
    &&& m.project_version == lookup_int(d, "projectVersion"@)
    &&& m.project_compat_back_to_version == lookup_int(d, "projectCompatibleBackToVersion"@)
}

impl ModelInfo {
    /// Parse the model info block out of the root value of the data-model
    /// version document. `None` exactly when the root is not a
    /// dictionary. This document is not audited.
    pub fn parse(plist: &Value) -> (r: Option<ModelInfo>)
        ensures
            match (plist, r) {
                (Value::Dict(d), Some(m)) => model_info_fields_match(m, *d),
                (Value::Dict(d), None) => false,
                (_, None) => true,
                _ => false,
            },
    {
        match plist {
            Value::Dict(dict) => Some(
                ModelInfo {
                    db_uuid: get_str_value(dict, "databaseUuid"),
                    db_minor_back_compatible_version: get_int_value(
                        dict,
                        "DatabaseCompatibleBackToMinorVersion",
                    ),
                    db_minor_version: get_int_value(dict, "DatabaseMinorVersion"),
                    db_version: get_int_value(dict, "DatabaseVersion"),
                    is_iphoto_library: get_bool_value(dict, "isIPhotoLibrary"),
                    create_date: get_str_value(dict, "createDate"),
                    image_io_version: get_str_value(dict, "imageIOVersion"),
                    raw_camera_bundle_version: get_str_value(dict, "rawCameraBundleVersion"),
                    touched_by_aperture: get_bool_value(dict, "touchedByAperture"),
                    master_count: get_int_value(dict, "masterCount"),
                    version_count: get_int_value(dict, "versionCount"),
                    project_version: get_int_value(dict, "projectVersion"),
                    project_compat_back_to_version: get_int_value(
                        dict,
                        "projectCompatibleBackToVersion",
                    ),
                },
            ),
            _ => None,
        }
    }
}

/// The audit trail of the bundle identity check on a well-formed info
/// dictionary: the version string and the identifier fetched, and a
/// present-but-wrong identifier additionally skipped as `InvalidData`,
/// then the rest of the dictionary marked ignored.
pub open spec fn library_version_audit(v: AuditView, d: Dictionary) -> AuditView {
    let v1 = step_get(
        v,
        "CFBundleShortVersionString"@,
        lookup_str(d, "CFBundleShortVersionString"@) is Some,
    );
    let v2 = step_get(v1, "CFBundleIdentifier"@, lookup_str(d, "CFBundleIdentifier"@) is Some);
    match lookup_str(d, "CFBundleIdentifier"@) {
        Some(id) => if id@ == BUNDLE_IDENTIFIER@ {
            step_ignored(v2, d, None)
        } else {
            step_skip(v2, "CFBundleIdentifier"@, SkipReason::InvalidData)
        },
        None => step_skip(v2, "CFBundleIdentifier"@, SkipReason::NotFound),
    }
}

/// Whether the info dictionary passes the bundle identity check: it names
/// a version string and carries the Aperture bundle identifier.
pub open spec fn library_version_ok(d: Dictionary) -> bool {
    &&& lookup_str(d, "CFBundleShortVersionString"@) is Some
    &&& match lookup_str(d, "CFBundleIdentifier"@) {
        Some(id) => id@ == BUNDLE_IDENTIFIER@,
        None => false,
    }
}

/// Library is the Aperture library: the UUID-keyed store of the loaded
/// records, the uuids loaded per kind, the bundle version once checked,
/// and the optional audit reporter.
#[derive(Debug)]
pub struct Library {
    /// The bundle's version string, empty until checked.
    version: String,
    /// All the folder uuids.
    folders: StrSet,
    /// All the album uuids.
    albums: StrSet,
    /// All the master uuids.
    masters: StrSet,
    /// All the version uuids.
    versions: StrSet,
    /// All the volume uuids.
    volumes: StrSet,
    /// The object store. The key is the uuid.
    objects: KvMap<Wrapper>,
    /// Auditor for the audit mode.
    auditor: Option<Reporter>,
}

impl Library {
    /// The bundle version string, as checked so far.
    pub closed spec fn version_view(self) -> Seq<char> {
        self.version@
    }

    /// The folder uuids loaded so far.
    pub closed spec fn folders_set(self) -> Set<Seq<char>> {
        self.folders.set_view()
    }

    /// The album uuids loaded so far.
    pub closed spec fn albums_set(self) -> Set<Seq<char>> {
        self.albums.set_view()
    }

    /// The master uuids loaded so far.
    pub closed spec fn masters_set(self) -> Set<Seq<char>> {
        self.masters.set_view()
    }

    /// The version uuids loaded so far.
    pub closed spec fn versions_set(self) -> Set<Seq<char>> {
        self.versions.set_view()
    }

    /// The volume uuids loaded so far.
    pub closed spec fn volumes_set(self) -> Set<Seq<char>> {
        self.volumes.set_view()
    }

    /// The object store.
    pub closed spec fn objects_map(self) -> Map<Seq<char>, Wrapper> {
        self.objects.map_view()
    }

    /// The audit reporter, when auditing.
    pub closed spec fn spec_auditor(self) -> Option<Reporter> {
        self.auditor
    }

    /// A new, empty library.
    pub fn new() -> (lib: Library)
        ensures
            lib.version_view() == Seq::<char>::empty(),
            lib.folders_set() == Set::<Seq<char>>::empty(),
            lib.albums_set() == Set::<Seq<char>>::empty(),
            lib.masters_set() == Set::<Seq<char>>::empty(),
            lib.versions_set() == Set::<Seq<char>>::empty(),
            lib.volumes_set() == Set::<Seq<char>>::empty(),
            lib.objects_map() == Map::<Seq<char>, Wrapper>::empty(),
            lib.spec_auditor() is None,
    {
        Library {
            version: String::new(),
            folders: StrSet::new(),
            albums: StrSet::new(),
            masters: StrSet::new(),
            versions: StrSet::new(),
            volumes: StrSet::new(),
            objects: KvMap::new(),
            auditor: None,
        }
    }

    /// Set an auditor.
    pub fn set_auditor(&mut self, auditor: Option<Reporter>)
        ensures
            final(self).spec_auditor() == auditor,
            final(self).version_view() == old(self).version_view(),
            final(self).objects_map() == old(self).objects_map(),
            final(self).folders_set() == old(self).folders_set(),
            final(self).albums_set() == old(self).albums_set(),
            final(self).masters_set() == old(self).masters_set(),
            final(self).versions_set() == old(self).versions_set(),
            final(self).volumes_set() == old(self).volumes_set(),
    {
        self.auditor = auditor;
    }

    /// Get the auditor.
    pub fn auditor(&self) -> (r: Option<&Reporter>)
        ensures
            match r {
                Some(a) => self.spec_auditor() == Some(*a),
                None => self.spec_auditor() is None,
            },
    {
        self.auditor.as_ref()
    }

    /// Store the wrapped object. Returns whether no object with the same
    /// uuid was stored before; an object without a uuid is not stored, and
    /// one with a uuid always lands in the store, replacing its
    /// predecessor.
    pub fn store(&mut self, obj: Wrapper) -> (r: bool)
        ensures
            match obj.spec_uuid() {
                Some(u) => final(self).objects_map() == old(self).objects_map().insert(u@, obj)
                    && r == !old(self).objects_map().dom().contains(u@),
                None => final(self).objects_map() == old(self).objects_map() && !r,
            },
            final(self).version_view() == old(self).version_view(),
            final(self).spec_auditor() == old(self).spec_auditor(),
            final(self).folders_set() == old(self).folders_set(),
            final(self).albums_set() == old(self).albums_set(),
            final(self).masters_set() == old(self).masters_set(),
            final(self).versions_set() == old(self).versions_set(),
            final(self).volumes_set() == old(self).volumes_set(),
    {
        match obj.uuid() {
            Some(uuid_str) => {
                let fresh = !self.objects.contains_key(uuid_str.as_str());
                self.objects.insert(uuid_str.as_str(), obj);
                fresh
            },
            None => false,
        }
    }

    /// Get an object out of the store by uuid.
    pub fn get(&self, uuid: &str) -> (r: Option<&Wrapper>)
        ensures
            match r {
                Some(w) => self.objects_map().dom().contains(uuid@) && self.objects_map()[uuid@]
                    == *w,
                None => !self.objects_map().dom().contains(uuid@),
            },
    {
        self.objects.get(uuid)
    }

    /// Get the library version, checking the bundle identity on the way.
    /// `info_plist` is the parsed root of the bundle's info document and
    /// `path_label` the name its report is filed under. The check runs
    /// once: a version already checked is returned as it is. A missing
    /// version string or a missing or foreign bundle identifier is a
    /// failure of the whole library-open, reported as the skip reason.
    pub fn library_version(&mut self, info_plist: &Value, path_label: &str) -> (r: Result<
        &String,
        SkipReason,
    >)
        ensures
            final(self).objects_map() == old(self).objects_map(),
            final(self).folders_set() == old(self).folders_set(),
            final(self).albums_set() == old(self).albums_set(),
            final(self).masters_set() == old(self).masters_set(),
            final(self).versions_set() == old(self).versions_set(),
            final(self).volumes_set() == old(self).volumes_set(),
            r matches Ok(v) ==> v@ == final(self).version_view(),
            old(self).version_view().len() > 0 ==> r is Ok && final(self).version_view() == old(self).version_view() && final(self).spec_auditor() == old(self).spec_auditor(),
            old(self).version_view().len() == 0 ==> match info_plist {
                Value::Dict(d) => {
                    &&& library_version_ok(*d) <==> r is Ok
                    &&& r matches Ok(v) ==> Some(final(self).version_view()) == match lookup_str(
                        *d,
                        "CFBundleShortVersionString"@,
                    ) {
                        Some(s) => Some(s@),
                        None => None,
                    } && v@ == final(self).version_view() && auditor_filed(
                        old(self).spec_auditor(),
                        final(self).spec_auditor(),
                        path_label@,
                        library_version_audit(empty_audit(), *d),
                    )
                    &&& r matches Err(e) ==> final(self).version_view() == old(self).version_view() && final(self).spec_auditor() == old(self).spec_auditor() && e
                        == (match lookup_str(*d, "CFBundleShortVersionString"@) {
                        Some(_) => match lookup_str(*d, "CFBundleIdentifier"@) {
                            Some(_) => SkipReason::InvalidData,
                            None => SkipReason::NotFound,
                        },
                        None => SkipReason::NotFound,
                    })
                },
                _ => r is Ok && final(self).version_view() == old(self).version_view()
                    && auditor_skipped(
                    old(self).spec_auditor(),
                    final(self).spec_auditor(),
                    path_label@,
                    SkipReason::InvalidType,
                ),
            },
    {
        if !self.version.as_str().is_empty() {
            return Ok(&self.version);
        }
        match info_plist {
            Value::Dict(dict) => {
                let mut report = Report::new();
                let version = crate::audit::audit_get_str_value(
                    dict,
                    "CFBundleShortVersionString",
                    &mut report,
                );
                let version = match version {
                    Some(v) => v,
                    None => {
                        return Err(SkipReason::NotFound);
                    },
                };
                let bundle_id = crate::audit::audit_get_str_value(
                    dict,
                    "CFBundleIdentifier",
                    &mut report,
                );
                match bundle_id {
                    Some(id) => {
                        if !str_eq(id.as_str(), BUNDLE_IDENTIFIER) {
                            report.skip("CFBundleIdentifier", SkipReason::InvalidData);
                            return Err(SkipReason::InvalidData);
                        }
                    },
                    None => {
                        report.skip("CFBundleIdentifier", SkipReason::NotFound);
                        return Err(SkipReason::NotFound);
                    },
                }
                self.version = version;
                report.audit_ignored(dict, None);
                if let Some(auditor) = &mut self.auditor {
                    auditor.parsed(path_label, report);
                }
                Ok(&self.version)
            },
            _ => {
                if let Some(auditor) = &mut self.auditor {
                    auditor.skip(path_label, SkipReason::InvalidType);
                }
                Ok(&self.version)
            },
        }
    }

    /// Get albums uuids.
    pub fn albums(&self) -> (r: &StrSet)
        ensures
            r.set_view() == self.albums_set(),
    {
        &self.albums
    }

    /// Get folders uuids.
    pub fn folders(&self) -> (r: &StrSet)
        ensures
            r.set_view() == self.folders_set(),
    {
        &self.folders
    }

    /// Return masters uuids.
    pub fn masters(&self) -> (r: &StrSet)
        ensures
            r.set_view() == self.masters_set(),
    {
        &self.masters
    }

    /// Return versions uuids.
    pub fn versions(&self) -> (r: &StrSet)
        ensures
            r.set_view() == self.versions_set(),
    {
        &self.versions
    }

    /// Return volumes uuids.
    pub fn volumes(&self) -> (r: &StrSet)
        ensures
            r.set_view() == self.volumes_set(),
    {
        &self.volumes
    }
}

impl Library {
    /// Load one album document: parse it, store a valid record under its
    /// uuid, and file the audit outcome under `path_label`. Returns
    /// whether a record was stored. A document whose root is no album
    /// dictionary is recorded as a `ParseFailed` skip; a record without a
    /// uuid is dropped without a trace, as its report never reaches the
    /// reporter.
    pub fn load_album(&mut self, plist: &Value, path_label: &str) -> (r: bool)
        ensures
            final(self).version_view() == old(self).version_view(),
            final(self).folders_set() == old(self).folders_set(),
            final(self).masters_set() == old(self).masters_set(),
            final(self).versions_set() == old(self).versions_set(),
            final(self).volumes_set() == old(self).volumes_set(),
            match album_document(*plist) {
                Some((d, info)) => match lookup_str(info, "uuid"@) {
                    Some(u) => {
                        &&& r
                        &&& final(self).albums_set() == old(self).albums_set().insert(u@)
                        &&& final(self).objects_map().dom() == old(self).objects_map().dom().insert(u@)
                        &&& final(self).objects_map()[u@] matches Wrapper::Album(b)
                            && album_fields_match(*b, d, info)
                        &&& forall|k: Seq<char>|
                            k != u@ && old(self).objects_map().dom().contains(k) ==> final(self).objects_map()[k] == old(self).objects_map()[k]
                        &&& auditor_filed(
                            old(self).spec_auditor(),
                            final(self).spec_auditor(),
                            path_label@,
                            album_audit(empty_audit(), d, info),
                        )
                    },
                    None => !r && unchanged_library(*old(self), *final(self)),
                },
                None => !r && final(self).albums_set() == old(self).albums_set() && final(self).objects_map() == old(self).objects_map() && auditor_skipped(
                    old(self).spec_auditor(),
                    final(self).spec_auditor(),
                    path_label@,
                    SkipReason::ParseFailed,
                ),
            },
    {
        let mut report = Report::new();
        match Album::from_plist(plist, &mut report) {
            Some(obj) => {
                let uuid = match &obj.uuid {
                    Some(u) => u.clone(),
                    None => {
                        return false;
                    },
                };
                self.albums.insert(uuid.as_str());
                if let Some(auditor) = &mut self.auditor {
                    auditor.parsed(path_label, report);
                }
                self.store(Album::wrap(obj));
                true
            },
            None => {
                if let Some(auditor) = &mut self.auditor {
                    auditor.skip(path_label, SkipReason::ParseFailed);
                }
                false
            },
        }
    }

    /// Load one folder document; see `load_album` for the protocol.
    pub fn load_folder(&mut self, plist: &Value, path_label: &str) -> (r: bool)
        ensures
            final(self).version_view() == old(self).version_view(),
            final(self).albums_set() == old(self).albums_set(),
            final(self).masters_set() == old(self).masters_set(),
            final(self).versions_set() == old(self).versions_set(),
            final(self).volumes_set() == old(self).volumes_set(),
            match *plist {
                Value::Dict(d) => match lookup_str(d, "uuid"@) {
                    Some(u) => {
                        &&& r
                        &&& final(self).folders_set() == old(self).folders_set().insert(u@)
                        &&& final(self).objects_map().dom() == old(self).objects_map().dom().insert(u@)
                        &&& final(self).objects_map()[u@] matches Wrapper::Folder(b)
                            && folder_fields_match(*b, d)
                        &&& forall|k: Seq<char>|
                            k != u@ && old(self).objects_map().dom().contains(k) ==> final(self).objects_map()[k] == old(self).objects_map()[k]
                        &&& auditor_filed(
                            old(self).spec_auditor(),
                            final(self).spec_auditor(),
                            path_label@,
                            folder_audit(empty_audit(), d),
                        )
                    },
                    None => !r && unchanged_library(*old(self), *final(self)),
                },
                _ => !r && final(self).folders_set() == old(self).folders_set() && final(self).objects_map() == old(self).objects_map() && auditor_skipped(
                    old(self).spec_auditor(),
                    final(self).spec_auditor(),
                    path_label@,
                    SkipReason::ParseFailed,
                ),
            },
    {
        let mut report = Report::new();
        match Folder::from_plist(plist, &mut report) {
            Some(obj) => {
                let uuid = match &obj.uuid {
                    Some(u) => u.clone(),
                    None => {
                        return false;
                    },
                };
                self.folders.insert(uuid.as_str());
                if let Some(auditor) = &mut self.auditor {
                    auditor.parsed(path_label, report);
                }
                self.store(Folder::wrap(obj));
                true
            },
            None => {
                if let Some(auditor) = &mut self.auditor {
                    auditor.skip(path_label, SkipReason::ParseFailed);
                }
                false
            },
        }
    }

    /// Load one master document; see `load_album` for the protocol.
    pub fn load_master(&mut self, plist: &Value, path_label: &str) -> (r: bool)
        ensures
            final(self).version_view() == old(self).version_view(),
            final(self).albums_set() == old(self).albums_set(),
            final(self).folders_set() == old(self).folders_set(),
            final(self).versions_set() == old(self).versions_set(),
            final(self).volumes_set() == old(self).volumes_set(),
            match *plist {
                Value::Dict(d) => match lookup_str(d, "uuid"@) {
                    Some(u) => {
                        &&& r
                        &&& final(self).masters_set() == old(self).masters_set().insert(u@)
                        &&& final(self).objects_map().dom() == old(self).objects_map().dom().insert(u@)
                        &&& final(self).objects_map()[u@] matches Wrapper::Master(b)
                            && master_fields_match(*b, d)
                        &&& forall|k: Seq<char>|
                            k != u@ && old(self).objects_map().dom().contains(k) ==> final(self).objects_map()[k] == old(self).objects_map()[k]
                        &&& auditor_filed(
                            old(self).spec_auditor(),
                            final(self).spec_auditor(),
                            path_label@,
                            master_audit(empty_audit(), d),
                        )
                    },
                    None => !r && unchanged_library(*old(self), *final(self)),
                },
                _ => !r && final(self).masters_set() == old(self).masters_set() && final(self).objects_map() == old(self).objects_map() && auditor_skipped(
                    old(self).spec_auditor(),
                    final(self).spec_auditor(),
                    path_label@,
                    SkipReason::ParseFailed,
                ),
            },
    {
        let mut report = Report::new();
        match Master::from_plist(plist, &mut report) {
            Some(obj) => {
                let uuid = match &obj.uuid {
                    Some(u) => u.clone(),
                    None => {
                        return false;
                    },
                };
                self.masters.insert(uuid.as_str());
                if let Some(auditor) = &mut self.auditor {
                    auditor.parsed(path_label, report);
                }
                self.store(Master::wrap(obj));
                true
            },
            None => {
                if let Some(auditor) = &mut self.auditor {
                    auditor.skip(path_label, SkipReason::ParseFailed);
                }
                false
            },
        }
    }

    /// Load one version document; see `load_album` for the protocol.
    pub fn load_version(&mut self, plist: &Value, path_label: &str) -> (r: bool)
        ensures
            final(self).version_view() == old(self).version_view(),
            final(self).albums_set() == old(self).albums_set(),
            final(self).folders_set() == old(self).folders_set(),
            final(self).masters_set() == old(self).masters_set(),
            final(self).volumes_set() == old(self).volumes_set(),
            match *plist {
                Value::Dict(d) => match lookup_str(d, "uuid"@) {
                    Some(u) => {
                        &&& r
                        &&& final(self).versions_set() == old(self).versions_set().insert(u@)
                        &&& final(self).objects_map().dom() == old(self).objects_map().dom().insert(u@)
                        &&& final(self).objects_map()[u@] matches Wrapper::Version(b)
                            && version_fields_match(*b, d)
                        &&& forall|k: Seq<char>|
                            k != u@ && old(self).objects_map().dom().contains(k) ==> final(self).objects_map()[k] == old(self).objects_map()[k]
                        &&& auditor_filed(
                            old(self).spec_auditor(),
                            final(self).spec_auditor(),
                            path_label@,
                            version_audit(empty_audit(), d),
                        )
                    },
                    None => !r && unchanged_library(*old(self), *final(self)),
                },
                _ => !r && final(self).versions_set() == old(self).versions_set() && final(self).objects_map() == old(self).objects_map() && auditor_skipped(
                    old(self).spec_auditor(),
                    final(self).spec_auditor(),
                    path_label@,
                    SkipReason::ParseFailed,
                ),
            },
    {
        let mut report = Report::new();
        match Version::from_plist(plist, &mut report) {
            Some(obj) => {
                let uuid = match &obj.uuid {
                    Some(u) => u.clone(),
                    None => {
                        return false;
                    },
                };
                self.versions.insert(uuid.as_str());
                if let Some(auditor) = &mut self.auditor {
                    auditor.parsed(path_label, report);
                }
                self.store(Version::wrap(obj));
                true
            },
            None => {
                if let Some(auditor) = &mut self.auditor {
                    auditor.skip(path_label, SkipReason::ParseFailed);
                }
                false
            },
        }
    }

    /// Load one volume document; see `load_album` for the protocol.
    pub fn load_volume(&mut self, plist: &Value, path_label: &str) -> (r: bool)
        ensures
            final(self).version_view() == old(self).version_view(),
            final(self).albums_set() == old(self).albums_set(),
            final(self).folders_set() == old(self).folders_set(),
            final(self).masters_set() == old(self).masters_set(),
            final(self).versions_set() == old(self).versions_set(),
            match *plist {
                Value::Dict(d) => match lookup_str(d, "uuid"@) {
                    Some(u) => {
                        &&& r
                        &&& final(self).volumes_set() == old(self).volumes_set().insert(u@)
                        &&& final(self).objects_map().dom() == old(self).objects_map().dom().insert(u@)
                        &&& final(self).objects_map()[u@] matches Wrapper::Volume(b)
                            && volume_fields_match(*b, d)
                        &&& forall|k: Seq<char>|
                            k != u@ && old(self).objects_map().dom().contains(k) ==> final(self).objects_map()[k] == old(self).objects_map()[k]
                        &&& auditor_filed(
                            old(self).spec_auditor(),
                            final(self).spec_auditor(),
                            path_label@,
                            volume_audit(empty_audit(), d),
                        )
                    },
                    None => !r && unchanged_library(*old(self), *final(self)),
                },
                _ => !r && final(self).volumes_set() == old(self).volumes_set() && final(self).objects_map() == old(self).objects_map() && auditor_skipped(
                    old(self).spec_auditor(),
                    final(self).spec_auditor(),
                    path_label@,
                    SkipReason::ParseFailed,
                ),
            },
    {
        let mut report = Report::new();
        match Volume::from_plist(plist, &mut report) {
            Some(obj) => {
                let uuid = match &obj.uuid {
                    Some(u) => u.clone(),
                    None => {
                        return false;
                    },
                };
                self.volumes.insert(uuid.as_str());
                if let Some(auditor) = &mut self.auditor {
                    auditor.parsed(path_label, report);
                }
                self.store(Volume::wrap(obj));
                true
            },
            None => {
                if let Some(auditor) = &mut self.auditor {
                    auditor.skip(path_label, SkipReason::ParseFailed);
                }
                false
            },
        }
    }

    /// Load one volume from the values of one database row, in column
    /// order; the fallback when the library version keeps no per-volume
    /// document. The database path is not audited. Returns whether a
    /// record was stored.
    pub fn load_volume_row(
        &mut self,
        model_id: Option<i64>,
        uuid: Option<String>,
        volume_name: Option<String>,
        disk_uuid: Option<String>,
    ) -> (r: bool)
        ensures
            final(self).version_view() == old(self).version_view(),
            final(self).albums_set() == old(self).albums_set(),
            final(self).folders_set() == old(self).folders_set(),
            final(self).masters_set() == old(self).masters_set(),
            final(self).versions_set() == old(self).versions_set(),
            final(self).spec_auditor() == old(self).spec_auditor(),
            match uuid {
                Some(u) => {
                    &&& r
                    &&& final(self).volumes_set() == old(self).volumes_set().insert(u@)
                    &&& final(self).objects_map().dom() == old(self).objects_map().dom().insert(u@)
                    &&& final(self).objects_map()[u@] matches Wrapper::Volume(b) && b.uuid == Some(
                        u,
                    ) && b.model_id == model_id && b.volume_name == volume_name && b.disk_uuid
                        == disk_uuid
                    &&& forall|k: Seq<char>|
                        k != u@ && old(self).objects_map().dom().contains(k) ==> final(self).objects_map()[k] == old(self).objects_map()[k]
                },
                None => !r && unchanged_library(*old(self), *final(self)),
            },
    {
        let uuid_text = match &uuid {
            Some(u) => u.clone(),
            None => {
                return false;
            },
        };
        let obj = Volume::from_row_values(model_id, uuid, volume_name, disk_uuid);
        self.volumes.insert(uuid_text.as_str());
        self.store(Volume::wrap(obj));
        true
    }

    /// List keywords out of the parsed root of the keywords document,
    /// filing the audit outcome under the document's conventional name.
    pub fn list_keywords(&mut self, plist: &Value) -> (r: Option<Vec<Keyword>>)
        ensures
            final(self).version_view() == old(self).version_view(),
            final(self).albums_set() == old(self).albums_set(),
            final(self).folders_set() == old(self).folders_set(),
            final(self).masters_set() == old(self).masters_set(),
            final(self).versions_set() == old(self).versions_set(),
            final(self).volumes_set() == old(self).volumes_set(),
            final(self).objects_map() == old(self).objects_map(),
            match *plist {
                Value::Dict(d) => match lookup_int(d, "keywords_version"@) {
                    Some(_) => match (lookup_array(d, "keywords"@), r) {
                        (Some(a), Some(ks)) => keywords_match_seq(ks@, a) && auditor_filed(
                            old(self).spec_auditor(),
                            final(self).spec_auditor(),
                            KEYWORDS_PLIST@,
                            keywords_plist_audit(empty_audit(), d),
                        ),
                        (None, None) => auditor_skipped(
                            old(self).spec_auditor(),
                            final(self).spec_auditor(),
                            KEYWORDS_PLIST@,
                            SkipReason::ParseFailed,
                        ),
                        _ => false,
                    },
                    None => r is None && auditor_skipped(
                        old(self).spec_auditor(),
                        final(self).spec_auditor(),
                        KEYWORDS_PLIST@,
                        SkipReason::ParseFailed,
                    ),
                },
                _ => r is None && auditor_skipped(
                    old(self).spec_auditor(),
                    final(self).spec_auditor(),
                    KEYWORDS_PLIST@,
                    SkipReason::ParseFailed,
                ),
            },
    {
        let mut report = Report::new();
        let result = parse_keywords(plist, &mut report);
        if result.is_some() {
            if let Some(auditor) = &mut self.auditor {
                auditor.parsed(KEYWORDS_PLIST, report);
            }
        } else {
            if let Some(auditor) = &mut self.auditor {
                auditor.skip(KEYWORDS_PLIST, SkipReason::ParseFailed);
            }
        }
        result
    }

    /// Resolve the path of a master to its on-disk location: under the
    /// mount point of its volume when it references one that is stored,
    /// or relative to the bundle's masters directory. `None` when the
    /// uuid names no stored master, the master records no image path, or
    /// its volume reference resolves to no stored volume.
    pub fn resolve_master_path(&self, uuid: &str) -> (r: Option<String>)
        ensures
            match r {
                Some(s) => spec_resolve_master_path(self.objects_map(), uuid@) == Some(s@),
                None => spec_resolve_master_path(self.objects_map(), uuid@) is None,
            },
    {
        let master = match self.get(uuid) {
            Some(Wrapper::Master(master)) => master,
            _ => {
                return None;
            },
        };
        let image_path = match &master.image_path {
            Some(p) => p,
            None => {
                return None;
            },
        };
        match &master.file_volume_uuid {
            Some(volume_uuid) => {
                match self.get(volume_uuid.as_str()) {
                    Some(Wrapper::Volume(volume)) => {
                        let mut path = "/Volumes/".to_owned();
                        match &volume.volume_name {
                            Some(name) => {
                                path.append(name.as_str());
                            },
                            None => {},
                        }
                        path.append("/");
                        path.append(image_path.as_str());
                        Some(path)
                    },
                    _ => None,
                }
            },
            None => {
                let mut path = "Masters/".to_owned();
                path.append(image_path.as_str());
                Some(path)
            },
        }
    }
}

/// The album document's outer and info dictionaries, when the root is a
/// dictionary holding an `InfoDictionary` dictionary.
pub open spec fn album_document(plist: Value) -> Option<(Dictionary, Dictionary)> {
    match plist {
        Value::Dict(d) => match lookup_dict(d, "InfoDictionary"@) {
            Some(info) => Some((d, info)),
            None => None,
        },
        _ => None,
    }
}

/// Nothing of the library changed.
pub open spec fn unchanged_library(a: Library, b: Library) -> bool {
    &&& a.version_view() == b.version_view()
    &&& a.folders_set() == b.folders_set()
    &&& a.albums_set() == b.albums_set()
    &&& a.masters_set() == b.masters_set()
    &&& a.versions_set() == b.versions_set()
    &&& a.volumes_set() == b.volumes_set()
    &&& a.objects_map() == b.objects_map()
    &&& a.spec_auditor() == b.spec_auditor()
}

/// Where a master's image resolves: under `/Volumes/` and the referenced
/// volume's name when the master references a stored volume, under the
/// bundle's `Masters/` directory otherwise.
pub open spec fn spec_resolve_master_path(
    objects: Map<Seq<char>, Wrapper>,
    uuid: Seq<char>,
) -> Option<Seq<char>> {
    if objects.dom().contains(uuid) {
        match objects[uuid] {
            Wrapper::Master(master) => match master.image_path {
                Some(ip) => match master.file_volume_uuid {
                    Some(vu) => if objects.dom().contains(vu@) {
                        match objects[vu@] {
                            Wrapper::Volume(volume) => Some(
                                "/Volumes/"@ + (match volume.volume_name {
                                    Some(n) => n@,
                                    None => Seq::<char>::empty(),
                                }) + "/"@ + ip@,
                            ),
                            _ => None,
                        }
                    } else {
                        None
                    },
                    None => Some("Masters/"@ + ip@),
                },
                None => None,
            },
            _ => None,
        }
    } else {
        None
    }
}

/// A fresh audit view: every class empty.
pub open spec fn empty_audit() -> AuditView {
    AuditView {
        parsed: Set::empty(),
        skipped: Map::empty(),
        ignored: Set::empty(),
    }
}

/// Whether the auditor went from `before` to `after` by filing a report
/// with the given audit view under `label` — or stayed absent.
pub open spec fn auditor_filed(
    before: Option<Reporter>,
    after: Option<Reporter>,
    label: Seq<char>,
    view: AuditView,
) -> bool {
    match (before, after) {
        (Some(b), Some(a)) => {
            &&& a.parsed_map().dom() == b.parsed_map().dom().insert(label)
            &&& a.parsed_map()[label].audit_view() == view
            &&& forall|k: Seq<char>|
                k != label && b.parsed_map().dom().contains(k) ==> a.parsed_map()[k]
                    == b.parsed_map()[k]
            &&& a.skipped_map() == b.skipped_map()
            &&& a.ignored_set() == b.ignored_set()
        },
        (None, None) => true,
        _ => false,
    }
}

/// Whether the auditor went from `before` to `after` by recording a
/// top-level skip under `label` — or stayed absent.
pub open spec fn auditor_skipped(
    before: Option<Reporter>,
    after: Option<Reporter>,
    label: Seq<char>,
    reason: SkipReason,
) -> bool {
    match (before, after) {
        (Some(b), Some(a)) => {
            &&& a.skipped_map() == b.skipped_map().insert(label, reason)
            &&& a.parsed_map() == b.parsed_map()
            &&& a.ignored_set() == b.ignored_set()
        },
        (None, None) => true,
        _ => false,
    }
}

} // verus!
