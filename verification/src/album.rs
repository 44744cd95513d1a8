/*
 This Source Code Form is subject to the terms of the Mozilla Public
 License, v. 2.0. If a copy of the MPL was not distributed with this
 file, You can obtain one at http://mozilla.org/MPL/2.0/.
*/

//! Album records.

use vstd::prelude::*;

use crate::audit::{audit_get_bool_value, audit_get_date_value, audit_get_int_value,
    audit_get_str_value, step_get, step_ignored, step_parsed, step_skip, AuditView, Report,
    SkipReason};
use crate::store::Wrapper;
use crate::{AplibObject, AplibType, PlistLoadable};
use crate::plutils::{get_array_value, lookup_array, lookup_bool, lookup_date, lookup_dict,
    lookup_int, lookup_str, Dictionary, PlistDate, Value};

verus! {

/// Subclass for album.
#[derive(Clone, Copy, Debug, PartialEq, Eq, Structural)]
pub enum Subclass {
    /// Invalid.
    Invalid,
    /// Implicit - used for folders.
    Implicit,
    /// Smart - content from a query.
    Smart,
    /// User - user album with explicit content.
    User,
}

impl Subclass {
    /// The integer code a subclass is stored as on disk.
    pub open spec fn spec_to_int(self) -> i64 {
        match self {
            Subclass::Invalid => 0,
            Subclass::Implicit => 1,
            Subclass::Smart => 2,
            Subclass::User => 3,
        }
    }

    /// Decoding is total: every integer outside the known code space maps
    /// to `Invalid` rather than failing.
    pub open spec fn spec_from_int(v: i64) -> Subclass {
        if v == 1 {
            Subclass::Implicit
        } else if v == 2 {
            Subclass::Smart
        } else if v == 3 {
            Subclass::User
        } else {
            Subclass::Invalid
        }
    }

    /// `Subclass` from an integer.
    pub fn from_int(v: i64) -> (s: Self)
        ensures
            s == Subclass::spec_from_int(v),
    {
        if v == 1 {
            Subclass::Implicit
        } else if v == 2 {
            Subclass::Smart
        } else if v == 3 {
            Subclass::User
        } else {
            Subclass::Invalid
        }
    }

    /// `Subclass` to an integer.
    pub fn to_int(&self) -> (v: i64)
        ensures
            v == self.spec_to_int(),
    {
        match *self {
            Subclass::Invalid => 0,
            Subclass::Implicit => 1,
            Subclass::Smart => 2,
            Subclass::User => 3,
        }
    }
}

/// Album object.
#[derive(Debug)]
pub struct Album {
    /// uuid
    pub uuid: Option<String>,
    /// Folder uuid it represents.
    pub folder_uuid: Option<String>,
    pub model_id: Option<i64>,
    /// Subclass. See `Subclass` enum. (Implicit, Smart, User)
    pub subclass: Option<Subclass>,
    /// Album type. Seems to always be 1.
    pub album_type: Option<i64>,
    /// UUID of folder it is querying content of (smart only)
    pub query_folder_uuid: Option<String>,
    /// Version of db
    pub db_version: Option<i64>,
    /// Sort ascending
    pub sort_asc: Option<bool>,
    /// Date key for sort
    pub sort_key: Option<String>,
    /// Name of the album.
    pub name: Option<String>,
    pub custom_sort_available: Option<bool>,
    pub colour_label_index: Option<i64>,
    pub create_date: Option<PlistDate>,
    pub is_hidden: Option<bool>,
    pub is_magic: Option<bool>,
    pub is_favourite: Option<bool>,
    pub is_in_trash: Option<bool>,
    pub selected_track_path_uuid: Option<String>,
    /// Content list - for the `User` subclass.
    pub content: Option<Vec<String>>,
}

/// The strings among `elems`, in order.
pub open spec fn string_elements(elems: Seq<Value>) -> Seq<String>
    decreases elems.len(),
{
    if elems.len() == 0 {
        Seq::empty()
    } else {
        string_elements(elems.drop_last()) + match elems.last() {
            Value::Str(s) => seq![s],
            _ => Seq::<String>::empty(),
        }
    }
}

/// The subclass the album's info dictionary encodes, if any.
pub open spec fn album_subclass(info: Dictionary) -> Option<Subclass> {
    match lookup_int(info, "albumSubclass"@) {
        Some(v) => Some(Subclass::spec_from_int(v)),
        None => None,
    }
}

/// The content list an album loads: the string entries of the outer
/// `versionUuids` array, and only for the `User` subclass. Any other
/// subclass loads no content however the key reads.
pub open spec fn album_content(d: Dictionary, info: Dictionary) -> Option<Seq<String>> {
    match lookup_array(d, "versionUuids"@) {
        Some(a) => if album_subclass(info) == Some(Subclass::User) {
            Some(string_elements(a))
        } else {
            None
        },
        None => None,
    }
}

/// Whether `f` holds exactly the typed fields of the album document:
/// every plain field from the info dictionary `info`, the content from the
/// outer dictionary `d`.
pub open spec fn album_fields_match(f: Album, d: Dictionary, info: Dictionary) -> bool {
    &&& f.uuid == lookup_str(info, "uuid"@)
    &&& f.folder_uuid == lookup_str(info, "folderUuid"@)
    &&& f.subclass == album_subclass(info)
    &&& f.album_type == lookup_int(info, "albumType"@)
    &&& f.db_version == lookup_int(info, "version"@)
    &&& f.model_id == lookup_int(info, "modelId"@)
    &&& f.sort_asc == lookup_bool(info, "sortAscending"@)
    &&& f.sort_key == lookup_str(info, "sortKeyPath"@)
    &&& f.name == lookup_str(info, "name"@)
    &&& f.query_folder_uuid == lookup_str(info, "queryFolderUuid"@)
    &&& f.create_date == lookup_date(info, "createDate"@)
    &&& f.colour_label_index == lookup_int(info, "colorLabelIndex"@)
    &&& f.custom_sort_available == lookup_bool(info, "customSortAvailable"@)
    &&& f.is_hidden == lookup_bool(info, "isHidden"@)
    &&& f.is_magic == lookup_bool(info, "isMagic"@)
    &&& f.is_favourite == lookup_bool(info, "isFavorite"@)
    &&& f.is_in_trash == lookup_bool(info, "isInTrash"@)
    &&& f.selected_track_path_uuid == lookup_str(info, "selectedTrackPathUuid"@)
    &&& match (album_content(d, info), f.content) {
        (Some(s), Some(v)) => v@ == s,
        (None, None) => true,
        _ => false,
    }
}

/// The audit record of the content extraction: when `versionUuids` reads
/// as an array it is parsed for a `User` album and skipped as
/// `InvalidData` for every other subclass; when absent, nothing is
/// recorded about it.
pub open spec fn album_content_audit(v: AuditView, d: Dictionary, info: Dictionary) -> AuditView {
    match lookup_array(d, "versionUuids"@) {
        Some(_) => if album_subclass(info) == Some(Subclass::User) {
            step_parsed(v, "versionUuids"@)
        } else {
            step_skip(v, "versionUuids"@, SkipReason::InvalidData)
        },
        None => v,
    }
}

/// The audit trail of loading an album: every field key of the info
/// dictionary parsed or skipped, the content record, then everything
/// unaccounted for in the info dictionary marked ignored.
pub open spec fn album_audit(v: AuditView, d: Dictionary, info: Dictionary) -> AuditView {
    let v1 = step_get(v, "albumSubclass"@, lookup_int(info, "albumSubclass"@) is Some);
    let v2 = step_get(v1, "uuid"@, lookup_str(info, "uuid"@) is Some);
    let v3 = step_get(v2, "folderUuid"@, lookup_str(info, "folderUuid"@) is Some);
    let v4 = step_get(v3, "albumType"@, lookup_int(info, "albumType"@) is Some);
    let v5 = step_get(v4, "version"@, lookup_int(info, "version"@) is Some);
    let v6 = step_get(v5, "modelId"@, lookup_int(info, "modelId"@) is Some);
    let v7 = step_get(v6, "sortAscending"@, lookup_bool(info, "sortAscending"@) is Some);
    let v8 = step_get(v7, "sortKeyPath"@, lookup_str(info, "sortKeyPath"@) is Some);
    let v9 = step_get(v8, "name"@, lookup_str(info, "name"@) is Some);
    let v10 = step_get(v9, "queryFolderUuid"@, lookup_str(info, "queryFolderUuid"@) is Some);
    let v11 = step_get(v10, "createDate"@, lookup_date(info, "createDate"@) is Some);
    let v12 = step_get(v11, "colorLabelIndex"@, lookup_int(info, "colorLabelIndex"@) is Some);
    let v13 = step_get(
        v12,
        "customSortAvailable"@,
        lookup_bool(info, "customSortAvailable"@) is Some,
    );
    let v14 = step_get(v13, "isHidden"@, lookup_bool(info, "isHidden"@) is Some);
    let v15 = step_get(v14, "isMagic"@, lookup_bool(info, "isMagic"@) is Some);
    let v16 = step_get(v15, "isFavorite"@, lookup_bool(info, "isFavorite"@) is Some);
    let v17 = step_get(v16, "isInTrash"@, lookup_bool(info, "isInTrash"@) is Some);
    let v18 = step_get(
        v17,
        "selectedTrackPathUuid"@,
        lookup_str(info, "selectedTrackPathUuid"@) is Some,
    );
    let v19 = album_content_audit(v18, d, info);
    step_ignored(v19, info, None)
}

impl Album {
    /// Load album content. `dict` should contain the `versionUuids` key,
    /// and the subclass should be `Subclass::User`.
    fn content_from(dict: &Dictionary, subclass: Option<Subclass>, report: &mut Report) -> (r:
        Option<Vec<String>>)
        ensures
            match (album_content_spec_helper(*dict, subclass), r) {
                (Some(s), Some(v)) => v@ == s,
                (None, None) => true,
                _ => false,
            },
            final(report).audit_view() == match lookup_array(*dict, "versionUuids"@) {
                Some(_) => if subclass == Some(Subclass::User) {
                    step_parsed(old(report).audit_view(), "versionUuids"@)
                } else {
                    step_skip(old(report).audit_view(), "versionUuids"@, SkipReason::InvalidData)
                },
                None => old(report).audit_view(),
            },
    {
        let array = match get_array_value(dict, "versionUuids") {
            Some(a) => a,
            None => {
                return None;
            },
        };
        if matches!(subclass, Some(Subclass::User)) {
            let mut content: Vec<String> = Vec::new();
            let mut i: usize = 0;
            while i < array.len()
                invariant
                    i <= array.len(),
                    content@ == string_elements(array@.subrange(0, i as int)),
                decreases array.len() - i,
            {
                proof {
                    assert(array@.subrange(0, i as int + 1).last() == array@[i as int]);
                    assert(array@.subrange(0, i as int + 1).drop_last() =~= array@.subrange(
                        0,
                        i as int,
                    ));
                }
                let ghost before = content@;
                match &array[i] {
                    Value::Str(s) => {
                        content.push(s.clone());
                        proof {
                            assert(content@ =~= before + seq![*s]);
                        }
                    },
                    _ => {
                        proof {
                            assert(content@ =~= before + Seq::<String>::empty());
                        }
                    },
                }
                i += 1;
            }
            proof {
                assert(array@.subrange(0, array@.len() as int) =~= array@);
            }
            report.parsed("versionUuids");
            Some(content)
        } else {
            report.skip("versionUuids", SkipReason::InvalidData);
            None
        }
    }
}

/// The content list for a given subclass: the string entries of the
/// `versionUuids` array when it is present and the subclass is `User`.
pub open spec fn album_content_spec_helper(d: Dictionary, subclass: Option<Subclass>) -> Option<
    Seq<String>,
> {
    match lookup_array(d, "versionUuids"@) {
        Some(a) => if subclass == Some(Subclass::User) {
            Some(string_elements(a))
        } else {
            None
        },
        None => None,
    }
}

impl PlistLoadable for Album {
    /// Load an album from the root value of its plist document. `None`
    /// exactly when the root is not a dictionary or holds no
    /// `InfoDictionary` dictionary.
    fn from_plist(plist: &Value, report: &mut Report) -> (r: Option<Album>)
        ensures
            match plist {
                Value::Dict(d) => match lookup_dict(*d, "InfoDictionary"@) {
                    Some(info) => match r {
                        Some(f) => album_fields_match(f, *d, info) && final(report).audit_view()
                            == album_audit(old(report).audit_view(), *d, info),
                        None => false,
                    },
                    None => r is None && final(report).audit_view() == old(report).audit_view(),
                },
                _ => r is None && final(report).audit_view() == old(report).audit_view(),
            },
    {
        match plist {
            Value::Dict(dict) => {
                let info_dict = match crate::plutils::get_dict_value(dict, "InfoDictionary") {
                    Some(d) => d,
                    None => {
                        return None;
                    },
                };
                let subclass_code = audit_get_int_value(info_dict, "albumSubclass", report);
                let subclass = match subclass_code {
                    Some(v) => Some(Subclass::from_int(v)),
                    None => None,
                };
                let uuid = audit_get_str_value(info_dict, "uuid", report);
                let folder_uuid = audit_get_str_value(info_dict, "folderUuid", report);
                let album_type = audit_get_int_value(info_dict, "albumType", report);
                let db_version = audit_get_int_value(info_dict, "version", report);
                let model_id = audit_get_int_value(info_dict, "modelId", report);
                let sort_asc = audit_get_bool_value(info_dict, "sortAscending", report);
                let sort_key = audit_get_str_value(info_dict, "sortKeyPath", report);
                let name = audit_get_str_value(info_dict, "name", report);
                let query_folder_uuid = audit_get_str_value(info_dict, "queryFolderUuid", report);
                let create_date = audit_get_date_value(info_dict, "createDate", report);
                let colour_label_index = audit_get_int_value(info_dict, "colorLabelIndex", report);
                let custom_sort_available = audit_get_bool_value(
                    info_dict,
                    "customSortAvailable",
                    report,
                );
                let is_hidden = audit_get_bool_value(info_dict, "isHidden", report);
                let is_magic = audit_get_bool_value(info_dict, "isMagic", report);
                let is_favourite = audit_get_bool_value(info_dict, "isFavorite", report);
                let is_in_trash = audit_get_bool_value(info_dict, "isInTrash", report);
                let selected_track_path_uuid = audit_get_str_value(
                    info_dict,
                    "selectedTrackPathUuid",
                    report,
                );
                let content = Album::content_from(dict, subclass, report);
                let result = Album {
                    uuid,
                    folder_uuid,
                    model_id,
                    subclass,
                    album_type,
                    query_folder_uuid,
                    db_version,
                    sort_asc,
                    sort_key,
                    name,
                    custom_sort_available,
                    colour_label_index,
                    create_date,
                    is_hidden,
                    is_magic,
                    is_favourite,
                    is_in_trash,
                    selected_track_path_uuid,
                    content,
                };
                report.audit_ignored(info_dict, None);
                Some(result)
            },
            _ => None,
        }
    }
}

impl AplibObject for Album {
    open spec fn spec_uuid(&self) -> Option<String> {
        self.uuid
    }

    open spec fn spec_parent(&self) -> Option<String> {
        self.folder_uuid
    }

    open spec fn spec_model_id(&self) -> Option<i64> {
        self.model_id
    }

    open spec fn spec_obj_type(&self) -> AplibType {
        AplibType::Album
    }

    open spec fn spec_wrapped(&self, w: Wrapper) -> bool {
        match w {
            Wrapper::Album(b) => *b == *self,
            _ => false,
        }
    }

    fn wrap(obj: Album) -> (w: Wrapper) {
        Wrapper::Album(Box::new(obj))
    }

    fn obj_type(&self) -> (t: AplibType) {
        AplibType::Album
    }

    fn is_valid(&self) -> (r: bool) {
        self.uuid.is_some()
    }

    fn uuid(&self) -> (r: &Option<String>) {
        &self.uuid
    }

    fn parent(&self) -> (r: &Option<String>) {
        &self.folder_uuid
    }

    fn model_id(&self) -> (r: i64) {
        match &self.model_id {
            Some(i) => *i,
            None => 0,
        }
    }
}

/// For every album document whose subclass is not `User`, any record the
/// loader returns — `album_fields_match` and `album_audit` are exactly
/// what `from_plist` ensures, from any starting report — carries no
/// content, and when the `versionUuids` key is present and array-typed
/// the final report skips it as `InvalidData`: presence alone never
/// populates the content.
pub proof fn lemma_album_content_guard(f: Album, d: Dictionary, info: Dictionary, v0: AuditView)
    requires
        album_fields_match(f, d, info),
        album_subclass(info) != Some(Subclass::User),
    ensures
        f.content is None,
        lookup_array(d, "versionUuids"@) is Some ==> {
            let after = album_audit(v0, d, info);
            &&& after.skipped.dom().contains("versionUuids"@)
            &&& after.skipped["versionUuids"@] == SkipReason::InvalidData
        },
{
}

} // verus!
