/*
 This Source Code Form is subject to the terms of the Mozilla Public
 License, v. 2.0. If a copy of the MPL was not distributed with this
 file, You can obtain one at http://mozilla.org/MPL/2.0/.
*/

//! Folder records: containers of things in the library.

use vstd::prelude::*;

use crate::audit::{audit_get_array_value, audit_get_bool_value, audit_get_date_value,
    audit_get_int_value, audit_get_str_value, step_get, step_ignored, step_skip, AuditView,
    Report, SkipReason};
use crate::store::Wrapper;
use crate::{AplibObject, AplibType, PlistLoadable};
use crate::notes::{notes_opt_audit, notes_opt_match, NotesProperties};
use crate::plutils::{lookup_array, lookup_bool, lookup_date, lookup_int, lookup_str, Dictionary,
    PlistDate, Value};

verus! {

/// Type of folder.
#[derive(Clone, Copy, Debug, PartialEq, Eq, Structural)]
pub enum Type {
    Invalid,
    /// Folder, aka container of things
    Folder,
    /// Project (as in the UI), contains only `Master`s
    Project,
}

impl Type {
    /// The integer code a folder type is stored as on disk.
    pub open spec fn spec_to_int(self) -> i64 {
        match self {
            Type::Invalid => 0,
            Type::Folder => 1,
            Type::Project => 2,
        }
    }

    /// Decoding is total: every integer outside the known code space maps
    /// to `Invalid` rather than failing.
    pub open spec fn spec_from_int(v: i64) -> Type {
        if v == 1 {
            Type::Folder
        } else if v == 2 {
            Type::Project
        } else {
            Type::Invalid
        }
    }

    /// `Type` from an integer.
    pub fn from(v: i64) -> (t: Self)
        ensures
            t == Type::spec_from_int(v),
    {
        if v == 1 {
            Type::Folder
        } else if v == 2 {
            Type::Project
        } else {
            Type::Invalid
        }
    }

    /// `Type` from an optional integer.
    pub fn from_option(o: Option<i64>) -> (t: Option<Self>)
        ensures
            t == match o {
                Option::Some(v) => Option::Some(Type::spec_from_int(v)),
                Option::None => Option::<Type>::None,
            },
    {
        match o {
            Option::Some(v) => Option::Some(Self::from(v)),
            Option::None => Option::None,
        }
    }

    /// `Type` to an integer.
    pub fn to_int(&self) -> (v: i64)
        ensures
            v == self.spec_to_int(),
    {
        match *self {
            Type::Invalid => 0,
            Type::Folder => 1,
            Type::Project => 2,
        }
    }
}

/// Folder object. This is a container of things in the library.
#[derive(Debug)]
pub struct Folder {
    /// object uuid
    pub uuid: Option<String>,
    /// parent uuid
    pub parent_uuid: Option<String>,
    /// id in model
    pub model_id: Option<i64>,
    /// Folder type. (Project, Folder)
    pub folder_type: Option<Type>,
    /// Db model version
    pub db_version: Option<i64>,
    /// Project model version
    pub project_version: Option<i64>,
    /// Path in the tree, one model id per component
    pub path: Option<String>,
    /// Name
    pub name: Option<String>,
    /// UUID of the album object that composes this
    pub implicit_album_uuid: Option<String>,
    /// index of the colour label
    pub colour_label_index: Option<i64>,
    pub create_date: Option<PlistDate>,
    pub sort_key_path: Option<String>,
    pub sort_ascending: Option<bool>,
    pub is_hidden: Option<bool>,
    pub is_magic: Option<bool>,
    pub is_favourite: Option<bool>,
    pub is_in_trash: Option<bool>,
    pub is_expanded: Option<bool>,
    pub is_hidden_when_empty: Option<bool>,
    pub poster_version_uuid: Option<String>,
    pub notes: Option<Vec<NotesProperties>>,
}

/// Whether `f` holds exactly the typed fields of `d`, each `None` where
/// the key is absent or differently typed.
pub open spec fn folder_fields_match(f: Folder, d: Dictionary) -> bool {
    &&& f.path == lookup_str(d, "folderPath"@)
    &&& f.folder_type == match lookup_int(d, "folderType"@) {
        Some(v) => Some(Type::spec_from_int(v)),
        None => None::<Type>,
    }
    &&& f.model_id == lookup_int(d, "modelId"@)
    &&& f.name == lookup_str(d, "name"@)
    &&& f.parent_uuid == lookup_str(d, "parentFolderUuid"@)
    &&& f.uuid == lookup_str(d, "uuid"@)
    &&& f.implicit_album_uuid == lookup_str(d, "implicitAlbumUuid"@)
    &&& f.db_version == lookup_int(d, "version"@)
    &&& f.project_version == lookup_int(d, "projectVersion"@)
    &&& f.colour_label_index == lookup_int(d, "colorLabelIndex"@)
    &&& f.create_date == lookup_date(d, "createDate"@)
    &&& f.sort_key_path == lookup_str(d, "sortKeyPath"@)
    &&& f.sort_ascending == lookup_bool(d, "sortAscending"@)
    &&& f.is_hidden == lookup_bool(d, "isHidden"@)
    &&& f.is_magic == lookup_bool(d, "isMagic"@)
    &&& f.is_favourite == lookup_bool(d, "isFavorite"@)
    &&& f.is_in_trash == lookup_bool(d, "isInTrash"@)
    &&& f.is_expanded == lookup_bool(d, "isExpanded"@)
    &&& f.is_hidden_when_empty == lookup_bool(d, "isHiddenWhenEmpty"@)
    &&& f.poster_version_uuid == lookup_str(d, "posterVersionUuid"@)
    &&& notes_opt_match(lookup_array(d, "notes"@), f.notes)
}

/// The audit trail of loading a folder from `d`: every field key parsed or
/// skipped, the notes elements audited, a few always-present bookkeeping
/// keys deliberately ignored, then everything else marked ignored.
pub open spec fn folder_audit(v: AuditView, d: Dictionary) -> AuditView {
    let v1 = step_get(v, "notes"@, lookup_array(d, "notes"@) is Some);
    let v2 = step_get(v1, "folderPath"@, lookup_str(d, "folderPath"@) is Some);
    let v3 = step_get(v2, "folderType"@, lookup_int(d, "folderType"@) is Some);
    let v4 = step_get(v3, "modelId"@, lookup_int(d, "modelId"@) is Some);
    let v5 = step_get(v4, "name"@, lookup_str(d, "name"@) is Some);
    let v6 = step_get(v5, "parentFolderUuid"@, lookup_str(d, "parentFolderUuid"@) is Some);
    let v7 = step_get(v6, "uuid"@, lookup_str(d, "uuid"@) is Some);
    let v8 = step_get(v7, "implicitAlbumUuid"@, lookup_str(d, "implicitAlbumUuid"@) is Some);
    let v9 = step_get(v8, "version"@, lookup_int(d, "version"@) is Some);
    let v10 = step_get(v9, "projectVersion"@, lookup_int(d, "projectVersion"@) is Some);
    let v11 = step_get(v10, "colorLabelIndex"@, lookup_int(d, "colorLabelIndex"@) is Some);
    let v12 = step_get(v11, "createDate"@, lookup_date(d, "createDate"@) is Some);
    let v13 = step_get(v12, "sortKeyPath"@, lookup_str(d, "sortKeyPath"@) is Some);
    let v14 = step_get(v13, "sortAscending"@, lookup_bool(d, "sortAscending"@) is Some);
    let v15 = step_get(v14, "isHidden"@, lookup_bool(d, "isHidden"@) is Some);
    let v16 = step_get(v15, "isMagic"@, lookup_bool(d, "isMagic"@) is Some);
    let v17 = step_get(v16, "isFavorite"@, lookup_bool(d, "isFavorite"@) is Some);
    let v18 = step_get(v17, "isInTrash"@, lookup_bool(d, "isInTrash"@) is Some);
    let v19 = step_get(v18, "isExpanded"@, lookup_bool(d, "isExpanded"@) is Some);
    let v20 = step_get(v19, "isHiddenWhenEmpty"@, lookup_bool(d, "isHiddenWhenEmpty"@) is Some);
    let v21 = step_get(v20, "posterVersionUuid"@, lookup_str(d, "posterVersionUuid"@) is Some);
    let v22 = notes_opt_audit(v21, lookup_array(d, "notes"@));
    let v23 = step_skip(v22, "CustomOrderList"@, SkipReason::Ignore);
    let v24 = step_skip(v23, "projectCompatibleBackToVersion"@, SkipReason::Ignore);
    let v25 = step_skip(v24, "automaticallyGenerateFullSizePreviews"@, SkipReason::Ignore);
    step_ignored(v25, d, None)
}

impl PlistLoadable for Folder {
    /// Load a folder from the root value of its plist document. `None`
    /// exactly when the root is not a dictionary; a dictionary with every
    /// field absent still loads, with every field `None`.
    fn from_plist(plist: &Value, report: &mut Report) -> (r: Option<Folder>)
        ensures
            match (plist, r) {
                (Value::Dict(d), Some(f)) => folder_fields_match(f, *d)
                    && final(report).audit_view() == folder_audit(old(report).audit_view(), *d),
                (Value::Dict(d), None) => false,
                (_, None) => final(report).audit_view() == old(report).audit_view(),
                _ => false,
            },
    {
        match plist {
            Value::Dict(dict) => {
                let notes = audit_get_array_value(dict, "notes", report);
                let path = audit_get_str_value(dict, "folderPath", report);
                let folder_type = Type::from_option(
                    audit_get_int_value(dict, "folderType", report),
                );
                let model_id = audit_get_int_value(dict, "modelId", report);
                let name = audit_get_str_value(dict, "name", report);
                let parent_uuid = audit_get_str_value(dict, "parentFolderUuid", report);
                let uuid = audit_get_str_value(dict, "uuid", report);
                let implicit_album_uuid = audit_get_str_value(dict, "implicitAlbumUuid", report);
                let db_version = audit_get_int_value(dict, "version", report);
                let project_version = audit_get_int_value(dict, "projectVersion", report);
                let colour_label_index = audit_get_int_value(dict, "colorLabelIndex", report);
                let create_date = audit_get_date_value(dict, "createDate", report);
                let sort_key_path = audit_get_str_value(dict, "sortKeyPath", report);
                let sort_ascending = audit_get_bool_value(dict, "sortAscending", report);
                let is_hidden = audit_get_bool_value(dict, "isHidden", report);
                let is_magic = audit_get_bool_value(dict, "isMagic", report);
                let is_favourite = audit_get_bool_value(dict, "isFavorite", report);
                let is_in_trash = audit_get_bool_value(dict, "isInTrash", report);
                let is_expanded = audit_get_bool_value(dict, "isExpanded", report);
                let is_hidden_when_empty = audit_get_bool_value(dict, "isHiddenWhenEmpty", report);
                let poster_version_uuid = audit_get_str_value(dict, "posterVersionUuid", report);
                let notes = NotesProperties::from(notes, report);
                let result = Folder {
                    uuid,
                    parent_uuid,
                    model_id,
                    folder_type,
                    db_version,
                    project_version,
                    path,
                    name,
                    implicit_album_uuid,
                    colour_label_index,
                    create_date,
                    sort_key_path,
                    sort_ascending,
                    is_hidden,
                    is_magic,
                    is_favourite,
                    is_in_trash,
                    is_expanded,
                    is_hidden_when_empty,
                    poster_version_uuid,
                    notes,
                };
                report.skip("CustomOrderList", SkipReason::Ignore);
                report.skip("projectCompatibleBackToVersion", SkipReason::Ignore);
                report.skip("automaticallyGenerateFullSizePreviews", SkipReason::Ignore);
                report.audit_ignored(dict, None);
                Some(result)
            },
            _ => None,
        }
    }
}


impl AplibObject for Folder {
    open spec fn spec_uuid(&self) -> Option<String> {
        self.uuid
    }

    open spec fn spec_parent(&self) -> Option<String> {
        self.parent_uuid
    }

    open spec fn spec_model_id(&self) -> Option<i64> {
        self.model_id
    }

    open spec fn spec_obj_type(&self) -> AplibType {
        AplibType::Folder
    }

    open spec fn spec_wrapped(&self, w: Wrapper) -> bool {
        match w {
            Wrapper::Folder(b) => *b == *self,
            _ => false,
        }
    }

    fn wrap(obj: Folder) -> (w: Wrapper) {
        Wrapper::Folder(Box::new(obj))
    }

    fn obj_type(&self) -> (t: AplibType) {
        AplibType::Folder
    }

    fn is_valid(&self) -> (r: bool) {
        self.uuid.is_some()
    }

    fn uuid(&self) -> (r: &Option<String>) {
        &self.uuid
    }

    fn parent(&self) -> (r: &Option<String>) {
        &self.parent_uuid
    }

    fn model_id(&self) -> (r: i64) {
        match &self.model_id {
            Some(i) => *i,
            None => 0,
        }
    }
}

} // verus!
