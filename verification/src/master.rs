/*
 This Source Code Form is subject to the terms of the Mozilla Public
 License, v. 2.0. If a copy of the MPL was not distributed with this
 file, You can obtain one at http://mozilla.org/MPL/2.0/.
*/

//! Master records: the files backing the images.

use vstd::prelude::*;

use crate::audit::{audit_get_array_value, audit_get_bool_value, audit_get_data_value,
    audit_get_date_value, audit_get_int_value, audit_get_str_value, step_get, step_ignored,
    step_skip, AuditView, Report, SkipReason};
use crate::store::Wrapper;
use crate::{AplibObject, AplibType, PlistLoadable};
use crate::notes::{notes_opt_audit, notes_opt_match, NotesProperties};
use crate::plutils::{lookup_array, lookup_bool, lookup_data, lookup_date, lookup_int, lookup_str,
    Dictionary, PlistDate, Value};

verus! {

/// A `Master` is a file backing an image (`Version`).
#[derive(Debug)]
pub struct Master {
    pub uuid: Option<String>,
    pub model_id: Option<i64>,
    pub project_uuid: Option<String>,
    /// If it is RAW+JPEG, there is another master.
    pub alternate_master: Option<String>,
    /// uuid of the original version
    pub original_version_uuid: Option<String>,
    pub import_group_uuid: Option<String>,
    pub filename: Option<String>,
    pub name: Option<String>,
    pub original_version_name: Option<String>,
    pub db_version: Option<i64>,
    pub master_type: Option<String>,
    pub subtype: Option<String>,
    pub image_path: Option<String>,
    pub is_reference: Option<bool>,
    pub is_truly_raw: Option<bool>,
    pub is_in_trash: Option<bool>,
    pub is_missing: Option<bool>,
    pub is_externaly_editable: Option<bool>,
    pub create_date: Option<PlistDate>,
    pub image_date: Option<PlistDate>,
    pub file_creation_date: Option<PlistDate>,
    pub file_modification_date: Option<PlistDate>,
    pub original_file_name: Option<String>,
    pub file_size: Option<i64>,
    pub file_volume_uuid: Option<String>,
    pub color_space_name: Option<String>,
    pub pixel_format: Option<i64>,
    pub has_focus_points: Option<i64>,
    pub image_format: Option<i64>,
    pub notes: Option<Vec<NotesProperties>>,
    pub colour_space_definition: Option<Vec<u8>>,
    pub face_detection_state: Option<i64>,
}

/// Whether `m` holds exactly the typed fields of `d`, each `None` where
/// the key is absent or differently typed.
pub open spec fn master_fields_match(m: Master, d: Dictionary) -> bool {
    &&& m.uuid == lookup_str(d, "uuid"@)
    &&& m.alternate_master == lookup_str(d, "alternateMasterUuid"@)
    &&& m.original_version_uuid == lookup_str(d, "originalVersionUuid"@)
    &&& m.project_uuid == lookup_str(d, "projectUuid"@)
    &&& m.import_group_uuid == lookup_str(d, "importGroupUuid"@)
    &&& m.filename == lookup_str(d, "fileName"@)
    &&& m.name == lookup_str(d, "name"@)
    &&& m.original_version_name == lookup_str(d, "originalVersionName"@)
    &&& m.original_file_name == lookup_str(d, "originalFileName"@)
    &&& m.file_volume_uuid == lookup_str(d, "fileVolumeUuid"@)
    &&& m.db_version == lookup_int(d, "version"@)
    &&& m.master_type == lookup_str(d, "type"@)
    &&& m.subtype == lookup_str(d, "subtype"@)
    &&& m.model_id == lookup_int(d, "modelId"@)
    &&& m.image_path == lookup_str(d, "imagePath"@)
    &&& m.file_size == lookup_int(d, "fileSize"@)
    &&& m.is_reference == lookup_bool(d, "fileIsReference"@)
    &&& m.is_externaly_editable == lookup_bool(d, "isExternallyEditable"@)
    &&& m.is_in_trash == lookup_bool(d, "isInTrash"@)
    &&& m.is_missing == lookup_bool(d, "isMissing"@)
    &&& m.is_truly_raw == lookup_bool(d, "isTrulyRaw"@)
    &&& m.color_space_name == lookup_str(d, "colorSpaceName"@)
    &&& m.create_date == lookup_date(d, "createDate"@)
    &&& m.image_date == lookup_date(d, "imageDate"@)
    &&& m.file_creation_date == lookup_date(d, "fileCreationDate"@)
    &&& m.file_modification_date == lookup_date(d, "fileModificationDate"@)
    &&& m.has_focus_points == lookup_int(d, "hasFocusPoints"@)
    &&& m.image_format == lookup_int(d, "imageFormat"@)
    &&& m.pixel_format == lookup_int(d, "pixelFormat"@)
    &&& match m.colour_space_definition {
        Some(v) => lookup_data(d, "colorSpaceDefinition"@) == Some(v@),
        None => lookup_data(d, "colorSpaceDefinition"@) is None,
    }
    &&& notes_opt_match(lookup_array(d, "notes"@), m.notes)
    &&& m.face_detection_state == lookup_int(d, "faceDetectionState"@)
}

/// The audit trail of loading a master: every field key parsed or skipped,
/// the notes elements audited, a few bookkeeping keys deliberately
/// ignored, then everything else marked ignored.
pub open spec fn master_audit(v: AuditView, d: Dictionary) -> AuditView {
    let v1 = step_get(v, "notes"@, lookup_array(d, "notes"@) is Some);
    let v2 = step_get(v1, "uuid"@, lookup_str(d, "uuid"@) is Some);
    let v3 = step_get(v2, "alternateMasterUuid"@, lookup_str(d, "alternateMasterUuid"@) is Some);
    let v4 = step_get(v3, "originalVersionUuid"@, lookup_str(d, "originalVersionUuid"@) is Some);
    let v5 = step_get(v4, "projectUuid"@, lookup_str(d, "projectUuid"@) is Some);
    let v6 = step_get(v5, "importGroupUuid"@, lookup_str(d, "importGroupUuid"@) is Some);
    let v7 = step_get(v6, "fileName"@, lookup_str(d, "fileName"@) is Some);
    let v8 = step_get(v7, "name"@, lookup_str(d, "name"@) is Some);
    let v9 = step_get(v8, "originalVersionName"@, lookup_str(d, "originalVersionName"@) is Some);
    let v10 = step_get(v9, "originalFileName"@, lookup_str(d, "originalFileName"@) is Some);
    let v11 = step_get(v10, "fileVolumeUuid"@, lookup_str(d, "fileVolumeUuid"@) is Some);
    let v12 = step_get(v11, "version"@, lookup_int(d, "version"@) is Some);
    let v13 = step_get(v12, "type"@, lookup_str(d, "type"@) is Some);
    let v14 = step_get(v13, "subtype"@, lookup_str(d, "subtype"@) is Some);
    let v15 = step_get(v14, "modelId"@, lookup_int(d, "modelId"@) is Some);
    let v16 = step_get(v15, "imagePath"@, lookup_str(d, "imagePath"@) is Some);
    let v17 = step_get(v16, "fileSize"@, lookup_int(d, "fileSize"@) is Some);
    let v18 = step_get(v17, "fileIsReference"@, lookup_bool(d, "fileIsReference"@) is Some);
    let v19 = step_get(
        v18,
        "isExternallyEditable"@,
        lookup_bool(d, "isExternallyEditable"@) is Some,
    );
    let v20 = step_get(v19, "isInTrash"@, lookup_bool(d, "isInTrash"@) is Some);
    let v21 = step_get(v20, "isMissing"@, lookup_bool(d, "isMissing"@) is Some);
    let v22 = step_get(v21, "isTrulyRaw"@, lookup_bool(d, "isTrulyRaw"@) is Some);
    let v23 = step_get(v22, "colorSpaceName"@, lookup_str(d, "colorSpaceName"@) is Some);
    let v24 = step_get(v23, "createDate"@, lookup_date(d, "createDate"@) is Some);
    let v25 = step_get(v24, "imageDate"@, lookup_date(d, "imageDate"@) is Some);
    let v26 = step_get(v25, "fileCreationDate"@, lookup_date(d, "fileCreationDate"@) is Some);
    let v27 = step_get(
        v26,
        "fileModificationDate"@,
        lookup_date(d, "fileModificationDate"@) is Some,
    );
    let v28 = step_get(v27, "hasFocusPoints"@, lookup_int(d, "hasFocusPoints"@) is Some);
    let v29 = step_get(v28, "imageFormat"@, lookup_int(d, "imageFormat"@) is Some);
    let v30 = step_get(v29, "pixelFormat"@, lookup_int(d, "pixelFormat"@) is Some);
    let v31 = step_get(
        v30,
        "colorSpaceDefinition"@,
        lookup_data(d, "colorSpaceDefinition"@) is Some,
    );
    let v32 = notes_opt_audit(v31, lookup_array(d, "notes"@));
    let v33 = step_get(v32, "faceDetectionState"@, lookup_int(d, "faceDetectionState"@) is Some);
    let v34 = step_skip(v33, "fileAliasData"@, SkipReason::Ignore);
    let v35 = step_skip(v34, "importedBy"@, SkipReason::Ignore);
    let v36 = step_skip(v35, "importGroup"@, SkipReason::Ignore);
    let v37 = step_skip(v36, "plistWriteTimestamp"@, SkipReason::Ignore);
    step_ignored(v37, d, None)
}

impl PlistLoadable for Master {
    /// Load a master from the root value of its plist document. `None`
    /// exactly when the root is not a dictionary.
    fn from_plist(plist: &Value, report: &mut Report) -> (r: Option<Master>)
        ensures
            match (plist, r) {
                (Value::Dict(d), Some(m)) => master_fields_match(m, *d)
                    && final(report).audit_view() == master_audit(old(report).audit_view(), *d),
                (Value::Dict(d), None) => false,
                (_, None) => final(report).audit_view() == old(report).audit_view(),
                _ => false,
            },
    {
        match plist {
            Value::Dict(dict) => {
                let notes = audit_get_array_value(dict, "notes", report);
                let uuid = audit_get_str_value(dict, "uuid", report);
                let alternate_master = audit_get_str_value(dict, "alternateMasterUuid", report);
                let original_version_uuid = audit_get_str_value(
                    dict,
                    "originalVersionUuid",
                    report,
                );
                let project_uuid = audit_get_str_value(dict, "projectUuid", report);
                let import_group_uuid = audit_get_str_value(dict, "importGroupUuid", report);
                let filename = audit_get_str_value(dict, "fileName", report);
                let name = audit_get_str_value(dict, "name", report);
                let original_version_name = audit_get_str_value(
                    dict,
                    "originalVersionName",
                    report,
                );
                let original_file_name = audit_get_str_value(dict, "originalFileName", report);
                let file_volume_uuid = audit_get_str_value(dict, "fileVolumeUuid", report);
                let db_version = audit_get_int_value(dict, "version", report);
                let master_type = audit_get_str_value(dict, "type", report);
                let subtype = audit_get_str_value(dict, "subtype", report);
                let model_id = audit_get_int_value(dict, "modelId", report);
                let image_path = audit_get_str_value(dict, "imagePath", report);
                let file_size = audit_get_int_value(dict, "fileSize", report);
                let is_reference = audit_get_bool_value(dict, "fileIsReference", report);
                let is_externaly_editable = audit_get_bool_value(
                    dict,
                    "isExternallyEditable",
                    report,
                );
                let is_in_trash = audit_get_bool_value(dict, "isInTrash", report);
                let is_missing = audit_get_bool_value(dict, "isMissing", report);
                let is_truly_raw = audit_get_bool_value(dict, "isTrulyRaw", report);
                let color_space_name = audit_get_str_value(dict, "colorSpaceName", report);
                let create_date = audit_get_date_value(dict, "createDate", report);
                let image_date = audit_get_date_value(dict, "imageDate", report);
                let file_creation_date = audit_get_date_value(dict, "fileCreationDate", report);
                let file_modification_date = audit_get_date_value(
                    dict,
                    "fileModificationDate",
                    report,
                );
                let has_focus_points = audit_get_int_value(dict, "hasFocusPoints", report);
                let image_format = audit_get_int_value(dict, "imageFormat", report);
                let pixel_format = audit_get_int_value(dict, "pixelFormat", report);
                let colour_space_definition = audit_get_data_value(
                    dict,
                    "colorSpaceDefinition",
                    report,
                );
                let notes = NotesProperties::from(notes, report);
                let face_detection_state = audit_get_int_value(dict, "faceDetectionState", report);
                let result = Master {
                    uuid,
                    model_id,
                    project_uuid,
                    alternate_master,
                    original_version_uuid,
                    import_group_uuid,
                    filename,
                    name,
                    original_version_name,
                    db_version,
                    master_type,
                    subtype,
                    image_path,
                    is_reference,
                    is_truly_raw,
                    is_in_trash,
                    is_missing,
                    is_externaly_editable,
                    create_date,
                    image_date,
                    file_creation_date,
                    file_modification_date,
                    original_file_name,
                    file_size,
                    file_volume_uuid,
                    color_space_name,
                    pixel_format,
                    has_focus_points,
                    image_format,
                    notes,
                    colour_space_definition,
                    face_detection_state,
                };
                report.skip("fileAliasData", SkipReason::Ignore);
                report.skip("importedBy", SkipReason::Ignore);
                report.skip("importGroup", SkipReason::Ignore);
                report.skip("plistWriteTimestamp", SkipReason::Ignore);
                report.audit_ignored(dict, None);
                Some(result)
            },
            _ => None,
        }
    }
}


impl AplibObject for Master {
    open spec fn spec_uuid(&self) -> Option<String> {
        self.uuid
    }

    open spec fn spec_parent(&self) -> Option<String> {
        self.project_uuid
    }

    open spec fn spec_model_id(&self) -> Option<i64> {
        self.model_id
    }

    open spec fn spec_obj_type(&self) -> AplibType {
        AplibType::Master
    }

    open spec fn spec_wrapped(&self, w: Wrapper) -> bool {
        match w {
            Wrapper::Master(b) => *b == *self,
            _ => false,
        }
    }

    fn wrap(obj: Master) -> (w: Wrapper) {
        Wrapper::Master(Box::new(obj))
    }

    fn obj_type(&self) -> (t: AplibType) {
        AplibType::Master
    }

    fn is_valid(&self) -> (r: bool) {
        self.uuid.is_some()
    }

    fn uuid(&self) -> (r: &Option<String>) {
        &self.uuid
    }

    fn parent(&self) -> (r: &Option<String>) {
        &self.project_uuid
    }

    fn model_id(&self) -> (r: i64) {
        match &self.model_id {
            Some(i) => *i,
            None => 0,
        }
    }
}

} // verus!
