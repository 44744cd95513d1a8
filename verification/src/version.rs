/*
 This Source Code Form is subject to the terms of the Mozilla Public
 License, v. 2.0. If a copy of the MPL was not distributed with this
 file, You can obtain one at http://mozilla.org/MPL/2.0/.
*/

//! Version records: the rendered images, with their nested metadata bags.

use vstd::prelude::*;

use crate::audit::{audit_get_array_value, audit_get_bool_value, audit_get_date_value,
    audit_get_dict_value, audit_get_int_value, audit_get_str_value, step_get, step_ignored,
    step_skip, AuditView, Report, SkipReason};
use crate::custominfo::{custominfo_fields_match, custominfo_opt_audit, CustomInfoProperties};
use crate::exif::{exif_bag, exif_keys, exif_opt_audit, exif_xmp_fold, ExifProperties};
use crate::iptc::{iptc_bag, iptc_keys, iptc_opt_audit, iptc_xmp_fold, IptcProperties};
use crate::plutils::{duplicate_values, lookup_array, lookup_bool, lookup_date, lookup_dict,
    lookup_int, lookup_str, values_like, Dictionary, PlistDate, Value};
use crate::store::Wrapper;
use crate::xmp::{ToXmp, Xmp, XmpValueView};
use crate::{AplibObject, AplibType, PlistLoadable};

verus! {

/// A rendered image. There is one for the original, and one per actual
/// version. A `Version` is associated with a `Master`.
#[derive(Debug)]
pub struct Version {
    pub uuid: Option<String>,
    pub model_id: Option<i64>,
    /// The associated `Master`.
    pub master_uuid: Option<String>,
    /// uuid of the `Folder` project this resides in.
    pub project_uuid: Option<String>,
    /// uuid of the raw `Master`.
    pub raw_master_uuid: Option<String>,
    /// uuid of the non raw `Master`.
    pub nonraw_master_uuid: Option<String>,
    pub timezone_name: Option<String>,
    pub create_date: Option<PlistDate>,
    pub image_date: Option<PlistDate>,
    pub export_image_change_date: Option<PlistDate>,
    pub export_metadata_change_date: Option<PlistDate>,
    pub version_number: Option<i64>,
    pub db_version: Option<i64>,
    pub db_minor_version: Option<i64>,
    pub is_flagged: Option<bool>,
    /// Indicates the version is the original.
    pub is_original: Option<bool>,
    pub is_editable: Option<bool>,
    pub is_hidden: Option<bool>,
    pub is_in_trash: Option<bool>,
    pub file_name: Option<String>,
    pub name: Option<String>,
    pub rating: Option<i64>,
    pub rotation: Option<i64>,
    pub colour_label_index: Option<i64>,
    pub iptc: Option<IptcProperties>,
    pub exif: Option<ExifProperties>,
    pub custom_info: Option<CustomInfoProperties>,
    pub keywords: Option<Vec<Value>>,
}

/// Whether `v` holds exactly the typed fields of `d`, nested bags
/// included.
pub open spec fn version_fields_match(v: Version, d: Dictionary) -> bool {
    &&& v.uuid == lookup_str(d, "uuid"@)
    &&& v.master_uuid == lookup_str(d, "masterUuid"@)
    &&& v.project_uuid == lookup_str(d, "projectUuid"@)
    &&& v.raw_master_uuid == lookup_str(d, "rawMasterUuid"@)
    &&& v.nonraw_master_uuid == lookup_str(d, "nonRawMasterUuid"@)
    &&& v.timezone_name == lookup_str(d, "imageTimeZoneName"@)
    &&& v.create_date == lookup_date(d, "createDate"@)
    &&& v.image_date == lookup_date(d, "imageDate"@)
    &&& v.export_image_change_date == lookup_date(d, "exportImageChangeDate"@)
    &&& v.export_metadata_change_date == lookup_date(d, "exportMetadataChangeDate"@)
    &&& v.version_number == lookup_int(d, "versionNumber"@)
    &&& v.db_version == lookup_int(d, "version"@)
    &&& v.db_minor_version == lookup_int(d, "minorVersion"@)
    &&& v.is_flagged == lookup_bool(d, "isFlagged"@)
    &&& v.is_original == lookup_bool(d, "isOriginal"@)
    &&& v.is_editable == lookup_bool(d, "isEditable"@)
    &&& v.is_hidden == lookup_bool(d, "isHidden"@)
    &&& v.is_in_trash == lookup_bool(d, "isInTrash"@)
    &&& v.file_name == lookup_str(d, "fileName"@)
    &&& v.name == lookup_str(d, "name"@)
    &&& v.model_id == lookup_int(d, "modelId"@)
    &&& v.rating == lookup_int(d, "mainRating"@)
    &&& v.rotation == lookup_int(d, "rotation"@)
    &&& v.colour_label_index == lookup_int(d, "colorLabelIndex"@)
    &&& match (lookup_dict(d, "iptcProperties"@), v.iptc) {
        (Some(b), Some(p)) => p.bag.map_view() == iptc_bag(b.pairs()) && p.bag.keys_view()
            == iptc_keys(b.pairs()),
        (None, None) => true,
        _ => false,
    }
    &&& match (lookup_dict(d, "exifProperties"@), v.exif) {
        (Some(b), Some(p)) => p.bag.map_view() == exif_bag(b.pairs()) && p.bag.keys_view()
            == exif_keys(b.pairs()),
        (None, None) => true,
        _ => false,
    }
    &&& match (lookup_dict(d, "customInfo"@), v.custom_info) {
        (Some(b), Some(c)) => custominfo_fields_match(c, b),
        (None, None) => true,
        _ => false,
    }
    &&& match (lookup_array(d, "keywords"@), v.keywords) {
        (Some(a), Some(k)) => values_like(k@, a),
        (None, None) => true,
        _ => false,
    }
}

/// The audit trail of loading a version: the three nested dictionaries
/// fetched, every field key parsed or skipped, the nested bags audited
/// under their prefixes, a batch of bookkeeping keys deliberately
/// ignored, then everything else marked ignored.
pub open spec fn version_audit(v: AuditView, d: Dictionary) -> AuditView {
    let v1 = step_get(v, "iptcProperties"@, lookup_dict(d, "iptcProperties"@) is Some);
    let v2 = step_get(v1, "exifProperties"@, lookup_dict(d, "exifProperties"@) is Some);
    let v3 = step_get(v2, "customInfo"@, lookup_dict(d, "customInfo"@) is Some);
    let v4 = step_get(v3, "uuid"@, lookup_str(d, "uuid"@) is Some);
    let v5 = step_get(v4, "masterUuid"@, lookup_str(d, "masterUuid"@) is Some);
    let v6 = step_get(v5, "projectUuid"@, lookup_str(d, "projectUuid"@) is Some);
    let v7 = step_get(v6, "rawMasterUuid"@, lookup_str(d, "rawMasterUuid"@) is Some);
    let v8 = step_get(v7, "nonRawMasterUuid"@, lookup_str(d, "nonRawMasterUuid"@) is Some);
    let v9 = step_get(v8, "imageTimeZoneName"@, lookup_str(d, "imageTimeZoneName"@) is Some);
    let v10 = step_get(v9, "createDate"@, lookup_date(d, "createDate"@) is Some);
    let v11 = step_get(v10, "imageDate"@, lookup_date(d, "imageDate"@) is Some);
    let v12 = step_get(
        v11,
        "exportImageChangeDate"@,
        lookup_date(d, "exportImageChangeDate"@) is Some,
    );
    let v13 = step_get(
        v12,
        "exportMetadataChangeDate"@,
        lookup_date(d, "exportMetadataChangeDate"@) is Some,
    );
    let v14 = step_get(v13, "versionNumber"@, lookup_int(d, "versionNumber"@) is Some);
    let v15 = step_get(v14, "version"@, lookup_int(d, "version"@) is Some);
    let v16 = step_get(v15, "minorVersion"@, lookup_int(d, "minorVersion"@) is Some);
    let v17 = step_get(v16, "isFlagged"@, lookup_bool(d, "isFlagged"@) is Some);
    let v18 = step_get(v17, "isOriginal"@, lookup_bool(d, "isOriginal"@) is Some);
    let v19 = step_get(v18, "isEditable"@, lookup_bool(d, "isEditable"@) is Some);
    let v20 = step_get(v19, "isHidden"@, lookup_bool(d, "isHidden"@) is Some);
    let v21 = step_get(v20, "isInTrash"@, lookup_bool(d, "isInTrash"@) is Some);
    let v22 = step_get(v21, "fileName"@, lookup_str(d, "fileName"@) is Some);
    let v23 = step_get(v22, "name"@, lookup_str(d, "name"@) is Some);
    let v24 = step_get(v23, "modelId"@, lookup_int(d, "modelId"@) is Some);
    let v25 = step_get(v24, "mainRating"@, lookup_int(d, "mainRating"@) is Some);
    let v26 = step_get(v25, "rotation"@, lookup_int(d, "rotation"@) is Some);
    let v27 = step_get(v26, "colorLabelIndex"@, lookup_int(d, "colorLabelIndex"@) is Some);
    let v28 = iptc_opt_audit(v27, lookup_dict(d, "iptcProperties"@));
    let v29 = exif_opt_audit(v28, lookup_dict(d, "exifProperties"@));
    let v30 = custominfo_opt_audit(v29, lookup_dict(d, "customInfo"@));
    let v31 = step_get(v30, "keywords"@, lookup_array(d, "keywords"@) is Some);
    let v32 = step_skip(v31, "statistics"@, SkipReason::Ignore);
    let v33 = step_skip(v32, "thumbnailGroup"@, SkipReason::Ignore);
    let v34 = step_skip(v33, "faceDetectionIsFromPreview"@, SkipReason::Ignore);
    let v35 = step_skip(v34, "processedHeight"@, SkipReason::Ignore);
    let v36 = step_skip(v35, "processedWidth"@, SkipReason::Ignore);
    let v37 = step_skip(v36, "masterHeight"@, SkipReason::Ignore);
    let v38 = step_skip(v37, "masterWidth"@, SkipReason::Ignore);
    let v39 = step_skip(v38, "supportedStatus"@, SkipReason::Ignore);
    let v40 = step_skip(v39, "showInLibrary"@, SkipReason::Ignore);
    let v41 = step_skip(v40, "adjustmentProperties"@, SkipReason::Ignore);
    let v42 = step_skip(v41, "RKImageAdjustments"@, SkipReason::Ignore);
    let v43 = step_skip(v42, "hasAdjustments"@, SkipReason::Ignore);
    let v44 = step_skip(v43, "hasEnabledAdjustments"@, SkipReason::Ignore);
    let v45 = step_skip(v44, "renderVersion"@, SkipReason::Ignore);
    let v46 = step_skip(v45, "imageProxyState"@, SkipReason::Ignore);
    let v47 = step_skip(v46, "plistWriteTimestamp"@, SkipReason::Ignore);
    step_ignored(v47, d, None)
}

impl PlistLoadable for Version {
    /// Load a version from the root value of its plist document. `None`
    /// exactly when the root is not a dictionary.
    fn from_plist(plist: &Value, report: &mut Report) -> (r: Option<Version>)
        ensures
            match (plist, r) {
                (Value::Dict(d), Some(v)) => version_fields_match(v, *d)
                    && final(report).audit_view() == version_audit(old(report).audit_view(), *d),
                (Value::Dict(d), None) => false,
                (_, None) => final(report).audit_view() == old(report).audit_view(),
                _ => false,
            },
    {
        match plist {
            Value::Dict(dict) => {
                let iptc = audit_get_dict_value(dict, "iptcProperties", report);
                let exif = audit_get_dict_value(dict, "exifProperties", report);
                let custom_info = audit_get_dict_value(dict, "customInfo", report);
                let uuid = audit_get_str_value(dict, "uuid", report);
                let master_uuid = audit_get_str_value(dict, "masterUuid", report);
                let project_uuid = audit_get_str_value(dict, "projectUuid", report);
                let raw_master_uuid = audit_get_str_value(dict, "rawMasterUuid", report);
                let nonraw_master_uuid = audit_get_str_value(dict, "nonRawMasterUuid", report);
                let timezone_name = audit_get_str_value(dict, "imageTimeZoneName", report);
                let create_date = audit_get_date_value(dict, "createDate", report);
                let image_date = audit_get_date_value(dict, "imageDate", report);
                let export_image_change_date = audit_get_date_value(
                    dict,
                    "exportImageChangeDate",
                    report,
                );
                let export_metadata_change_date = audit_get_date_value(
                    dict,
                    "exportMetadataChangeDate",
                    report,
                );
                let version_number = audit_get_int_value(dict, "versionNumber", report);
                let db_version = audit_get_int_value(dict, "version", report);
                let db_minor_version = audit_get_int_value(dict, "minorVersion", report);
                let is_flagged = audit_get_bool_value(dict, "isFlagged", report);
                let is_original = audit_get_bool_value(dict, "isOriginal", report);
                let is_editable = audit_get_bool_value(dict, "isEditable", report);
                let is_hidden = audit_get_bool_value(dict, "isHidden", report);
                let is_in_trash = audit_get_bool_value(dict, "isInTrash", report);
                let file_name = audit_get_str_value(dict, "fileName", report);
                let name = audit_get_str_value(dict, "name", report);
                let model_id = audit_get_int_value(dict, "modelId", report);
                let rating = audit_get_int_value(dict, "mainRating", report);
                let rotation = audit_get_int_value(dict, "rotation", report);
                let colour_label_index = audit_get_int_value(dict, "colorLabelIndex", report);
                let iptc = IptcProperties::from(iptc, report);
                let exif = ExifProperties::from(exif, report);
                let custom_info = CustomInfoProperties::from(custom_info, report);
                let keywords = match audit_get_array_value(dict, "keywords", report) {
                    Some(a) => Some(duplicate_values(a)),
                    None => None,
                };
                let result = Version {
                    uuid,
                    model_id,
                    master_uuid,
                    project_uuid,
                    raw_master_uuid,
                    nonraw_master_uuid,
                    timezone_name,
                    create_date,
                    image_date,
                    export_image_change_date,
                    export_metadata_change_date,
                    version_number,
                    db_version,
                    db_minor_version,
                    is_flagged,
                    is_original,
                    is_editable,
                    is_hidden,
                    is_in_trash,
                    file_name,
                    name,
                    rating,
                    rotation,
                    colour_label_index,
                    iptc,
                    exif,
                    custom_info,
                    keywords,
                };
                report.skip("statistics", SkipReason::Ignore);
                report.skip("thumbnailGroup", SkipReason::Ignore);
                report.skip("faceDetectionIsFromPreview", SkipReason::Ignore);
                report.skip("processedHeight", SkipReason::Ignore);
                report.skip("processedWidth", SkipReason::Ignore);
                report.skip("masterHeight", SkipReason::Ignore);
                report.skip("masterWidth", SkipReason::Ignore);
                report.skip("supportedStatus", SkipReason::Ignore);
                report.skip("showInLibrary", SkipReason::Ignore);
                report.skip("adjustmentProperties", SkipReason::Ignore);
                report.skip("RKImageAdjustments", SkipReason::Ignore);
                report.skip("hasAdjustments", SkipReason::Ignore);
                report.skip("hasEnabledAdjustments", SkipReason::Ignore);
                report.skip("renderVersion", SkipReason::Ignore);
                report.skip("imageProxyState", SkipReason::Ignore);
                report.skip("plistWriteTimestamp", SkipReason::Ignore);
                report.audit_ignored(dict, None);
                Some(result)
            },
            _ => None,
        }
    }
}

/// The property map after pushing a whole version's metadata into XMP:
/// the Exif bag first, then the IPTC bag, so IPTC values overwrite Exif
/// values that land on the same property.
pub open spec fn version_xmp(
    props: Map<(Seq<char>, Seq<char>), XmpValueView>,
    v: Version,
) -> Map<(Seq<char>, Seq<char>), XmpValueView> {
    let after_exif = match v.exif {
        Some(e) => exif_xmp_fold(props, e.bag.keys_view(), e.bag.map_view()),
        None => props,
    };
    match v.iptc {
        Some(p) => iptc_xmp_fold(after_exif, p.bag.keys_view(), p.bag.map_view()),
        None => after_exif,
    }
}

impl ToXmp for Version {
    /// Push the version's metadata into `xmp`: the Exif data first, so
    /// the IPTC data takes precedence where both write one property.
    fn to_xmp(&self, xmp: &mut Xmp) -> (r: bool)
        ensures
            r,
            final(xmp).props() == version_xmp(old(xmp).props(), *self),
    {
        if let Some(exif) = &self.exif {
            exif.to_xmp(xmp);
        }
        if let Some(iptc) = &self.iptc {
            iptc.to_xmp(xmp);
        }
        true
    }
}


impl AplibObject for Version {
    open spec fn spec_uuid(&self) -> Option<String> {
        self.uuid
    }

    open spec fn spec_parent(&self) -> Option<String> {
        self.master_uuid
    }

    open spec fn spec_model_id(&self) -> Option<i64> {
        self.model_id
    }

    open spec fn spec_obj_type(&self) -> AplibType {
        AplibType::Version
    }

    open spec fn spec_wrapped(&self, w: Wrapper) -> bool {
        match w {
            Wrapper::Version(b) => *b == *self,
            _ => false,
        }
    }

    fn wrap(obj: Version) -> (w: Wrapper) {
        Wrapper::Version(Box::new(obj))
    }

    fn obj_type(&self) -> (t: AplibType) {
        AplibType::Version
    }

    fn is_valid(&self) -> (r: bool) {
        self.uuid.is_some()
    }

    fn uuid(&self) -> (r: &Option<String>) {
        &self.uuid
    }

    fn parent(&self) -> (r: &Option<String>) {
        &self.master_uuid
    }

    fn model_id(&self) -> (r: i64) {
        match &self.model_id {
            Some(i) => *i,
            None => 0,
        }
    }
}

} // verus!
