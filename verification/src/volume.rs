/*
 This Source Code Form is subject to the terms of the Mozilla Public
 License, v. 2.0. If a copy of the MPL was not distributed with this
 file, You can obtain one at http://mozilla.org/MPL/2.0/.
*/

//! Volume records: the disks that referenced masters live on.
//!
//! A volume loads either from its own plist file or, for library versions
//! that keep no per-volume file, from one row of the `RKVolume` database
//! table. Reading the database happens outside this crate; the row's
//! column values are handed in as plain data, in the table's column order
//! (model id, uuid, volume name, disk uuid).

use vstd::prelude::*;

use crate::store::Wrapper;
use crate::{AplibObject, AplibType, PlistLoadable};
use crate::audit::{audit_get_int_value, audit_get_str_value, step_get, AuditView, Report};
use crate::plutils::{lookup_int, lookup_str, Dictionary, Value};

verus! {

/// A volume.
#[derive(Debug)]
pub struct Volume {
    pub uuid: Option<String>,
    pub model_id: Option<i64>,
    pub disk_uuid: Option<String>,
    pub volume_name: Option<String>,
}

/// Whether `v` holds exactly the typed fields of `d`.
pub open spec fn volume_fields_match(v: Volume, d: Dictionary) -> bool {
    &&& v.uuid == lookup_str(d, "uuid"@)
    &&& v.model_id == lookup_int(d, "modelId"@)
    &&& v.disk_uuid == lookup_str(d, "diskUuid"@)
    &&& v.volume_name == lookup_str(d, "volumeName"@)
}

/// The audit trail of loading a volume from its plist.
pub open spec fn volume_audit(v: AuditView, d: Dictionary) -> AuditView {
    let v1 = step_get(v, "uuid"@, lookup_str(d, "uuid"@) is Some);
    let v2 = step_get(v1, "modelId"@, lookup_int(d, "modelId"@) is Some);
    let v3 = step_get(v2, "diskUuid"@, lookup_str(d, "diskUuid"@) is Some);
    step_get(v3, "volumeName"@, lookup_str(d, "volumeName"@) is Some)
}

impl Volume {
    /// The database table volumes live in.
    pub fn table() -> (r: &'static str)
        ensures
            r@ == "RKVolume"@,
    {
        "RKVolume"
    }

    /// The table's columns, in the order `from_row_values` expects.
    pub fn columns() -> (r: &'static str)
        ensures
            r@ == "modelId, uuid, name, diskUuid"@,
    {
        "modelId, uuid, name, diskUuid"
    }

    /// Build a volume from the values of one database row, in column
    /// order. The database path is not audited.
    pub fn from_row_values(
        model_id: Option<i64>,
        uuid: Option<String>,
        volume_name: Option<String>,
        disk_uuid: Option<String>,
    ) -> (v: Volume)
        ensures
            v.model_id == model_id,
            v.uuid == uuid,
            v.volume_name == volume_name,
            v.disk_uuid == disk_uuid,
    {
        Volume { uuid, model_id, disk_uuid, volume_name }
    }

}

impl PlistLoadable for Volume {
    /// Load a volume from the root value of its plist document. `None`
    /// exactly when the root is not a dictionary.
    fn from_plist(plist: &Value, report: &mut Report) -> (r: Option<Volume>)
        ensures
            match (plist, r) {
                (Value::Dict(d), Some(v)) => volume_fields_match(v, *d)
                    && final(report).audit_view() == volume_audit(old(report).audit_view(), *d),
                (Value::Dict(d), None) => false,
                (_, None) => final(report).audit_view() == old(report).audit_view(),
                _ => false,
            },
    {
        match plist {
            Value::Dict(dict) => Some(
                Volume {
                    uuid: audit_get_str_value(dict, "uuid", report),
                    model_id: audit_get_int_value(dict, "modelId", report),
                    disk_uuid: audit_get_str_value(dict, "diskUuid", report),
                    volume_name: audit_get_str_value(dict, "volumeName", report),
                },
            ),
            _ => None,
        }
    }
}


impl AplibObject for Volume {
    open spec fn spec_uuid(&self) -> Option<String> {
        self.uuid
    }

    open spec fn spec_parent(&self) -> Option<String> {
        None
    }

    open spec fn spec_model_id(&self) -> Option<i64> {
        self.model_id
    }

    open spec fn spec_obj_type(&self) -> AplibType {
        AplibType::Volume
    }

    open spec fn spec_wrapped(&self, w: Wrapper) -> bool {
        match w {
            Wrapper::Volume(b) => *b == *self,
            _ => false,
        }
    }

    fn wrap(obj: Volume) -> (w: Wrapper) {
        Wrapper::Volume(Box::new(obj))
    }

    fn obj_type(&self) -> (t: AplibType) {
        AplibType::Volume
    }

    fn is_valid(&self) -> (r: bool) {
        self.uuid.is_some()
    }

    fn uuid(&self) -> (r: &Option<String>) {
        &self.uuid
    }

    fn parent(&self) -> (r: &Option<String>) {
        &None
    }

    fn model_id(&self) -> (r: i64) {
        match &self.model_id {
            Some(i) => *i,
            None => 0,
        }
    }
}

} // verus!
