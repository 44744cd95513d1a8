/*
 This Source Code Form is subject to the terms of the Mozilla Public
 License, v. 2.0. If a copy of the MPL was not distributed with this
 file, You can obtain one at http://mozilla.org/MPL/2.0/.
*/

//! The `customInfo` block of a version: camera and picture timezones.

use vstd::prelude::*;

use crate::audit::{audit_get_str_value, step_get, step_ignored, AuditView, Report};
use crate::plutils::{lookup_str, Dictionary};

verus! {

/// Custom info of a version.
#[derive(Debug)]
pub struct CustomInfoProperties {
    pub camera_time_zone_name: Option<String>,
    pub picture_time_zone_name: Option<String>,
}

/// The audit trail of decoding the `customInfo` block from `d`.
pub open spec fn custominfo_audit(v: AuditView, d: Dictionary) -> AuditView {
    let v1 = step_get(v, "cameraTimeZoneName"@, lookup_str(d, "cameraTimeZoneName"@) is Some);
    let v2 = step_get(v1, "pictureTimeZoneName"@, lookup_str(d, "pictureTimeZoneName"@) is Some);
    step_ignored(v2, d, Some("customInfo"@))
}

/// The audit trail of an optional `customInfo` block.
pub open spec fn custominfo_opt_audit(v: AuditView, d: Option<Dictionary>) -> AuditView {
    match d {
        Some(d) => custominfo_audit(v, d),
        None => v,
    }
}

/// Whether `c` holds exactly the typed fields of `d`.
pub open spec fn custominfo_fields_match(c: CustomInfoProperties, d: Dictionary) -> bool {
    &&& c.camera_time_zone_name == lookup_str(d, "cameraTimeZoneName"@)
    &&& c.picture_time_zone_name == lookup_str(d, "pictureTimeZoneName"@)
}

impl CustomInfoProperties {
    /// Decode the `customInfo` block, when there is one.
    pub fn from(dict: Option<&Dictionary>, report: &mut Report) -> (r: Option<
        CustomInfoProperties,
    >)
        ensures
            match (dict, r) {
                (Some(d), Some(c)) => custominfo_fields_match(c, *d),
                (None, None) => true,
                _ => false,
            },
            final(report).audit_view() == custominfo_opt_audit(
                old(report).audit_view(),
                match dict {
                    Some(d) => Some(*d),
                    None => None,
                },
            ),
    {
        if let Some(dict) = dict {
            let result = CustomInfoProperties {
                camera_time_zone_name: audit_get_str_value(dict, "cameraTimeZoneName", report),
                picture_time_zone_name: audit_get_str_value(dict, "pictureTimeZoneName", report),
            };
            report.audit_ignored(dict, Some("customInfo"));
            Some(result)
        } else {
            None
        }
    }
}

} // verus!
