/*
 This Source Code Form is subject to the terms of the Mozilla Public
 License, v. 2.0. If a copy of the MPL was not distributed with this
 file, You can obtain one at http://mozilla.org/MPL/2.0/.
*/

//! Notes attached to folders and masters: one record per element of the
//! `notes` array of the enclosing plist.

use vstd::prelude::*;

use crate::audit::{audit_get_data_value, audit_get_date_value, audit_get_int_value,
    audit_get_str_value, step_skip, AuditView, Report, SkipReason};
use crate::decimal::{dec_str, u64_to_string};
use crate::plutils::{lookup_data, lookup_date, lookup_int, lookup_str, Dictionary, PlistDate,
    Value};

verus! {

/// One note.
#[derive(Debug)]
pub struct NotesProperties {
    pub attached_to_uuid: Option<String>,
    pub create_date: Option<PlistDate>,
    pub data: Option<Vec<u8>>,
    pub model_id: Option<i64>,
    pub note: Option<String>,
    pub uuid: Option<String>,
    pub property_key: Option<String>,
}

/// Whether `n` holds exactly the typed fields of `d`, each `None` where
/// the key is absent or differently typed.
pub open spec fn note_fields_match(n: NotesProperties, d: Dictionary) -> bool {
    &&& n.attached_to_uuid == lookup_str(d, "attachedToUuid"@)
    &&& n.create_date == lookup_date(d, "createDate"@)
    &&& match n.data {
        Some(v) => lookup_data(d, "data"@) == Some(v@),
        None => lookup_data(d, "data"@) is None,
    }
    &&& n.model_id == lookup_int(d, "modelId"@)
    &&& n.note == lookup_str(d, "note"@)
    &&& n.property_key == lookup_str(d, "propertyKey"@)
    &&& n.uuid == lookup_str(d, "uuid"@)
}

/// The audit trail of decoding one note from `d`: each field key parsed or
/// skipped, then everything unaccounted for ignored under the `notes`
/// namespace.
pub open spec fn note_audit(v: AuditView, d: Dictionary) -> AuditView {
    let v1 = crate::audit::step_get(v, "attachedToUuid"@, lookup_str(d, "attachedToUuid"@) is Some);
    let v2 = crate::audit::step_get(v1, "createDate"@, lookup_date(d, "createDate"@) is Some);
    let v3 = crate::audit::step_get(v2, "data"@, lookup_data(d, "data"@) is Some);
    let v4 = crate::audit::step_get(v3, "modelId"@, lookup_int(d, "modelId"@) is Some);
    let v5 = crate::audit::step_get(v4, "note"@, lookup_str(d, "note"@) is Some);
    let v6 = crate::audit::step_get(v5, "propertyKey"@, lookup_str(d, "propertyKey"@) is Some);
    let v7 = crate::audit::step_get(v6, "uuid"@, lookup_str(d, "uuid"@) is Some);
    crate::audit::step_ignored(v7, d, Some("notes"@))
}

/// Whether `out` holds, in order, one matching record per dictionary
/// element of `elems`, with the other elements passed over.
pub open spec fn notes_match(elems: Seq<Value>, out: Seq<NotesProperties>) -> bool
    decreases elems.len(),
{
    if elems.len() == 0 {
        out.len() == 0
    } else {
        match elems.last() {
            Value::Dict(d) => out.len() > 0 && note_fields_match(out.last(), d) && notes_match(
                elems.drop_last(),
                out.drop_last(),
            ),
            _ => notes_match(elems.drop_last(), out),
        }
    }
}

/// Whether an optional notes list matches an optional source array.
pub open spec fn notes_opt_match(a: Option<Seq<Value>>, out: Option<Vec<NotesProperties>>) -> bool {
    match (a, out) {
        (Some(elems), Some(v)) => notes_match(elems, v@),
        (None, None) => true,
        _ => false,
    }
}

/// The audit trail of decoding a whole notes array: each dictionary
/// element contributes its own trail, and an element of any other type is
/// skipped as `notes[<position>]` with reason `InvalidType`.
pub open spec fn notes_audit(v: AuditView, elems: Seq<Value>) -> AuditView
    decreases elems.len(),
{
    if elems.len() == 0 {
        v
    } else {
        let prev = notes_audit(v, elems.drop_last());
        match elems.last() {
            Value::Dict(d) => note_audit(prev, d),
            _ => step_skip(
                prev,
                "notes["@ + dec_str((elems.len() - 1) as nat) + "]"@,
                SkipReason::InvalidType,
            ),
        }
    }
}

/// The audit trail of an optional notes array: nothing without one.
pub open spec fn notes_opt_audit(v: AuditView, a: Option<Seq<Value>>) -> AuditView {
    match a {
        Some(elems) => notes_audit(v, elems),
        None => v,
    }
}

impl NotesProperties {
    /// Decode one note out of one element of the `notes` array.
    pub fn from_array_element(dict: &Dictionary, report: &mut Report) -> (n: NotesProperties)
        ensures
            note_fields_match(n, *dict),
            final(report).audit_view() == note_audit(old(report).audit_view(), *dict),
    {
        let result = NotesProperties {
            attached_to_uuid: audit_get_str_value(dict, "attachedToUuid", report),
            create_date: audit_get_date_value(dict, "createDate", report),
            data: audit_get_data_value(dict, "data", report),
            model_id: audit_get_int_value(dict, "modelId", report),
            note: audit_get_str_value(dict, "note", report),
            property_key: audit_get_str_value(dict, "propertyKey", report),
            uuid: audit_get_str_value(dict, "uuid", report),
        };
        report.audit_ignored(dict, Some("notes"));
        result
    }

    /// Decode the whole `notes` array, one record per dictionary element.
    pub fn from(array: Option<&Vec<Value>>, report: &mut Report) -> (r: Option<
        Vec<NotesProperties>,
    >)
        ensures
            notes_opt_match(
                match array {
                    Some(a) => Some(a@),
                    None => None,
                },
                r,
            ),
            final(report).audit_view() == notes_opt_audit(
                old(report).audit_view(),
                match array {
                    Some(a) => Some(a@),
                    None => None,
                },
            ),
    {
        if let Some(array) = array {
            let mut result: Vec<NotesProperties> = Vec::new();
            let mut counter: usize = 0;
            while counter < array.len()
                invariant
                    counter <= array.len(),
                    notes_match(array@.subrange(0, counter as int), result@),
                    report.audit_view() == notes_audit(
                        old(report).audit_view(),
                        array@.subrange(0, counter as int),
                    ),
                decreases array.len() - counter,
            {
                proof {
                    assert(array@.subrange(0, counter as int + 1).last() == array@[counter as int]);
                    assert(array@.subrange(0, counter as int + 1).drop_last() =~= array@.subrange(
                        0,
                        counter as int,
                    ));
                }
                let ghost out_before = result@;
                match &array[counter] {
                    Value::Dict(d) => {
                        let n = NotesProperties::from_array_element(d, report);
                        result.push(n);
                        proof {
                            assert(result@.drop_last() =~= out_before);
                        }
                    },
                    _ => {
                        let mut key = "notes[".to_owned();
                        let digits = u64_to_string(counter as u64);
                        key.append(digits.as_str());
                        key.append("]");
                        proof {
                            assert(key@ =~= "notes["@ + dec_str(counter as nat) + "]"@);
                        }
                        report.skip(key.as_str(), SkipReason::InvalidType);
                    },
                }
                counter += 1;
            }
            proof {
                assert(array@.subrange(0, array@.len() as int) =~= array@);
            }
            Some(result)
        } else {
            None
        }
    }
}

} // verus!
