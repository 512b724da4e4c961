//! Typed result payloads and their decoders.
//!
//! Result payloads arrive as generic structured values; the decoders here
//! turn them into typed records, naming the expected shape and keeping the
//! raw value when a payload does not match.

use crate::error::{AnkiError, CustomSerdeError};
use crate::json::{object_get, spec_lookup, JsonValue};
use vstd::prelude::*;

verus! {

/// A raw envelope carrying a list of numeric identifiers.
#[allow(non_snake_case)]
#[derive(Debug)]
pub struct NumVecRes {
    pub result: Option<Vec<u128>>,
    pub error: Option<String>,
}

/// One field of a note: its value and its display order.
#[derive(Debug)]
pub struct FieldData {
    pub value: String,
    pub order: u8,
}

/// The information the service reports for one note.
#[allow(non_snake_case)]
#[derive(Debug)]
pub struct NotesInfoData {
    pub noteId: i64,
    pub modelName: String,
    pub tags: Vec<String>,
    pub fields: Vec<(String, FieldData)>,
}

/// A value with the shape of one field record: a string `value` and an
/// `order` that fits in a byte.
pub open spec fn spec_is_field_data(v: JsonValue) -> bool {
    v matches JsonValue::Object(ps) && {
        &&& spec_lookup(ps@, "value"@) matches Some(JsonValue::Text(_))
        &&& (spec_lookup(ps@, "order"@) matches Some(ov) && ov matches JsonValue::Int(x) && 0 <= x
            <= 255)
    }
}

/// The field record a value decodes to.
pub open spec fn spec_field_data_matches(v: JsonValue, fd: FieldData) -> bool {
    v matches JsonValue::Object(ps) && {
        &&& spec_lookup(ps@, "value"@) == Some(JsonValue::Text(fd.value))
        &&& spec_lookup(ps@, "order"@) == Some(JsonValue::Int(fd.order as i64))
    }
}

/// A value with the shape of one note-information record.
pub open spec fn spec_is_note_info(v: JsonValue) -> bool {
    v matches JsonValue::Object(ps) && {
        &&& spec_lookup(ps@, "noteId"@) matches Some(JsonValue::Int(_))
        &&& spec_lookup(ps@, "modelName"@) matches Some(JsonValue::Text(_))
        &&& (spec_lookup(ps@, "tags"@) matches Some(tv) && tv matches JsonValue::Array(a)
            && forall|i: int| 0 <= i < a@.len() ==> (#[trigger] a@[i]) is Text)
        &&& (spec_lookup(ps@, "fields"@) matches Some(fv) && fv matches JsonValue::Object(fs)
            && forall|i: int| 0 <= i < fs@.len() ==> spec_is_field_data((#[trigger] fs@[i]).1))
    }
}

/// The note-information record a value decodes to.
pub open spec fn spec_note_info_matches(v: JsonValue, d: NotesInfoData) -> bool {
    v matches JsonValue::Object(ps) && {
        &&& spec_lookup(ps@, "noteId"@) == Some(JsonValue::Int(d.noteId))
        &&& spec_lookup(ps@, "modelName"@) == Some(JsonValue::Text(d.modelName))
        &&& (spec_lookup(ps@, "tags"@) matches Some(tv) && tv matches JsonValue::Array(a)
            && a@.len() == d.tags@.len() && forall|i: int|
            0 <= i < a@.len() ==> #[trigger] a@[i] == JsonValue::Text(d.tags@[i]))
        &&& (spec_lookup(ps@, "fields"@) matches Some(fv) && fv matches JsonValue::Object(fs)
            && fs@.len() == d.fields@.len() && forall|i: int|
            0 <= i < fs@.len() ==> (#[trigger] fs@[i]).0 == d.fields@[i].0
                && spec_field_data_matches(fs@[i].1, d.fields@[i].1))
    }
}

/// A payload whose every element is a note-information record.
pub open spec fn spec_is_note_info_list(v: JsonValue) -> bool {
    v matches JsonValue::Array(a) && forall|i: int|
        0 <= i < a@.len() ==> spec_is_note_info(#[trigger] a@[i])
}

/// The records a note-information payload decodes to, in order.
pub open spec fn spec_note_infos_match(v: JsonValue, ds: Seq<NotesInfoData>) -> bool {
    v matches JsonValue::Array(a) && a@.len() == ds.len() && forall|i: int|
        0 <= i < a@.len() ==> spec_note_info_matches(#[trigger] a@[i], ds[i])
}

/// Decodes one field record.
fn decode_field_data(v: &JsonValue) -> (r: Option<FieldData>)
    ensures
        r is Some <==> spec_is_field_data(*v),
        r matches Some(fd) ==> spec_field_data_matches(*v, fd),
{
    let ps = match v {
        JsonValue::Object(ps) => ps,
        _ => {
            return None;
        },
    };
    let value = match object_get(ps, &"value".to_owned()) {
        Some(JsonValue::Text(t)) => t.clone(),
        _ => {
            return None;
        },
    };
    let order = match object_get(ps, &"order".to_owned()) {
        Some(JsonValue::Int(x)) => {
            if 0 <= *x && *x <= 255 {
                *x as u8
            } else {
                return None;
            }
        },
        _ => {
            return None;
        },
    };
    Some(FieldData { value, order })
}

/// Decodes one note-information record.
#[verifier::loop_isolation(false)]
fn decode_note_info(v: &JsonValue) -> (r: Option<NotesInfoData>)
    ensures
        r is Some <==> spec_is_note_info(*v),
        r matches Some(d) ==> spec_note_info_matches(*v, d),
{
    let ps = match v {
        JsonValue::Object(ps) => ps,
        _ => {
            return None;
        },
    };
    let note_id = match object_get(ps, &"noteId".to_owned()) {
        Some(JsonValue::Int(x)) => *x,
        _ => {
            return None;
        },
    };
    let model_name = match object_get(ps, &"modelName".to_owned()) {
        Some(JsonValue::Text(t)) => t.clone(),
        _ => {
            return None;
        },
    };
    let tags_value = match object_get(ps, &"tags".to_owned()) {
        Some(tv) => tv,
        None => {
            return None;
        },
    };
    let tag_items = match tags_value {
        JsonValue::Array(a) => a,
        _ => {
            return None;
        },
    };
    let mut tags: Vec<String> = Vec::new();
    let mut i: usize = 0;
    while i < tag_items.len()
        invariant
            i <= tag_items@.len(),
            tags@.len() == i as int,
            forall|j: int|
                0 <= j < i as int ==> #[trigger] tag_items@[j] == JsonValue::Text(tags@[j]),
        decreases tag_items@.len() - i as int,
    {
        match &tag_items[i] {
            JsonValue::Text(t) => {
                tags.push(t.clone());
            },
            _ => {
                return None;
            },
        }
        i = i + 1;
    }
    let fields_value = match object_get(ps, &"fields".to_owned()) {
        Some(fv) => fv,
        None => {
            return None;
        },
    };
    let field_items = match fields_value {
        JsonValue::Object(fs) => fs,
        _ => {
            return None;
        },
    };
    let mut fields: Vec<(String, FieldData)> = Vec::new();
    let mut k: usize = 0;
    while k < field_items.len()
        invariant
            k <= field_items@.len(),
            fields@.len() == k as int,
            forall|j: int|
                0 <= j < k as int ==> (#[trigger] field_items@[j]).0 == fields@[j].0
                    && spec_is_field_data(field_items@[j].1) && spec_field_data_matches(
                    field_items@[j].1,
                    fields@[j].1,
                ),
        decreases field_items@.len() - k as int,
    {
        match decode_field_data(&field_items[k].1) {
            Some(fd) => {
                fields.push((field_items[k].0.clone(), fd));
            },
            None => {
                return None;
            },
        }
        k = k + 1;
    }
    Some(NotesInfoData { noteId: note_id, modelName: model_name, tags, fields })
}

/// Interprets the resolved payload of the notes-info action: an array of
/// note-information records.  A structurally valid but empty result set is
/// invalid for this call and fails with the no-data error.
pub fn notes_info_result(payload: Option<JsonValue>) -> (r: Result<Vec<NotesInfoData>, AnkiError>)
    ensures
        r is Ok <==> (payload matches Some(p) && spec_is_note_info_list(p) && p->Array_0@.len()
            > 0),
        payload matches Some(p) ==> (r matches Ok(ds) ==> spec_note_infos_match(p, ds@)),
        payload is None ==> (r matches Err(e) && e matches AnkiError::CustomSerde(c)
            && c.spec_recv() == JsonValue::Null),
        payload matches Some(p) ==> (!spec_is_note_info_list(p) ==> (r matches Err(e)
            && e matches AnkiError::CustomSerde(c) && c.spec_recv() == p)),
        payload matches Some(p) ==> (spec_is_note_info_list(p) && p->Array_0@.len() == 0 ==> (
        r matches Err(e) && e is NoDataFound)),
{
    let p = match payload {
        Some(p) => p,
        None => {
            return Err(
                AnkiError::CustomSerde(
                    CustomSerdeError::expected(
                        Some("NotesInfoList".to_owned()),
                        JsonValue::Null,
                        Some("result is missing".to_owned()),
                    ),
                ),
            );
        },
    };
    let mut bad = false;
    let mut out: Vec<NotesInfoData> = Vec::new();
    match &p {
        JsonValue::Array(items) => {
            let mut i: usize = 0;
            while i < items.len() && !bad
                invariant
                    i <= items@.len(),
                    !bad ==> out@.len() == i as int,
                    !bad ==> forall|j: int|
                        0 <= j < i as int ==> spec_is_note_info(#[trigger] items@[j])
                            && spec_note_info_matches(items@[j], out@[j]),
                    bad ==> exists|j: int|
                        0 <= j < items@.len() && !spec_is_note_info(#[trigger] items@[j]),
                decreases items@.len() - i as int,
            {
                match decode_note_info(&items[i]) {
                    Some(d) => {
                        out.push(d);
                    },
                    None => {
                        bad = true;
                    },
                }
                i = i + 1;
            }
        },
        _ => {
            bad = true;
        },
    }
    if bad {
        return Err(
            AnkiError::CustomSerde(
                CustomSerdeError::expected(
                    Some("NotesInfoList".to_owned()),
                    p,
                    Some("expected an array of note information records".to_owned()),
                ),
            ),
        );
    }
    if out.len() == 0 {
        return Err(AnkiError::NoDataFound);
    }
    Ok(out)
}

} // verus!
