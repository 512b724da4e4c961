use anki_direct::anki::{AnkiQuery, CardState};
use anki_direct::error::AnkiError;
use anki_direct::json::JsonValue;
use anki_direct::notes::{
    add_notes_request, add_notes_result, delete_notes_request, find_notes_request,
    find_notes_result, gui_edit_request, notes_info_request, unit_result, MediaBuilder,
    NoteBuilder,
};
use anki_direct::result::notes_info_result;
use anki_direct::Number;

fn obj(pairs: Vec<(&str, JsonValue)>) -> JsonValue {
    JsonValue::Object(pairs.into_iter().map(|(k, v)| (k.to_string(), v)).collect())
}

fn text(s: &str) -> JsonValue {
    JsonValue::Text(s.to_string())
}

fn envelope_parts(v: JsonValue) -> Vec<(String, JsonValue)> {
    match v {
        JsonValue::Object(pairs) => pairs,
        other => panic!("expected a request object, got {other:?}"),
    }
}

#[test]
fn find_notes_request_has_the_query_params() {
    let v = find_notes_request(6, &AnkiQuery::CardState(CardState::IsNew));
    let pairs = envelope_parts(v);
    assert_eq!(pairs.len(), 3);
    assert_eq!(pairs[0], ("action".to_string(), text("findNotes")));
    assert_eq!(pairs[1], ("version".to_string(), JsonValue::Int(6)));
    assert_eq!(pairs[2], ("params".to_string(), obj(vec![("query", text("is:new"))])));
}

#[test]
fn notes_info_request_lists_the_ids() {
    let ids = vec![Number::new(3), Number::new(4)];
    let v = notes_info_request(6, &ids);
    let pairs = envelope_parts(v);
    assert_eq!(pairs[0].1, text("notesInfo"));
    assert_eq!(
        pairs[2].1,
        obj(vec![("notes", JsonValue::Array(vec![JsonValue::Int(3), JsonValue::Int(4)]))])
    );
}

#[test]
fn delete_notes_request_lists_the_ids() {
    let ids = vec![Number::new(11)];
    let v = delete_notes_request(6, &ids);
    let pairs = envelope_parts(v);
    assert_eq!(pairs[0].1, text("deleteNotes"));
    assert_eq!(
        pairs[2].1,
        obj(vec![("notes", JsonValue::Array(vec![JsonValue::Int(11)]))])
    );
}

#[test]
fn gui_edit_request_names_one_note() {
    let v = gui_edit_request(6, Number::new(1749686091185));
    let pairs = envelope_parts(v);
    assert_eq!(pairs[0].1, text("guiEditNote"));
    assert_eq!(pairs[2].1, obj(vec![("note", JsonValue::Int(1749686091185))]));
}

#[test]
fn add_notes_request_serializes_the_note_wire() {
    let audio = MediaBuilder::create_empty()
        .filename("a.txt".to_string())
        .fields(vec!["target".to_string()])
        .url("abc")
        .build()
        .ok()
        .unwrap();
    let mut b = NoteBuilder::create_empty()
        .deck_name("Default".to_string())
        .model_name("Basic".to_string())
        .field("Front", "Hello")
        .audios(vec![audio]);
    let note = b.build().ok().unwrap();
    let v = add_notes_request(6, vec![note]);
    let mut pairs = envelope_parts(v);
    assert_eq!(pairs[0].1, text("addNotes"));
    let mut notes = match pairs.remove(2).1 {
        JsonValue::Object(mut ps) => match ps.remove(0).1 {
            JsonValue::Array(a) => a,
            other => panic!("expected the notes array, got {other:?}"),
        },
        other => panic!("expected the params object, got {other:?}"),
    };
    assert_eq!(notes.len(), 1);
    let wire = match notes.remove(0) {
        JsonValue::Object(ps) => ps,
        other => panic!("expected a note object, got {other:?}"),
    };
    assert_eq!(wire[0], ("deckName".to_string(), text("Default")));
    assert_eq!(wire[1], ("modelName".to_string(), text("Basic")));
    assert_eq!(wire[2], ("fields".to_string(), obj(vec![("Front", text("Hello"))])));
    // the media list travels under the wire key `audio`, with base64 data
    assert_eq!(
        wire[3],
        (
            "audio".to_string(),
            JsonValue::Array(vec![obj(vec![
                ("filename", text("a.txt")),
                ("data", text("YWJj")),
                ("fields", JsonValue::Array(vec![text("target")])),
            ])])
        )
    );
    assert_eq!(wire.len(), 4);
}

#[test]
fn find_notes_accepts_an_empty_match_set() {
    let r = find_notes_result(Some(JsonValue::Array(vec![])));
    assert_eq!(r.ok().unwrap(), Vec::<i64>::new());
}

#[test]
fn find_notes_decodes_the_ids() {
    let r = find_notes_result(Some(JsonValue::Array(vec![JsonValue::Int(5), JsonValue::Int(9)])));
    assert_eq!(r.ok().unwrap(), vec![5, 9]);
}

fn null_element_payload() -> JsonValue {
    JsonValue::Array(vec![JsonValue::Int(1), JsonValue::Null])
}

fn malformed_record_payload() -> JsonValue {
    JsonValue::Array(vec![JsonValue::Int(1)])
}

#[test]
fn find_notes_rejects_a_null_element() {
    let payload = null_element_payload;
    match find_notes_result(Some(payload())) {
        Err(AnkiError::CustomSerde(c)) => {
            assert_eq!(c.expected_shape(), "IdList");
            assert_eq!(c.received(), &payload());
        }
        other => panic!("expected a decoding error, got {other:?}"),
    }
}

#[test]
fn notes_info_treats_an_empty_result_as_no_data() {
    let r = notes_info_result(Some(JsonValue::Array(vec![])));
    assert!(matches!(r, Err(AnkiError::NoDataFound)));
}

#[test]
fn notes_info_decodes_a_record() {
    let record = obj(vec![
        ("noteId", JsonValue::Int(1717752795958)),
        ("modelName", text("Basic")),
        ("tags", JsonValue::Array(vec![text("first")])),
        (
            "fields",
            obj(vec![(
                "wordDictionaryForm",
                obj(vec![("value", text("Hello")), ("order", JsonValue::Int(0))]),
            )]),
        ),
    ]);
    let out = notes_info_result(Some(JsonValue::Array(vec![record]))).ok().unwrap();
    assert_eq!(out.len(), 1);
    assert_eq!(out[0].noteId, 1717752795958);
    assert_eq!(out[0].modelName, "Basic");
    assert_eq!(out[0].tags, vec!["first".to_string()]);
    assert_eq!(out[0].fields.len(), 1);
    assert_eq!(out[0].fields[0].0, "wordDictionaryForm");
    assert_eq!(out[0].fields[0].1.value, "Hello");
    assert_eq!(out[0].fields[0].1.order, 0);
}

#[test]
fn notes_info_rejects_a_malformed_record() {
    let payload = malformed_record_payload;
    match notes_info_result(Some(payload())) {
        Err(AnkiError::CustomSerde(c)) => {
            assert_eq!(c.expected_shape(), "NotesInfoList");
            assert_eq!(c.received(), &payload());
        }
        other => panic!("expected a decoding error, got {other:?}"),
    }
}

#[test]
fn notes_info_requires_a_payload() {
    match notes_info_result(None) {
        Err(AnkiError::CustomSerde(c)) => assert_eq!(c.received(), &JsonValue::Null),
        other => panic!("expected a decoding error, got {other:?}"),
    }
}

#[test]
fn add_notes_decodes_the_new_ids() {
    let r = add_notes_result(Some(JsonValue::Array(vec![JsonValue::Int(100)])));
    assert_eq!(r.ok().unwrap(), vec![100]);
}

#[test]
fn unit_actions_expect_no_payload() {
    assert!(unit_result(None).is_ok());
    match unit_result(Some(JsonValue::Int(0))) {
        Err(AnkiError::CustomSerde(c)) => assert_eq!(c.received(), &JsonValue::Int(0)),
        other => panic!("expected a decoding error, got {other:?}"),
    }
}
