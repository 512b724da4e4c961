use anki_direct::anki::AnkiConnectResult;
use anki_direct::error::AnkiError;
use anki_direct::generic::{process_response, GenericRequestBuilder, GenericResult};
use anki_direct::json::{sanitize_items, JsonValue};

fn obj(pairs: Vec<(&str, JsonValue)>) -> JsonValue {
    JsonValue::Object(pairs.into_iter().map(|(k, v)| (k.to_string(), v)).collect())
}

fn text(s: &str) -> JsonValue {
    JsonValue::Text(s.to_string())
}

#[test]
fn sanitize_removes_empty_objects_order_kept() {
    let items = vec![
        JsonValue::Object(vec![]),
        JsonValue::Int(1),
        obj(vec![("a", JsonValue::Int(1))]),
        JsonValue::Object(vec![]),
        text("x"),
    ];
    let out = sanitize_items(items);
    assert_eq!(
        out,
        vec![JsonValue::Int(1), obj(vec![("a", JsonValue::Int(1))]), text("x")]
    );
}

fn mixed_items() -> Vec<JsonValue> {
    vec![
        JsonValue::Object(vec![]),
        JsonValue::Int(1),
        JsonValue::Null,
        JsonValue::Object(vec![]),
    ]
}

fn plain_items() -> Vec<JsonValue> {
    vec![JsonValue::Null, JsonValue::Bool(false), JsonValue::Int(0), text("")]
}

#[test]
fn sanitize_is_idempotent_on_concrete_array() {
    let once = sanitize_items(mixed_items());
    let twice = sanitize_items(sanitize_items(mixed_items()));
    assert_eq!(once, twice);
}

#[test]
fn sanitize_keeps_non_object_elements() {
    let out = sanitize_items(plain_items());
    assert_eq!(out, plain_items());
}

#[test]
fn request_envelope_omits_absent_params() {
    let req = GenericRequestBuilder::create_empty()
        .action("findNotes".to_string())
        .version(6)
        .build()
        .ok()
        .unwrap();
    match req.into_value() {
        JsonValue::Object(pairs) => {
            assert_eq!(pairs.len(), 2);
            assert_eq!(pairs[0].0, "action");
            assert_eq!(pairs[0].1, text("findNotes"));
            assert_eq!(pairs[1].0, "version");
            assert_eq!(pairs[1].1, JsonValue::Int(6));
        }
        other => panic!("expected an object, got {other:?}"),
    }
}

#[test]
fn request_envelope_carries_params_last() {
    let req = GenericRequestBuilder::create_empty()
        .action("addNotes".to_string())
        .version(6)
        .params(Some(obj(vec![("notes", JsonValue::Array(vec![]))])))
        .build()
        .ok()
        .unwrap();
    match req.into_value() {
        JsonValue::Object(pairs) => {
            assert_eq!(pairs.len(), 3);
            assert_eq!(pairs[2].0, "params");
            assert_eq!(pairs[2].1, obj(vec![("notes", JsonValue::Array(vec![]))]));
        }
        other => panic!("expected an object, got {other:?}"),
    }
}

#[test]
fn request_envelope_requires_an_action() {
    let r = GenericRequestBuilder::create_empty().version(6).build();
    assert!(matches!(
        r,
        Err(AnkiError::Builder(anki_direct::error::BuilderErrors::UninitializedField(f))) if f == "action"
    ));
}

#[test]
fn error_wins_over_result() {
    let v = obj(vec![("result", JsonValue::Int(5)), ("error", text("cannot create note"))]);
    match process_response(v) {
        Err(AnkiError::AnkiConnect(m)) => assert_eq!(m, "cannot create note"),
        other => panic!("expected the remote error, got {other:?}"),
    }
}

#[test]
fn null_error_is_success() {
    let v = obj(vec![("result", JsonValue::Null), ("error", JsonValue::Null)]);
    match process_response(v) {
        Ok(p) => assert!(p.is_none()),
        other => panic!("expected success, got {other:?}"),
    }
}

#[test]
fn payload_passes_through_when_nothing_to_sanitize() {
    let v = obj(vec![
        ("result", JsonValue::Array(vec![JsonValue::Int(1), JsonValue::Int(2)])),
        ("error", JsonValue::Null),
    ]);
    match process_response(v) {
        Ok(Some(p)) => assert_eq!(p, JsonValue::Array(vec![JsonValue::Int(1), JsonValue::Int(2)])),
        other => panic!("expected the payload back, got {other:?}"),
    }
}

#[test]
fn result_array_is_sanitized_before_typed_decoding() {
    let v = obj(vec![
        (
            "result",
            JsonValue::Array(vec![JsonValue::Object(vec![]), JsonValue::Int(9)]),
        ),
        ("error", JsonValue::Null),
    ]);
    match process_response(v) {
        Ok(Some(p)) => assert_eq!(p, JsonValue::Array(vec![JsonValue::Int(9)])),
        other => panic!("expected a sanitized payload, got {other:?}"),
    }
}

#[test]
fn non_object_response_is_malformed() {
    match process_response(JsonValue::Int(3)) {
        Err(AnkiError::CustomSerde(c)) => {
            assert_eq!(c.expected_shape(), "GenericResult");
            assert_eq!(c.received(), &JsonValue::Int(3));
        }
        other => panic!("expected a decoding error, got {other:?}"),
    }
}

#[test]
fn non_string_error_field_is_malformed() {
    let v = obj(vec![("error", JsonValue::Int(1))]);
    match process_response(v) {
        Err(AnkiError::CustomSerde(c)) => {
            assert_eq!(c.expected_shape(), "GenericResult");
        }
        other => panic!("expected a decoding error, got {other:?}"),
    }
}

#[test]
fn generic_result_hands_out_its_parts() {
    let mut gr: GenericResult<Vec<i64>> =
        GenericResult { result: vec![1, 2], error: Some("e".to_string()) };
    assert_eq!(gr.result(), vec![1, 2]);
    assert_eq!(gr.error(), Some("e".to_string()));
    assert_eq!(gr.error(), None);
}
