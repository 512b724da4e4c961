use anki_direct::b64::base64_string;
use anki_direct::decks::DeckConfig;
use anki_direct::error::CustomSerdeError;
use anki_direct::json::JsonValue;
use anki_direct::notes::{DuplicateScope, DuplicateScopeOptions, NoteOptions};
use anki_direct::Number;

fn obj(pairs: Vec<(&str, JsonValue)>) -> JsonValue {
    JsonValue::Object(pairs.into_iter().map(|(k, v)| (k.to_string(), v)).collect())
}

fn text(s: &str) -> JsonValue {
    JsonValue::Text(s.to_string())
}

#[test]
fn base64_matches_the_reference_vectors() {
    assert_eq!(base64_string(&b"Man".to_vec()), "TWFu");
    assert_eq!(base64_string(&b"Ma".to_vec()), "TWE=");
    assert_eq!(base64_string(&b"M".to_vec()), "TQ==");
    assert_eq!(base64_string(&Vec::new()), "");
    assert_eq!(base64_string(&b"light work.".to_vec()), "bGlnaHQgd29yay4=");
    assert_eq!(base64_string(&vec![251, 239, 190]), "++++");
    assert_eq!(base64_string(&vec![255, 255, 255]), "////");
}

#[test]
fn numbers_wrap_and_hand_back_identifiers() {
    let n = Number::new(1717752795958);
    assert_eq!(n.value(), 1717752795958);
    let ns = Number::from_slice_to_vec(&[1, -2, 3]);
    assert_eq!(ns.len(), 3);
    assert_eq!(ns[1], Number::new(-2));
}

#[test]
fn deck_config_carries_id_and_name() {
    let d = DeckConfig::new(Number::new(1), "Default".to_string());
    assert_eq!(d.id(), Number::new(1));
    assert_eq!(d.name(), "Default");
}

#[test]
fn duplicate_scope_wire_names() {
    assert_eq!(DuplicateScope::Deck.to_wire(), "deck");
    assert_eq!(DuplicateScope::EntireCollection.to_wire(), "entire-collection");
}

#[test]
fn note_options_wire_omits_the_unset_deck_override() {
    let o = NoteOptions::new(true, DuplicateScope::Deck, DuplicateScopeOptions::default());
    assert_eq!(
        o.to_wire_value(),
        obj(vec![
            ("allowDuplicate", JsonValue::Bool(true)),
            ("duplicateScope", text("deck")),
            (
                "duplicateScopeOptions",
                obj(vec![
                    ("checkChildren", JsonValue::Bool(false)),
                    ("checkAllModels", JsonValue::Bool(false)),
                ])
            ),
        ])
    );
}

#[test]
fn scope_options_carry_a_set_deck_override() {
    let so = DuplicateScopeOptions::new(Some("Default".to_string()), true, false);
    assert_eq!(
        so.to_wire_value(),
        obj(vec![
            ("deckName", text("Default")),
            ("checkChildren", JsonValue::Bool(true)),
            ("checkAllModels", JsonValue::Bool(false)),
        ])
    );
}

#[test]
fn decode_errors_default_their_missing_parts() {
    let e = CustomSerdeError::expected(None, JsonValue::Null, None);
    assert_eq!(e.expected_shape(), "<unspecified>");
    assert_eq!(e.diagnostic(), "<unspecified>");
    assert_eq!(e.received(), &JsonValue::Null);
}
