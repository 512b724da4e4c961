use anki_direct::error::{AnkiError, BuilderErrors};
use anki_direct::notes::{MediaBuilder, MediaStep, NoteBuilder};

#[test]
fn missing_deck_name_is_reported_first() {
    let mut b = NoteBuilder::create_empty()
        .model_name("Basic".to_string())
        .field("Front", "Hello");
    let r = b.build();
    assert!(matches!(
        r,
        Err(AnkiError::Builder(BuilderErrors::UninitializedField(f))) if f == "deckName"
    ));
}

#[test]
fn empty_deck_name_is_rejected() {
    let mut b = NoteBuilder::create_empty()
        .deck_name(String::new())
        .model_name("Basic".to_string())
        .field("Front", "Hello");
    let r = b.build();
    assert!(matches!(
        r,
        Err(AnkiError::Builder(BuilderErrors::UninitializedField(f))) if f == "deckName"
    ));
}

#[test]
fn missing_model_name_follows_deck_name() {
    let mut b = NoteBuilder::create_empty()
        .deck_name("Default".to_string())
        .field("Front", "Hello");
    let r = b.build();
    assert!(matches!(
        r,
        Err(AnkiError::Builder(BuilderErrors::UninitializedField(f))) if f == "modelName"
    ));
}

#[test]
fn missing_fields_come_last() {
    let mut b = NoteBuilder::create_empty()
        .deck_name("Default".to_string())
        .model_name("Basic".to_string());
    let r = b.build();
    assert!(matches!(
        r,
        Err(AnkiError::Builder(BuilderErrors::UninitializedField(f))) if f == "fields"
    ));
}

#[test]
fn staged_but_empty_fields_are_rejected() {
    let mut b = NoteBuilder::create_empty()
        .deck_name("Default".to_string())
        .model_name("Basic".to_string())
        .extend_fields(vec![]);
    let r = b.build();
    assert!(matches!(
        r,
        Err(AnkiError::Builder(BuilderErrors::UninitializedField(f))) if f == "fields"
    ));
}

#[test]
fn successful_build_matches_staging() {
    let mut b = NoteBuilder::create_empty()
        .deck_name("Default".to_string())
        .model_name("Basic".to_string())
        .field("Front", "Hello")
        .field("Back", "World")
        .tags(vec!["first".to_string(), "second".to_string()]);
    let note = b.build().ok().unwrap();
    assert_eq!(note.deck_name(), "Default");
    assert_eq!(note.model_name(), "Basic");
    assert_eq!(
        note.field_pairs(),
        vec![
            ("Front".to_string(), "Hello".to_string()),
            ("Back".to_string(), "World".to_string())
        ]
    );
    assert_eq!(
        note.tags(),
        &Some(vec!["first".to_string(), "second".to_string()])
    );
    assert!(note.options().is_none());
    assert!(note.audios().is_none());
    assert!(note.videos().is_none());
    assert!(note.pictures().is_none());
}

#[test]
fn repeated_field_name_keeps_place_and_takes_new_value() {
    let mut b = NoteBuilder::create_empty()
        .deck_name("Default".to_string())
        .model_name("Basic".to_string())
        .field("Front", "old")
        .field("Back", "b")
        .field("Front", "new");
    let note = b.build().ok().unwrap();
    assert_eq!(
        note.field_pairs(),
        vec![
            ("Front".to_string(), "new".to_string()),
            ("Back".to_string(), "b".to_string())
        ]
    );
}

#[test]
fn extend_fields_appends_in_order() {
    let mut b = NoteBuilder::create_empty()
        .deck_name("Default".to_string())
        .model_name("Basic".to_string())
        .field("A", "1")
        .extend_fields(vec![
            ("B".to_string(), "2".to_string()),
            ("A".to_string(), "3".to_string()),
        ]);
    let note = b.build().ok().unwrap();
    assert_eq!(
        note.field_pairs(),
        vec![
            ("A".to_string(), "3".to_string()),
            ("B".to_string(), "2".to_string())
        ]
    );
}

#[test]
fn build_consumes_the_staging_state() {
    let mut b = NoteBuilder::create_empty()
        .deck_name("Default".to_string())
        .model_name("Basic".to_string())
        .field("Front", "Hello");
    assert!(b.build().is_ok());
    let r = b.build();
    assert!(matches!(
        r,
        Err(AnkiError::Builder(BuilderErrors::UninitializedField(f))) if f == "deckName"
    ));
}

#[test]
fn media_without_any_source_fails_the_build() {
    let media = MediaBuilder::create_empty()
        .filename("ghost.mp3".to_string())
        .fields(vec!["audioField".to_string()])
        .build()
        .ok()
        .unwrap();
    let mut b = NoteBuilder::create_empty()
        .deck_name("Default".to_string())
        .model_name("Basic".to_string())
        .field("Front", "Hello")
        .audios(vec![media]);
    let r = b.build();
    assert!(matches!(
        r,
        Err(AnkiError::Builder(BuilderErrors::MissingMedia(f))) if f == "ghost.mp3"
    ));
}

#[test]
fn inline_media_resolves_during_the_build() {
    let media = MediaBuilder::create_empty()
        .filename("note.txt".to_string())
        .fields(vec!["attachment".to_string()])
        .url("plain text payload")
        .build()
        .ok()
        .unwrap();
    let mut b = NoteBuilder::create_empty()
        .deck_name("Default".to_string())
        .model_name("Basic".to_string())
        .field("Front", "Hello")
        .audios(vec![media]);
    let note = b.build().ok().unwrap();
    let audios = note.audios().as_ref().unwrap();
    assert_eq!(audios.len(), 1);
    assert_eq!(audios[0].bytes().as_slice(), b"plain text payload");
    assert_eq!(audios[0].next_step(), MediaStep::Ready);
}

#[test]
fn media_builder_requires_filename_then_fields() {
    let r = MediaBuilder::create_empty().build();
    assert!(matches!(
        r,
        Err(AnkiError::Builder(BuilderErrors::UninitializedField(f))) if f == "filename"
    ));
    let r = MediaBuilder::create_empty().filename("a.mp3".to_string()).build();
    assert!(matches!(
        r,
        Err(AnkiError::Builder(BuilderErrors::UninitializedField(f))) if f == "fields"
    ));
}
