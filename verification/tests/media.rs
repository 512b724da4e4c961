use anki_direct::notes::{FetchPlan, MediaBuilder, MediaPath, MediaPathError, MediaSource, MediaStep};

#[test]
fn an_existing_path_wins_over_everything() {
    let s = MediaSource::classify("./local.txt", true, Some("https://example.com/".to_string()));
    match s {
        MediaSource::Path(p) => assert_eq!(p.as_text(), "./local.txt"),
        other => panic!("expected a path source, got {other:?}"),
    }
}

#[test]
fn a_well_formed_url_comes_second() {
    let s = MediaSource::coerce("https://example.com/a.mp3");
    match s {
        MediaSource::Url(u) => assert_eq!(u, "https://example.com/a.mp3"),
        other => panic!("expected a url source, got {other:?}"),
    }
}

#[test]
fn url_normalization_shows_the_parser_ran() {
    let s = MediaSource::coerce("HTTPS://EXAMPLE.com/a.mp3");
    match s {
        MediaSource::Url(u) => assert_eq!(u, "https://example.com/a.mp3"),
        other => panic!("expected a url source, got {other:?}"),
    }
}

#[test]
fn plain_text_falls_back_to_inline_bytes() {
    let s = MediaSource::coerce("plain text");
    match s {
        MediaSource::Data(d) => assert_eq!(d.as_slice(), b"plain text"),
        other => panic!("expected inline data, got {other:?}"),
    }
}

#[test]
fn url_source_wins_over_path_source() {
    let media = MediaBuilder::create_empty()
        .filename("y.mp3".to_string())
        .fields(vec!["audioField".to_string()])
        .url("https://x/y.mp3")
        .path("/tmp/y.mp3")
        .build()
        .ok()
        .unwrap();
    match media.next_step() {
        MediaStep::Fetch(FetchPlan::FetchUrl(u)) => assert_eq!(u, "https://x/y.mp3"),
        other => panic!("expected one fetch over the url, got {other:?}"),
    }
}

#[test]
fn path_source_is_used_when_no_url_is_staged() {
    let path = MediaSource::classify("/media/y.mp3", true, None);
    let media = MediaBuilder::create_empty()
        .filename("y.mp3".to_string())
        .fields(vec!["audioField".to_string()])
        .path_source(path)
        .build()
        .ok()
        .unwrap();
    assert_eq!(
        media.next_step(),
        MediaStep::Fetch(FetchPlan::ReadFile("/media/y.mp3".to_string()))
    );
}

#[test]
fn installed_bytes_consume_the_sources() {
    let mut media = MediaBuilder::create_empty()
        .filename("y.mp3".to_string())
        .fields(vec!["audioField".to_string()])
        .url("https://x/y.mp3")
        .build()
        .ok()
        .unwrap();
    media.set_data(vec![1, 2, 3]);
    assert_eq!(media.next_step(), MediaStep::Ready);
    assert_eq!(media.bytes().as_slice(), &[1, 2, 3]);
}

#[test]
fn an_item_without_source_or_bytes_is_missing() {
    let media = MediaBuilder::create_empty()
        .filename("y.mp3".to_string())
        .fields(vec!["audioField".to_string()])
        .build()
        .ok()
        .unwrap();
    assert_eq!(media.next_step(), MediaStep::Missing);
}

#[test]
fn a_path_that_does_not_exist_is_rejected() {
    let r = MediaPath::from_path("/surely/not/here/at/all.bin".to_string());
    assert!(matches!(
        r,
        Err(MediaPathError::DoesntExist(p)) if p == "/surely/not/here/at/all.bin"
    ));
}
