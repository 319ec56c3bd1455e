//! Tests of the validated field types, the raw-row validation and the
//! identifier and short-code types.

use clipstash::Clip;
use clipstash::ClipError;
use clipstash::ClipRow;
use clipstash::Content;
use clipstash::DbId;
use clipstash::Expires;
use clipstash::Hits;
use clipstash::Password;
use clipstash::Posted;
use clipstash::ShortCode;
use clipstash::Time;
use clipstash::Title;

fn row(clip_id: &str, content: &str, hits: i64) -> ClipRow {
    ClipRow {
        clip_id: clip_id.to_string(),
        shortcode: "abc".to_string(),
        content: content.to_string(),
        title: Some("a title".to_string()),
        posted: 1_000,
        expires: Some(2_000),
        password: None,
        hits,
    }
}

#[test]
fn content_round_trips_non_blank_input() {
    let c = Content::new("hello world").unwrap();
    assert_eq!(c.as_str(), "hello world");
    assert_eq!(c.into_inner(), "hello world".to_string());

    let c = Content::new("  padded but not blank  ").unwrap();
    assert_eq!(c.as_str(), "  padded but not blank  ");
}

#[test]
fn content_rejects_blank_input() {
    assert_eq!(Content::new("").unwrap_err(), ClipError::EmptyContent);
    assert_eq!(Content::new("   ").unwrap_err(), ClipError::EmptyContent);
    assert_eq!(Content::new(" \t\r\n ").unwrap_err(), ClipError::EmptyContent);
    assert_eq!(Content::new("\u{00A0}\u{2003}").unwrap_err(), ClipError::EmptyContent);
}

#[test]
fn password_normalizes_blank_to_absent() {
    assert!(!Password::new(None).unwrap().has_password());
    assert!(!Password::new(Some("".to_string())).unwrap().has_password());
    assert!(!Password::new(Some("   ".to_string())).unwrap().has_password());

    let p = Password::new(Some("p".to_string())).unwrap();
    assert!(p.has_password());
    assert_eq!(p.into_inner(), Some("p".to_string()));
}

#[test]
fn title_normalizes_blank_to_absent() {
    assert_eq!(Title::new(None).into_inner(), None);
    assert_eq!(Title::new(Some("".to_string())).into_inner(), None);
    assert_eq!(Title::new(Some(" \t ".to_string())).into_inner(), None);
    assert_eq!(
        Title::new(Some("a title".to_string())).into_inner(),
        Some("a title".to_string())
    );
}

#[test]
fn hits_and_times_round_trip() {
    assert_eq!(Hits::new(42).into_inner(), 42);
    let t = Time::from_seconds(123_456);
    assert_eq!(t.timestamp(), 123_456);
    assert_eq!(Posted::new(t).into_inner().timestamp(), 123_456);
    assert_eq!(
        Expires::new(Some(Time::from_seconds(7))).into_inner().map(|t| t.timestamp()),
        Some(7)
    );
    assert_eq!(Expires::new(None).into_inner().map(|t| t.timestamp()), None);
}

#[test]
fn expiry_passes_only_strictly_before_now() {
    let e = Expires::new(Some(Time::from_seconds(100)));
    assert!(e.is_past(101));
    assert!(!e.is_past(100));
    assert!(!e.is_past(99));
    assert!(!Expires::new(None).is_past(i64::MAX));
}

#[test]
fn shortcode_generation_is_short_and_url_safe() {
    let code = ShortCode::new();
    let text = code.into_inner();
    assert_eq!(text.chars().count(), 10);
    for c in text.chars() {
        assert!(c.is_ascii_alphanumeric() || c == '-' || c == '_');
    }
}

#[test]
fn shortcode_comparison_is_exact() {
    let a = ShortCode::from_str("abc");
    let b = ShortCode::from_str("abc");
    let c = ShortCode::from_str("abd");
    assert!(a.eq_code(&b));
    assert!(!a.eq_code(&c));
    assert_eq!(a.as_str(), "abc");
}

#[test]
fn db_id_text_round_trips() {
    let nil = DbId::nil();
    let text = nil.into_string();
    assert_eq!(text, "00000000-0000-0000-0000-000000000000");
    assert!(DbId::from_str(&text).is_ok());

    let id = DbId::new();
    let text = id.into_string();
    let back = DbId::from_str(&text).unwrap();
    assert_eq!(back.into_string(), text);

    assert_eq!(DbId::from_str("not a uuid").unwrap_err(), ClipError::InvalidId);
}

#[test]
fn row_validation_builds_a_clip() {
    let clip = Clip::from_row(row("550e8400-e29b-41d4-a716-446655440000", "the content", 3))
        .unwrap();
    assert_eq!(clip.shortcode.as_str(), "abc");
    assert_eq!(clip.content.as_str(), "the content");
    assert_eq!(clip.title.into_inner(), Some("a title".to_string()));
    assert_eq!(clip.posted.into_inner().timestamp(), 1_000);
    assert_eq!(clip.expires.into_inner().map(|t| t.timestamp()), Some(2_000));
    assert!(!clip.password.has_password());
    assert_eq!(clip.hits.into_inner(), 3);
}

#[test]
fn row_validation_rejects_bad_fields_in_order() {
    let bad_id = Clip::from_row(row("zzz", "the content", 3)).unwrap_err();
    assert_eq!(bad_id, ClipError::InvalidId);

    let blank = Clip::from_row(row("550e8400-e29b-41d4-a716-446655440000", "  ", 3)).unwrap_err();
    assert_eq!(blank, ClipError::EmptyContent);

    let negative =
        Clip::from_row(row("550e8400-e29b-41d4-a716-446655440000", "the content", -1)).unwrap_err();
    assert_eq!(negative, ClipError::InvalidHitsValue);
}
