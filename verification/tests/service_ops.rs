//! Tests of the store, the service operations, the hit aggregator and the
//! API-key guard, ending with the end-to-end scenarios.

use clipstash::ApiKeyError;
use clipstash::Content;
use clipstash::DbId;
use clipstash::Expires;
use clipstash::HitCountMsg;
use clipstash::HitStore;
use clipstash::Password;
use clipstash::RevocationStatus;
use clipstash::ServiceError;
use clipstash::ShortCode;
use clipstash::Store;
use clipstash::Time;
use clipstash::Title;
use clipstash::hitcounter::process_msg;
use clipstash::service::GetClip;
use clipstash::service::NewClip;
use clipstash::service::UpdateClip;
use clipstash::service::delete_expired;
use clipstash::service::get_clip;
use clipstash::service::increase_hit_count;
use clipstash::service::insert_new_clip;
use clipstash::service::issue_api_key;
use clipstash::service::new_clip;
use clipstash::service::revoke_api_key;
use clipstash::service::save_api_key;
use clipstash::service::update_clip;
use clipstash::service::validate_api_key;
use clipstash::ApiKey;

fn ask_new(content: &str, password: Option<&str>, expires: Option<i64>) -> NewClip {
    NewClip {
        content: Content::new(content).unwrap(),
        title: Title::new(None),
        expires: Expires::new(expires.map(Time::from_seconds)),
        password: Password::new(password.map(|p| p.to_string())).unwrap(),
    }
}

fn ask_get(code: &str, password: Option<&str>) -> GetClip {
    GetClip {
        shortcode: ShortCode::from_str(code),
        password: Password::new(password.map(|p| p.to_string())).unwrap(),
    }
}

fn seed(store: &mut Store, code: &str, content: &str, password: Option<&str>, expires: Option<i64>) {
    let req = ask_new(content, password, expires);
    insert_new_clip(
        store,
        req,
        DbId::new(),
        ShortCode::from_str(code),
        Time::from_seconds(0),
    )
    .unwrap();
}

#[test]
fn clip_new_and_get() {
    let mut store = Store::new();

    let clip = insert_new_clip(
        &mut store,
        ask_new("content for clip '1'", None, None),
        DbId::new(),
        ShortCode::from_str("1"),
        Time::from_seconds(0),
    );

    assert!(clip.is_ok());

    let clip = clip.unwrap();
    assert!(clip.shortcode.as_str() == "1");
    assert!(clip.content.as_str() == format!("content for clip '1'"));
}

#[test]
fn open_clip_is_readable_with_any_password() {
    let mut store = Store::new();
    seed(&mut store, "open", "open text", None, None);

    let got = get_clip(&store, ask_get("open", None), 10).unwrap();
    assert_eq!(got.content.as_str(), "open text");

    let got = get_clip(&store, ask_get("open", Some("anything")), 10).unwrap();
    assert_eq!(got.content.as_str(), "open text");
}

#[test]
fn protected_clip_requires_its_exact_password() {
    let mut store = Store::new();
    seed(&mut store, "locked", "secret text", Some("p"), None);

    let got = get_clip(&store, ask_get("locked", Some("p")), 10).unwrap();
    assert_eq!(got.content.as_str(), "secret text");

    let wrong = get_clip(&store, ask_get("locked", Some("wrong")), 10);
    assert!(matches!(wrong, Err(ServiceError::PermissionError(_))));

    let none = get_clip(&store, ask_get("locked", None), 10);
    assert!(matches!(none, Err(ServiceError::PermissionError(_))));
}

#[test]
fn unknown_shortcode_is_not_found() {
    let store = Store::new();
    let missing = get_clip(&store, ask_get("does-not-exist", None), 10);
    assert!(matches!(missing, Err(ServiceError::NotFound)));
}

#[test]
fn expired_clip_reads_as_not_found() {
    let mut store = Store::new();
    seed(&mut store, "brief", "short-lived", None, Some(100));

    let live = get_clip(&store, ask_get("brief", None), 50);
    assert!(live.is_ok());

    let gone = get_clip(&store, ask_get("brief", None), 200);
    assert!(matches!(gone, Err(ServiceError::NotFound)));
}

#[test]
fn new_clip_assigns_fresh_code_and_zero_hits() {
    let mut store = Store::new();
    let clip = new_clip(&mut store, ask_new("fresh content", None, None)).unwrap();
    assert_eq!(clip.hits.into_inner(), 0);
    let code = clip.shortcode.as_str().to_string();
    assert_eq!(code.chars().count(), 10);
    for c in code.chars() {
        assert!(c.is_ascii_alphanumeric() || c == '-' || c == '_');
    }

    let got = get_clip(&store, ask_get(&code, None), 10).unwrap();
    assert_eq!(got.content.as_str(), "fresh content");
}

#[test]
fn insert_conflicts_on_taken_code() {
    let mut store = Store::new();
    seed(&mut store, "taken", "first", None, None);
    let again = insert_new_clip(
        &mut store,
        ask_new("second", None, None),
        DbId::new(),
        ShortCode::from_str("taken"),
        Time::from_seconds(0),
    );
    assert!(matches!(again, Err(ServiceError::Conflict)));

    let kept = get_clip(&store, ask_get("taken", None), 10).unwrap();
    assert_eq!(kept.content.as_str(), "first");
}

#[test]
fn update_clip_replaces_mutable_fields_only() {
    let mut store = Store::new();
    seed(&mut store, "edit", "before", None, None);
    increase_hit_count(&ShortCode::from_str("edit"), 5, &mut store);

    let updated = update_clip(
        &mut store,
        UpdateClip {
            shortcode: ShortCode::from_str("edit"),
            content: Content::new("after").unwrap(),
            title: Title::new(Some("named".to_string())),
            expires: Expires::new(None),
            password: Password::new(Some("pw".to_string())).unwrap(),
        },
    )
    .unwrap();
    assert_eq!(updated.content.as_str(), "after");
    assert_eq!(updated.shortcode.as_str(), "edit");
    assert_eq!(updated.hits.into_inner(), 5);

    let got = get_clip(&store, ask_get("edit", Some("pw")), 10).unwrap();
    assert_eq!(got.content.as_str(), "after");
    assert_eq!(got.title.into_inner(), Some("named".to_string()));

    let missing = update_clip(
        &mut store,
        UpdateClip {
            shortcode: ShortCode::from_str("absent"),
            content: Content::new("x").unwrap(),
            title: Title::new(None),
            expires: Expires::new(None),
            password: Password::new(None).unwrap(),
        },
    );
    assert!(matches!(missing, Err(ServiceError::NotFound)));
}

#[test]
fn hits_batch_into_one_durable_increment() {
    let mut store = Store::new();
    seed(&mut store, "counted", "text", None, None);

    let mut pending = HitStore::new();
    process_msg(
        HitCountMsg::Hit(ShortCode::from_str("counted"), 3),
        &mut pending,
        &mut store,
    );
    process_msg(
        HitCountMsg::Hit(ShortCode::from_str("counted"), 4),
        &mut pending,
        &mut store,
    );

    let before = store.fetch(&ShortCode::from_str("counted")).unwrap();
    assert_eq!(before.hits.into_inner(), 0);

    process_msg(HitCountMsg::Commit, &mut pending, &mut store);

    let after = store.fetch(&ShortCode::from_str("counted")).unwrap();
    assert_eq!(after.hits.into_inner(), 7);

    process_msg(HitCountMsg::Commit, &mut pending, &mut store);
    let still = store.fetch(&ShortCode::from_str("counted")).unwrap();
    assert_eq!(still.hits.into_inner(), 7);
}

#[test]
fn hit_for_unknown_code_is_skipped_on_commit() {
    let mut store = Store::new();
    seed(&mut store, "known", "text", None, None);

    let mut pending = HitStore::new();
    process_msg(
        HitCountMsg::Hit(ShortCode::from_str("ghost"), 2),
        &mut pending,
        &mut store,
    );
    process_msg(HitCountMsg::Commit, &mut pending, &mut store);

    let kept = store.fetch(&ShortCode::from_str("known")).unwrap();
    assert_eq!(kept.hits.into_inner(), 0);
    assert!(store.fetch(&ShortCode::from_str("ghost")).is_none());
}

#[test]
fn direct_increment_updates_only_its_clip() {
    let mut store = Store::new();
    seed(&mut store, "one", "text one", None, None);
    seed(&mut store, "two", "text two", None, None);

    increase_hit_count(&ShortCode::from_str("one"), 5, &mut store);

    assert_eq!(store.fetch(&ShortCode::from_str("one")).unwrap().hits.into_inner(), 5);
    assert_eq!(store.fetch(&ShortCode::from_str("two")).unwrap().hits.into_inner(), 0);
}

#[test]
fn delete_expired_removes_exactly_the_expired() {
    let mut store = Store::new();
    seed(&mut store, "old", "expired", None, Some(100));
    seed(&mut store, "fresh", "still here", None, Some(200));
    seed(&mut store, "forever", "no expiry", None, None);

    let removed = delete_expired(&mut store, 150);
    assert_eq!(removed, 1);
    assert!(store.fetch(&ShortCode::from_str("old")).is_none());
    assert!(store.fetch(&ShortCode::from_str("fresh")).is_some());
    assert!(store.fetch(&ShortCode::from_str("forever")).is_some());

    let removed = delete_expired(&mut store, 200);
    assert_eq!(removed, 0);
    assert!(store.fetch(&ShortCode::from_str("fresh")).is_some());

    let removed = delete_expired(&mut store, 201);
    assert_eq!(removed, 1);
    assert!(store.fetch(&ShortCode::from_str("fresh")).is_none());
    assert!(store.fetch(&ShortCode::from_str("forever")).is_some());
}

#[test]
fn issued_key_validates_until_revoked() {
    let mut store = Store::new();
    let issued = issue_api_key(&mut store);

    assert_eq!(validate_api_key(&issued, &store).unwrap(), true);

    let key = ApiKey::from_str(&issued).unwrap();
    let status = revoke_api_key(key, &mut store);
    assert!(matches!(status, RevocationStatus::Revoked));

    assert_eq!(validate_api_key(&issued, &store).unwrap(), false);

    let key = ApiKey::from_str(&issued).unwrap();
    let status = revoke_api_key(key, &mut store);
    assert!(matches!(status, RevocationStatus::NotFound));
}

#[test]
fn api_key_transport_is_base64() {
    let key = ApiKey::from_str("aGVsbG8=").unwrap();
    assert_eq!(key.clone().into_inner(), b"hello".to_vec());
    assert_eq!(key.to_base64(), "aGVsbG8=".to_string());

    let bad = ApiKey::from_str("not base64!");
    assert!(matches!(bad, Err(ApiKeyError::DecodeError(_))));

    let mut store = Store::new();
    let checked = validate_api_key("not base64!", &store);
    assert!(matches!(checked, Err(ApiKeyError::DecodeError(_))));
    let unknown = validate_api_key("aGVsbG8=", &mut store).unwrap();
    assert_eq!(unknown, false);
}

#[test]
fn issued_key_round_trips_and_is_sixteen_bytes() {
    let key = ApiKey::default();
    let text = key.clone().to_base64();
    let back = ApiKey::from_str(&text).unwrap();
    assert_eq!(back.into_inner(), key.into_inner());

    let mut store = Store::new();
    let saved = save_api_key(ApiKey::default(), &mut store);
    assert_eq!(saved.into_inner().len(), 16);
}

#[test]
fn end_to_end_create_then_read() {
    let mut store = Store::new();

    let open = new_clip(&mut store, ask_new("hello", None, None)).unwrap();
    let open_code = open.shortcode.as_str().to_string();
    let got = get_clip(&store, ask_get(&open_code, None), 10).unwrap();
    assert_eq!(got.content.as_str(), "hello");

    let locked = new_clip(&mut store, ask_new("secret", Some("pw"), None)).unwrap();
    let locked_code = locked.shortcode.as_str().to_string();

    let got = get_clip(&store, ask_get(&locked_code, Some("pw")), 10).unwrap();
    assert_eq!(got.content.as_str(), "secret");

    let denied = get_clip(&store, ask_get(&locked_code, Some("bad")), 10);
    assert!(matches!(denied, Err(ServiceError::PermissionError(_))));
}
