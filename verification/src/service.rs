//! The service layer: the operations the callers of the library consume.
//!
//! Reads go through the access-control decision procedure; writes validate
//! first and then act on the store; the API-key operations issue, check and
//! revoke credentials.

use vstd::prelude::*;
use vstd::string::StringExecFns;
use crate::api_key::ApiKey;
use crate::api_key::ApiKeyError;
use crate::api_key::b64_of;
use crate::clip::Clip;
use crate::dbid::ClipId;
use crate::dbid::DbId;
use crate::field::ClipError;
use crate::field::Content;
use crate::field::Expires;
use crate::field::Hits;
use crate::field::Password;
use crate::field::Posted;
use crate::field::Title;
use crate::shortcode::ShortCode;
use crate::shortcode::is_generated_code;
use crate::store::RevocationStatus;
use crate::store::Store;
use crate::store::bump_code;
use crate::store::find_code;
use crate::store::has_code;
use crate::store::key_neq;
use crate::store::live_pred;
use crate::store::replace_code;
use crate::store::with_fields;
use crate::time::Time;

verus! {

/// Relies on chrono::Utc::now for the current time as epoch seconds.
/// Nothing is promised of the clock. The call aborts only on a system clock
/// its calendar cannot carry, an environment failure on a par with running
/// out of memory.
#[verifier::external_body]
fn current_timestamp() -> i64 {
    chrono::Utc::now().timestamp()
}

/// A failure surfaced to the caller of the service layer.
#[derive(Debug)]
pub enum ServiceError {
    /// A field failed validation at construction time.
    Clip(ClipError),
    /// The looked-up clip is absent or expired; the two are
    /// indistinguishable to the caller.
    NotFound,
    /// A password-protected clip was requested without its exact password;
    /// carries a user-facing message.
    PermissionError(String),
    /// No free short code could be had for a new clip.
    Conflict,
}

/// A request to read a clip.
pub struct GetClip {
    pub shortcode: ShortCode,
    pub password: Password,
}

/// A request to create a clip from validated fields.
pub struct NewClip {
    pub content: Content,
    pub title: Title,
    pub expires: Expires,
    pub password: Password,
}

/// A request to replace the mutable fields of a stored clip.
pub struct UpdateClip {
    pub shortcode: ShortCode,
    pub content: Content,
    pub title: Title,
    pub expires: Expires,
    pub password: Password,
}

/// The outcome of the access-control decision for reading a clip.
pub enum Access {
    /// The clip may be read in full.
    Granted(Clip),
    /// The clip exists but the supplied password does not match.
    Denied,
    /// No live clip carries the code: it never existed, or it expired.
    NotFound,
}

/// The access-control decision: a missing or expired clip is not found; a
/// clip without a password is granted to anyone; a clip with a password is
/// granted exactly on a matching supplied password and denied otherwise.
pub open spec fn spec_access(found: Option<Clip>, pass: Option<Seq<char>>, now: int) -> Access {
    match found {
        None => Access::NotFound,
        Some(clip) => if clip.is_expired(now) {
            Access::NotFound
        } else if !clip.password.spec_has_password() {
            Access::Granted(clip)
        } else if pass == clip.password@ {
            Access::Granted(clip)
        } else {
            Access::Denied
        },
    }
}

/// Decides access for a fetched clip against a supplied password at time
/// `now`.
pub fn decide_access(found: Option<Clip>, password: &Password, now: i64) -> (r: Access)
    ensures
        r == spec_access(found, password@, now as int),
{
    match found {
        None => Access::NotFound,
        Some(clip) => {
            if clip.expires.is_past(now) {
                Access::NotFound
            } else if !clip.password.has_password() {
                Access::Granted(clip)
            } else if clip.password.matches(password) {
                Access::Granted(clip)
            } else {
                Access::Denied
            }
        },
    }
}

/// The user-facing message carried by a permission failure.
pub open spec fn denied_message() -> Seq<char> {
    "a password is required to view this clip"@
}

/// Reads a clip: looks its short code up, treats an expired clip as absent,
/// and gates the content by the clip's password, if it has one. The caller
/// is responsible for signalling one hit to the aggregator on success.
pub fn get_clip(store: &Store, req: GetClip, now: i64) -> (r: Result<Clip, ServiceError>)
    ensures
        ({
            let a = spec_access(
                find_code(store.clips_view(), req.shortcode@),
                req.password@,
                now as int,
            );
            match r {
                Ok(c) => a == Access::Granted(c),
                Err(e) => match e {
                    ServiceError::NotFound => a is NotFound,
                    ServiceError::PermissionError(msg) => a is Denied && msg@ == denied_message(),
                    _ => false,
                },
            }
        }),
{
    let found = store.fetch(&req.shortcode);
    match decide_access(found, &req.password, now) {
        Access::Granted(clip) => Ok(clip),
        Access::Denied => Err(
            ServiceError::PermissionError(
                String::from_str("a password is required to view this clip"),
            ),
        ),
        Access::NotFound => Err(ServiceError::NotFound),
    }
}

/// The clip that a creation request, a fresh identifier, a fresh short code
/// and a creation time assemble into; its hit count starts at zero.
pub open spec fn built_clip(req: NewClip, id: DbId, shortcode: ShortCode, posted: Time) -> Clip {
    Clip {
        clip_id: ClipId::spec_new(id),
        shortcode,
        content: req.content,
        title: req.title,
        posted: Posted::spec_new(posted),
        expires: req.expires,
        password: req.password,
        hits: Hits::spec_new(0),
    }
}

/// Inserts a new clip assembled from a creation request and the given fresh
/// parts. Succeeds exactly when no stored clip carries `shortcode`; on a
/// conflict the store is unchanged and generation is to be retried.
pub fn insert_new_clip(
    store: &mut Store,
    req: NewClip,
    id: DbId,
    shortcode: ShortCode,
    posted: Time,
) -> (r: Result<Clip, ServiceError>)
    requires
        old(store).wf(),
        req.content.wf(),
        req.title.wf(),
        req.password.wf(),
    ensures
        final(store).wf(),
        final(store).keys_view() == old(store).keys_view(),
        ({
            let c = built_clip(req, id, shortcode, posted);
            match r {
                Ok(rc) => {
                    &&& rc == c
                    &&& !has_code(old(store).clips_view(), shortcode@)
                    &&& final(store).clips_view() == old(store).clips_view().push(c)
                },
                Err(e) => {
                    &&& e is Conflict
                    &&& has_code(old(store).clips_view(), shortcode@)
                    &&& *final(store) == *old(store)
                },
            }
        }),
{
    let clip = Clip {
        clip_id: ClipId::new(id),
        shortcode,
        content: req.content,
        title: req.title,
        posted: Posted::new(posted),
        expires: req.expires,
        password: req.password,
        hits: Hits::new(0),
    };
    let ret = clip.clone();
    if store.insert(clip) {
        Ok(ret)
    } else {
        Err(ServiceError::Conflict)
    }
}

/// Whether some stored clip carries a code of the freshly generated shape.
/// Only such a clip can ever collide with a drawn code, so a store without
/// one cannot make creation fail.
pub open spec fn holds_generated_code(clips: Seq<Clip>) -> bool {
    exists|i: int| 0 <= i < clips.len() && is_generated_code((#[trigger] clips[i]).shortcode@)
}

/// The number of times a fresh short code is drawn before creation gives
/// up. A draw only fails on a code collision, so with ten characters from a
/// 64-character alphabet the attempts are practically never exhausted.
pub const CODE_ATTEMPTS: usize = 8;

/// Creates a clip from validated fields: assigns a fresh identifier, a
/// fresh unique short code and the creation time, and stores it with a hit
/// count of zero. Draws another code on a collision; only when every
/// attempt collides does it give up with `Conflict`, leaving the store
/// unchanged.
pub fn new_clip(store: &mut Store, req: NewClip) -> (r: Result<Clip, ServiceError>)
    requires
        old(store).wf(),
        req.content.wf(),
        req.title.wf(),
        req.password.wf(),
    ensures
        final(store).wf(),
        final(store).keys_view() == old(store).keys_view(),
        match r {
            Ok(c) => {
                &&& c.content == req.content
                &&& c.title == req.title
                &&& c.expires == req.expires
                &&& c.password == req.password
                &&& c.hits.value() == 0
                &&& is_generated_code(c.shortcode@)
                &&& !has_code(old(store).clips_view(), c.shortcode@)
                &&& final(store).clips_view() == old(store).clips_view().push(c)
            },
            Err(e) => {
                &&& e is Conflict
                &&& final(store).clips_view() == old(store).clips_view()
            },
        },
        !holds_generated_code(old(store).clips_view()) ==> r is Ok,
        old(store).clips_view().len() == 0 ==> r is Ok,
{
    let id = DbId::new();
    let posted = Time::from_seconds(current_timestamp());
    let mut attempt: usize = 0;
    let mut fresh: Option<ShortCode> = None;
    while fresh.is_none() && attempt < CODE_ATTEMPTS
        invariant
            store.clips_view() == old(store).clips_view(),
            store.keys_view() == old(store).keys_view(),
            store.wf(),
            match fresh {
                Some(code) => !has_code(store.clips_view(), code@) && is_generated_code(code@),
                None => true,
            },
            fresh is None && attempt > 0 ==> holds_generated_code(old(store).clips_view()),
        decreases CODE_ATTEMPTS - attempt,
    {
        let code = ShortCode::new();
        let found = store.fetch(&code);
        if found.is_none() {
            fresh = Some(code);
        } else {
            proof {
                crate::store::lemma_find_code(store.clips_view(), code@);
                let c = find_code(store.clips_view(), code@)->Some_0;
                let k = choose|k: int|
                    0 <= k < store.clips_view().len() && store.clips_view()[k] == c;
                assert(is_generated_code((store.clips_view()[k]).shortcode@));
            }
        }
        attempt += 1;
    }
    match fresh {
        Some(code) => {
            proof {
                Hits::lemma_value(0);
            }
            let r = insert_new_clip(store, req, id, code, posted);
            match r {
                Ok(c) => Ok(c),
                Err(_) => Err(ServiceError::Conflict),
            }
        },
        None => Err(ServiceError::Conflict),
    }
}

/// Replaces the content, title, expiry and password of the clip carrying
/// the requested short code, preserving its identifier, short code,
/// creation time and hit count; fails with `NotFound` when no stored clip
/// carries the code, leaving the store unchanged.
pub fn update_clip(store: &mut Store, req: UpdateClip) -> (r: Result<Clip, ServiceError>)
    requires
        old(store).wf(),
        req.content.wf(),
        req.title.wf(),
        req.password.wf(),
    ensures
        final(store).wf(),
        final(store).keys_view() == old(store).keys_view(),
        final(store).clips_view() == replace_code(
            old(store).clips_view(),
            req.shortcode@,
            req.content,
            req.title,
            req.expires,
            req.password,
        ),
        ({
            let found = find_code(old(store).clips_view(), req.shortcode@);
            match r {
                Ok(c) => found is Some && c == with_fields(
                    found->Some_0,
                    req.content,
                    req.title,
                    req.expires,
                    req.password,
                ),
                Err(e) => e is NotFound && found is None,
            }
        }),
{
    match store.replace(&req.shortcode, req.content, req.title, req.expires, req.password) {
        Some(c) => Ok(c),
        None => Err(ServiceError::NotFound),
    }
}

/// Adds `hits` accesses to the durable counter of the clip carrying
/// `shortcode`; an unknown code is ignored.
pub fn increase_hit_count(shortcode: &ShortCode, hits: u32, store: &mut Store)
    requires
        old(store).wf(),
    ensures
        final(store).wf(),
        final(store).clips_view() == bump_code(old(store).clips_view(), shortcode@, hits),
        final(store).keys_view() == old(store).keys_view(),
{
    store.increment_hits(shortcode, hits);
}

/// Removes every clip whose expiry lies strictly before `now` and reports
/// how many were removed; clips with a later expiry or none are untouched.
pub fn delete_expired(store: &mut Store, now: i64) -> (r: u64)
    requires
        old(store).wf(),
    ensures
        final(store).wf(),
        final(store).clips_view() == old(store).clips_view().filter(live_pred(now as int)),
        r as int == old(store).clips_view().len() - final(store).clips_view().len(),
        final(store).keys_view() == old(store).keys_view(),
{
    store.delete_expired(now)
}

/// Persists an issued API key and hands it back.
pub fn save_api_key(api_key: ApiKey, store: &mut Store) -> (r: ApiKey)
    requires
        old(store).wf(),
    ensures
        final(store).wf(),
        r@ == api_key@,
        final(store).keys_view() == old(store).keys_view().push(api_key@),
        final(store).clips_view() == old(store).clips_view(),
{
    let bytes = api_key.clone().into_inner();
    store.put_api_key(bytes);
    api_key
}

/// Removes a stored API key; reports `NotFound` when it was already absent.
pub fn revoke_api_key(api_key: ApiKey, store: &mut Store) -> (r: RevocationStatus)
    requires
        old(store).wf(),
    ensures
        final(store).wf(),
        final(store).keys_view() == old(store).keys_view().filter(key_neq(api_key@)),
        !final(store).keys_view().contains(api_key@),
        r is Revoked <==> old(store).keys_view().contains(api_key@),
        final(store).clips_view() == old(store).clips_view(),
{
    let bytes = api_key.into_inner();
    store.delete_api_key(&bytes)
}

/// Whether a supplied API key is stored.
pub fn is_api_key_valid(api_key: ApiKey, store: &Store) -> (r: bool)
    ensures
        r == store.keys_view().contains(api_key@),
{
    let bytes = api_key.into_inner();
    store.key_exists(&bytes)
}

/// Issues a fresh random API key: persists its raw bytes and returns its
/// base64 transport form.
pub fn issue_api_key(store: &mut Store) -> (r: String)
    requires
        old(store).wf(),
    ensures
        final(store).wf(),
        final(store).clips_view() == old(store).clips_view(),
        exists|k: Seq<u8>|
            k.len() == crate::api_key::API_KEY_LEN && r@ == b64_of(k) && final(store).keys_view()
                == old(store).keys_view().push(k),
{
    let key = ApiKey::default();
    let key = save_api_key(key, store);
    key.to_base64()
}

/// Checks a caller-supplied base64 credential: text that is not base64 is a
/// `DecodeError`, distinct from an unknown key; otherwise the decoded bytes
/// are looked up in the store.
pub fn validate_api_key(key: &str, store: &Store) -> (r: Result<bool, ApiKeyError>)
    ensures
        match r {
            Ok(valid) => forall|b: Seq<u8>|
                key@ == b64_of(b) ==> valid == store.keys_view().contains(b),
            Err(e) => e is DecodeError,
        },
        (r is Err) <==> (forall|b: Seq<u8>| key@ != b64_of(b)),
{
    match ApiKey::from_str(key) {
        Ok(k) => Ok(is_api_key_valid(k, store)),
        Err(e) => Err(e),
    }
}

} // verus!
