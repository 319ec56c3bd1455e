//! The clip entity: the validated aggregate built only from valid fields.

use vstd::prelude::*;
use crate::dbid::ClipId;
use crate::dbid::DbId;
use crate::dbid::uuid_parse_of;
use crate::field::ClipError;
use crate::field::Content;
use crate::field::Expires;
use crate::field::Hits;
use crate::field::Password;
use crate::field::Posted;
use crate::field::Title;
use crate::field::is_blank;
use crate::field::normalized_text;
use crate::shortcode::ShortCode;
use crate::time::Time;

verus! {

/// A stored piece of text addressed by a short code, with optional password
/// and expiry.
#[derive(Debug)]
pub struct Clip {
    /// Opaque internal identifier; generated once at creation, immutable,
    /// never exposed to clients.
    pub clip_id: ClipId,
    /// Public addressing token; unique across live clips, immutable.
    pub shortcode: ShortCode,
    /// Required, non-blank text.
    pub content: Content,
    /// Optional title.
    pub title: Title,
    /// Creation timestamp, immutable.
    pub posted: Posted,
    /// Optional expiry; once it has passed, the clip is logically gone.
    pub expires: Expires,
    /// Optional secret gating reads of the content.
    pub password: Password,
    /// Non-negative access counter, mutated only by the hit aggregator's
    /// flush.
    pub hits: Hits,
}

impl Clone for Clip {
    fn clone(&self) -> (r: Self)
        ensures
            r == *self,
    {
        Clip {
            clip_id: self.clip_id,
            shortcode: self.shortcode.clone(),
            content: self.content.clone(),
            title: self.title.clone(),
            posted: self.posted,
            expires: self.expires,
            password: self.password.clone(),
            hits: self.hits,
        }
    }
}

impl Clip {
    /// Validity of the aggregate: every validated field is valid.
    pub open spec fn wf(&self) -> bool {
        &&& self.content.wf()
        &&& self.title.wf()
        &&& self.password.wf()
    }

    /// Whether the clip is logically gone at time `now`.
    pub open spec fn is_expired(&self, now: int) -> bool {
        self.expires.spec_is_past(now)
    }
}

/// A clip as the persistence layer hands it over: plain, unvalidated values.
/// It is used only to carry rows across the storage boundary; a `Clip` is
/// built from it by validation.
pub struct ClipRow {
    pub clip_id: String,
    pub shortcode: String,
    pub content: String,
    pub title: Option<String>,
    pub posted: i64,
    pub expires: Option<i64>,
    pub password: Option<String>,
    pub hits: i64,
}

impl Clip {
    /// Validates a raw row into a clip. Fails with `InvalidId` when the
    /// identifier does not parse, with `EmptyContent` when the content is
    /// blank, and with `InvalidHitsValue` when the hit count is negative;
    /// each check in that order.
    pub fn from_row(row: ClipRow) -> (r: Result<Clip, ClipError>)
        ensures
            match r {
                Ok(c) => {
                    &&& uuid_parse_of(row.clip_id@) is Some
                    &&& !is_blank(row.content@)
                    &&& row.hits >= 0
                    &&& c.wf()
                    &&& Some(c.clip_id.spec_id().spec_value()) == uuid_parse_of(row.clip_id@)
                    &&& c.shortcode@ == row.shortcode@
                    &&& c.content@ == row.content@
                    &&& c.title@ == normalized_text(row.title.deep_view())
                    &&& c.posted.spec_time().spec_seconds() == row.posted as int
                    &&& c.expires.spec_time() == (match row.expires {
                        Some(e) => Some(Time::spec_new(e)),
                        None => None::<Time>,
                    })
                    &&& c.password@ == normalized_text(row.password.deep_view())
                    &&& c.hits.value() == row.hits as u64
                },
                Err(e) => match e {
                    ClipError::InvalidId => uuid_parse_of(row.clip_id@) is None,
                    ClipError::EmptyContent => uuid_parse_of(row.clip_id@) is Some && is_blank(
                        row.content@,
                    ),
                    ClipError::InvalidHitsValue => uuid_parse_of(row.clip_id@) is Some && !is_blank(
                        row.content@,
                    ) && row.hits < 0,
                    _ => false,
                },
            },
    {
        let id = DbId::from_str(row.clip_id.as_str())?;
        let content = Content::new(row.content.as_str())?;
        let hits = if row.hits >= 0 {
            Hits::new(row.hits as u64)
        } else {
            return Err(ClipError::InvalidHitsValue);
        };
        Ok(
            Clip {
                clip_id: ClipId::new(id),
                shortcode: ShortCode::from_string(row.shortcode),
                content,
                title: Title::new(row.title),
                posted: Posted::new(Time::from_seconds(row.posted)),
                expires: Expires::new(
                    match row.expires {
                        Some(e) => Some(Time::from_seconds(e)),
                        None => None,
                    },
                ),
                password: Password::new(row.password)?,
                hits,
            },
        )
    }
}

} // verus!
