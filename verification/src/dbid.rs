//! The opaque internal identifier of a clip.
//!
//! An identifier is a UUID, held as its 128-bit value. It is generated once
//! at creation, never exposed to clients, and only crosses into text form at
//! the persistence boundary.

use vstd::prelude::*;
use crate::field::ClipError;

verus! {

/// The canonical hyphenated text of the UUID whose 128-bit value is `id`.
pub uninterp spec fn uuid_text_of(id: u128) -> Seq<char>;

/// The 128-bit value that `s` denotes when it parses as a UUID text.
pub uninterp spec fn uuid_parse_of(s: Seq<char>) -> Option<u128>;

/// Relies on uuid::Uuid::new_v4 for a fresh random identifier. Nothing is
/// promised of a random value. The call aborts only when the process's
/// entropy source cannot be read, an environment failure on a par with
/// running out of memory.
#[verifier::external_body]
fn random_uuid_value() -> u128 {
    uuid::Uuid::new_v4().as_u128()
}

/// Relies on uuid::Uuid::try_parse: whether a string parses as a UUID, and
/// to what value, depends on the string alone.
#[verifier::external_body]
fn parse_uuid_value(s: &str) -> (r: Option<u128>)
    ensures
        r == uuid_parse_of(s@),
{
    match uuid::Uuid::try_parse(s) {
        Ok(u) => Some(u.as_u128()),
        Err(_) => None,
    }
}

/// Relies on uuid::Uuid::hyphenated for the canonical text of a UUID, which
/// depends on its value alone; uuid::Uuid::try_parse accepts that text back.
#[verifier::external_body]
fn uuid_value_text(id: u128) -> (r: String)
    ensures
        r@ == uuid_text_of(id),
        uuid_parse_of(r@) == Some(id),
{
    uuid::Uuid::from_u128(id).hyphenated().to_string()
}

/// A database-level identifier: a UUID held by its 128-bit value.
#[derive(Clone, Copy, Debug, PartialEq, Eq, Structural)]
pub struct DbId(u128);

impl DbId {
    pub closed spec fn spec_value(&self) -> u128 {
        self.0
    }

    /// A fresh random identifier.
    pub fn new() -> DbId {
        DbId(random_uuid_value())
    }

    /// The all-zero identifier, standing for "no identifier yet".
    pub fn nil() -> (r: DbId)
        ensures
            r.spec_value() == 0,
    {
        DbId(0)
    }

    /// Reads an identifier back from its text form; fails with `InvalidId`
    /// on anything that does not parse as a UUID.
    pub fn from_str(s: &str) -> (r: Result<DbId, ClipError>)
        ensures
            match r {
                Ok(id) => uuid_parse_of(s@) == Some(id.spec_value()),
                Err(e) => uuid_parse_of(s@) is None && e == ClipError::InvalidId,
            },
    {
        match parse_uuid_value(s) {
            Some(v) => Ok(DbId(v)),
            None => Err(ClipError::InvalidId),
        }
    }

    /// The canonical text of this identifier.
    pub fn into_string(self) -> (r: String)
        ensures
            r@ == uuid_text_of(self.spec_value()),
            uuid_parse_of(r@) == Some(self.spec_value()),
    {
        uuid_value_text(self.0)
    }
}

/// The identifier field of a clip.
#[derive(Clone, Copy, Debug, PartialEq, Eq, Structural)]
pub struct ClipId(DbId);

impl ClipId {
    pub closed spec fn spec_id(&self) -> DbId {
        self.0
    }

    pub closed spec fn spec_new(id: DbId) -> ClipId {
        ClipId(id)
    }

    pub fn new(id: DbId) -> (r: Self)
        ensures
            r == ClipId::spec_new(id),
            r.spec_id() == id,
    {
        ClipId(id)
    }

    pub fn into_inner(self) -> (r: DbId)
        ensures
            r == self.spec_id(),
    {
        self.0
    }
}

} // verus!
