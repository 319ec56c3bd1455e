//! Validated field types for a clip.
//!
//! Each attribute of a clip has a smart constructor that either returns a
//! validated value or a specific validation failure; once constructed, a
//! value stays valid for the lifetime of the entity.

use vstd::prelude::*;
use crate::time::Time;
use vstd::string::StrSliceExecFns;

verus! {

/// A validation failure raised at entity-construction time.
#[derive(Clone, Copy, Debug, PartialEq, Eq, Structural)]
pub enum ClipError {
    /// The content is empty or all-whitespace.
    EmptyContent,
    /// A timestamp could not be read.
    InvalidDate,
    /// A hit count from a signed source was negative.
    InvalidHitsValue,
    /// An internal identifier could not be read.
    InvalidId,
}

/// Whether `c` is a whitespace character (the Unicode `White_Space` set,
/// the same set `char::is_whitespace` recognizes).
pub open spec fn is_space(c: char) -> bool {
    let u = c as u32;
    ||| u == 0x20
    ||| (0x09 <= u && u <= 0x0D)
    ||| u == 0x85
    ||| u == 0xA0
    ||| u == 0x1680
    ||| (0x2000 <= u && u <= 0x200A)
    ||| u == 0x2028
    ||| u == 0x2029
    ||| u == 0x202F
    ||| u == 0x205F
    ||| u == 0x3000
}

/// Whether `s` is blank: empty, or made of whitespace only.
pub open spec fn is_blank(s: Seq<char>) -> bool {
    forall|i: int| 0 <= i < s.len() ==> is_space(#[trigger] s[i])
}

/// What an optional text normalizes to: blank or absent text becomes
/// "absent"; anything else is kept unchanged.
pub open spec fn normalized_text(t: Option<Seq<char>>) -> Option<Seq<char>> {
    match t {
        Some(s) => if is_blank(s) {
            None
        } else {
            Some(s)
        },
        None => None,
    }
}

/// Decides `is_space` on one character.
pub fn is_space_char(c: char) -> (r: bool)
    ensures
        r == is_space(c),
{
    let u = c as u32;
    u == 0x20 || (0x09 <= u && u <= 0x0D) || u == 0x85 || u == 0xA0 || u == 0x1680 || (0x2000 <= u
        && u <= 0x200A) || u == 0x2028 || u == 0x2029 || u == 0x202F || u == 0x205F || u == 0x3000
}

/// Decides `is_blank` on a string slice.
pub fn str_is_blank(s: &str) -> (r: bool)
    ensures
        r == is_blank(s@),
{
    let n = s.unicode_len();
    let mut i: usize = 0;
    while i < n
        invariant
            i <= n,
            n == s@.len(),
            forall|j: int| 0 <= j < i ==> is_space(#[trigger] s@[j]),
        decreases n - i,
    {
        let c = s.get_char(i);
        if !is_space_char(c) {
            assert(!is_blank(s@));
            return false;
        }
        i += 1;
    }
    true
}

/// The required, non-blank text of a clip.
#[derive(Debug)]
pub struct Content(String);

impl View for Content {
    type V = Seq<char>;

    closed spec fn view(&self) -> Seq<char> {
        self.0@
    }
}

impl Clone for Content {
    fn clone(&self) -> (r: Self)
        ensures
            r == *self,
    {
        Content(self.0.clone())
    }
}

impl Content {
    /// Validity: content is never blank after construction.
    pub open spec fn wf(&self) -> bool {
        !is_blank(self@)
    }

    /// Accepts any non-blank string, unchanged; rejects blank input with
    /// `EmptyContent`.
    pub fn new(content: &str) -> (r: Result<Self, ClipError>)
        ensures
            match r {
                Ok(c) => !is_blank(content@) && c@ == content@ && c.wf(),
                Err(e) => is_blank(content@) && e == ClipError::EmptyContent,
            },
    {
        if str_is_blank(content) {
            Err(ClipError::EmptyContent)
        } else {
            Ok(Content(content.to_owned()))
        }
    }

    pub fn into_inner(self) -> (r: String)
        ensures
            r@ == self@,
    {
        self.0
    }

    pub fn as_str(&self) -> (r: &str)
        ensures
            r@ == self@,
    {
        self.0.as_str()
    }
}

/// The optional text title of a clip.
#[derive(Debug)]
pub struct Title(Option<String>);

impl View for Title {
    type V = Option<Seq<char>>;

    closed spec fn view(&self) -> Option<Seq<char>> {
        match self.0 {
            Some(ref t) => Some(t@),
            None => None,
        }
    }
}

impl Clone for Title {
    fn clone(&self) -> (r: Self)
        ensures
            r == *self,
    {
        match &self.0 {
            Some(t) => Title(Some(t.clone())),
            None => Title(None),
        }
    }
}

impl Title {
    /// Validity: a present title is never blank.
    pub open spec fn wf(&self) -> bool {
        match self@ {
            Some(t) => !is_blank(t),
            None => true,
        }
    }

    /// Normalizes a blank or absent title to "absent"; never fails.
    pub fn new(title: Option<String>) -> (r: Self)
        ensures
            r@ == normalized_text(title.deep_view()),
            r.wf(),
    {
        match title {
            Some(t) => {
                if !str_is_blank(t.as_str()) {
                    Title(Some(t))
                } else {
                    Title(None)
                }
            },
            None => Title(None),
        }
    }

    /// Reads a title from request text; normalization means this never
    /// fails.
    pub fn from_str(s: &str) -> (r: Result<Self, ClipError>)
        ensures
            match r {
                Ok(t) => t@ == normalized_text(Some(s@)) && t.wf(),
                Err(_) => false,
            },
    {
        Ok(Title::new(Some(s.to_owned())))
    }

    pub fn into_inner(self) -> (r: Option<String>)
        ensures
            match r {
                Some(t) => self@ == Some(t@),
                None => self@ is None,
            },
    {
        self.0
    }
}

impl Default for Title {
    /// An absent title.
    fn default() -> (r: Self)
        ensures
            r@ is None,
    {
        Title(None)
    }
}

/// The optional secret guarding a clip's content.
#[derive(Debug)]
pub struct Password(Option<String>);

impl View for Password {
    type V = Option<Seq<char>>;

    closed spec fn view(&self) -> Option<Seq<char>> {
        match self.0 {
            Some(ref p) => Some(p@),
            None => None,
        }
    }
}

impl Clone for Password {
    fn clone(&self) -> (r: Self)
        ensures
            r == *self,
    {
        match &self.0 {
            Some(p) => Password(Some(p.clone())),
            None => Password(None),
        }
    }
}

impl Password {
    /// Validity: a present password is never blank, so "has a password but
    /// it is empty" cannot be represented.
    pub open spec fn wf(&self) -> bool {
        match self@ {
            Some(p) => !is_blank(p),
            None => true,
        }
    }

    pub open spec fn spec_has_password(&self) -> bool {
        self@ is Some
    }

    /// Normalizes a blank or absent password to "no password"; never fails.
    pub fn new(password: Option<String>) -> (r: Result<Self, ClipError>)
        ensures
            match r {
                Ok(p) => p.wf() && p@ == normalized_text(password.deep_view()),
                Err(_) => false,
            },
    {
        match password {
            Some(p) => {
                if !str_is_blank(p.as_str()) {
                    Ok(Password(Some(p)))
                } else {
                    Ok(Password(None))
                }
            },
            None => Ok(Password(None)),
        }
    }

    pub fn into_inner(self) -> (r: Option<String>)
        ensures
            match r {
                Some(p) => self@ == Some(p@),
                None => self@ is None,
            },
    {
        self.0
    }

    /// Reads a password from request text; normalization means this never
    /// fails.
    pub fn from_str(s: &str) -> (r: Result<Self, ClipError>)
        ensures
            match r {
                Ok(p) => p@ == normalized_text(Some(s@)) && p.wf(),
                Err(_) => false,
            },
    {
        Password::new(Some(s.to_owned()))
    }

    pub fn has_password(&self) -> (r: bool)
        ensures
            r == self.spec_has_password(),
    {
        self.0.is_some()
    }

    /// Exact, case-sensitive comparison with a supplied password.
    pub fn matches(&self, supplied: &Password) -> (r: bool)
        ensures
            r == (self@ == supplied@),
    {
        match (&self.0, &supplied.0) {
            (Some(a), Some(b)) => a.eq(b),
            (None, None) => true,
            _ => false,
        }
    }
}

/// The non-negative access counter of a clip.
#[derive(Clone, Copy, Debug, PartialEq, Eq, Structural)]
pub struct Hits(u64);

impl Hits {
    pub closed spec fn spec_new(hits: u64) -> Hits {
        Hits(hits)
    }

    pub closed spec fn value(&self) -> u64 {
        self.0
    }

    pub proof fn lemma_value(hits: u64)
        ensures
            Hits::spec_new(hits).value() == hits,
    {
    }

    pub fn new(hits: u64) -> (r: Self)
        ensures
            r == Hits::spec_new(hits),
            r.value() == hits,
    {
        Hits(hits)
    }

    pub fn into_inner(self) -> (r: u64)
        ensures
            r == self.value(),
    {
        self.0
    }
}

/// The immutable creation timestamp of a clip.
#[derive(Clone, Copy, Debug, PartialEq, Eq, Structural)]
pub struct Posted(Time);

impl Posted {
    pub closed spec fn spec_time(&self) -> Time {
        self.0
    }

    pub closed spec fn spec_new(time: Time) -> Posted {
        Posted(time)
    }

    pub fn new(time: Time) -> (r: Self)
        ensures
            r == Posted::spec_new(time),
            r.spec_time() == time,
    {
        Posted(time)
    }

    pub fn into_inner(self) -> (r: Time)
        ensures
            r == self.spec_time(),
    {
        self.0
    }
}

/// The optional expiry of a clip; a clip whose expiry lies in the past is
/// logically gone.
#[derive(Clone, Copy, Debug, PartialEq, Eq, Structural)]
pub struct Expires(Option<Time>);

impl Expires {
    pub closed spec fn spec_time(&self) -> Option<Time> {
        self.0
    }

    pub closed spec fn spec_new(time: Option<Time>) -> Expires {
        Expires(time)
    }

    pub fn new(time: Option<Time>) -> (r: Self)
        ensures
            r == Expires::spec_new(time),
            r.spec_time() == time,
    {
        Expires(time)
    }

    pub fn into_inner(self) -> (r: Option<Time>)
        ensures
            r == self.spec_time(),
    {
        self.0
    }

    /// Whether this expiry has passed at time `now`: an expiry is set and
    /// lies strictly before `now`. An absent expiry never passes.
    pub open spec fn spec_is_past(&self, now: int) -> bool {
        match self.spec_time() {
            Some(t) => t.spec_seconds() < now,
            None => false,
        }
    }

    pub fn is_past(&self, now: i64) -> (r: bool)
        ensures
            r == self.spec_is_past(now as int),
    {
        match &self.0 {
            Some(t) => t.timestamp() < now,
            None => false,
        }
    }
}

} // verus!
