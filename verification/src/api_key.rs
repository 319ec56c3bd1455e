//! The shared credential guarding privileged calls.
//!
//! An API key is a fixed-size random byte string. It is persisted as raw
//! bytes, travels as a standard base64 string, and is checked on every
//! privileged call.

use vstd::prelude::*;
use vstd::string::StringExecFns;
use base64::Engine;

verus! {

/// The number of random bytes in a freshly generated key.
pub const API_KEY_LEN: usize = 16;

/// The text that standard base64 gives for `bytes`.
pub uninterp spec fn b64_of(bytes: Seq<u8>) -> Seq<char>;

/// Relies on base64's STANDARD engine for encoding: the text is a function
/// of the bytes alone.
#[verifier::external_body]
fn b64_encode(bytes: &Vec<u8>) -> (r: String)
    ensures
        r@ == b64_of(bytes@),
{
    base64::engine::general_purpose::STANDARD.encode(bytes.as_slice())
}

/// Relies on base64's STANDARD engine for decoding: it accepts exactly the
/// canonical encodings (padding is required and checked) and inverts the
/// encoding on them.
#[verifier::external_body]
fn b64_decode(s: &str) -> (r: Option<Vec<u8>>)
    ensures
        forall|b: Seq<u8>| s@ == b64_of(b) ==> r is Some && r->Some_0@ == b,
        r is Some ==> b64_of(r->Some_0@) == s@,
{
    base64::engine::general_purpose::STANDARD.decode(s.as_bytes()).ok()
}

/// Why a supplied API key was rejected before it was ever looked up, or why
/// a lookup failed. A decoding failure is distinct from "not found".
#[derive(Debug)]
pub enum ApiKeyError {
    /// The key is not stored.
    NotFound(String),
    /// The supplied text is not valid base64.
    DecodeError(String),
}

/// A fixed-length random credential, held as raw bytes.
#[derive(Debug)]
pub struct ApiKey(Vec<u8>);

impl View for ApiKey {
    type V = Seq<u8>;

    closed spec fn view(&self) -> Seq<u8> {
        self.0@
    }
}

impl Clone for ApiKey {
    fn clone(&self) -> (r: Self)
        ensures
            r@ == self@,
    {
        let copy = self.0.clone();
        proof {
            assert(copy@ =~= self.0@);
        }
        ApiKey(copy)
    }
}

impl Default for ApiKey {
    /// A fresh random key of `API_KEY_LEN` bytes.
    fn default() -> (r: Self)
        ensures
            r@.len() == API_KEY_LEN,
    {
        let mut key: Vec<u8> = Vec::new();
        let mut i: usize = 0;
        while i < API_KEY_LEN
            invariant
                i <= API_KEY_LEN,
                key@.len() == i,
            decreases API_KEY_LEN - i,
        {
            let b: u8 = rand::random();
            key.push(b);
            i += 1;
        }
        ApiKey(key)
    }
}

impl ApiKey {
    /// The raw bytes of the key.
    pub fn into_inner(self) -> (r: Vec<u8>)
        ensures
            r@ == self@,
    {
        self.0
    }

    /// The key in its transport form: a standard base64 string.
    pub fn to_base64(&self) -> (r: String)
        ensures
            r@ == b64_of(self@),
    {
        b64_encode(&self.0)
    }

    /// Reads a key back from its transport form. Succeeds exactly on the
    /// base64 encodings; anything else is a `DecodeError`, distinct from
    /// "not found".
    pub fn from_str(s: &str) -> (r: Result<ApiKey, ApiKeyError>)
        ensures
            match r {
                Ok(k) => b64_of(k@) == s@ && (forall|b: Seq<u8>| s@ == b64_of(b) ==> k@ == b),
                Err(e) => e is DecodeError && (forall|b: Seq<u8>| s@ != b64_of(b)),
            },
    {
        match b64_decode(s) {
            Some(bytes) => Ok(ApiKey(bytes)),
            None => {
                proof {
                    assert forall|b: Seq<u8>| s@ != b64_of(b) by {
                        if s@ == b64_of(b) {
                            assert(false);
                        }
                    }
                }
                Err(ApiKeyError::DecodeError(String::from_str("invalid API key format")))
            },
        }
    }
}

} // verus!
