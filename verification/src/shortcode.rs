//! The public addressing token of a clip.
//!
//! A short code is a compact URL-safe string, distinct from the internal
//! identifier, so that the identifier is never exposed. Freshly generated
//! codes draw ten characters from a 64-character URL-safe alphabet; codes
//! read back from storage are kept as they are.

use vstd::prelude::*;

verus! {

/// Relies on rand::random for one uniformly random value. Nothing is
/// promised of a random value. The call aborts only when the process's
/// entropy source cannot be set up, an environment failure on a par with
/// running out of memory.
pub assume_specification<T>[ rand::random::<T> ]() -> (r: T)
    where
        rand::distributions::Standard: rand::distributions::Distribution<T>,
;

/// Relies on the documented behaviour of String::push: it appends exactly
/// the given character.
pub assume_specification[ String::push ](s: &mut String, ch: char)
    ensures
        final(s)@ == old(s)@.push(ch),
;

/// Whether `c` belongs to the URL-safe generation alphabet:
/// letters, digits, `-` and `_`.
pub open spec fn is_code_char(c: char) -> bool {
    let u = c as u32;
    ||| (0x41 <= u && u <= 0x5A)
    ||| (0x61 <= u && u <= 0x7A)
    ||| (0x30 <= u && u <= 0x39)
    ||| u == 0x2D
    ||| u == 0x5F
}

/// The character of the generation alphabet at index `x`, for `x < 64`.
fn alphabet_char(x: u8) -> (c: char)
    requires
        x < 64,
    ensures
        is_code_char(c),
{
    if x < 26 {
        (65 + x) as char
    } else if x < 52 {
        (97 + (x - 26)) as char
    } else if x < 62 {
        (48 + (x - 52)) as char
    } else if x == 62 {
        '-'
    } else {
        '_'
    }
}

/// The number of characters in a freshly generated short code.
pub const CODE_LEN: usize = 10;

/// The shape of a freshly generated code: `CODE_LEN` characters, each from
/// the URL-safe generation alphabet. Codes read back from storage or from a
/// request path may have any other shape.
pub open spec fn is_generated_code(s: Seq<char>) -> bool {
    s.len() == CODE_LEN && (forall|i: int| 0 <= i < s.len() ==> is_code_char(#[trigger] s[i]))
}

/// The public short code addressing a clip.
#[derive(Debug)]
pub struct ShortCode(String);

impl View for ShortCode {
    type V = Seq<char>;

    closed spec fn view(&self) -> Seq<char> {
        self.0@
    }
}

impl Clone for ShortCode {
    fn clone(&self) -> (r: Self)
        ensures
            r == *self,
    {
        ShortCode(self.0.clone())
    }
}

impl ShortCode {
    /// Generates a fresh random code of `CODE_LEN` characters from the
    /// URL-safe alphabet. Uniqueness against a store is the caller's duty:
    /// insertion reports a conflict, on which generation is retried.
    pub fn new() -> (r: Self)
        ensures
            is_generated_code(r@),
    {
        let mut code = String::new();
        let mut i: usize = 0;
        while i < CODE_LEN
            invariant
                i <= CODE_LEN,
                code@.len() == i,
                forall|j: int| 0 <= j < i ==> is_code_char(#[trigger] code@[j]),
            decreases CODE_LEN - i,
        {
            let b: u8 = rand::random();
            code.push(alphabet_char(b % 64));
            i += 1;
        }
        ShortCode(code)
    }

    /// Wraps a code read back from storage or from a request path.
    pub fn from_string(code: String) -> (r: Self)
        ensures
            r@ == code@,
    {
        ShortCode(code)
    }

    pub fn from_str(code: &str) -> (r: Self)
        ensures
            r@ == code@,
    {
        ShortCode(code.to_owned())
    }

    pub fn into_inner(self) -> (r: String)
        ensures
            r@ == self@,
    {
        self.0
    }

    pub fn as_str(&self) -> (r: &str)
        ensures
            r@ == self@,
    {
        self.0.as_str()
    }

    /// Exact comparison of two codes.
    pub fn eq_code(&self, other: &ShortCode) -> (r: bool)
        ensures
            r == (self@ == other@),
    {
        self.0.eq(&other.0)
    }
}

} // verus!
