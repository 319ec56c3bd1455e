//! Absolute points in time.
//!
//! A time is stored and compared as an epoch-second integer; conversion from
//! calendar formats happens at the boundary, outside this library's core.

use vstd::prelude::*;

verus! {

/// An absolute point in time, as seconds since the Unix epoch.
#[derive(Clone, Copy, Debug, PartialEq, Eq, Structural)]
pub struct Time(i64);

impl Time {
    pub closed spec fn spec_seconds(&self) -> int {
        self.0 as int
    }

    pub closed spec fn spec_new(seconds: i64) -> Time {
        Time(seconds)
    }

    pub fn from_seconds(seconds: i64) -> (r: Self)
        ensures
            r == Time::spec_new(seconds),
            r.spec_seconds() == seconds as int,
    {
        Time(seconds)
    }

    /// The time as seconds since the Unix epoch.
    pub fn timestamp(&self) -> (r: i64)
        ensures
            r as int == self.spec_seconds(),
    {
        self.0
    }
}

} // verus!
