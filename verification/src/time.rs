//! Media time values as the bridge exchanges them: a rational `value /
//! timescale` with a kind tag, and ranges of such times.

use vstd::prelude::*;

use crate::text::str_eq;

verus! {

/// Kind tag of an ordinary numeric time.
pub const TIME_KIND_NUMERIC: i32 = 0;

/// Kind tag of an invalid time.
pub const TIME_KIND_INVALID: i32 = 1;

/// Kind tag of positive infinity.
pub const TIME_KIND_POSITIVE_INFINITY: i32 = 2;

/// Kind tag of negative infinity.
pub const TIME_KIND_NEGATIVE_INFINITY: i32 = 3;

/// Kind tag of an indefinite time.
pub const TIME_KIND_INDEFINITE: i32 = 4;

/// The kind tag a name in the bridge's JSON stands for; an unknown name stands
/// for an invalid time.
pub open spec fn time_kind_from_name_spec(name: Seq<char>) -> i32 {
    if name == "numeric"@ {
        TIME_KIND_NUMERIC
    } else if name == "positive_infinity"@ {
        TIME_KIND_POSITIVE_INFINITY
    } else if name == "negative_infinity"@ {
        TIME_KIND_NEGATIVE_INFINITY
    } else if name == "indefinite"@ {
        TIME_KIND_INDEFINITE
    } else {
        TIME_KIND_INVALID
    }
}

/// The name the bridge's JSON gives a kind tag; an unknown tag is named
/// `"invalid"`.
pub open spec fn time_kind_name_spec(kind: i32) -> Seq<char> {
    if kind == TIME_KIND_NUMERIC {
        "numeric"@
    } else if kind == TIME_KIND_POSITIVE_INFINITY {
        "positive_infinity"@
    } else if kind == TIME_KIND_NEGATIVE_INFINITY {
        "negative_infinity"@
    } else if kind == TIME_KIND_INDEFINITE {
        "indefinite"@
    } else {
        "invalid"@
    }
}

/// Decodes the kind name of a time in the bridge's JSON.
pub fn time_kind_from_name(name: &str) -> (r: i32)
    ensures
        r == time_kind_from_name_spec(name@),
{
    if str_eq(name, "numeric") {
        TIME_KIND_NUMERIC
    } else if str_eq(name, "positive_infinity") {
        TIME_KIND_POSITIVE_INFINITY
    } else if str_eq(name, "negative_infinity") {
        TIME_KIND_NEGATIVE_INFINITY
    } else if str_eq(name, "indefinite") {
        TIME_KIND_INDEFINITE
    } else {
        TIME_KIND_INVALID
    }
}

/// The kind name of a time in the bridge's JSON.
pub fn time_kind_name(kind: i32) -> (r: &'static str)
    ensures
        r@ == time_kind_name_spec(kind),
{
    if kind == TIME_KIND_NUMERIC {
        "numeric"
    } else if kind == TIME_KIND_POSITIVE_INFINITY {
        "positive_infinity"
    } else if kind == TIME_KIND_NEGATIVE_INFINITY {
        "negative_infinity"
    } else if kind == TIME_KIND_INDEFINITE {
        "indefinite"
    } else {
        "invalid"
    }
}

/// Naming a kind tag and decoding the name gives the tag back for the five
/// known tags, and every other tag reads back as invalid.
pub proof fn lemma_time_kind_name_round_trip(kind: i32)
    ensures
        0 <= kind <= 4 ==> time_kind_from_name_spec(time_kind_name_spec(kind)) == kind,
        !(0 <= kind <= 4) ==> time_kind_from_name_spec(time_kind_name_spec(kind)) == TIME_KIND_INVALID,
{
    reveal_strlit("numeric");
    reveal_strlit("invalid");
    reveal_strlit("positive_infinity");
    reveal_strlit("negative_infinity");
    reveal_strlit("indefinite");
    assert("invalid"@[0] != "numeric"@[0]);
    assert("invalid"@.len() != "positive_infinity"@.len());
    assert("invalid"@.len() != "negative_infinity"@.len());
    assert("invalid"@.len() != "indefinite"@.len());
    assert("numeric"@.len() != "positive_infinity"@.len());
    assert("numeric"@.len() != "negative_infinity"@.len());
    assert("numeric"@.len() != "indefinite"@.len());
    assert("positive_infinity"@[0] != "negative_infinity"@[0]);
    assert("positive_infinity"@.len() != "indefinite"@.len());
    assert("negative_infinity"@.len() != "indefinite"@.len());
}

/// A media time: `value / timescale` seconds, tagged with the bridge's kind.
#[derive(Debug, Clone, Copy, PartialEq, Eq, Hash, Structural)]
pub struct Time {
    /// Numerator.
    pub value: i64,
    /// Denominator (ticks per second).
    pub timescale: i32,
    /// Bridge kind tag (numeric, invalid, infinite, indefinite).
    pub kind: i32,
}

impl Time {
    /// A numeric time of `value / timescale` seconds.
    pub fn new(value: i64, timescale: i32) -> (t: Time)
        ensures
            t.value == value,
            t.timescale == timescale,
            t.kind == TIME_KIND_NUMERIC,
    {
        Time { value, timescale, kind: TIME_KIND_NUMERIC }
    }

    /// Rebuilds a time from the three raw fields the bridge passes.
    pub fn from_raw(value: i64, timescale: i32, kind: i32) -> (t: Time)
        ensures
            t == (Time { value, timescale, kind }),
    {
        Time { value, timescale, kind }
    }

    /// The three raw fields the bridge takes: value, timescale, kind.
    pub fn to_raw(self) -> (r: (i64, i32, i32))
        ensures
            r == (self.value, self.timescale, self.kind),
    {
        (self.value, self.timescale, self.kind)
    }
}

/// A range of media time: a start and a duration.
#[derive(Debug, Clone, Copy, PartialEq, Eq, Hash, Structural)]
pub struct TimeRange {
    /// Start of the range.
    pub start: Time,
    /// Length of the range.
    pub duration: Time,
}

impl TimeRange {
    /// The range that starts at `start` and lasts `duration`.
    pub fn new(start: Time, duration: Time) -> (r: TimeRange)
        ensures
            r.start == start,
            r.duration == duration,
    {
        TimeRange { start, duration }
    }
}

/// Passing a time to the bridge and reading it back gives the same time, and
/// the raw fields survive the opposite trip.
pub proof fn lemma_time_raw_round_trip(t: Time, value: i64, timescale: i32, kind: i32)
    ensures
        (Time { value: t.value, timescale: t.timescale, kind: t.kind }) == t,
        ({
            let u = Time { value, timescale, kind };
            (u.value, u.timescale, u.kind) == (value, timescale, kind)
        }),
{
}

} // verus!
