//! The error taxonomy: one flat enumeration of causes, wrapped at each value
//! type's boundary in a context tag that says whether the failure arose in
//! Date, Time or DateTime logic. Equality is structural; messages render
//! exactly as specified.

use vstd::prelude::*;

verus! {

use crate::numeral::dec_digits;
use crate::numeral::dec_int;
use crate::numeral::push_digits;
use crate::numeral::push_int;
use vstd::string::StringExecFns;

/// Context tag: the failure arose inside Date logic.
#[derive(Clone, Copy, Debug, PartialEq, Eq, Structural)]
pub struct DateError;

/// Context tag: the failure arose inside Time logic.
#[derive(Clone, Copy, Debug, PartialEq, Eq, Structural)]
pub struct TimeError;

/// Context tag: the failure arose inside DateTime logic.
#[derive(Clone, Copy, Debug, PartialEq, Eq, Structural)]
pub struct DateTimeError;

/// Every failure the library reports. The `Date` / `Time` / `DateTime`
/// variants wrap an inner cause with the value kind whose method produced
/// it.
#[derive(Debug)]
pub enum SpanError {
    InvalidUtc,
    ParseFromStr(String),
    ParseFromTimestamp(String),
    ClearTime(String),
    ClearUnit(String),
    InvalidUpdate(String),
    InvalidDateTime(i32, u32, u32, u32, u32, u32),
    InvalidDate(i32, u32, u32),
    InvalidTime(u32, u32, u32),
    Date(Box<SpanError>, DateError),
    DateTime(Box<SpanError>, DateTimeError),
    Time(Box<SpanError>, TimeError),
}

/// Structural equality on errors; strings compare by contents.
pub open spec fn spec_error_eq(a: SpanError, b: SpanError) -> bool
    decreases a,
{
    match (a, b) {
        (SpanError::InvalidUtc, SpanError::InvalidUtc) => true,
        (SpanError::ParseFromStr(x), SpanError::ParseFromStr(y)) => x@ == y@,
        (SpanError::ParseFromTimestamp(x), SpanError::ParseFromTimestamp(y)) => x@ == y@,
        (SpanError::ClearTime(x), SpanError::ClearTime(y)) => x@ == y@,
        (SpanError::ClearUnit(x), SpanError::ClearUnit(y)) => x@ == y@,
        (SpanError::InvalidUpdate(x), SpanError::InvalidUpdate(y)) => x@ == y@,
        (
            SpanError::InvalidDateTime(y1, mo1, d1, h1, mi1, s1),
            SpanError::InvalidDateTime(y2, mo2, d2, h2, mi2, s2),
        ) => y1 == y2 && mo1 == mo2 && d1 == d2 && h1 == h2 && mi1 == mi2 && s1 == s2,
        (SpanError::InvalidDate(y1, m1, d1), SpanError::InvalidDate(y2, m2, d2)) => y1 == y2 && m1
            == m2 && d1 == d2,
        (SpanError::InvalidTime(h1, m1, s1), SpanError::InvalidTime(h2, m2, s2)) => h1 == h2 && m1
            == m2 && s1 == s2,
        (SpanError::Date(x, _), SpanError::Date(y, _)) => spec_error_eq(*x, *y),
        (SpanError::DateTime(x, _), SpanError::DateTime(y, _)) => spec_error_eq(*x, *y),
        (SpanError::Time(x, _), SpanError::Time(y, _)) => spec_error_eq(*x, *y),
        _ => false,
    }
}

impl PartialEq for SpanError {
    fn eq(&self, other: &Self) -> (r: bool)
        decreases *self,
    {
        match (self, other) {
            (SpanError::InvalidUtc, SpanError::InvalidUtc) => true,
            (SpanError::ParseFromStr(x), SpanError::ParseFromStr(y)) => x.eq(y),
            (SpanError::ParseFromTimestamp(x), SpanError::ParseFromTimestamp(y)) => x.eq(y),
            (SpanError::ClearTime(x), SpanError::ClearTime(y)) => x.eq(y),
            (SpanError::ClearUnit(x), SpanError::ClearUnit(y)) => x.eq(y),
            (SpanError::InvalidUpdate(x), SpanError::InvalidUpdate(y)) => x.eq(y),
            (
                SpanError::InvalidDateTime(y1, mo1, d1, h1, mi1, s1),
                SpanError::InvalidDateTime(y2, mo2, d2, h2, mi2, s2),
            ) => y1 == y2 && mo1 == mo2 && d1 == d2 && h1 == h2 && mi1 == mi2 && s1 == s2,
            (SpanError::InvalidDate(y1, m1, d1), SpanError::InvalidDate(y2, m2, d2)) => y1 == y2
                && m1 == m2 && d1 == d2,
            (SpanError::InvalidTime(h1, m1, s1), SpanError::InvalidTime(h2, m2, s2)) => h1 == h2
                && m1 == m2 && s1 == s2,
            (SpanError::Date(x, _), SpanError::Date(y, _)) => (&**x).eq(&**y),
            (SpanError::DateTime(x, _), SpanError::DateTime(y, _)) => (&**x).eq(&**y),
            (SpanError::Time(x, _), SpanError::Time(y, _)) => (&**x).eq(&**y),
            _ => false,
        }
    }
}

impl vstd::std_specs::cmp::PartialEqSpecImpl for SpanError {
    open spec fn obeys_eq_spec() -> bool {
        true
    }

    open spec fn eq_spec(&self, other: &Self) -> bool {
        spec_error_eq(*self, *other)
    }
}

/// The rendering of an error, as `message` builds it.
pub open spec fn spec_message(e: SpanError) -> Seq<char>
    decreases e,
{
    match e {
        SpanError::InvalidUtc => "Invalid Utc TryFrom / TryInto"@,
        SpanError::ParseFromStr(m) => "ParseFromStr: "@ + m@,
        SpanError::ParseFromTimestamp(m) => "ParseFromTimestamp: "@ + m@,
        SpanError::ClearTime(m) => "ClearTime: "@ + m@,
        SpanError::ClearUnit(m) => "ClearUnit: "@ + m@,
        SpanError::InvalidUpdate(m) => "InvalidUpdate: "@ + m@,
        SpanError::InvalidDateTime(y, mo, d, h, mi, s) => "Invalid datetime: "@ + dec_int(y as int)
            + "-"@ + dec_digits(mo as int) + "-"@ + dec_digits(d as int) + " "@ + dec_digits(
            h as int,
        ) + ":"@ + dec_digits(mi as int) + ":"@ + dec_digits(s as int),
        SpanError::InvalidDate(y, m, d) => "Invalid date: "@ + dec_int(y as int) + "-"@
            + dec_digits(m as int) + "-"@ + dec_digits(d as int),
        SpanError::InvalidTime(h, m, s) => "Invalid time: "@ + dec_digits(h as int) + ":"@
            + dec_digits(m as int) + ":"@ + dec_digits(s as int),
        SpanError::Date(inner, _) => "Date \u{27a4}  "@ + spec_message(*inner),
        SpanError::DateTime(inner, _) => "DateTime \u{27a4}  "@ + spec_message(*inner),
        SpanError::Time(inner, _) => "Time \u{27a4}  "@ + spec_message(*inner),
    }
}

impl SpanError {
    /// Renders the error for display: the cause name, its details, and the
    /// chain of value-kind context tags it is wrapped in.
    pub fn message(&self) -> (r: String)
        ensures
            r@ == spec_message(*self),
        decreases *self,
    {
        let mut out = String::new();
        match self {
            SpanError::InvalidUtc => {
                out.append("Invalid Utc TryFrom / TryInto");
            },
            SpanError::ParseFromStr(m) => {
                out.append("ParseFromStr: ");
                out.append(m.as_str());
            },
            SpanError::ParseFromTimestamp(m) => {
                out.append("ParseFromTimestamp: ");
                out.append(m.as_str());
            },
            SpanError::ClearTime(m) => {
                out.append("ClearTime: ");
                out.append(m.as_str());
            },
            SpanError::ClearUnit(m) => {
                out.append("ClearUnit: ");
                out.append(m.as_str());
            },
            SpanError::InvalidUpdate(m) => {
                out.append("InvalidUpdate: ");
                out.append(m.as_str());
            },
            SpanError::InvalidDateTime(y, mo, d, h, mi, s) => {
                out.append("Invalid datetime: ");
                push_int(&mut out, *y as i64);
                out.append("-");
                push_digits(&mut out, *mo as u64);
                out.append("-");
                push_digits(&mut out, *d as u64);
                out.append(" ");
                push_digits(&mut out, *h as u64);
                out.append(":");
                push_digits(&mut out, *mi as u64);
                out.append(":");
                push_digits(&mut out, *s as u64);
            },
            SpanError::InvalidDate(y, m, d) => {
                out.append("Invalid date: ");
                push_int(&mut out, *y as i64);
                out.append("-");
                push_digits(&mut out, *m as u64);
                out.append("-");
                push_digits(&mut out, *d as u64);
            },
            SpanError::InvalidTime(h, m, s) => {
                out.append("Invalid time: ");
                push_digits(&mut out, *h as u64);
                out.append(":");
                push_digits(&mut out, *m as u64);
                out.append(":");
                push_digits(&mut out, *s as u64);
            },
            SpanError::Date(inner, _) => {
                out.append("Date \u{27a4}  ");
                let tail = (&**inner).message();
                out.append(tail.as_str());
            },
            SpanError::DateTime(inner, _) => {
                out.append("DateTime \u{27a4}  ");
                let tail = (&**inner).message();
                out.append(tail.as_str());
            },
            SpanError::Time(inner, _) => {
                out.append("Time \u{27a4}  ");
                let tail = (&**inner).message();
                out.append(tail.as_str());
            },
        }
        proof {
            assert(out@ =~= spec_message(*self));
        }
        out
    }
}

/// The message `update` reports when a delta cannot be applied: the signed
/// delta, the unit's name, and the value rendered under its own pattern.
pub open spec fn spec_invalid_update_msg(value: int, unit: Seq<char>, rendered: Seq<char>) -> Seq<
    char,
> {
    "Cannot Add/Remove "@ + dec_int(value) + " "@ + unit + " to/from "@ + rendered
}

/// Builds the `InvalidUpdate` detail text.
pub fn invalid_update_msg(value: i64, unit: &str, rendered: &str) -> (r: String)
    requires
        i64::MIN < value,
    ensures
        r@ == spec_invalid_update_msg(value as int, unit@, rendered@),
{
    let mut out = String::new();
    out.append("Cannot Add/Remove ");
    push_int(&mut out, value);
    out.append(" ");
    out.append(unit);
    out.append(" to/from ");
    out.append(rendered);
    proof {
        assert(out@ =~= spec_invalid_update_msg(value as int, unit@, rendered@));
    }
    out
}

} // verus!
