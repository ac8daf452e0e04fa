//! The Time value type: a wall-clock time of day paired with its display
//! pattern. Arithmetic wraps modulo 24 hours; no day carry is tracked at
//! this level.

use vstd::prelude::*;

verus! {

use crate::builder::FormatConfig;
use crate::calendar::seconds_of_day;
use crate::calendar::shift_time;
use crate::calendar::spec_trunc_div;
use crate::calendar::trunc_div_i64;
use crate::calendar::valid_hms;
use crate::calendar::CalendarDate;
use crate::calendar::CalendarDateTime;
use crate::calendar::ClockTime;
use crate::error::SpanError;
use crate::error::TimeError;
use crate::pattern::format_fields;
use crate::pattern::parse_fields;
use crate::pattern::spec_format;
use crate::pattern::spec_parse;
use crate::pattern::ParsedFields;
use vstd::math::abs;
use vstd::string::StringExecFns;

/// The field a Time update acts on.
#[derive(Debug, Clone, Copy, PartialEq, Eq, Structural)]
pub enum TimeUnit {
    Hour,
    Minute,
    Second,
}

impl TimeUnit {
    /// The unit's name, as update error messages spell it.
    pub open spec fn spec_name(&self) -> Seq<char> {
        match self {
            TimeUnit::Hour => "Hour"@,
            TimeUnit::Minute => "Minute"@,
            TimeUnit::Second => "Second"@,
        }
    }

    pub fn name(&self) -> (r: &'static str)
        ensures
            r@ == self.spec_name(),
    {
        match self {
            TimeUnit::Hour => "Hour",
            TimeUnit::Minute => "Minute",
            TimeUnit::Second => "Second",
        }
    }

    /// How many seconds one of the unit spans.
    pub open spec fn spec_seconds(&self) -> int {
        match self {
            TimeUnit::Hour => 3600,
            TimeUnit::Minute => 60,
            TimeUnit::Second => 1,
        }
    }

    pub fn seconds(&self) -> (r: i64)
        ensures
            r == self.spec_seconds(),
    {
        match self {
            TimeUnit::Hour => 3600,
            TimeUnit::Minute => 60,
            TimeUnit::Second => 1,
        }
    }
}

/// A time of day with its display pattern. Equality compares the clock
/// value alone; the pattern is presentation.
#[derive(Debug, Clone)]
pub struct Time {
    pub time: ClockTime,
    pub format: String,
}

/// A time seen as a datetime: the epoch date, 1970-01-01, at that time.
/// Rendering a Time runs the shared pattern engine on this embedding, so
/// date tokens in a time pattern render as the epoch's fields.
pub open spec fn spec_time_as_datetime(t: ClockTime) -> CalendarDateTime {
    CalendarDateTime { date: CalendarDate { year: 1970, month: 1, day: 1 }, time: t }
}

pub fn time_as_datetime(t: &ClockTime) -> (r: CalendarDateTime)
    ensures
        r == spec_time_as_datetime(*t),
{
    CalendarDateTime { date: CalendarDate { year: 1970, month: 1, day: 1 }, time: *t }
}

/// The time a successful parse determines: defined when the hour, minute
/// and second fields were all read and form a valid wall-clock time.
pub open spec fn spec_time_of_parsed(p: ParsedFields) -> Option<ClockTime> {
    if p.hour is Some && p.minute is Some && p.second is Some && valid_hms(
        p.hour->Some_0 as int,
        p.minute->Some_0 as int,
        p.second->Some_0 as int,
    ) {
        Some(ClockTime { hour: p.hour->Some_0, minute: p.minute->Some_0, second: p.second->Some_0 })
    } else {
        None
    }
}

/// The cause text a failed time parse reports.
pub open spec fn spec_time_parse_cause(parsed: Option<ParsedFields>) -> Seq<char> {
    match parsed {
        None => "input does not match the pattern"@,
        Some(p) => {
            if !(p.hour is Some && p.minute is Some && p.second is Some) {
                "input is not enough for a unique value"@
            } else {
                "input is out of range"@
            }
        },
    }
}

/// A parse failure wrapped in the Time context.
pub open spec fn spec_time_parse_err(e: SpanError, cause: Seq<char>) -> bool {
    &&& e matches SpanError::Time(b, _)
    &&& *b matches SpanError::ParseFromStr(m)
    &&& m@ == cause
}

/// How `matches` compares a field against a caller's value.
pub open spec fn spec_time_matches(t: ClockTime, unit: TimeUnit, value: int) -> bool {
    match unit {
        TimeUnit::Hour => t.hour as int == value,
        TimeUnit::Minute => t.minute as int == value,
        TimeUnit::Second => t.second as int == value,
    }
}

impl Time {
    pub open spec fn wf(&self) -> bool {
        self.time.wf()
    }

    /// What `render` produces: the time on the epoch date, under the
    /// value's own stored pattern.
    pub open spec fn spec_render(&self) -> Seq<char> {
        spec_format(spec_time_as_datetime(self.time), self.format@)
    }

    /// A time of day from its fields, displayed under the configuration's
    /// Time default pattern. Fails with a Time-context `InvalidTime` if and
    /// only if a field is out of range.
    pub fn new(hour: u32, minute: u32, second: u32, config: &FormatConfig) -> (r: Result<
        Time,
        SpanError,
    >)
        ensures
            match r {
                Ok(t) => {
                    &&& valid_hms(hour as int, minute as int, second as int)
                    &&& t.time == (ClockTime { hour, minute, second })
                    &&& t.format@ == config.spec_time_default()
                    &&& t.wf()
                },
                Err(e) => {
                    &&& !valid_hms(hour as int, minute as int, second as int)
                    &&& e matches SpanError::Time(b, _)
                    &&& *b matches SpanError::InvalidTime(h2, m2, s2) && h2 == hour && m2 == minute
                        && s2 == second
                },
            },
    {
        if hour <= 23 && minute <= 59 && second <= 59 {
            Ok(
                Time {
                    time: ClockTime { hour, minute, second },
                    format: config.time_default(),
                },
            )
        } else {
            Err(
                SpanError::Time(Box::new(SpanError::InvalidTime(hour, minute, second)), TimeError),
            )
        }
    }

    /// Parses `time` against `format` and stores that pattern for display.
    pub fn parse(time: &str, format: &str) -> (r: Result<Time, SpanError>)
        ensures
            ({
                let parsed = spec_parse(time@, format@);
                match r {
                    Ok(t) => {
                        &&& parsed is Some
                        &&& spec_time_of_parsed(parsed->Some_0) is Some
                        &&& t.time == spec_time_of_parsed(parsed->Some_0)->Some_0
                        &&& t.format@ == format@
                        &&& t.wf()
                    },
                    Err(e) => {
                        &&& !(parsed is Some && spec_time_of_parsed(parsed->Some_0) is Some)
                        &&& spec_time_parse_err(e, spec_time_parse_cause(parsed))
                    },
                }
            }),
    {
        match parse_fields(time, format) {
            None => Err(
                SpanError::Time(
                    Box::new(
                        SpanError::ParseFromStr(String::from_str("input does not match the pattern")),
                    ),
                    TimeError,
                ),
            ),
            Some(p) => {
                let (hs, ms, ss) = (p.hour, p.minute, p.second);
                match (hs, ms, ss) {
                    (Some(h), Some(mi), Some(s)) => {
                        if h <= 23 && mi <= 59 && s <= 59 {
                            Ok(
                                Time {
                                    time: ClockTime { hour: h, minute: mi, second: s },
                                    format: String::from_str(format),
                                },
                            )
                        } else {
                            Err(
                                SpanError::Time(
                                    Box::new(
                                        SpanError::ParseFromStr(
                                            String::from_str("input is out of range"),
                                        ),
                                    ),
                                    TimeError,
                                ),
                            )
                        }
                    },
                    _ => Err(
                        SpanError::Time(
                            Box::new(
                                SpanError::ParseFromStr(
                                    String::from_str("input is not enough for a unique value"),
                                ),
                            ),
                            TimeError,
                        ),
                    ),
                }
            },
        }
    }

    /// Parses `time` against the configuration's Time default pattern.
    pub fn build(time: &str, config: &FormatConfig) -> (r: Result<Time, SpanError>)
        ensures
            ({
                let parsed = spec_parse(time@, config.spec_time_default());
                match r {
                    Ok(t) => {
                        &&& parsed is Some
                        &&& spec_time_of_parsed(parsed->Some_0) is Some
                        &&& t.time == spec_time_of_parsed(parsed->Some_0)->Some_0
                        &&& t.format@ == config.spec_time_default()
                        &&& t.wf()
                    },
                    Err(e) => {
                        &&& !(parsed is Some && spec_time_of_parsed(parsed->Some_0) is Some)
                        &&& spec_time_parse_err(e, spec_time_parse_cause(parsed))
                    },
                }
            }),
    {
        let f = config.time_default();
        Time::parse(time, f.as_str())
    }

    /// Midnight, displayed under the configuration's Time default pattern.
    pub fn midnight(config: &FormatConfig) -> (r: Time)
        ensures
            r.time == (ClockTime { hour: 0, minute: 0, second: 0 }),
            r.format@ == config.spec_time_default(),
            r.wf(),
    {
        Time {
            time: ClockTime { hour: 0, minute: 0, second: 0 },
            format: config.time_default(),
        }
    }

    /// The plain clock value inside the value.
    pub fn time(&self) -> (r: ClockTime)
        ensures
            r == self.time,
    {
        self.time
    }

    /// Returns the same time under a different display pattern.
    pub fn format(self, format: &str) -> (r: Time)
        ensures
            r.time == self.time,
            r.format@ == format@,
    {
        Time { time: self.time, format: String::from_str(format) }
    }

    /// Returns the same time under the configuration's Time default
    /// pattern.
    pub fn default_format(self, config: &FormatConfig) -> (r: Time)
        ensures
            r.time == self.time,
            r.format@ == config.spec_time_default(),
    {
        Time { time: self.time, format: config.time_default() }
    }

    /// Renders the time under its own stored pattern. The pattern decides
    /// everything: no configuration is consulted.
    pub fn render(&self) -> (r: String)
        requires
            self.wf(),
        ensures
            r@ == self.spec_render(),
    {
        let dt = time_as_datetime(&self.time);
        format_fields(&dt, self.format.as_str())
    }

    /// Moves the time by `value` of `unit`, wrapping modulo 24 hours. Every
    /// delta succeeds: on the wall clock there is nothing to overflow.
    pub fn update(&self, unit: TimeUnit, value: i32) -> (r: Result<Time, SpanError>)
        requires
            self.wf(),
        ensures
            r matches Ok(t) && t.wf() && t.format@ == self.format@
                && t.time.spec_seconds_of_day() == (self.time.spec_seconds_of_day() + value
                * unit.spec_seconds()) % 86400,
    {
        let delta = value as i64 * unit.seconds();
        let moved = shift_time(&self.time, delta);
        Ok(Time { time: moved, format: self.format.clone() })
    }

    /// Moves the time forward by one of `unit`.
    pub fn next(&self, unit: TimeUnit) -> (r: Result<Time, SpanError>)
        requires
            self.wf(),
        ensures
            r matches Ok(t) && t.wf() && t.format@ == self.format@
                && t.time.spec_seconds_of_day() == (self.time.spec_seconds_of_day()
                + unit.spec_seconds()) % 86400,
    {
        self.update(unit, 1)
    }

    /// Whether the named field holds `value`.
    pub fn matches(&self, unit: TimeUnit, value: u32) -> (r: bool)
        requires
            self.wf(),
        ensures
            r == spec_time_matches(self.time, unit, value as int),
    {
        match unit {
            TimeUnit::Hour => self.time.hour == value,
            TimeUnit::Minute => self.time.minute == value,
            TimeUnit::Second => self.time.second == value,
        }
    }

    /// The current local wall-clock time, displayed under the
    /// configuration's Time default pattern. The clock's fields are always
    /// a valid time, so this always succeeds.
    pub fn now(config: &FormatConfig) -> (r: Result<Time, SpanError>)
        ensures
            r matches Ok(t) && t.wf() && t.format@ == config.spec_time_default(),
    {
        let (_y, _mo, _d, h, mi, s) = crate::clock::local_now_fields();
        Ok(
            Time {
                time: ClockTime { hour: h, minute: mi, second: s },
                format: config.time_default(),
            },
        )
    }

    /// Whether this time of day is strictly after `other`.
    pub fn is_after(&self, other: &Time) -> (r: bool)
        requires
            self.wf(),
            other.wf(),
        ensures
            r == (self.time.spec_seconds_of_day() > other.time.spec_seconds_of_day()),
    {
        seconds_of_day(&self.time) > seconds_of_day(&other.time)
    }

    /// Whether this time of day lies strictly after the current local
    /// wall-clock time. The answer is the seconds-of-day comparison against
    /// some valid time — the one the clock reported; only that reading is
    /// trusted. The clock's fields are always a valid time, so this always
    /// succeeds.
    pub fn is_in_future(&self) -> (r: Result<bool, SpanError>)
        requires
            self.wf(),
        ensures
            r matches Ok(b) && exists|n: ClockTime|
                n.wf() && b == (self.time.spec_seconds_of_day() > n.spec_seconds_of_day()),
    {
        let (_y, _mo, _d, h, mi, s) = crate::clock::local_now_fields();
        let now = ClockTime { hour: h, minute: mi, second: s };
        let after = seconds_of_day(&self.time) > seconds_of_day(&now);
        proof {
            assert(now.wf() && after == (self.time.spec_seconds_of_day()
                > now.spec_seconds_of_day()));
        }
        Ok(after)
    }

    /// The signed duration from `lhs` to this time, in seconds: positive
    /// when this time is later in the day.
    pub fn elapsed(&self, lhs: &Time) -> (r: i64)
        requires
            self.wf(),
            lhs.wf(),
        ensures
            r == self.time.spec_seconds_of_day() - lhs.time.spec_seconds_of_day(),
    {
        seconds_of_day(&self.time) as i64 - seconds_of_day(&lhs.time) as i64
    }

    /// The number of whole units between the two times, direction
    /// discarded.
    pub fn unit_elapsed(&self, rhs: &Time, unit: TimeUnit) -> (r: Result<i64, SpanError>)
        requires
            self.wf(),
            rhs.wf(),
        ensures
            r matches Ok(v) && v == spec_time_unit_elapsed(self.time, rhs.time, unit),
    {
        let diff = seconds_of_day(&self.time) as i64 - seconds_of_day(&rhs.time) as i64;
        let q = trunc_div_i64(diff, unit.seconds());
        if q < 0 {
            Ok(-q)
        } else {
            Ok(q)
        }
    }

    /// Resets the named field to zero, leaving the other fields untouched.
    /// Always succeeds: midnight-relative fields always admit zero.
    pub fn clear_unit(&self, unit: TimeUnit) -> (r: Result<Time, SpanError>)
        requires
            self.wf(),
        ensures
            r matches Ok(t) && t.wf() && t.format@ == self.format@ && t.time
                == spec_time_cleared(self.time, unit),
    {
        let time = match unit {
            TimeUnit::Hour => ClockTime { hour: 0, ..self.time },
            TimeUnit::Minute => ClockTime { minute: 0, ..self.time },
            TimeUnit::Second => ClockTime { second: 0, ..self.time },
        };
        Ok(Time { time, format: self.format.clone() })
    }
}

/// The clock value with the named field reset to zero.
pub open spec fn spec_time_cleared(t: ClockTime, unit: TimeUnit) -> ClockTime {
    match unit {
        TimeUnit::Hour => ClockTime { hour: 0, ..t },
        TimeUnit::Minute => ClockTime { minute: 0, ..t },
        TimeUnit::Second => ClockTime { second: 0, ..t },
    }
}

/// The number of whole units between two times, direction discarded.
pub open spec fn spec_time_unit_elapsed(a: ClockTime, b: ClockTime, unit: TimeUnit) -> int {
    abs(spec_trunc_div(a.spec_seconds_of_day() - b.spec_seconds_of_day(), unit.spec_seconds()))
        as int
}

/// Round trip: rendering a time and parsing the rendering back under the
/// same pattern recovers exactly the same time, for every pattern that
/// mentions the hour, minute and second fields.
pub proof fn lemma_time_render_parse_round_trip(t: Time)
    requires
        t.wf(),
        crate::pattern::pattern_has_field(t.format@, 0, 'H'),
        crate::pattern::pattern_has_field(t.format@, 0, 'M'),
        crate::pattern::pattern_has_field(t.format@, 0, 'S'),
    ensures
        ({
            let parsed = spec_parse(t.spec_render(), t.format@);
            &&& parsed is Some
            &&& spec_time_of_parsed(parsed->Some_0) == Some(t.time)
        }),
{
    let dt = spec_time_as_datetime(t.time);
    crate::pattern::lemma_format_parse_round_trip(dt, t.format@);
    let empty = crate::pattern::ParsedFields::spec_empty();
    crate::pattern::lemma_apply_fields_get(dt, t.format@, 0, empty, 'H');
    crate::pattern::lemma_apply_fields_get(dt, t.format@, 0, empty, 'M');
    crate::pattern::lemma_apply_fields_get(dt, t.format@, 0, empty, 'S');
    let pf = spec_parse(t.spec_render(), t.format@)->Some_0;
    assert(pf.spec_get('H') == Some(t.time.hour));
    assert(pf.spec_get('M') == Some(t.time.minute));
    assert(pf.spec_get('S') == Some(t.time.second));
}

impl Default for Time {
    /// Midnight under the canonical Time pattern.
    fn default() -> (r: Time)
        ensures
            r.time == (ClockTime { hour: 0, minute: 0, second: 0 }),
            r.format@ == "%H:%M:%S"@,
            r.wf(),
    {
        Time {
            time: ClockTime { hour: 0, minute: 0, second: 0 },
            format: String::from_str("%H:%M:%S"),
        }
    }
}

impl PartialEq for Time {
    /// Times compare by clock value alone; the display pattern is not part
    /// of equality.
    fn eq(&self, other: &Time) -> (r: bool) {
        self.time == other.time
    }
}

impl vstd::std_specs::cmp::PartialEqSpecImpl for Time {
    open spec fn obeys_eq_spec() -> bool {
        true
    }

    open spec fn eq_spec(&self, other: &Time) -> bool {
        self.time == other.time
    }
}

} // verus!
