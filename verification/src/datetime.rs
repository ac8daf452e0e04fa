//! The DateTime value type: a calendar date and time of day paired with a
//! display pattern. Year, month and day arithmetic acts on the date
//! component with clamping and carry; hour, minute and second arithmetic
//! acts on the instant and may carry into the date. Conversions connect it
//! to Date, Time and Unix timestamps.

use vstd::prelude::*;

verus! {

use crate::builder::FormatConfig;
use crate::calendar::add_days_date;
use crate::calendar::add_months_date;
use crate::calendar::datetime_of_instant;
use crate::calendar::day_number_of;
use crate::calendar::days_in_month;
use crate::calendar::instant_of_datetime;
use crate::calendar::max_day_number;
use crate::calendar::max_instant;
use crate::calendar::shift_datetime;
use crate::calendar::spec_day_number;
use crate::calendar::spec_days_in_month;
use crate::calendar::spec_trunc_div;
use crate::calendar::trunc_div_i64;
use crate::calendar::valid_hms;
use crate::calendar::valid_ymd;
use crate::calendar::CalendarDate;
use crate::calendar::CalendarDateTime;
use crate::calendar::ClockTime;
use crate::calendar::MAX_YEAR;
use crate::date::spec_date_as_datetime;
use crate::date::Date;
use crate::error::invalid_update_msg;
use crate::error::spec_invalid_update_msg;
use crate::error::DateTimeError;
use crate::error::SpanError;
use crate::pattern::format_fields;
use crate::pattern::parse_fields;
use crate::pattern::spec_format;
use crate::pattern::spec_parse;
use crate::pattern::ParsedFields;
use crate::time::spec_time_as_datetime;
use crate::time::Time;
use vstd::math::abs;
use vstd::math::min;
use vstd::string::StringExecFns;

/// The field a DateTime update acts on.
#[derive(Debug, Clone)]
pub enum DateTimeUnit {
    Year,
    Month,
    Day,
    Hour,
    Minute,
    Second,
}

impl DateTimeUnit {
    /// The unit's name, as update error messages spell it.
    pub open spec fn spec_name(&self) -> Seq<char> {
        match self {
            DateTimeUnit::Year => "Year"@,
            DateTimeUnit::Month => "Month"@,
            DateTimeUnit::Day => "Day"@,
            DateTimeUnit::Hour => "Hour"@,
            DateTimeUnit::Minute => "Minute"@,
            DateTimeUnit::Second => "Second"@,
        }
    }

    pub fn name(&self) -> (r: &'static str)
        ensures
            r@ == self.spec_name(),
    {
        match self {
            DateTimeUnit::Year => "Year",
            DateTimeUnit::Month => "Month",
            DateTimeUnit::Day => "Day",
            DateTimeUnit::Hour => "Hour",
            DateTimeUnit::Minute => "Minute",
            DateTimeUnit::Second => "Second",
        }
    }
}

/// A datetime with its display pattern. Equality compares the calendrical
/// value alone; the pattern is presentation.
#[derive(Debug, Clone)]
pub struct DateTime {
    pub datetime: CalendarDateTime,
    pub format: String,
}

/// The datetime a successful parse determines: defined when all six fields
/// were read and form a valid date and time.
pub open spec fn spec_datetime_of_parsed(p: ParsedFields) -> Option<CalendarDateTime> {
    if p.year is Some && p.month is Some && p.day is Some && p.hour is Some && p.minute is Some
        && p.second is Some && valid_ymd(
        p.year->Some_0 as int,
        p.month->Some_0 as int,
        p.day->Some_0 as int,
    ) && valid_hms(p.hour->Some_0 as int, p.minute->Some_0 as int, p.second->Some_0 as int) {
        Some(
            CalendarDateTime {
                date: CalendarDate {
                    year: p.year->Some_0,
                    month: p.month->Some_0,
                    day: p.day->Some_0,
                },
                time: ClockTime {
                    hour: p.hour->Some_0,
                    minute: p.minute->Some_0,
                    second: p.second->Some_0,
                },
            },
        )
    } else {
        None
    }
}

/// The cause text a failed datetime parse reports.
pub open spec fn spec_datetime_parse_cause(parsed: Option<ParsedFields>) -> Seq<char> {
    match parsed {
        None => "input does not match the pattern"@,
        Some(p) => {
            if !(p.year is Some && p.month is Some && p.day is Some && p.hour is Some
                && p.minute is Some && p.second is Some) {
                "input is not enough for a unique value"@
            } else {
                "input is out of range"@
            }
        },
    }
}

/// A parse failure wrapped in the DateTime context.
pub open spec fn spec_datetime_parse_err(e: SpanError, cause: Seq<char>) -> bool {
    &&& e matches SpanError::DateTime(b, _)
    &&& *b matches SpanError::ParseFromStr(m)
    &&& m@ == cause
}

/// An update failure wrapped in the DateTime context, with its exact
/// message.
pub open spec fn spec_datetime_invalid_update_err(
    e: SpanError,
    value: int,
    unit: Seq<char>,
    rendered: Seq<char>,
) -> bool {
    &&& e matches SpanError::DateTime(b, _)
    &&& *b matches SpanError::InvalidUpdate(m)
    &&& m@ == spec_invalid_update_msg(value, unit, rendered)
}

/// Whether moving `dt` by `value` of `unit` stays inside the supported
/// range.
pub open spec fn spec_datetime_update_in_range(
    dt: CalendarDateTime,
    unit: DateTimeUnit,
    value: int,
) -> bool {
    match unit {
        DateTimeUnit::Year => 0 <= dt.date.month_index() + 12 * value <= MAX_YEAR * 12 + 11,
        DateTimeUnit::Month => 0 <= dt.date.month_index() + value <= MAX_YEAR * 12 + 11,
        DateTimeUnit::Day => 0 <= dt.date.spec_day_number() + value <= max_day_number(),
        DateTimeUnit::Hour => 0 <= dt.spec_instant() + 3600 * value <= max_instant(),
        DateTimeUnit::Minute => 0 <= dt.spec_instant() + 60 * value <= max_instant(),
        DateTimeUnit::Second => 0 <= dt.spec_instant() + value <= max_instant(),
    }
}

/// What a successful update leaves: date units act on the date component
/// and keep the time; time units act on the instant, carrying into the
/// date.
pub open spec fn spec_datetime_updated(
    dt: CalendarDateTime,
    unit: DateTimeUnit,
    value: int,
    nd: CalendarDateTime,
) -> bool {
    match unit {
        DateTimeUnit::Year => nd.time == dt.time && nd.date.month_index() == dt.date.month_index()
            + 12 * value && nd.date.day == min(
            dt.date.day as int,
            spec_days_in_month(nd.date.year as int, nd.date.month as int),
        ),
        DateTimeUnit::Month => nd.time == dt.time && nd.date.month_index() == dt.date.month_index()
            + value && nd.date.day == min(
            dt.date.day as int,
            spec_days_in_month(nd.date.year as int, nd.date.month as int),
        ),
        DateTimeUnit::Day => nd.time == dt.time && nd.date.spec_day_number()
            == dt.date.spec_day_number() + value,
        DateTimeUnit::Hour => nd.spec_instant() == dt.spec_instant() + 3600 * value,
        DateTimeUnit::Minute => nd.spec_instant() == dt.spec_instant() + 60 * value,
        DateTimeUnit::Second => nd.spec_instant() == dt.spec_instant() + value,
    }
}

/// How `matches` compares a field against a caller's value.
pub open spec fn spec_datetime_matches(dt: CalendarDateTime, unit: DateTimeUnit, value: int) -> bool {
    match unit {
        DateTimeUnit::Year => dt.date.year as int == value,
        DateTimeUnit::Month => dt.date.month as int == value,
        DateTimeUnit::Day => dt.date.day as int == value,
        DateTimeUnit::Hour => dt.time.hour as int == value,
        DateTimeUnit::Minute => dt.time.minute as int == value,
        DateTimeUnit::Second => dt.time.second as int == value,
    }
}

/// The number of whole units between two datetimes, direction discarded:
/// calendar-year difference, total-month difference, or instant difference
/// divided through the unit's seconds.
pub open spec fn spec_datetime_unit_elapsed(
    a: CalendarDateTime,
    b: CalendarDateTime,
    unit: DateTimeUnit,
) -> int {
    match unit {
        DateTimeUnit::Year => abs(a.date.year - b.date.year) as int,
        DateTimeUnit::Month => abs(a.date.month_index() - b.date.month_index()) as int,
        DateTimeUnit::Day => abs(
            spec_trunc_div(a.spec_instant() - b.spec_instant(), 86400),
        ) as int,
        DateTimeUnit::Hour => abs(spec_trunc_div(a.spec_instant() - b.spec_instant(), 3600)) as int,
        DateTimeUnit::Minute => abs(spec_trunc_div(a.spec_instant() - b.spec_instant(), 60)) as int,
        DateTimeUnit::Second => abs(a.spec_instant() - b.spec_instant()) as int,
    }
}

/// Whether resetting the named field to its epoch value leaves a valid
/// datetime. Only a year reset can fail: February 29th does not exist in
/// 1970.
pub open spec fn spec_datetime_clear_ok(dt: CalendarDateTime, unit: DateTimeUnit) -> bool {
    match unit {
        DateTimeUnit::Year => valid_ymd(1970, dt.date.month as int, dt.date.day as int),
        _ => true,
    }
}

/// The datetime with the named field reset to its epoch value: year 1970,
/// month and day 1, hour, minute and second 0.
pub open spec fn spec_datetime_cleared(dt: CalendarDateTime, unit: DateTimeUnit) -> CalendarDateTime {
    match unit {
        DateTimeUnit::Year => CalendarDateTime {
            date: CalendarDate { year: 1970, ..dt.date },
            ..dt
        },
        DateTimeUnit::Month => CalendarDateTime {
            date: CalendarDate { month: 1, ..dt.date },
            ..dt
        },
        DateTimeUnit::Day => CalendarDateTime { date: CalendarDate { day: 1, ..dt.date }, ..dt },
        DateTimeUnit::Hour => CalendarDateTime { time: ClockTime { hour: 0, ..dt.time }, ..dt },
        DateTimeUnit::Minute => CalendarDateTime {
            time: ClockTime { minute: 0, ..dt.time },
            ..dt
        },
        DateTimeUnit::Second => CalendarDateTime {
            time: ClockTime { second: 0, ..dt.time },
            ..dt
        },
    }
}

/// The Unix timestamp of an instant of the internal scale.
pub open spec fn spec_unix_of_instant(inst: int) -> int {
    inst - spec_day_number(1970, 1, 1) * 86400
}

impl DateTime {
    pub open spec fn wf(&self) -> bool {
        self.datetime.wf()
    }

    /// What `render` produces: the value under its own stored pattern.
    pub open spec fn spec_render(&self) -> Seq<char> {
        spec_format(self.datetime, self.format@)
    }

    /// A datetime at midnight of the given date, displayed under the
    /// configuration's DateTime default pattern. Fails with a
    /// DateTime-context `InvalidDate` if and only if the fields name no
    /// supported date.
    pub fn new(year: i32, month: u32, day: u32, config: &FormatConfig) -> (r: Result<
        DateTime,
        SpanError,
    >)
        ensures
            match r {
                Ok(d) => {
                    &&& 0 <= year <= MAX_YEAR
                    &&& valid_ymd(year as int, month as int, day as int)
                    &&& d.datetime.date == (CalendarDate { year: year as u32, month, day })
                    &&& d.datetime.time == (ClockTime { hour: 0, minute: 0, second: 0 })
                    &&& d.format@ == config.spec_datetime_default()
                    &&& d.wf()
                },
                Err(e) => {
                    &&& !(0 <= year <= MAX_YEAR && valid_ymd(year as int, month as int, day as int))
                    &&& e matches SpanError::DateTime(b, _)
                    &&& *b matches SpanError::InvalidDate(y2, m2, d2) && y2 == year && m2 == month
                        && d2 == day
                },
            },
    {
        if 0 <= year && year <= MAX_YEAR as i32 && 1 <= month && month <= 12 && 1 <= day && day
            <= days_in_month(year as u32, month) {
            Ok(
                DateTime {
                    datetime: CalendarDateTime {
                        date: CalendarDate { year: year as u32, month, day },
                        time: ClockTime { hour: 0, minute: 0, second: 0 },
                    },
                    format: config.datetime_default(),
                },
            )
        } else {
            Err(
                SpanError::DateTime(
                    Box::new(SpanError::InvalidDate(year, month, day)),
                    DateTimeError,
                ),
            )
        }
    }

    /// Replaces the time of day, keeping date and pattern. Fails with a
    /// DateTime-context `InvalidTime` if and only if a field is out of
    /// range.
    pub fn with_time(self, hour: u32, minute: u32, second: u32) -> (r: Result<DateTime, SpanError>)
        requires
            self.wf(),
        ensures
            match r {
                Ok(d) => {
                    &&& valid_hms(hour as int, minute as int, second as int)
                    &&& d.datetime.date == self.datetime.date
                    &&& d.datetime.time == (ClockTime { hour, minute, second })
                    &&& d.format@ == self.format@
                    &&& d.wf()
                },
                Err(e) => {
                    &&& !valid_hms(hour as int, minute as int, second as int)
                    &&& e matches SpanError::DateTime(b, _)
                    &&& *b matches SpanError::InvalidTime(h2, m2, s2) && h2 == hour && m2 == minute
                        && s2 == second
                },
            },
    {
        if hour <= 23 && minute <= 59 && second <= 59 {
            Ok(
                DateTime {
                    datetime: CalendarDateTime {
                        date: self.datetime.date,
                        time: ClockTime { hour, minute, second },
                    },
                    format: self.format,
                },
            )
        } else {
            Err(
                SpanError::DateTime(
                    Box::new(SpanError::InvalidTime(hour, minute, second)),
                    DateTimeError,
                ),
            )
        }
    }

    /// Parses `datetime` against `format` and stores that pattern for
    /// display.
    pub fn parse(datetime: &str, format: &str) -> (r: Result<DateTime, SpanError>)
        ensures
            ({
                let parsed = spec_parse(datetime@, format@);
                match r {
                    Ok(d) => {
                        &&& parsed is Some
                        &&& spec_datetime_of_parsed(parsed->Some_0) is Some
                        &&& d.datetime == spec_datetime_of_parsed(parsed->Some_0)->Some_0
                        &&& d.format@ == format@
                        &&& d.wf()
                    },
                    Err(e) => {
                        &&& !(parsed is Some && spec_datetime_of_parsed(parsed->Some_0) is Some)
                        &&& spec_datetime_parse_err(e, spec_datetime_parse_cause(parsed))
                    },
                }
            }),
    {
        match parse_fields(datetime, format) {
            None => Err(
                SpanError::DateTime(
                    Box::new(
                        SpanError::ParseFromStr(String::from_str("input does not match the pattern")),
                    ),
                    DateTimeError,
                ),
            ),
            Some(p) => {
                match (p.year, p.month, p.day, p.hour, p.minute, p.second) {
                    (Some(y), Some(mo), Some(d), Some(h), Some(mi), Some(s)) => {
                        if 1 <= mo && mo <= 12 && y <= MAX_YEAR && 1 <= d && d <= days_in_month(
                            y,
                            mo,
                        ) && h <= 23 && mi <= 59 && s <= 59 {
                            Ok(
                                DateTime {
                                    datetime: CalendarDateTime {
                                        date: CalendarDate { year: y, month: mo, day: d },
                                        time: ClockTime { hour: h, minute: mi, second: s },
                                    },
                                    format: String::from_str(format),
                                },
                            )
                        } else {
                            Err(
                                SpanError::DateTime(
                                    Box::new(
                                        SpanError::ParseFromStr(
                                            String::from_str("input is out of range"),
                                        ),
                                    ),
                                    DateTimeError,
                                ),
                            )
                        }
                    },
                    _ => Err(
                        SpanError::DateTime(
                            Box::new(
                                SpanError::ParseFromStr(
                                    String::from_str("input is not enough for a unique value"),
                                ),
                            ),
                            DateTimeError,
                        ),
                    ),
                }
            },
        }
    }

    /// Parses `datetime` against the configuration's DateTime default
    /// pattern.
    pub fn build(datetime: &str, config: &FormatConfig) -> (r: Result<DateTime, SpanError>)
        ensures
            ({
                let parsed = spec_parse(datetime@, config.spec_datetime_default());
                match r {
                    Ok(d) => {
                        &&& parsed is Some
                        &&& spec_datetime_of_parsed(parsed->Some_0) is Some
                        &&& d.datetime == spec_datetime_of_parsed(parsed->Some_0)->Some_0
                        &&& d.format@ == config.spec_datetime_default()
                        &&& d.wf()
                    },
                    Err(e) => {
                        &&& !(parsed is Some && spec_datetime_of_parsed(parsed->Some_0) is Some)
                        &&& spec_datetime_parse_err(e, spec_datetime_parse_cause(parsed))
                    },
                }
            }),
    {
        let f = config.datetime_default();
        DateTime::parse(datetime, f.as_str())
    }

    /// The plain calendrical value inside the value.
    pub fn datetime(&self) -> (r: CalendarDateTime)
        ensures
            r == self.datetime,
    {
        self.datetime
    }

    /// Returns the same value under a different display pattern; `None`
    /// means the configuration's DateTime default.
    pub fn format(self, format: Option<&str>, config: &FormatConfig) -> (r: DateTime)
        ensures
            r.datetime == self.datetime,
            r.format@ == match format {
                Some(f) => f@,
                None => config.spec_datetime_default(),
            },
    {
        match format {
            Some(f) => DateTime { datetime: self.datetime, format: String::from_str(f) },
            None => DateTime { datetime: self.datetime, format: config.datetime_default() },
        }
    }

    /// Renders the value under its own stored pattern. The pattern decides
    /// everything: no configuration is consulted.
    pub fn render(&self) -> (r: String)
        requires
            self.wf(),
        ensures
            r@ == self.spec_render(),
    {
        format_fields(&self.datetime, self.format.as_str())
    }

    /// Moves the value by `value` of `unit`. Year and month moves clamp the
    /// day to the target month's length and keep the time; day moves keep
    /// the time; hour, minute and second moves act on the instant and may
    /// carry into the date. A move outside the supported range fails with a
    /// DateTime-context `InvalidUpdate` naming the attempted operation.
    pub fn update(&self, unit: DateTimeUnit, value: i32) -> (r: Result<DateTime, SpanError>)
        requires
            self.wf(),
        ensures
            match r {
                Ok(d) => {
                    &&& spec_datetime_update_in_range(self.datetime, unit, value as int)
                    &&& d.wf()
                    &&& spec_datetime_updated(self.datetime, unit, value as int, d.datetime)
                    &&& d.format@ == self.format@
                },
                Err(e) => {
                    &&& !spec_datetime_update_in_range(self.datetime, unit, value as int)
                    &&& spec_datetime_invalid_update_err(
                        e,
                        value as int,
                        unit.spec_name(),
                        self.spec_render(),
                    )
                },
            },
    {
        let moved: Option<CalendarDateTime> = match &unit {
            DateTimeUnit::Year => match add_months_date(&self.datetime.date, value as i64 * 12) {
                Some(nd) => Some(CalendarDateTime { date: nd, time: self.datetime.time }),
                None => None,
            },
            DateTimeUnit::Month => match add_months_date(&self.datetime.date, value as i64) {
                Some(nd) => Some(CalendarDateTime { date: nd, time: self.datetime.time }),
                None => None,
            },
            DateTimeUnit::Day => match add_days_date(&self.datetime.date, value as i64) {
                Some(nd) => Some(CalendarDateTime { date: nd, time: self.datetime.time }),
                None => None,
            },
            DateTimeUnit::Hour => shift_datetime(&self.datetime, value as i64 * 3600),
            DateTimeUnit::Minute => shift_datetime(&self.datetime, value as i64 * 60),
            DateTimeUnit::Second => shift_datetime(&self.datetime, value as i64),
        };
        match moved {
            Some(nd) => Ok(DateTime { datetime: nd, format: self.format.clone() }),
            None => {
                let rendered = self.render();
                let msg = invalid_update_msg(value as i64, unit.name(), rendered.as_str());
                Err(SpanError::DateTime(Box::new(SpanError::InvalidUpdate(msg)), DateTimeError))
            },
        }
    }

    /// Moves the value forward by one of `unit`.
    pub fn next(&self, unit: DateTimeUnit) -> (r: Result<DateTime, SpanError>)
        requires
            self.wf(),
        ensures
            match r {
                Ok(d) => {
                    &&& spec_datetime_update_in_range(self.datetime, unit, 1)
                    &&& d.wf()
                    &&& spec_datetime_updated(self.datetime, unit, 1, d.datetime)
                    &&& d.format@ == self.format@
                },
                Err(e) => {
                    &&& !spec_datetime_update_in_range(self.datetime, unit, 1)
                    &&& spec_datetime_invalid_update_err(e, 1, unit.spec_name(), self.spec_render())
                },
            },
    {
        self.update(unit, 1)
    }

    /// Whether the named field holds `value`.
    pub fn matches(&self, unit: DateTimeUnit, value: u32) -> (r: bool)
        requires
            self.wf(),
        ensures
            r == spec_datetime_matches(self.datetime, unit, value as int),
    {
        match &unit {
            DateTimeUnit::Year => self.datetime.date.year == value,
            DateTimeUnit::Month => self.datetime.date.month == value,
            DateTimeUnit::Day => self.datetime.date.day == value,
            DateTimeUnit::Hour => self.datetime.time.hour == value,
            DateTimeUnit::Minute => self.datetime.time.minute == value,
            DateTimeUnit::Second => self.datetime.time.second == value,
        }
    }

    /// The current local date and time, displayed under the configuration's
    /// DateTime default pattern. Fails only if the system clock reports a
    /// date outside the supported range.
    pub fn now(config: &FormatConfig) -> (r: Result<DateTime, SpanError>)
        ensures
            r matches Ok(d) ==> d.wf() && d.format@ == config.spec_datetime_default(),
            r matches Err(e) ==> (e matches SpanError::DateTime(c, _)
                && *c matches SpanError::InvalidDate(_, _, _)),
    {
        let (y, mo, d, h, mi, s) = crate::clock::local_now_fields();
        if y < 0 || y > MAX_YEAR as i32 {
            return Err(
                SpanError::DateTime(Box::new(SpanError::InvalidDate(y, mo, d)), DateTimeError),
            );
        }
        let yu = y as u32;
        if d > days_in_month(yu, mo) {
            return Err(
                SpanError::DateTime(Box::new(SpanError::InvalidDate(y, mo, d)), DateTimeError),
            );
        }
        Ok(
            DateTime {
                datetime: CalendarDateTime {
                    date: CalendarDate { year: yu, month: mo, day: d },
                    time: ClockTime { hour: h, minute: mi, second: s },
                },
                format: config.datetime_default(),
            },
        )
    }

    /// Whether this value is strictly after `other` on the instant scale.
    pub fn is_after(&self, other: &DateTime) -> (r: bool)
        requires
            self.wf(),
            other.wf(),
        ensures
            r == (self.datetime.spec_instant() > other.datetime.spec_instant()),
    {
        instant_of_datetime(&self.datetime) > instant_of_datetime(&other.datetime)
    }

    /// Whether this value lies strictly after the current local date and
    /// time. The answer is the instant comparison against some well-formed
    /// datetime — the one the clock reported; only that reading is trusted.
    /// Fails only if the clock reports a date outside the supported range.
    pub fn is_in_future(&self) -> (r: Result<bool, SpanError>)
        requires
            self.wf(),
        ensures
            r matches Ok(b) ==> exists|n: CalendarDateTime|
                n.wf() && b == (self.datetime.spec_instant() > n.spec_instant()),
            r matches Err(e) ==> (e matches SpanError::DateTime(c, _)
                && *c matches SpanError::InvalidDate(_, _, _)),
    {
        let (y, mo, d, h, mi, s) = crate::clock::local_now_fields();
        if y < 0 || y > MAX_YEAR as i32 {
            return Err(
                SpanError::DateTime(Box::new(SpanError::InvalidDate(y, mo, d)), DateTimeError),
            );
        }
        let yu = y as u32;
        if d > days_in_month(yu, mo) {
            return Err(
                SpanError::DateTime(Box::new(SpanError::InvalidDate(y, mo, d)), DateTimeError),
            );
        }
        let now = CalendarDateTime {
            date: CalendarDate { year: yu, month: mo, day: d },
            time: ClockTime { hour: h, minute: mi, second: s },
        };
        let after = instant_of_datetime(&self.datetime) > instant_of_datetime(&now);
        proof {
            assert(now.wf() && after == (self.datetime.spec_instant() > now.spec_instant()));
        }
        Ok(after)
    }

    /// The signed duration from `lhs` to this value, in seconds: positive
    /// when this value is later.
    pub fn elapsed(&self, lhs: &DateTime) -> (r: i64)
        requires
            self.wf(),
            lhs.wf(),
        ensures
            r == self.datetime.spec_instant() - lhs.datetime.spec_instant(),
    {
        instant_of_datetime(&self.datetime) - instant_of_datetime(&lhs.datetime)
    }

    /// The number of whole units between the two values, direction
    /// discarded.
    pub fn unit_elapsed(&self, rhs: &DateTime, unit: DateTimeUnit) -> (r: Result<i64, SpanError>)
        requires
            self.wf(),
            rhs.wf(),
        ensures
            r matches Ok(v) && v == spec_datetime_unit_elapsed(self.datetime, rhs.datetime, unit),
    {
        let v: i64 = match &unit {
            DateTimeUnit::Year => self.datetime.date.year as i64 - rhs.datetime.date.year as i64,
            DateTimeUnit::Month => {
                let a = self.datetime.date.year as i64 * 12 + self.datetime.date.month as i64 - 1;
                let b = rhs.datetime.date.year as i64 * 12 + rhs.datetime.date.month as i64 - 1;
                a - b
            },
            DateTimeUnit::Day => {
                let diff = instant_of_datetime(&self.datetime) - instant_of_datetime(&rhs.datetime);
                trunc_div_i64(diff, 86400)
            },
            DateTimeUnit::Hour => {
                let diff = instant_of_datetime(&self.datetime) - instant_of_datetime(&rhs.datetime);
                trunc_div_i64(diff, 3600)
            },
            DateTimeUnit::Minute => {
                let diff = instant_of_datetime(&self.datetime) - instant_of_datetime(&rhs.datetime);
                trunc_div_i64(diff, 60)
            },
            DateTimeUnit::Second => {
                instant_of_datetime(&self.datetime) - instant_of_datetime(&rhs.datetime)
            },
        };
        if v < 0 {
            Ok(-v)
        } else {
            Ok(v)
        }
    }

    /// Resets the named field to its epoch value, leaving the other fields
    /// untouched. Fails, with a DateTime-context `ClearUnit`, only when the
    /// reset names an impossible date: a February 29th cannot move to 1970.
    pub fn clear_unit(&self, unit: DateTimeUnit) -> (r: Result<DateTime, SpanError>)
        requires
            self.wf(),
        ensures
            match r {
                Ok(d) => {
                    &&& spec_datetime_clear_ok(self.datetime, unit)
                    &&& d.datetime == spec_datetime_cleared(self.datetime, unit)
                    &&& d.wf()
                    &&& d.format@ == self.format@
                },
                Err(e) => {
                    &&& !spec_datetime_clear_ok(self.datetime, unit)
                    &&& e matches SpanError::DateTime(b, _)
                    &&& *b matches SpanError::ClearUnit(m) && m@
                        == "Error while setting year to 1970"@
                },
            },
    {
        let dt = &self.datetime;
        let cleared: Option<CalendarDateTime> = match &unit {
            DateTimeUnit::Year => {
                if dt.date.day <= days_in_month(1970, dt.date.month) {
                    Some(
                        CalendarDateTime {
                            date: CalendarDate { year: 1970, ..dt.date },
                            ..*dt
                        },
                    )
                } else {
                    None
                }
            },
            DateTimeUnit::Month => Some(
                CalendarDateTime { date: CalendarDate { month: 1, ..dt.date }, ..*dt },
            ),
            DateTimeUnit::Day => Some(
                CalendarDateTime { date: CalendarDate { day: 1, ..dt.date }, ..*dt },
            ),
            DateTimeUnit::Hour => Some(
                CalendarDateTime { time: ClockTime { hour: 0, ..dt.time }, ..*dt },
            ),
            DateTimeUnit::Minute => Some(
                CalendarDateTime { time: ClockTime { minute: 0, ..dt.time }, ..*dt },
            ),
            DateTimeUnit::Second => Some(
                CalendarDateTime { time: ClockTime { second: 0, ..dt.time }, ..*dt },
            ),
        };
        match cleared {
            Some(nd) => Ok(DateTime { datetime: nd, format: self.format.clone() }),
            None => Err(
                SpanError::DateTime(
                    Box::new(
                        SpanError::ClearUnit(String::from_str("Error while setting year to 1970")),
                    ),
                    DateTimeError,
                ),
            ),
        }
    }

    /// Resets the time of day to midnight, keeping the date; the display
    /// pattern reverts to the configuration's DateTime default.
    pub fn clear_time(&self, config: &FormatConfig) -> (r: DateTime)
        requires
            self.wf(),
        ensures
            r.datetime.date == self.datetime.date,
            r.datetime.time == (ClockTime { hour: 0, minute: 0, second: 0 }),
            r.format@ == config.spec_datetime_default(),
            r.wf(),
    {
        DateTime {
            datetime: CalendarDateTime {
                date: self.datetime.date,
                time: ClockTime { hour: 0, minute: 0, second: 0 },
            },
            format: config.datetime_default(),
        }
    }

    /// The Unix timestamp of the value: seconds since 1970-01-01 00:00:00,
    /// negative before the epoch.
    pub fn timestamp(&self) -> (r: i64)
        requires
            self.wf(),
        ensures
            r == spec_unix_of_instant(self.datetime.spec_instant()),
    {
        let inst = instant_of_datetime(&self.datetime);
        let offset = day_number_of(1970, 1, 1) as i64 * 86400;
        inst - offset
    }

    /// The datetime `seconds` Unix seconds after the epoch, displayed under
    /// the configuration's DateTime default pattern. Fails with a
    /// `ParseFromTimestamp` if and only if the instant lies outside the
    /// supported range.
    pub fn from_timestamp(seconds: i64, config: &FormatConfig) -> (r: Result<DateTime, SpanError>)
        ensures
            match r {
                Ok(d) => {
                    &&& 0 <= seconds + spec_day_number(1970, 1, 1) * 86400 <= max_instant()
                    &&& d.wf()
                    &&& spec_unix_of_instant(d.datetime.spec_instant()) == seconds
                    &&& d.format@ == config.spec_datetime_default()
                },
                Err(e) => {
                    &&& !(0 <= seconds + spec_day_number(1970, 1, 1) * 86400 <= max_instant())
                    &&& e matches SpanError::ParseFromTimestamp(m) && m@
                        == "Error while parsing timestamp"@
                },
            },
    {
        let offset = day_number_of(1970, 1, 1) as i64 * 86400;
        let max = day_number_of(MAX_YEAR, 12, 31) as i64 * 86400 + 86399;
        if seconds < -offset || seconds > max - offset {
            return Err(
                SpanError::ParseFromTimestamp(String::from_str("Error while parsing timestamp")),
            );
        }
        let inst = seconds + offset;
        let dt = datetime_of_instant(inst);
        Ok(DateTime { datetime: dt, format: config.datetime_default() })
    }

    /// A datetime from a millisecond timestamp: the sub-second part is
    /// discarded by truncating division before conversion.
    pub fn from_timestamp_milli(timestamp: crate::timestamp::TimestampMilli, config: &FormatConfig) -> (r:
        Result<DateTime, SpanError>)
        ensures
            ({
                let secs = spec_trunc_div(timestamp.0 as int, 1000);
                match r {
                    Ok(d) => {
                        &&& 0 <= secs + spec_day_number(1970, 1, 1) * 86400 <= max_instant()
                        &&& d.wf()
                        &&& spec_unix_of_instant(d.datetime.spec_instant()) == secs
                        &&& d.format@ == config.spec_datetime_default()
                    },
                    Err(e) => {
                        &&& !(0 <= secs + spec_day_number(1970, 1, 1) * 86400 <= max_instant())
                        &&& e matches SpanError::ParseFromTimestamp(m) && m@
                            == "Error while parsing timestamp"@
                    },
                }
            }),
    {
        let secs = trunc_div_i64(timestamp.0, 1000);
        DateTime::from_timestamp(secs, config)
    }

    /// A datetime from a microsecond timestamp: the sub-second part is
    /// discarded by truncating division before conversion.
    pub fn from_timestamp_micro(timestamp: crate::timestamp::TimestampMicro, config: &FormatConfig) -> (r:
        Result<DateTime, SpanError>)
        ensures
            ({
                let secs = spec_trunc_div(timestamp.0 as int, 1000000);
                match r {
                    Ok(d) => {
                        &&& 0 <= secs + spec_day_number(1970, 1, 1) * 86400 <= max_instant()
                        &&& d.wf()
                        &&& spec_unix_of_instant(d.datetime.spec_instant()) == secs
                        &&& d.format@ == config.spec_datetime_default()
                    },
                    Err(e) => {
                        &&& !(0 <= secs + spec_day_number(1970, 1, 1) * 86400 <= max_instant())
                        &&& e matches SpanError::ParseFromTimestamp(m) && m@
                            == "Error while parsing timestamp"@
                    },
                }
            }),
    {
        let secs = trunc_div_i64(timestamp.0, 1000000);
        DateTime::from_timestamp(secs, config)
    }

    /// A datetime from a nanosecond timestamp: the sub-second part is
    /// discarded by truncating division before conversion.
    pub fn from_timestamp_nano(timestamp: crate::timestamp::TimestampNano, config: &FormatConfig) -> (r:
        Result<DateTime, SpanError>)
        ensures
            ({
                let secs = spec_trunc_div(timestamp.0 as int, 1000000000);
                match r {
                    Ok(d) => {
                        &&& 0 <= secs + spec_day_number(1970, 1, 1) * 86400 <= max_instant()
                        &&& d.wf()
                        &&& spec_unix_of_instant(d.datetime.spec_instant()) == secs
                        &&& d.format@ == config.spec_datetime_default()
                    },
                    Err(e) => {
                        &&& !(0 <= secs + spec_day_number(1970, 1, 1) * 86400 <= max_instant())
                        &&& e matches SpanError::ParseFromTimestamp(m) && m@
                            == "Error while parsing timestamp"@
                    },
                }
            }),
    {
        let secs = trunc_div_i64(timestamp.0, 1000000000);
        DateTime::from_timestamp(secs, config)
    }

    /// Widens a Date: the same date at midnight, displayed under the
    /// configuration's DateTime default pattern, not the date's own.
    pub fn from_date(date: &Date, config: &FormatConfig) -> (r: DateTime)
        requires
            date.wf(),
        ensures
            r.datetime == spec_date_as_datetime(date.date),
            r.format@ == config.spec_datetime_default(),
            r.wf(),
    {
        DateTime {
            datetime: crate::date::date_as_datetime(&date.date),
            format: config.datetime_default(),
        }
    }

    /// Widens a Time: the same time on the epoch date, displayed under the
    /// configuration's DateTime default pattern.
    pub fn from_time(time: &Time, config: &FormatConfig) -> (r: DateTime)
        requires
            time.wf(),
        ensures
            r.datetime == spec_time_as_datetime(time.time),
            r.format@ == config.spec_datetime_default(),
            r.wf(),
    {
        DateTime {
            datetime: crate::time::time_as_datetime(&time.time),
            format: config.datetime_default(),
        }
    }

    /// Narrows to the date component, displayed under the configuration's
    /// Date default pattern.
    pub fn to_date(&self, config: &FormatConfig) -> (r: Date)
        requires
            self.wf(),
        ensures
            r.date == self.datetime.date,
            r.format@ == config.spec_date_default(),
            r.wf(),
    {
        Date { date: self.datetime.date, format: config.date_default() }
    }

    /// Narrows to the time component, displayed under the configuration's
    /// Time default pattern.
    pub fn to_time(&self, config: &FormatConfig) -> (r: Time)
        requires
            self.wf(),
        ensures
            r.time == self.datetime.time,
            r.format@ == config.spec_time_default(),
            r.wf(),
    {
        Time { time: self.datetime.time, format: config.time_default() }
    }
}

/// Round trip: rendering a datetime and parsing the rendering back under
/// the same pattern recovers exactly the same value, for every pattern that
/// mentions all six fields.
pub proof fn lemma_datetime_render_parse_round_trip(d: DateTime)
    requires
        d.wf(),
        crate::pattern::pattern_has_field(d.format@, 0, 'Y'),
        crate::pattern::pattern_has_field(d.format@, 0, 'm'),
        crate::pattern::pattern_has_field(d.format@, 0, 'd'),
        crate::pattern::pattern_has_field(d.format@, 0, 'H'),
        crate::pattern::pattern_has_field(d.format@, 0, 'M'),
        crate::pattern::pattern_has_field(d.format@, 0, 'S'),
    ensures
        ({
            let parsed = spec_parse(d.spec_render(), d.format@);
            &&& parsed is Some
            &&& spec_datetime_of_parsed(parsed->Some_0) == Some(d.datetime)
        }),
{
    crate::pattern::lemma_format_parse_round_trip(d.datetime, d.format@);
    let empty = crate::pattern::ParsedFields::spec_empty();
    crate::pattern::lemma_apply_fields_get(d.datetime, d.format@, 0, empty, 'Y');
    crate::pattern::lemma_apply_fields_get(d.datetime, d.format@, 0, empty, 'm');
    crate::pattern::lemma_apply_fields_get(d.datetime, d.format@, 0, empty, 'd');
    crate::pattern::lemma_apply_fields_get(d.datetime, d.format@, 0, empty, 'H');
    crate::pattern::lemma_apply_fields_get(d.datetime, d.format@, 0, empty, 'M');
    crate::pattern::lemma_apply_fields_get(d.datetime, d.format@, 0, empty, 'S');
    let pf = spec_parse(d.spec_render(), d.format@)->Some_0;
    assert(pf.spec_get('Y') == Some(d.datetime.date.year));
    assert(pf.spec_get('m') == Some(d.datetime.date.month));
    assert(pf.spec_get('d') == Some(d.datetime.date.day));
    assert(pf.spec_get('H') == Some(d.datetime.time.hour));
    assert(pf.spec_get('M') == Some(d.datetime.time.minute));
    assert(pf.spec_get('S') == Some(d.datetime.time.second));
}

/// Truncating division discards direction symmetrically.
proof fn lemma_trunc_div_odd(x: int, k: int)
    requires
        k >= 1,
    ensures
        spec_trunc_div(-x, k) == -spec_trunc_div(x, k),
{
}

/// The count of whole units between two values discards direction: the
/// order of the arguments does not matter, unlike `elapsed`, which is
/// signed. On the second scale the count is exactly the magnitude of
/// `elapsed`; coarser time units divide it through their length first.
pub proof fn lemma_unit_elapsed_symmetry(
    a: CalendarDateTime,
    b: CalendarDateTime,
    unit: DateTimeUnit,
)
    ensures
        spec_datetime_unit_elapsed(a, b, unit) == spec_datetime_unit_elapsed(b, a, unit),
        spec_datetime_unit_elapsed(a, b, DateTimeUnit::Second) == abs(
            a.spec_instant() - b.spec_instant(),
        ),
{
    let x = a.spec_instant() - b.spec_instant();
    lemma_trunc_div_odd(x, 86400);
    lemma_trunc_div_odd(x, 3600);
    lemma_trunc_div_odd(x, 60);
}

/// After `clear_time` the rendered text ends in a midnight clock: under the
/// canonical DateTime pattern, the rendering of any value whose time of day
/// is midnight is 19 characters long and its last eight are `00:00:00`.
pub proof fn lemma_midnight_render_suffix(d: DateTime)
    requires
        d.wf(),
        d.datetime.time == (ClockTime { hour: 0, minute: 0, second: 0 }),
        d.format@ == "%Y-%m-%d %H:%M:%S"@,
    ensures
        d.spec_render().len() == 19,
        d.spec_render().subrange(11, 19) == "00:00:00"@,
{
    reveal_strlit("%Y-%m-%d %H:%M:%S");
    reveal_strlit("00:00:00");
    let p = d.format@;
    let dt = d.datetime;
    crate::pattern::lemma_field_value_fits(dt, 'Y');
    crate::pattern::lemma_field_value_fits(dt, 'm');
    crate::pattern::lemma_field_value_fits(dt, 'd');
    crate::numeral::lemma_dec_fixed_round_trip(dt.date.year as int, 4);
    crate::numeral::lemma_dec_fixed_round_trip(dt.date.month as int, 2);
    crate::numeral::lemma_dec_fixed_round_trip(dt.date.day as int, 2);
    crate::numeral::lemma_dec_fixed_round_trip(0, 2);
    let zz = crate::numeral::dec_fixed(0, 2);
    assert(zz =~= seq!['0', '0']) by {
        reveal_with_fuel(crate::numeral::dec_fixed, 3);
    };
    reveal_with_fuel(crate::pattern::spec_format_from, 13);
    let r = d.spec_render();
    let tail = crate::pattern::spec_format_from(dt, p, 9);
    assert(tail =~= zz + (seq![':'] + (zz + (seq![':'] + (zz + Seq::<char>::empty())))));
    assert(tail =~= "00:00:00"@);
    assert(r =~= crate::numeral::dec_fixed(dt.date.year as int, 4) + (seq!['-']
        + (crate::numeral::dec_fixed(dt.date.month as int, 2) + (seq!['-']
        + (crate::numeral::dec_fixed(dt.date.day as int, 2) + (seq![' '] + tail))))));
    assert(r.len() == 19);
    assert(r.subrange(11, 19) =~= tail);
}

/// Conversion identity: widening a date to a datetime puts it at midnight
/// of the same date, so narrowing back recovers the date unchanged; the
/// same holds for a time widened onto the epoch date.
pub proof fn lemma_conversion_identity(cd: CalendarDate, t: ClockTime)
    ensures
        spec_date_as_datetime(cd).date == cd,
        spec_date_as_datetime(cd).time == (ClockTime { hour: 0, minute: 0, second: 0 }),
        spec_time_as_datetime(t).time == t,
        spec_time_as_datetime(t).date == (CalendarDate { year: 1970, month: 1, day: 1 }),
{
}

impl Default for DateTime {
    /// The epoch instant, 1970-01-01 00:00:00, under the canonical DateTime
    /// pattern.
    fn default() -> (r: DateTime)
        ensures
            r.datetime == (CalendarDateTime {
                date: CalendarDate { year: 1970, month: 1, day: 1 },
                time: ClockTime { hour: 0, minute: 0, second: 0 },
            }),
            r.format@ == "%Y-%m-%d %H:%M:%S"@,
            r.wf(),
    {
        DateTime {
            datetime: CalendarDateTime {
                date: CalendarDate { year: 1970, month: 1, day: 1 },
                time: ClockTime { hour: 0, minute: 0, second: 0 },
            },
            format: String::from_str("%Y-%m-%d %H:%M:%S"),
        }
    }
}

impl PartialEq for DateTime {
    /// DateTimes compare by calendrical value alone; the display pattern is
    /// not part of equality.
    fn eq(&self, other: &DateTime) -> (r: bool) {
        self.datetime == other.datetime
    }
}

impl vstd::std_specs::cmp::PartialEqSpecImpl for DateTime {
    open spec fn obeys_eq_spec() -> bool {
        true
    }

    open spec fn eq_spec(&self, other: &DateTime) -> bool {
        self.datetime == other.datetime
    }
}

} // verus!
