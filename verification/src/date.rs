//! The Date value type: a calendar date paired with its display pattern.
//! Construction parses a string against a pattern; arithmetic moves the date
//! by years, months or days with clamping and carry; rendering always uses
//! the value's own stored pattern.

use vstd::prelude::*;

verus! {

use crate::builder::FormatConfig;
use crate::calendar::add_days_date;
use crate::calendar::add_months_date;
use crate::calendar::day_number_of;
use crate::calendar::days_in_month;
use crate::calendar::spec_days_in_month;
use crate::calendar::valid_ymd;
use crate::calendar::CalendarDate;
use crate::calendar::CalendarDateTime;
use crate::calendar::ClockTime;
use crate::calendar::MAX_YEAR;
use crate::error::invalid_update_msg;
use crate::error::spec_invalid_update_msg;
use crate::error::DateError;
use crate::error::SpanError;
use crate::pattern::format_fields;
use crate::pattern::parse_fields;
use crate::pattern::spec_format;
use crate::pattern::spec_parse;
use crate::pattern::ParsedFields;
use vstd::math::abs;
use vstd::math::min;
use vstd::string::StringExecFns;

/// The field a Date update acts on.
#[derive(Debug, Clone)]
pub enum DateUnit {
    Year,
    Month,
    Day,
}

impl DateUnit {
    /// The unit's name, as update error messages spell it.
    pub open spec fn spec_name(&self) -> Seq<char> {
        match self {
            DateUnit::Year => "Year"@,
            DateUnit::Month => "Month"@,
            DateUnit::Day => "Day"@,
        }
    }

    pub fn name(&self) -> (r: &'static str)
        ensures
            r@ == self.spec_name(),
    {
        match self {
            DateUnit::Year => "Year",
            DateUnit::Month => "Month",
            DateUnit::Day => "Day",
        }
    }
}

/// A calendar date with its display pattern. Equality compares the date
/// alone; the pattern is presentation.
#[derive(Debug, Clone)]
pub struct Date {
    pub date: CalendarDate,
    pub format: String,
}

/// A date seen as a datetime: the same date at midnight. Rendering a Date
/// runs the shared pattern engine on this embedding, so time tokens in a
/// date pattern render as zeros.
pub open spec fn spec_date_as_datetime(cd: CalendarDate) -> CalendarDateTime {
    CalendarDateTime { date: cd, time: ClockTime { hour: 0, minute: 0, second: 0 } }
}

pub fn date_as_datetime(cd: &CalendarDate) -> (r: CalendarDateTime)
    ensures
        r == spec_date_as_datetime(*cd),
{
    CalendarDateTime { date: *cd, time: ClockTime { hour: 0, minute: 0, second: 0 } }
}

/// The date a successful parse determines: defined when the year, month and
/// day fields were all read and form a valid date.
pub open spec fn spec_date_of_parsed(p: ParsedFields) -> Option<CalendarDate> {
    if p.year is Some && p.month is Some && p.day is Some && valid_ymd(
        p.year->Some_0 as int,
        p.month->Some_0 as int,
        p.day->Some_0 as int,
    ) {
        Some(CalendarDate { year: p.year->Some_0, month: p.month->Some_0, day: p.day->Some_0 })
    } else {
        None
    }
}

/// The cause text a failed date parse reports.
pub open spec fn spec_date_parse_cause(parsed: Option<ParsedFields>) -> Seq<char> {
    match parsed {
        None => "input does not match the pattern"@,
        Some(p) => {
            if !(p.year is Some && p.month is Some && p.day is Some) {
                "input is not enough for a unique value"@
            } else {
                "input is out of range"@
            }
        },
    }
}

/// A parse failure wrapped in the Date context.
pub open spec fn spec_date_parse_err(e: SpanError, cause: Seq<char>) -> bool {
    &&& e matches SpanError::Date(b, _)
    &&& *b matches SpanError::ParseFromStr(m)
    &&& m@ == cause
}

/// An update failure wrapped in the Date context, with its exact message.
pub open spec fn spec_date_invalid_update_err(
    e: SpanError,
    value: int,
    unit: Seq<char>,
    rendered: Seq<char>,
) -> bool {
    &&& e matches SpanError::Date(b, _)
    &&& *b matches SpanError::InvalidUpdate(m)
    &&& m@ == spec_invalid_update_msg(value, unit, rendered)
}

/// Whether moving `cd` by `value` of `unit` stays inside the supported
/// range.
pub open spec fn spec_date_update_in_range(cd: CalendarDate, unit: DateUnit, value: int) -> bool {
    match unit {
        DateUnit::Year => 0 <= cd.month_index() + 12 * value <= MAX_YEAR * 12 + 11,
        DateUnit::Month => 0 <= cd.month_index() + value <= MAX_YEAR * 12 + 11,
        DateUnit::Day => 0 <= cd.spec_day_number() + value <= crate::calendar::max_day_number(),
    }
}

/// What a successful update leaves: month arithmetic moves on the month
/// scale and clamps the day to the target month's length; day arithmetic
/// moves on the day-number scale.
pub open spec fn spec_date_updated(
    cd: CalendarDate,
    unit: DateUnit,
    value: int,
    nd: CalendarDate,
) -> bool {
    match unit {
        DateUnit::Year => nd.month_index() == cd.month_index() + 12 * value && nd.day == min(
            cd.day as int,
            spec_days_in_month(nd.year as int, nd.month as int),
        ),
        DateUnit::Month => nd.month_index() == cd.month_index() + value && nd.day == min(
            cd.day as int,
            spec_days_in_month(nd.year as int, nd.month as int),
        ),
        DateUnit::Day => nd.spec_day_number() == cd.spec_day_number() + value,
    }
}

/// How `matches` compares a field against a caller's value.
pub open spec fn spec_date_matches(cd: CalendarDate, unit: DateUnit, value: int) -> bool {
    match unit {
        DateUnit::Year => cd.year as int == value,
        DateUnit::Month => cd.month as int == value as u32 as int,
        DateUnit::Day => cd.day as int == value as u32 as int,
    }
}

impl Date {
    pub open spec fn wf(&self) -> bool {
        self.date.wf()
    }

    /// What `render` produces: the date at midnight, under the value's own
    /// stored pattern.
    pub open spec fn spec_render(&self) -> Seq<char> {
        spec_format(spec_date_as_datetime(self.date), self.format@)
    }

    /// Parses `date` against `format` and stores that pattern for display.
    /// Fails with a Date-context `ParseFromStr` when the input does not
    /// match the pattern, leaves a date field undetermined, or names an
    /// impossible date.
    pub fn new(date: &str, format: &str) -> (r: Result<Date, SpanError>)
        ensures
            ({
                let parsed = spec_parse(date@, format@);
                match r {
                    Ok(d) => {
                        &&& parsed is Some
                        &&& spec_date_of_parsed(parsed->Some_0) is Some
                        &&& d.date == spec_date_of_parsed(parsed->Some_0)->Some_0
                        &&& d.format@ == format@
                        &&& d.wf()
                    },
                    Err(e) => {
                        &&& !(parsed is Some && spec_date_of_parsed(parsed->Some_0) is Some)
                        &&& spec_date_parse_err(e, spec_date_parse_cause(parsed))
                    },
                }
            }),
    {
        match parse_fields(date, format) {
            None => Err(
                SpanError::Date(
                    Box::new(
                        SpanError::ParseFromStr(String::from_str("input does not match the pattern")),
                    ),
                    DateError,
                ),
            ),
            Some(p) => {
                let (ys, ms, ds) = (p.year, p.month, p.day);
                match (ys, ms, ds) {
                    (Some(y), Some(m), Some(d)) => {
                        if 1 <= m && m <= 12 && y <= MAX_YEAR && 1 <= d && d <= days_in_month(y, m) {
                            Ok(Date { date: CalendarDate { year: y, month: m, day: d }, format: String::from_str(format) })
                        } else {
                            Err(
                                SpanError::Date(
                                    Box::new(
                                        SpanError::ParseFromStr(
                                            String::from_str("input is out of range"),
                                        ),
                                    ),
                                    DateError,
                                ),
                            )
                        }
                    },
                    _ => Err(
                        SpanError::Date(
                            Box::new(
                                SpanError::ParseFromStr(
                                    String::from_str("input is not enough for a unique value"),
                                ),
                            ),
                            DateError,
                        ),
                    ),
                }
            },
        }
    }

    /// Parses `date` against the configuration's Date default pattern.
    pub fn build(date: &str, config: &FormatConfig) -> (r: Result<Date, SpanError>)
        ensures
            ({
                let parsed = spec_parse(date@, config.spec_date_default());
                match r {
                    Ok(d) => {
                        &&& parsed is Some
                        &&& spec_date_of_parsed(parsed->Some_0) is Some
                        &&& d.date == spec_date_of_parsed(parsed->Some_0)->Some_0
                        &&& d.format@ == config.spec_date_default()
                        &&& d.wf()
                    },
                    Err(e) => {
                        &&& !(parsed is Some && spec_date_of_parsed(parsed->Some_0) is Some)
                        &&& spec_date_parse_err(e, spec_date_parse_cause(parsed))
                    },
                }
            }),
    {
        let f = config.date_default();
        Date::new(date, f.as_str())
    }

    /// The plain calendar date inside the value.
    pub fn date(&self) -> (r: CalendarDate)
        ensures
            r == self.date,
    {
        self.date
    }

    /// Returns the same date under a different display pattern.
    pub fn format(self, format: &str) -> (r: Date)
        ensures
            r.date == self.date,
            r.format@ == format@,
    {
        Date { date: self.date, format: String::from_str(format) }
    }

    /// Renders the date under its own stored pattern. The pattern decides
    /// everything: no configuration is consulted.
    pub fn render(&self) -> (r: String)
        requires
            self.wf(),
        ensures
            r@ == self.spec_render(),
    {
        let dt = date_as_datetime(&self.date);
        format_fields(&dt, self.format.as_str())
    }

    /// Moves the date by `value` of `unit`: years and months move on the
    /// month scale with the day clamped to the target month's length; days
    /// move on the day-number scale with full carry. A move outside the
    /// supported range fails with a Date-context `InvalidUpdate` naming the
    /// attempted operation.
    pub fn update(&self, unit: DateUnit, value: i32) -> (r: Result<Date, SpanError>)
        requires
            self.wf(),
        ensures
            match r {
                Ok(d) => {
                    &&& spec_date_update_in_range(self.date, unit, value as int)
                    &&& d.wf()
                    &&& spec_date_updated(self.date, unit, value as int, d.date)
                    &&& d.format@ == self.format@
                },
                Err(e) => {
                    &&& !spec_date_update_in_range(self.date, unit, value as int)
                    &&& spec_date_invalid_update_err(
                        e,
                        value as int,
                        unit.spec_name(),
                        self.spec_render(),
                    )
                },
            },
    {
        let moved = match &unit {
            DateUnit::Year => add_months_date(&self.date, value as i64 * 12),
            DateUnit::Month => add_months_date(&self.date, value as i64),
            DateUnit::Day => add_days_date(&self.date, value as i64),
        };
        match moved {
            Some(nd) => Ok(Date { date: nd, format: self.format.clone() }),
            None => {
                let rendered = self.render();
                let msg = invalid_update_msg(value as i64, unit.name(), rendered.as_str());
                Err(SpanError::Date(Box::new(SpanError::InvalidUpdate(msg)), DateError))
            },
        }
    }

    /// Moves the date forward by one of `unit`.
    pub fn next(&self, unit: DateUnit) -> (r: Result<Date, SpanError>)
        requires
            self.wf(),
        ensures
            match r {
                Ok(d) => {
                    &&& spec_date_update_in_range(self.date, unit, 1)
                    &&& d.wf()
                    &&& spec_date_updated(self.date, unit, 1, d.date)
                    &&& d.format@ == self.format@
                },
                Err(e) => {
                    &&& !spec_date_update_in_range(self.date, unit, 1)
                    &&& spec_date_invalid_update_err(e, 1, unit.spec_name(), self.spec_render())
                },
            },
    {
        self.update(unit, 1)
    }

    /// Whether the named field holds `value`.
    pub fn matches(&self, unit: DateUnit, value: i32) -> (r: bool)
        requires
            self.wf(),
        ensures
            r == spec_date_matches(self.date, unit, value as int),
    {
        match &unit {
            DateUnit::Year => value >= 0 && self.date.year == value as u32,
            DateUnit::Month => self.date.month == (#[verifier::truncate] (value as u32)),
            DateUnit::Day => self.date.day == (#[verifier::truncate] (value as u32)),
        }
    }

    /// Today's local date, displayed under the configuration's Date default
    /// pattern. Fails only if the system clock reports a date outside the
    /// supported range.
    pub fn today(config: &FormatConfig) -> (r: Result<Date, SpanError>)
        ensures
            r matches Ok(d) ==> d.wf() && d.format@ == config.spec_date_default(),
            r matches Err(e) ==> (e matches SpanError::Date(c, _) && *c matches SpanError::InvalidDate(
                _,
                _,
                _,
            )),
    {
        match current_date() {
            Ok(cd) => Ok(Date { date: cd, format: config.date_default() }),
            Err(e) => Err(e),
        }
    }

    /// Whether this date is strictly after `other` on the day-number scale.
    pub fn is_after(&self, other: &Date) -> (r: bool)
        requires
            self.wf(),
            other.wf(),
        ensures
            r == (self.date.spec_day_number() > other.date.spec_day_number()),
    {
        let a = day_number_of(self.date.year, self.date.month, self.date.day);
        let b = day_number_of(other.date.year, other.date.month, other.date.day);
        a > b
    }

    /// Whether this date lies strictly after today's local date. The
    /// answer is the day-number comparison against some valid date — the
    /// one the clock reported; only that reading is trusted. Fails only if
    /// the clock reports a date outside the supported range.
    pub fn is_in_future(&self) -> (r: Result<bool, SpanError>)
        requires
            self.wf(),
        ensures
            r matches Ok(b) ==> exists|n: CalendarDate|
                n.wf() && b == (self.date.spec_day_number() > n.spec_day_number()),
            r matches Err(e) ==> (e matches SpanError::Date(c, _) && *c matches SpanError::InvalidDate(
                _,
                _,
                _,
            )),
    {
        let today = match current_date() {
            Ok(cd) => cd,
            Err(e) => {
                return Err(e);
            },
        };
        let a = day_number_of(self.date.year, self.date.month, self.date.day);
        let b = day_number_of(today.year, today.month, today.day);
        proof {
            assert(today.wf() && (a > b) == (self.date.spec_day_number()
                > today.spec_day_number()));
        }
        Ok(a > b)
    }

    /// The signed duration from `lhs` to this date, in seconds: positive
    /// when this date is later.
    pub fn elapsed(&self, lhs: &Date) -> (r: i64)
        requires
            self.wf(),
            lhs.wf(),
        ensures
            r == 86400 * (self.date.spec_day_number() - lhs.date.spec_day_number()),
    {
        let a = day_number_of(self.date.year, self.date.month, self.date.day);
        let b = day_number_of(lhs.date.year, lhs.date.month, lhs.date.day);
        (a as i64 - b as i64) * 86400
    }

    /// The number of whole units between the two dates, direction
    /// discarded: calendar-year difference, total-month difference, or
    /// day-number difference.
    pub fn unit_elapsed(&self, rhs: &Date, unit: DateUnit) -> (r: Result<i64, SpanError>)
        requires
            self.wf(),
            rhs.wf(),
        ensures
            r matches Ok(v) && v == spec_date_unit_elapsed(self.date, rhs.date, unit),
    {
        let v: i64 = match &unit {
            DateUnit::Year => self.date.year as i64 - rhs.date.year as i64,
            DateUnit::Month => {
                let a = self.date.year as i64 * 12 + self.date.month as i64 - 1;
                let b = rhs.date.year as i64 * 12 + rhs.date.month as i64 - 1;
                a - b
            },
            DateUnit::Day => {
                let a = day_number_of(self.date.year, self.date.month, self.date.day);
                let b = day_number_of(rhs.date.year, rhs.date.month, rhs.date.day);
                a as i64 - b as i64
            },
        };
        if v < 0 {
            Ok(-v)
        } else {
            Ok(v)
        }
    }
}

/// The number of whole units between two dates, direction discarded.
pub open spec fn spec_date_unit_elapsed(a: CalendarDate, b: CalendarDate, unit: DateUnit) -> int {
    match unit {
        DateUnit::Year => abs(a.year - b.year) as int,
        DateUnit::Month => abs(a.month_index() - b.month_index()) as int,
        DateUnit::Day => abs(a.spec_day_number() - b.spec_day_number()) as int,
    }
}

/// Reads the clock and validates the reported date.
fn current_date() -> (r: Result<CalendarDate, SpanError>)
    ensures
        r matches Ok(cd) ==> cd.wf(),
        r matches Err(e) ==> (e matches SpanError::Date(c, _) && *c matches SpanError::InvalidDate(
            _,
            _,
            _,
        )),
{
    let (y, mo, d, _h, _mi, _s) = crate::clock::local_now_fields();
    if y < 0 || y > MAX_YEAR as i32 {
        return Err(
            SpanError::Date(Box::new(SpanError::InvalidDate(y, mo, d)), DateError),
        );
    }
    let yu = y as u32;
    if d > days_in_month(yu, mo) {
        return Err(
            SpanError::Date(Box::new(SpanError::InvalidDate(y, mo, d)), DateError),
        );
    }
    Ok(CalendarDate { year: yu, month: mo, day: d })
}

/// Round trip: rendering a date and parsing the rendering back under the
/// same pattern recovers exactly the same date, for every pattern that
/// mentions the year, month and day fields (a pattern that drops a field is
/// lossy, and parsing then cannot determine a date).
pub proof fn lemma_date_render_parse_round_trip(d: Date)
    requires
        d.wf(),
        crate::pattern::pattern_has_field(d.format@, 0, 'Y'),
        crate::pattern::pattern_has_field(d.format@, 0, 'm'),
        crate::pattern::pattern_has_field(d.format@, 0, 'd'),
    ensures
        ({
            let parsed = spec_parse(d.spec_render(), d.format@);
            &&& parsed is Some
            &&& spec_date_of_parsed(parsed->Some_0) == Some(d.date)
        }),
{
    let dt = spec_date_as_datetime(d.date);
    crate::pattern::lemma_format_parse_round_trip(dt, d.format@);
    let empty = crate::pattern::ParsedFields::spec_empty();
    crate::pattern::lemma_apply_fields_get(dt, d.format@, 0, empty, 'Y');
    crate::pattern::lemma_apply_fields_get(dt, d.format@, 0, empty, 'm');
    crate::pattern::lemma_apply_fields_get(dt, d.format@, 0, empty, 'd');
    let pf = spec_parse(d.spec_render(), d.format@)->Some_0;
    assert(pf.spec_get('Y') == Some(d.date.year));
    assert(pf.spec_get('m') == Some(d.date.month));
    assert(pf.spec_get('d') == Some(d.date.day));
}

/// Overflow safety: a day delta of `i32::MAX` moves any representable date
/// past the supported range, so `update` reports `InvalidUpdate` for it —
/// and, being verified, it cannot panic on any input.
pub proof fn lemma_huge_day_delta_never_fits(cd: CalendarDate)
    requires
        cd.wf(),
    ensures
        !spec_date_update_in_range(cd, DateUnit::Day, 0x7fffffff),
{
    crate::calendar::lemma_max_day_number_bound();
    crate::calendar::lemma_days_before_year_bounds(cd.year as int);
    crate::calendar::lemma_day_number_within_year(cd.year as int, cd.month as int, cd.day as int);
}

/// Rendering a date consults only the value's own fields: its calendar
/// date and its stored pattern. A configuration built, rebuilt or changed
/// after the value was constructed (`later` here) has no way to reach it:
/// the stored pattern and the rendered text stay the same.
pub proof fn lemma_registry_isolation(d: Date, later: FormatConfig)
    ensures
        d.spec_render() == spec_format(spec_date_as_datetime(d.date), d.format@),
{
}

impl Default for Date {
    /// The epoch date, 1970-01-01, under the canonical Date pattern.
    fn default() -> (r: Date)
        ensures
            r.date == (CalendarDate { year: 1970, month: 1, day: 1 }),
            r.format@ == "%Y-%m-%d"@,
            r.wf(),
    {
        Date {
            date: CalendarDate { year: 1970, month: 1, day: 1 },
            format: String::from_str("%Y-%m-%d"),
        }
    }
}

impl PartialEq for Date {
    /// Dates compare by calendar value alone; the display pattern is not
    /// part of equality.
    fn eq(&self, other: &Date) -> (r: bool) {
        self.date == other.date
    }
}

impl vstd::std_specs::cmp::PartialEqSpecImpl for Date {
    open spec fn obeys_eq_spec() -> bool {
        true
    }

    open spec fn eq_spec(&self, other: &Date) -> bool {
        self.date == other.date
    }
}

} // verus!
