//! The strftime-style pattern mini-language: `%Y`, `%m`, `%d`, `%H`, `%M`,
//! `%S` and literal separators. `%Y` renders as exactly four zero-padded
//! digits, every other field as exactly two; any other character, and any `%`
//! not followed by a field letter, stands for itself. Formatting and parsing
//! are defined over one shared token walk, which is what makes the
//! format-then-parse round trip provable.

use vstd::prelude::*;

verus! {

use crate::calendar::CalendarDateTime;
use crate::numeral::all_digits;
use crate::numeral::dec_fixed;
use crate::numeral::digit_val_exec;
use crate::numeral::is_digit_char;
use crate::numeral::lemma_dec_fixed_round_trip;
use crate::numeral::pow10;
use crate::numeral::push_char;
use crate::numeral::push_fixed;
use crate::numeral::seq_dec_val;
use vstd::string::StrSliceExecFns;

/// The pattern letters that address a calendar or clock field.
pub open spec fn is_field_char(c: char) -> bool {
    c == 'Y' || c == 'm' || c == 'd' || c == 'H' || c == 'M' || c == 'S'
}

pub fn is_field_char_exec(c: char) -> (r: bool)
    ensures
        r == is_field_char(c),
{
    c == 'Y' || c == 'm' || c == 'd' || c == 'H' || c == 'M' || c == 'S'
}

/// How many digits the field renders as and consumes.
pub open spec fn field_width(c: char) -> nat {
    if c == 'Y' {
        4
    } else {
        2
    }
}

pub fn field_width_exec(c: char) -> (r: u32)
    ensures
        r == field_width(c),
{
    if c == 'Y' {
        4
    } else {
        2
    }
}

/// The value a datetime holds in the field a pattern letter addresses.
pub open spec fn spec_field_value(dt: CalendarDateTime, c: char) -> int {
    if c == 'Y' {
        dt.date.year as int
    } else if c == 'm' {
        dt.date.month as int
    } else if c == 'd' {
        dt.date.day as int
    } else if c == 'H' {
        dt.time.hour as int
    } else if c == 'M' {
        dt.time.minute as int
    } else {
        dt.time.second as int
    }
}

pub fn field_value_exec(dt: &CalendarDateTime, c: char) -> (r: u32)
    requires
        dt.wf(),
    ensures
        r == spec_field_value(*dt, c),
{
    if c == 'Y' {
        dt.date.year
    } else if c == 'm' {
        dt.date.month
    } else if c == 'd' {
        dt.date.day
    } else if c == 'H' {
        dt.time.hour
    } else if c == 'M' {
        dt.time.minute
    } else {
        dt.time.second
    }
}

/// Every field of a well-formed datetime fits its rendered width.
pub proof fn lemma_field_value_fits(dt: CalendarDateTime, c: char)
    requires
        dt.wf(),
    ensures
        0 <= spec_field_value(dt, c) < pow10(field_width(c)),
{
    reveal_with_fuel(pow10, 5);
    assert(pow10(4) == 10000);
    assert(pow10(2) == 100);
}

/// What a pattern walk has read so far: one optional value per field.
#[derive(Clone, Copy, Debug, PartialEq, Eq, Structural)]
pub struct ParsedFields {
    pub year: Option<u32>,
    pub month: Option<u32>,
    pub day: Option<u32>,
    pub hour: Option<u32>,
    pub minute: Option<u32>,
    pub second: Option<u32>,
}

impl ParsedFields {
    pub open spec fn spec_empty() -> ParsedFields {
        ParsedFields {
            year: None,
            month: None,
            day: None,
            hour: None,
            minute: None,
            second: None,
        }
    }

    pub open spec fn spec_get(self, c: char) -> Option<u32> {
        if c == 'Y' {
            self.year
        } else if c == 'm' {
            self.month
        } else if c == 'd' {
            self.day
        } else if c == 'H' {
            self.hour
        } else if c == 'M' {
            self.minute
        } else {
            self.second
        }
    }

    pub open spec fn spec_set(self, c: char, v: u32) -> ParsedFields {
        if c == 'Y' {
            ParsedFields { year: Some(v), ..self }
        } else if c == 'm' {
            ParsedFields { month: Some(v), ..self }
        } else if c == 'd' {
            ParsedFields { day: Some(v), ..self }
        } else if c == 'H' {
            ParsedFields { hour: Some(v), ..self }
        } else if c == 'M' {
            ParsedFields { minute: Some(v), ..self }
        } else {
            ParsedFields { second: Some(v), ..self }
        }
    }

    pub fn empty() -> (r: ParsedFields)
        ensures
            r == ParsedFields::spec_empty(),
    {
        ParsedFields {
            year: None,
            month: None,
            day: None,
            hour: None,
            minute: None,
            second: None,
        }
    }

    pub fn set(self, c: char, v: u32) -> (r: ParsedFields)
        ensures
            r == self.spec_set(c, v),
    {
        if c == 'Y' {
            ParsedFields { year: Some(v), ..self }
        } else if c == 'm' {
            ParsedFields { month: Some(v), ..self }
        } else if c == 'd' {
            ParsedFields { day: Some(v), ..self }
        } else if c == 'H' {
            ParsedFields { hour: Some(v), ..self }
        } else if c == 'M' {
            ParsedFields { minute: Some(v), ..self }
        } else {
            ParsedFields { second: Some(v), ..self }
        }
    }
}

/// Rendering of `dt` under the pattern suffix `p[i..]`.
pub open spec fn spec_format_from(dt: CalendarDateTime, p: Seq<char>, i: int) -> Seq<char>
    decreases p.len() - i,
{
    if i < 0 || i >= p.len() {
        Seq::empty()
    } else if p[i] == '%' && i + 1 < p.len() && is_field_char(p[i + 1]) {
        dec_fixed(spec_field_value(dt, p[i + 1]), field_width(p[i + 1])) + spec_format_from(
            dt,
            p,
            i + 2,
        )
    } else {
        seq![p[i]] + spec_format_from(dt, p, i + 1)
    }
}

/// Rendering of `dt` under the pattern `p`.
pub open spec fn spec_format(dt: CalendarDateTime, p: Seq<char>) -> Seq<char> {
    spec_format_from(dt, p, 0)
}

/// Parse of `s` from position `j` against the pattern suffix `p[i..]`,
/// having already read `acc`. `None` on any mismatch, a non-digit where a
/// field expects digits, too short an input, or input left over at the end.
pub open spec fn spec_parse_from(
    s: Seq<char>,
    p: Seq<char>,
    i: int,
    j: int,
    acc: ParsedFields,
) -> Option<ParsedFields>
    decreases p.len() - i,
{
    if i < 0 || i >= p.len() {
        if j == s.len() {
            Some(acc)
        } else {
            None
        }
    } else if p[i] == '%' && i + 1 < p.len() && is_field_char(p[i + 1]) {
        let w = field_width(p[i + 1]) as int;
        if 0 <= j && j + w <= s.len() && all_digits(s.subrange(j, j + w)) {
            spec_parse_from(
                s,
                p,
                i + 2,
                j + w,
                acc.spec_set(p[i + 1], seq_dec_val(s.subrange(j, j + w)) as u32),
            )
        } else {
            None
        }
    } else {
        if 0 <= j < s.len() && s[j] == p[i] {
            spec_parse_from(s, p, i + 1, j + 1, acc)
        } else {
            None
        }
    }
}

/// Parse of the whole of `s` against the whole of `p`.
pub open spec fn spec_parse(s: Seq<char>, p: Seq<char>) -> Option<ParsedFields> {
    spec_parse_from(s, p, 0, 0, ParsedFields::spec_empty())
}

/// Whether the pattern suffix `p[i..]` holds a token for field `c`.
pub open spec fn pattern_has_field(p: Seq<char>, i: int, c: char) -> bool
    decreases p.len() - i,
{
    if i < 0 || i >= p.len() {
        false
    } else if p[i] == '%' && i + 1 < p.len() && is_field_char(p[i + 1]) {
        p[i + 1] == c || pattern_has_field(p, i + 2, c)
    } else {
        pattern_has_field(p, i + 1, c)
    }
}

/// The record a walk of `p[i..]` builds from `dt`'s own field values.
pub open spec fn spec_apply_fields(
    dt: CalendarDateTime,
    p: Seq<char>,
    i: int,
    acc: ParsedFields,
) -> ParsedFields
    decreases p.len() - i,
{
    if i < 0 || i >= p.len() {
        acc
    } else if p[i] == '%' && i + 1 < p.len() && is_field_char(p[i + 1]) {
        spec_apply_fields(dt, p, i + 2, acc.spec_set(p[i + 1], spec_field_value(dt, p[i + 1]) as u32))
    } else {
        spec_apply_fields(dt, p, i + 1, acc)
    }
}

/// Renders `dt` under the pattern `p`.
pub fn format_fields(dt: &CalendarDateTime, p: &str) -> (r: String)
    requires
        dt.wf(),
    ensures
        r@ == spec_format(*dt, p@),
{
    let n = p.unicode_len();
    let mut out = String::new();
    let mut i: usize = 0;
    while i < n
        invariant
            i <= n,
            n == p@.len(),
            dt.wf(),
            out@ + spec_format_from(*dt, p@, i as int) == spec_format(*dt, p@),
        decreases n - i,
    {
        let c = p.get_char(i);
        if c == '%' && i + 1 < n && is_field_char_exec(p.get_char(i + 1)) {
            let c2 = p.get_char(i + 1);
            let v = field_value_exec(dt, c2);
            proof {
                lemma_field_value_fits(*dt, c2);
            }
            push_fixed(&mut out, v, field_width_exec(c2));
            proof {
                assert(out@ + spec_format_from(*dt, p@, i + 2) =~= spec_format(*dt, p@));
            }
            i = i + 2;
        } else {
            push_char(&mut out, c);
            proof {
                assert(out@ + spec_format_from(*dt, p@, i + 1) =~= spec_format(*dt, p@));
            }
            i = i + 1;
        }
    }
    proof {
        assert(out@ =~= spec_format(*dt, p@));
    }
    out
}

/// Parses `s` against the pattern `p`, reading each field token as its fixed
/// number of digits and every other pattern character literally.
pub fn parse_fields(s: &str, p: &str) -> (r: Option<ParsedFields>)
    ensures
        r == spec_parse(s@, p@),
{
    let sn = s.unicode_len();
    let pn = p.unicode_len();
    let mut acc = ParsedFields::empty();
    let mut i: usize = 0;
    let mut j: usize = 0;
    while i < pn
        invariant
            i <= pn,
            pn == p@.len(),
            j <= sn,
            sn == s@.len(),
            spec_parse_from(s@, p@, i as int, j as int, acc) == spec_parse(s@, p@),
        decreases pn - i,
    {
        let c = p.get_char(i);
        if c == '%' && i + 1 < pn && is_field_char_exec(p.get_char(i + 1)) {
            let c2 = p.get_char(i + 1);
            let w = field_width_exec(c2) as usize;
            if sn < w || j > sn - w {
                proof {
                    assert(j + w > s@.len());
                    assert(spec_parse_from(s@, p@, i as int, j as int, acc) is None);
                }
                return None;
            }
            let ghost target = s@.subrange(j as int, j as int + w as int);
            let mut v: u32 = 0;
            let mut k: usize = 0;
            proof {
                reveal_with_fuel(pow10, 5);
                assert(pow10(0) == 1);
            }
            while k < w
                invariant
                    k <= w <= 4,
                    j + w <= sn,
                    sn == s@.len(),
                    pn == p@.len(),
                    i + 1 < pn,
                    p@[i as int] == '%',
                    c2 == p@[i as int + 1],
                    is_field_char(c2),
                    w == field_width(c2),
                    spec_parse_from(s@, p@, i as int, j as int, acc) == spec_parse(s@, p@),
                    target == s@.subrange(j as int, j as int + w as int),
                    all_digits(s@.subrange(j as int, j as int + k as int)),
                    v == seq_dec_val(s@.subrange(j as int, j as int + k as int)),
                    0 <= v < pow10(k as nat),
                decreases w - k,
            {
                proof {
                    reveal_with_fuel(pow10, 5);
                    crate::numeral::lemma_pow10_monotone(k as nat, 3);
                    assert(pow10(3) == 1000);
                }
                let d = digit_val_exec(s.get_char(j + k));
                if d < 0 {
                    proof {
                        let sub = s@.subrange(j as int, j as int + w as int);
                        assert(sub[k as int] == s@[j + k]);
                        assert(!is_digit_char(sub[k as int]));
                        assert(!all_digits(sub));
                    }
                    return None;
                }
                proof {
                    let pre = s@.subrange(j as int, j as int + k as int);
                    let cur = s@.subrange(j as int, j as int + k + 1);
                    assert(cur.drop_last() =~= pre);
                    assert(cur.last() == s@[j + k]);
                    assert(forall|t: int| 0 <= t < k ==> cur[t] == #[trigger] pre[t]);
                    assert(forall|t: int|
                        0 <= t < cur.len() && t < k ==> is_digit_char(#[trigger] cur[t]));
                    assert(is_digit_char(cur[k as int]));
                }
                v = v * 10 + d as u32;
                k = k + 1;
                proof {
                    assert(pow10(k as nat) == 10 * pow10((k - 1) as nat));
                }
            }
            acc = acc.set(c2, v);
            proof {
                assert(v as int == seq_dec_val(target));
                assert(seq_dec_val(target) as u32 == v);
            }
            i = i + 2;
            j = j + w;
        } else {
            if j >= sn {
                return None;
            }
            let sc = s.get_char(j);
            if sc != c {
                return None;
            }
            i = i + 1;
            j = j + 1;
        }
    }
    if j == sn {
        Some(acc)
    } else {
        None
    }
}

/// Splits a suffix equality into its two halves.
proof fn lemma_suffix_split(s: Seq<char>, j: int, a: Seq<char>, b: Seq<char>)
    requires
        0 <= j <= s.len(),
        s.subrange(j, s.len() as int) == a + b,
    ensures
        j + a.len() + b.len() == s.len(),
        s.subrange(j, j + a.len() as int) =~= a,
        s.subrange(j + a.len() as int, s.len() as int) =~= b,
{
    let suf = s.subrange(j, s.len() as int);
    assert(suf.len() == a.len() + b.len());
    assert forall|t: int| 0 <= t < a.len() implies s.subrange(j, j + a.len() as int)[t] == a[t] by {
        assert(suf[t] == (a + b)[t]);
    };
    assert forall|t: int|
        0 <= t < b.len() implies s.subrange(j + a.len() as int, s.len() as int)[t] == b[t] by {
        assert(suf[a.len() + t] == (a + b)[a.len() + t]);
    };
}

/// Parsing a rendering reads back exactly the rendered field values: the
/// walk of the parser over `format`'s output mirrors `spec_apply_fields`.
pub proof fn lemma_parse_of_formatted(
    dt: CalendarDateTime,
    p: Seq<char>,
    s: Seq<char>,
    i: int,
    j: int,
    acc: ParsedFields,
)
    requires
        dt.wf(),
        0 <= i <= p.len(),
        0 <= j <= s.len(),
        s.subrange(j, s.len() as int) == spec_format_from(dt, p, i),
    ensures
        spec_parse_from(s, p, i, j, acc) == Some(spec_apply_fields(dt, p, i, acc)),
    decreases p.len() - i,
{
    let suffix = s.subrange(j, s.len() as int);
    if i >= p.len() {
        assert(suffix.len() == 0);
    } else if p[i] == '%' && i + 1 < p.len() && is_field_char(p[i + 1]) {
        let c = p[i + 1];
        let w = field_width(c) as int;
        let val = spec_field_value(dt, c);
        let rendered = dec_fixed(val, field_width(c));
        let rest = spec_format_from(dt, p, i + 2);
        lemma_field_value_fits(dt, c);
        lemma_dec_fixed_round_trip(val, field_width(c));
        assert(suffix == rendered + rest);
        lemma_suffix_split(s, j, rendered, rest);
        assert(j + w <= s.len());
        let sub = s.subrange(j, j + w);
        assert(sub == rendered);
        assert(seq_dec_val(sub) == val);
        assert(seq_dec_val(sub) as u32 == val as u32);
        assert(s.subrange(j + w, s.len() as int) == rest);
        lemma_parse_of_formatted(dt, p, s, i + 2, j + w, acc.spec_set(c, val as u32));
        assert(spec_field_value(dt, c) as u32 == val as u32);
    } else {
        let rest = spec_format_from(dt, p, i + 1);
        assert(suffix == seq![p[i]] + rest);
        lemma_suffix_split(s, j, seq![p[i]], rest);
        assert(j < s.len());
        assert(s.subrange(j, j + 1)[0] == s[j]);
        assert(s[j] == p[i]);
        assert(s.subrange(j + 1, s.len() as int) == rest);
        lemma_parse_of_formatted(dt, p, s, i + 1, j + 1, acc);
    }
}

/// What the walk of `spec_apply_fields` leaves in each slot: the datetime's
/// own value where the pattern mentions the field, the accumulator's value
/// where it does not.
pub proof fn lemma_apply_fields_get(
    dt: CalendarDateTime,
    p: Seq<char>,
    i: int,
    acc: ParsedFields,
    c: char,
)
    requires
        is_field_char(c),
    ensures
        spec_apply_fields(dt, p, i, acc).spec_get(c) == if pattern_has_field(p, i, c) {
            Some(spec_field_value(dt, c) as u32)
        } else {
            acc.spec_get(c)
        },
    decreases p.len() - i,
{
    if i < 0 || i >= p.len() {
    } else if p[i] == '%' && i + 1 < p.len() && is_field_char(p[i + 1]) {
        lemma_apply_fields_get(dt, p, i + 2, acc.spec_set(p[i + 1], spec_field_value(dt, p[i + 1]) as u32), c);
    } else {
        lemma_apply_fields_get(dt, p, i + 1, acc, c);
    }
}

/// The format-then-parse round trip: rendering a well-formed datetime under
/// any pattern and parsing it back succeeds, and recovers the datetime's own
/// value in every field the pattern mentions.
pub proof fn lemma_format_parse_round_trip(dt: CalendarDateTime, p: Seq<char>)
    requires
        dt.wf(),
    ensures
        spec_parse(spec_format(dt, p), p) == Some(
            spec_apply_fields(dt, p, 0, ParsedFields::spec_empty()),
        ),
        forall|c: char|
            is_field_char(c) && pattern_has_field(p, 0, c)
                ==> spec_parse(spec_format(dt, p), p)->Some_0.spec_get(c) == Some(
                spec_field_value(dt, c) as u32,
            ),
{
    let s = spec_format(dt, p);
    assert(s.subrange(0, s.len() as int) =~= s);
    lemma_parse_of_formatted(dt, p, s, 0, 0, ParsedFields::spec_empty());
    assert forall|c: char| is_field_char(c) && pattern_has_field(p, 0, c) implies spec_parse(
        s,
        p,
    )->Some_0.spec_get(c) == Some(spec_field_value(dt, c) as u32) by {
        lemma_apply_fields_get(dt, p, 0, ParsedFields::spec_empty(), c);
    }
}

} // verus!
