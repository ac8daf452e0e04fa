//! Decimal digit sequences: zero-padded fixed-width rendering, variable-width
//! rendering for messages, their numeric value, and the round-trip facts the
//! pattern engine builds on.

use vstd::prelude::*;

verus! {

use vstd::arithmetic::div_mod::lemma_fundamental_div_mod;

/// The character for one decimal digit.
pub open spec fn digit_char(d: int) -> char {
    if d == 0 {
        '0'
    } else if d == 1 {
        '1'
    } else if d == 2 {
        '2'
    } else if d == 3 {
        '3'
    } else if d == 4 {
        '4'
    } else if d == 5 {
        '5'
    } else if d == 6 {
        '6'
    } else if d == 7 {
        '7'
    } else if d == 8 {
        '8'
    } else {
        '9'
    }
}

/// The value of a decimal digit character; `-1` for any other character.
pub open spec fn digit_val(c: char) -> int {
    if c == '0' {
        0
    } else if c == '1' {
        1
    } else if c == '2' {
        2
    } else if c == '3' {
        3
    } else if c == '4' {
        4
    } else if c == '5' {
        5
    } else if c == '6' {
        6
    } else if c == '7' {
        7
    } else if c == '8' {
        8
    } else if c == '9' {
        9
    } else {
        -1
    }
}

pub open spec fn is_digit_char(c: char) -> bool {
    digit_val(c) >= 0
}

pub proof fn lemma_digit_round_trip(d: int)
    requires
        0 <= d <= 9,
    ensures
        digit_val(digit_char(d)) == d,
{
}

/// `10^w`.
pub open spec fn pow10(w: nat) -> int
    decreases w,
{
    if w == 0 {
        1
    } else {
        10 * pow10((w - 1) as nat)
    }
}

pub proof fn lemma_pow10_pos(w: nat)
    ensures
        pow10(w) >= 1,
    decreases w,
{
    if w > 0 {
        lemma_pow10_pos((w - 1) as nat);
    }
}

pub proof fn lemma_pow10_monotone(a: nat, b: nat)
    requires
        a <= b,
    ensures
        pow10(a) <= pow10(b),
    decreases b,
{
    if a < b {
        lemma_pow10_monotone(a, (b - 1) as nat);
        lemma_pow10_pos((b - 1) as nat);
    }
}

/// `v` rendered as exactly `w` decimal digits, zero padded, most significant
/// first. Defined for any `v >= 0`; digits beyond `w` are cut off.
pub open spec fn dec_fixed(v: int, w: nat) -> Seq<char>
    decreases w,
{
    if w == 0 {
        Seq::empty()
    } else {
        dec_fixed(v / 10, (w - 1) as nat).push(digit_char(v % 10))
    }
}

/// The numeric value of a digit sequence, most significant first.
pub open spec fn seq_dec_val(s: Seq<char>) -> int
    decreases s.len(),
{
    if s.len() == 0 {
        0
    } else {
        seq_dec_val(s.drop_last()) * 10 + digit_val(s.last())
    }
}

pub open spec fn all_digits(s: Seq<char>) -> bool {
    forall|i: int| 0 <= i < s.len() ==> is_digit_char(#[trigger] s[i])
}

/// Rendering then reading back is the identity on values below `10^w`.
pub proof fn lemma_dec_fixed_round_trip(v: int, w: nat)
    requires
        0 <= v < pow10(w),
    ensures
        dec_fixed(v, w).len() == w,
        all_digits(dec_fixed(v, w)),
        seq_dec_val(dec_fixed(v, w)) == v,
    decreases w,
{
    if w == 0 {
    } else {
        lemma_fundamental_div_mod(v, 10);
        vstd::arithmetic::div_mod::lemma_mod_bound(v, 10);
        assert(v / 10 < pow10((w - 1) as nat)) by {
            vstd::arithmetic::div_mod::lemma_div_pos_is_pos(v, 10);
            if v / 10 >= pow10((w - 1) as nat) {
                assert(10 * (v / 10) >= 10 * pow10((w - 1) as nat));
            }
        };
        lemma_dec_fixed_round_trip(v / 10, (w - 1) as nat);
        let s = dec_fixed(v, w);
        let pre = dec_fixed(v / 10, (w - 1) as nat);
        assert(s == pre.push(digit_char(v % 10)));
        assert(s.drop_last() =~= pre);
        assert(s.last() == digit_char(v % 10));
        lemma_digit_round_trip(v % 10);
    }
}

/// `v` rendered without padding; the usual decimal notation.
pub open spec fn dec_digits(v: int) -> Seq<char>
    decreases v,
{
    if v < 10 {
        seq![digit_char(v)]
    } else {
        dec_digits(v / 10).push(digit_char(v % 10))
    }
}

/// A possibly negative value rendered in decimal notation.
pub open spec fn dec_int(v: int) -> Seq<char> {
    if v < 0 {
        seq!['-'] + dec_digits(-v)
    } else {
        dec_digits(v)
    }
}

/// Appends one character. Relies on `String::push`.
#[verifier::external_body]
pub fn push_char(s: &mut String, c: char)
    ensures
        final(s)@ == old(s)@.push(c),
{
    s.push(c);
}

pub fn digit_char_exec(d: u32) -> (r: char)
    requires
        d <= 9,
    ensures
        r == digit_char(d as int),
{
    match d {
        0 => '0',
        1 => '1',
        2 => '2',
        3 => '3',
        4 => '4',
        5 => '5',
        6 => '6',
        7 => '7',
        8 => '8',
        _ => '9',
    }
}

pub fn digit_val_exec(c: char) -> (r: i8)
    ensures
        r == digit_val(c),
{
    match c {
        '0' => 0,
        '1' => 1,
        '2' => 2,
        '3' => 3,
        '4' => 4,
        '5' => 5,
        '6' => 6,
        '7' => 7,
        '8' => 8,
        '9' => 9,
        _ => -1,
    }
}

/// Appends `v` as exactly `w` zero-padded decimal digits.
pub fn push_fixed(s: &mut String, v: u32, w: u32)
    requires
        w <= 8,
    ensures
        final(s)@ == old(s)@ + dec_fixed(v as int, w as nat),
    decreases w,
{
    if w == 0 {
        assert(s@ =~= old(s)@ + dec_fixed(v as int, 0));
    } else {
        push_fixed(s, v / 10, w - 1);
        push_char(s, digit_char_exec(v % 10));
        assert(s@ =~= old(s)@ + dec_fixed(v as int, w as nat));
    }
}

/// Appends `v` in the usual decimal notation.
pub fn push_digits(s: &mut String, v: u64)
    ensures
        final(s)@ == old(s)@ + dec_digits(v as int),
    decreases v,
{
    if v < 10 {
        push_char(s, digit_char_exec(v as u32));
        assert(s@ =~= old(s)@ + dec_digits(v as int));
    } else {
        proof {
            lemma_fundamental_div_mod(v as int, 10);
        }
        push_digits(s, v / 10);
        push_char(s, digit_char_exec((v % 10) as u32));
        assert(s@ =~= old(s)@ + dec_digits(v as int));
    }
}

/// Appends a possibly negative value in decimal notation.
pub fn push_int(s: &mut String, v: i64)
    requires
        i64::MIN < v,
    ensures
        final(s)@ == old(s)@ + dec_int(v as int),
{
    if v < 0 {
        push_char(s, '-');
        push_digits(s, (-v) as u64);
        assert(s@ =~= old(s)@ + dec_int(v as int));
    } else {
        push_digits(s, v as u64);
    }
}

} // verus!
