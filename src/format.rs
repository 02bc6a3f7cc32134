//! Data-tag text: decimal rendering of numbers and the token templates.

use vstd::prelude::*;
use crate::text::{occurs_at, occurs_at_exec};
use crate::types::{TrackView, TrackedAircraft};

verus! {

pub open spec fn digit_char(d: int) -> char {
    if d == 0 {
        '0'
    } else if d == 1 {
        '1'
    } else if d == 2 {
        '2'
    } else if d == 3 {
        '3'
    } else if d == 4 {
        '4'
    } else if d == 5 {
        '5'
    } else if d == 6 {
        '6'
    } else if d == 7 {
        '7'
    } else if d == 8 {
        '8'
    } else {
        '9'
    }
}

/// Decimal digits of a natural number, without leading zeros.
pub open spec fn digits(n: nat) -> Seq<char>
    decreases n,
{
    if n < 10 {
        seq![digit_char(n as int)]
    } else {
        digits(n / 10).push(digit_char((n % 10) as int))
    }
}

/// Decimal text of an integer, with a leading '-' when negative.
pub open spec fn decimal(n: int) -> Seq<char> {
    if n < 0 {
        seq!['-'] + digits((-n) as nat)
    } else {
        digits(n as nat)
    }
}

/// `s` with '0's in front until it is at least `w` characters long.
pub open spec fn zero_pad(s: Seq<char>, w: nat) -> Seq<char> {
    if s.len() >= w {
        s
    } else {
        Seq::new((w - s.len()) as nat, |i: int| '0') + s
    }
}

/// Decimal text of an integer, zero-padded to at least three characters
/// with the sign in front of the padding.
pub open spec fn decimal_03(n: int) -> Seq<char> {
    if n < 0 {
        seq!['-'] + zero_pad(digits((-n) as nat), 2)
    } else {
        zero_pad(digits(n as nat), 3)
    }
}

/// Quotient rounded toward zero.
pub open spec fn trunc_div(a: int, d: int) -> int {
    if a >= 0 {
        a / d
    } else {
        -((-a) / d)
    }
}

fn digit_str(d: u64) -> (r: &'static str)
    requires
        d < 10,
    ensures
        r@ == seq![digit_char(d as int)],
{
    proof {
        reveal_strlit("0");
        reveal_strlit("1");
        reveal_strlit("2");
        reveal_strlit("3");
        reveal_strlit("4");
        reveal_strlit("5");
        reveal_strlit("6");
        reveal_strlit("7");
        reveal_strlit("8");
        reveal_strlit("9");
    }
    if d == 0 {
        "0"
    } else if d == 1 {
        "1"
    } else if d == 2 {
        "2"
    } else if d == 3 {
        "3"
    } else if d == 4 {
        "4"
    } else if d == 5 {
        "5"
    } else if d == 6 {
        "6"
    } else if d == 7 {
        "7"
    } else if d == 8 {
        "8"
    } else {
        "9"
    }
}

fn push_digits(out: &mut String, n: u64)
    ensures
        final(out)@ == old(out)@ + digits(n as nat),
    decreases n,
{
    if n >= 10 {
        push_digits(out, n / 10);
    }
    out.append(digit_str(n % 10));
    proof {
        if n >= 10 {
            assert(digits(n as nat) == digits((n / 10) as nat).push(digit_char((n % 10) as int)));
        }
    }
    assert(final(out)@ =~= old(out)@ + digits(n as nat));
}

fn push_zeros(out: &mut String, k: u64)
    ensures
        final(out)@ == old(out)@ + Seq::new(k as nat, |i: int| '0'),
    decreases k,
{
    if k > 0 {
        proof {
            reveal_strlit("0");
        }
        out.append("0");
        push_zeros(out, k - 1);
    }
    assert(final(out)@ =~= old(out)@ + Seq::new(k as nat, |i: int| '0'));
}

/// Number of decimal digits of `n`.
fn digit_count(n: u64) -> (r: u64)
    ensures
        r == digits(n as nat).len(),
    decreases n,
{
    if n < 10 {
        1
    } else {
        let c: u64 = digit_count(n / 10);
        proof {
            assert(digits(n as nat) == digits((n / 10) as nat).push(digit_char((n % 10) as int)));
            lemma_digits_len((n / 10) as nat);
        }
        c + 1
    }
}

proof fn lemma_digits_len(n: nat)
    ensures
        1 <= digits(n).len() <= n + 1,
    decreases n,
{
    if n >= 10 {
        lemma_digits_len(n / 10);
    }
}

/// Appends the decimal text of `n`.
pub fn push_decimal(out: &mut String, n: i64)
    ensures
        final(out)@ == old(out)@ + decimal(n as int),
{
    if n < 0 {
        proof {
            reveal_strlit("-");
        }
        out.append("-");
        let m: u64 = (-(n as i128)) as u64;
        push_digits(out, m);
    } else {
        push_digits(out, n as u64);
    }
    assert(final(out)@ =~= old(out)@ + decimal(n as int));
}

/// Appends the decimal text of `n`, zero-padded to three characters.
pub fn push_decimal_03(out: &mut String, n: i64)
    ensures
        final(out)@ == old(out)@ + decimal_03(n as int),
{
    let neg: bool = n < 0;
    let m: u64 = if neg {
        (-(n as i128)) as u64
    } else {
        n as u64
    };
    let width: u64 = if neg {
        2
    } else {
        3
    };
    if neg {
        proof {
            reveal_strlit("-");
        }
        out.append("-");
    }
    let c: u64 = digit_count(m);
    if c < width {
        push_zeros(out, width - c);
    }
    push_digits(out, m);
    assert(final(out)@ =~= old(out)@ + decimal_03(n as int));
}

/// Flight level shown for an altitude in feet: hundreds of feet, rounded
/// toward zero.
pub open spec fn flight_level(altitude: i32) -> int {
    trunc_div(altitude as int, 100)
}

/// The token at the start of `s`, if any: its length and its text for the
/// aircraft `t`.
pub open spec fn token_at_start(s: Seq<char>, t: TrackView) -> Option<(int, Seq<char>)> {
    if occurs_at(s, 0, "{callsign}"@) {
        Some(("{callsign}"@.len() as int, t.callsign))
    } else if occurs_at(s, 0, "{altitude:03}"@) {
        Some(("{altitude:03}"@.len() as int, decimal_03(flight_level(t.info.altitude))))
    } else if occurs_at(s, 0, "{altitude}"@) {
        Some(("{altitude}"@.len() as int, decimal(flight_level(t.info.altitude))))
    } else if occurs_at(s, 0, "{speed:03}"@) {
        Some(("{speed:03}"@.len() as int, decimal_03(t.info.speed as int)))
    } else if occurs_at(s, 0, "{speed}"@) {
        Some(("{speed}"@.len() as int, decimal(t.info.speed as int)))
    } else if occurs_at(s, 0, "{gs:03}"@) {
        Some(("{gs:03}"@.len() as int, decimal_03(t.info.ground_speed as int)))
    } else if occurs_at(s, 0, "{gs}"@) {
        Some(("{gs}"@.len() as int, decimal(t.info.ground_speed as int)))
    } else if occurs_at(s, 0, "{heading:03}"@) {
        Some(("{heading:03}"@.len() as int, decimal_03(t.info.heading as int)))
    } else if occurs_at(s, 0, "{heading}"@) {
        Some(("{heading}"@.len() as int, decimal(t.info.heading as int)))
    } else if occurs_at(s, 0, "{type}"@) {
        Some(("{type}"@.len() as int, t.info.aircraft_type@))
    } else {
        None
    }
}

/// A template with every token replaced by its text for the aircraft `t`,
/// scanning left to right; anything else is kept as it is. (A token found
/// at the start is never empty and never longer than `s`; the bounds test
/// only makes that visible to the termination check.)
pub open spec fn expand(s: Seq<char>, t: TrackView) -> Seq<char>
    decreases s.len(),
{
    if s.len() == 0 {
        Seq::empty()
    } else {
        match token_at_start(s, t) {
            Some(tv) => if 1 <= tv.0 <= s.len() {
                tv.1 + expand(s.skip(tv.0), t)
            } else {
                seq![s[0]] + expand(s.skip(1), t)
            },
            None => seq![s[0]] + expand(s.skip(1), t),
        }
    }
}

proof fn lemma_occurs_skip(s: Seq<char>, i: int, tok: Seq<char>)
    requires
        0 <= i <= s.len(),
    ensures
        occurs_at(s.skip(i), 0, tok) == occurs_at(s, i, tok),
{
    if i + tok.len() <= s.len() {
        assert(s.skip(i).subrange(0, tok.len() as int) =~= s.subrange(i, i + tok.len()));
    }
}

/// Appends the text of the token at character `i` of `template`, if one
/// starts there, and returns its length; returns 0 otherwise.
pub(crate) fn push_token(out: &mut String, template: &str, n: usize, i: usize, aircraft: &TrackedAircraft) -> (k: usize)
    requires
        n == template@.len(),
        i < n,
    ensures
        match token_at_start(template@.skip(i as int), aircraft@) {
            Some(tv) => k == tv.0 && final(out)@ == old(out)@ + tv.1,
            None => k == 0 && final(out)@ == old(out)@,
        },
        k == 0 ==> final(out)@ == old(out)@,
        k <= n - i,
{
    let ghost s = template@;
    proof {
        reveal_strlit("{callsign}");
        reveal_strlit("{altitude:03}");
        reveal_strlit("{altitude}");
        reveal_strlit("{speed:03}");
        reveal_strlit("{speed}");
        reveal_strlit("{gs:03}");
        reveal_strlit("{gs}");
        reveal_strlit("{heading:03}");
        reveal_strlit("{heading}");
        reveal_strlit("{type}");
        lemma_occurs_skip(s, i as int, "{callsign}"@);
        lemma_occurs_skip(s, i as int, "{altitude:03}"@);
        lemma_occurs_skip(s, i as int, "{altitude}"@);
        lemma_occurs_skip(s, i as int, "{speed:03}"@);
        lemma_occurs_skip(s, i as int, "{speed}"@);
        lemma_occurs_skip(s, i as int, "{gs:03}"@);
        lemma_occurs_skip(s, i as int, "{gs}"@);
        lemma_occurs_skip(s, i as int, "{heading:03}"@);
        lemma_occurs_skip(s, i as int, "{heading}"@);
        lemma_occurs_skip(s, i as int, "{type}"@);
    }
    let altitude: i64 = if aircraft.info.altitude >= 0 {
        aircraft.info.altitude as i64 / 100
    } else {
        -((-(aircraft.info.altitude as i64)) / 100)
    };
    if occurs_at_exec(template, n, i, "{callsign}") {
        out.append(aircraft.callsign.as_str());
        10
    } else if occurs_at_exec(template, n, i, "{altitude:03}") {
        push_decimal_03(out, altitude);
        13
    } else if occurs_at_exec(template, n, i, "{altitude}") {
        push_decimal(out, altitude);
        10
    } else if occurs_at_exec(template, n, i, "{speed:03}") {
        push_decimal_03(out, aircraft.info.speed as i64);
        10
    } else if occurs_at_exec(template, n, i, "{speed}") {
        push_decimal(out, aircraft.info.speed as i64);
        7
    } else if occurs_at_exec(template, n, i, "{gs:03}") {
        push_decimal_03(out, aircraft.info.ground_speed as i64);
        7
    } else if occurs_at_exec(template, n, i, "{gs}") {
        push_decimal(out, aircraft.info.ground_speed as i64);
        4
    } else if occurs_at_exec(template, n, i, "{heading:03}") {
        push_decimal_03(out, aircraft.info.heading as i64);
        12
    } else if occurs_at_exec(template, n, i, "{heading}") {
        push_decimal(out, aircraft.info.heading as i64);
        9
    } else if occurs_at_exec(template, n, i, "{type}") {
        out.append(aircraft.info.aircraft_type.as_str());
        6
    } else {
        0
    }
}

} // verus!
