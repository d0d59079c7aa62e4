//! Text forms of numbers and durations, as they appear in notification bodies.

use vstd::prelude::*;
use vstd::string::*;

verus! {

/// The character that writes the decimal digit `d`.
pub open spec fn digit_char(d: int) -> char {
    if d == 0 {
        '0'
    } else if d == 1 {
        '1'
    } else if d == 2 {
        '2'
    } else if d == 3 {
        '3'
    } else if d == 4 {
        '4'
    } else if d == 5 {
        '5'
    } else if d == 6 {
        '6'
    } else if d == 7 {
        '7'
    } else if d == 8 {
        '8'
    } else {
        '9'
    }
}

/// The decimal numeral of `n`, most significant digit first, without leading
/// zeros (and "0" for zero).
pub open spec fn decimal_text(n: nat) -> Seq<char>
    decreases n,
{
    if n < 10 {
        seq![digit_char(n as int)]
    } else {
        decimal_text(n / 10).push(digit_char((n % 10) as int))
    }
}

/// The magnitude of `sec`.
pub open spec fn magnitude(sec: int) -> nat {
    if sec < 0 {
        (-sec) as nat
    } else {
        sec as nat
    }
}

/// One part of a duration: the numeral of `count` followed by `unit` and a
/// space, or nothing when `count` is zero.
pub open spec fn part_text(count: nat, unit: char) -> Seq<char> {
    if count == 0 {
        Seq::<char>::empty()
    } else {
        decimal_text(count).push(unit).push(' ')
    }
}

/// The text of a duration of `sec` seconds, by magnitude: whole hours, then
/// the remaining whole minutes, then the remaining seconds, each followed by a
/// space and each left out when it is zero. Zero seconds give the empty text.
pub open spec fn hms_text(sec: int) -> Seq<char> {
    let total = magnitude(sec);
    part_text(total / 3600, 'h') + part_text((total % 3600) / 60, 'm') + part_text(
        total % 60,
        's',
    )
}

/// The one-character text of a decimal digit.
fn digit_str(d: u64) -> (s: &'static str)
    requires
        d < 10,
    ensures
        s@ == seq![digit_char(d as int)],
{
    proof {
        reveal_strlit("0");
        reveal_strlit("1");
        reveal_strlit("2");
        reveal_strlit("3");
        reveal_strlit("4");
        reveal_strlit("5");
        reveal_strlit("6");
        reveal_strlit("7");
        reveal_strlit("8");
        reveal_strlit("9");
    }
    let s: &'static str = if d == 0 {
        "0"
    } else if d == 1 {
        "1"
    } else if d == 2 {
        "2"
    } else if d == 3 {
        "3"
    } else if d == 4 {
        "4"
    } else if d == 5 {
        "5"
    } else if d == 6 {
        "6"
    } else if d == 7 {
        "7"
    } else if d == 8 {
        "8"
    } else {
        "9"
    };
    assert(s@ =~= seq![digit_char(d as int)]);
    s
}

/// Writes `n` in decimal.
pub fn decimal(n: u64) -> (s: String)
    ensures
        s@ == decimal_text(n as nat),
    decreases n,
{
    if n < 10 {
        String::from_str(digit_str(n))
    } else {
        let mut s: String = decimal(n / 10);
        s.append(digit_str(n % 10));
        assert(s@ =~= decimal_text((n / 10) as nat).push(digit_char((n % 10) as int)));
        s
    }
}

/// Appends one part of a duration to `out`.
fn push_part(out: &mut String, count: u64, unit: &'static str)
    requires
        unit@.len() == 2,
        unit@[1] == ' ',
    ensures
        final(out)@ == old(out)@ + part_text(count as nat, unit@[0]),
{
    if count > 0 {
        let digits: String = decimal(count);
        out.append(digits.as_str());
        out.append(unit);
    }
    assert(out@ =~= old(out)@ + part_text(count as nat, unit@[0]));
}

/// The magnitude of `sec` as an unsigned integer.
fn unsigned_magnitude(sec: i64) -> (r: u64)
    ensures
        r == magnitude(sec as int),
{
    if sec >= 0 {
        sec as u64
    } else {
        (-(sec + 1)) as u64 + 1
    }
}

/// Formats a duration given by its magnitude in seconds, such as
/// `"1h 2m 3s "`.
pub fn magnitude_to_hms(total: u64) -> (out: String)
    ensures
        out@ == hms_text(total as int),
{
    let mut out: String = String::new();
    proof {
        reveal_strlit("h ");
        reveal_strlit("m ");
        reveal_strlit("s ");
    }
    push_part(&mut out, total / 3600, "h ");
    push_part(&mut out, (total % 3600) / 60, "m ");
    push_part(&mut out, total % 60, "s ");
    assert(out@ =~= hms_text(total as int));
    out
}

/// Formats a number of seconds as hours, minutes and seconds, such as
/// `"1h 2m 3s "`. The sign is dropped: the text is that of the magnitude.
pub fn sec_to_hms(sec: i64) -> (out: String)
    ensures
        out@ == hms_text(sec as int),
{
    magnitude_to_hms(unsigned_magnitude(sec))
}

} // verus!
