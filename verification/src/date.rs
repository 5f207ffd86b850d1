//! Calendar dates as plain year, month and day values, with the strict
//! eight-digit wire codec and the weekday of a date.

use vstd::prelude::*;

use crate::chars::all_dec_digits;
use crate::chars::check_dec_digit;
use crate::chars::dec_digit_val;
use crate::chars::dec_digit_value;
use crate::chars::digits_val;
use crate::chars::lemma_digits_val_step;
use crate::chars::push_decimal;
use crate::chars::spec_decimal;
use crate::Error;

verus! {

/// A proleptic Gregorian calendar date, held as plain values. A
/// well-formed date has a four-digit year and a day that exists in its
/// month.
#[derive(Debug, Copy, Clone, PartialEq, Eq, Hash, Structural)]
pub struct Date {
    pub year: u16,
    pub month: u8,
    pub day: u8,
}

/// The Gregorian leap-year rule.
pub open spec fn is_leap_year(y: int) -> bool {
    y % 4 == 0 && (y % 100 != 0 || y % 400 == 0)
}

/// How many days month `m` of year `y` has.
pub open spec fn days_in_month(y: int, m: int) -> int {
    if m == 2 {
        if is_leap_year(y) {
            29
        } else {
            28
        }
    } else if m == 4 || m == 6 || m == 9 || m == 11 {
        30
    } else {
        31
    }
}

impl Date {
    /// A date this layer considers meaningful: four-digit year, existing
    /// month and day.
    pub open spec fn well_formed(self) -> bool {
        self.year <= 9999 && 1 <= self.month <= 12 && 1 <= self.day <= days_in_month(
            self.year as int,
            self.month as int,
        )
    }
}

/// Exec twin of [`is_leap_year`].
pub fn check_leap_year(y: u16) -> (r: bool)
    ensures
        r == is_leap_year(y as int),
{
    y % 4 == 0 && (y % 100 != 0 || y % 400 == 0)
}

/// Exec twin of [`days_in_month`]; callers must hand it a real month.
pub fn month_length(y: u16, m: u8) -> (r: u8)
    requires
        1 <= m <= 12,
    ensures
        r as int == days_in_month(y as int, m as int),
{
    if m == 2 {
        if check_leap_year(y) {
            29
        } else {
            28
        }
    } else if m == 4 || m == 6 || m == 9 || m == 11 {
        30
    } else {
        31
    }
}

/// What a date text decodes to: exactly eight decimal digits, read as a
/// four-digit year, a two-digit month and a two-digit day, naming a day
/// that exists. Anything else fails.
pub open spec fn spec_decode_date(s: Seq<char>) -> Option<Date> {
    if s.len() == 8 && all_dec_digits(s) {
        let y = digits_val(s.take(4));
        let m = digits_val(s.subrange(4, 6));
        let d = digits_val(s.subrange(6, 8));
        if 1 <= m <= 12 && 1 <= d <= days_in_month(y as int, m as int) {
            Some(Date { year: y as u16, month: m as u8, day: d as u8 })
        } else {
            None
        }
    } else {
        None
    }
}

/// The value of up to four decimal digits stays below ten thousand, and is
/// the familiar positional sum.
proof fn lemma_digits_val_chain(s: Seq<char>, from: int, to: int)
    requires
        0 <= from <= to <= s.len(),
        to - from <= 4,
        all_dec_digits(s),
    ensures
        to - from == 4 ==> digits_val(s.subrange(from, to)) == ((dec_digit_val(s[from]) * 10
            + dec_digit_val(s[from + 1])) * 10 + dec_digit_val(s[from + 2])) * 10 + dec_digit_val(
            s[from + 3],
        ),
        to - from == 2 ==> digits_val(s.subrange(from, to)) == dec_digit_val(s[from]) * 10
            + dec_digit_val(s[from + 1]),
        digits_val(s.subrange(from, to)) <= 9999,
{
    let sub = s.subrange(from, to);
    assert(sub.take(0) =~= Seq::<char>::empty());
    assert(digits_val(sub.take(0)) == 0);
    if to - from >= 1 {
        lemma_digits_val_step(sub, 0);
    }
    if to - from >= 2 {
        lemma_digits_val_step(sub, 1);
    }
    if to - from >= 3 {
        lemma_digits_val_step(sub, 2);
    }
    if to - from >= 4 {
        lemma_digits_val_step(sub, 3);
    }
    assert(sub.take(to - from) =~= sub);
    assert(forall|j: int| 0 <= j < sub.len() ==> dec_digit_val(#[trigger] sub[j]) <= 9);
}

/// Decodes a strict eight-digit date text.
pub fn decode_calendar_date(s: &str) -> (r: Result<Date, Error>)
    ensures
        match r {
            Ok(d) => spec_decode_date(s@) == Some(d) && d.well_formed(),
            Err(e) => spec_decode_date(s@) is None && (e matches Error::Decode(t) && t@ == s@),
        },
{
    let n = s.unicode_len();
    if n != 8 {
        return Err(Error::Decode(s.to_owned()));
    }
    let mut digits: Vec<u8> = Vec::new();
    let mut i: usize = 0;
    while i < 8
        invariant
            i <= 8,
            s@.len() == 8,
            digits@.len() == i,
            forall|j: int| 0 <= j < i ==> crate::chars::is_dec_digit(#[trigger] s@[j]),
            forall|j: int|
                0 <= j < i ==> digits@[j] as nat == dec_digit_val(#[trigger] s@[j]) && digits@[j]
                    < 10,
        decreases 8 - i,
    {
        let c = s.get_char(i);
        if !check_dec_digit(c) {
            return Err(Error::Decode(s.to_owned()));
        }
        digits.push(dec_digit_value(c));
        i = i + 1;
    }
    proof {
        lemma_digits_val_chain(s@, 0, 4);
        lemma_digits_val_chain(s@, 4, 6);
        lemma_digits_val_chain(s@, 6, 8);
        assert(s@.take(4) =~= s@.subrange(0, 4));
    }
    let y: u16 = ((digits[0] as u16 * 10 + digits[1] as u16) * 10 + digits[2] as u16) * 10
        + digits[3] as u16;
    let m: u8 = digits[4] * 10 + digits[5];
    let d: u8 = digits[6] * 10 + digits[7];
    if m < 1 || m > 12 {
        return Err(Error::Decode(s.to_owned()));
    }
    if d < 1 || d > month_length(y, m) {
        return Err(Error::Decode(s.to_owned()));
    }
    Ok(Date { year: y, month: m, day: d })
}

/// Emits a date as the year, month and day in decimal, concatenated
/// without padding. A single-digit month or day is intentionally not
/// zero-padded, although the strict decoder would reject the result: the
/// asymmetry is preserved as found, and covered by an explicit test.
pub fn encode_calendar_date(date: &Date) -> (r: String)
    ensures
        r@ == spec_decimal(date.year as nat) + spec_decimal(date.month as nat) + spec_decimal(
            date.day as nat,
        ),
{
    let mut out = String::new();
    push_decimal(&mut out, date.year as u32);
    push_decimal(&mut out, date.month as u32);
    push_decimal(&mut out, date.day as u32);
    proof {
        assert(out@ =~= spec_decimal(date.year as nat) + spec_decimal(date.month as nat)
            + spec_decimal(date.day as nat));
    }
    out
}

/// The weekday of a well-formed date, numbered 0 for Monday through 6 for
/// Sunday. Which number belongs to a date is fixed by the proleptic
/// Gregorian calendar and computed by the calendar library behind
/// [`weekday_number`].
pub uninterp spec fn day_of_week(year: int, month: int, day: int) -> int;

/// Relies on chrono's `NaiveDate::from_ymd_opt`, `Datelike::weekday` and
/// `Weekday::num_days_from_monday`: a well-formed date names an existing
/// proleptic Gregorian day, whose weekday number is 0 for Monday through 6
/// for Sunday and depends on the date alone.
#[verifier::external_body]
pub(crate) fn weekday_number(date: &Date) -> (r: u8)
    requires
        date.well_formed(),
    ensures
        r < 7,
        r as int == day_of_week(date.year as int, date.month as int, date.day as int),
{
    match chrono::NaiveDate::from_ymd_opt(date.year as i32, date.month as u32, date.day as u32) {
        Some(d) => chrono::Datelike::weekday(&d).num_days_from_monday() as u8,
        None => 0,
    }
}

} // verus!
