//! Calendar dates: validity (proleptic Gregorian, leap years), ordering,
//! the inclusive date-range filter, and parsing of `YYYY-MM-DD` bounds.

use vstd::prelude::*;
use crate::chars::{exec_digit_val, exec_is_digit, four_digit_val, is_digit, str_to_chars,
    two_digit_val};

verus! {

/// A calendar date, used for the inclusive date-range filter.
#[derive(Clone, Copy, PartialEq, Eq, Structural, Debug)]
pub struct Date {
    pub year: u16,
    pub month: u8,
    pub day: u8,
}

/// A fatal configuration error: a date bound that is not a valid
/// `YYYY-MM-DD` calendar date.
#[derive(Clone, Copy, PartialEq, Eq, Structural, Debug)]
pub enum SetupError {
    InvalidDate,
}

pub open spec fn is_leap_year(y: int) -> bool {
    y % 4 == 0 && (y % 100 != 0 || y % 400 == 0)
}

pub open spec fn days_in_month(y: int, m: int) -> int {
    if m == 2 {
        if is_leap_year(y) {
            29
        } else {
            28
        }
    } else if m == 4 || m == 6 || m == 9 || m == 11 {
        30
    } else {
        31
    }
}

/// A valid proleptic-Gregorian calendar date.
pub open spec fn valid_date(y: int, m: int, d: int) -> bool {
    1 <= m <= 12 && 1 <= d <= days_in_month(y, m)
}

impl Date {
    /// The date is a valid calendar date with a four-digit year.
    pub open spec fn wf(self) -> bool {
        valid_date(self.year as int, self.month as int, self.day as int) && self.year <= 9999
    }
}

/// Lexicographic order on (year, month, day).
pub open spec fn spec_date_le(a: Date, b: Date) -> bool {
    if a.year != b.year {
        a.year < b.year
    } else if a.month != b.month {
        a.month < b.month
    } else {
        a.day <= b.day
    }
}

/// `a <= b` in calendar order.
pub fn date_le(a: Date, b: Date) -> (r: bool)
    ensures
        r == spec_date_le(a, b),
{
    if a.year != b.year {
        a.year < b.year
    } else if a.month != b.month {
        a.month < b.month
    } else {
        a.day <= b.day
    }
}

/// An event date passes the filter when it is not later than `not_after`
/// (if set) and not earlier than `not_before` (if set); an absent bound
/// imposes no constraint.
pub open spec fn spec_in_range(d: Date, not_after: Option<Date>, not_before: Option<Date>) -> bool {
    &&& (not_after matches Some(b) ==> spec_date_le(d, b))
    &&& (not_before matches Some(a) ==> spec_date_le(a, d))
}

pub fn in_range(d: Date, not_after: Option<Date>, not_before: Option<Date>) -> (r: bool)
    ensures
        r == spec_in_range(d, not_after, not_before),
{
    let after_ok = match not_after {
        Some(b) => date_le(d, b),
        None => true,
    };
    let before_ok = match not_before {
        Some(a) => date_le(a, d),
        None => true,
    };
    after_ok && before_ok
}

// ---------------------------------------------------------------------------
// Parsing a date bound
// ---------------------------------------------------------------------------

/// The shape `YYYY-MM-DD`: ten characters, digits and two dashes.
pub open spec fn date_shape(s: Seq<char>) -> bool {
    &&& s.len() == 10
    &&& is_digit(s[0]) && is_digit(s[1]) && is_digit(s[2]) && is_digit(s[3])
    &&& s[4] == '-'
    &&& is_digit(s[5]) && is_digit(s[6])
    &&& s[7] == '-'
    &&& is_digit(s[8]) && is_digit(s[9])
}

/// The date a `YYYY-MM-DD` string denotes, if it is shaped so and names
/// a valid calendar date.
pub open spec fn spec_parse_date(s: Seq<char>) -> Option<Date> {
    if date_shape(s) && valid_date(four_digit_val(s, 0), two_digit_val(s, 5), two_digit_val(s, 8)) {
        Some(
            Date {
                year: four_digit_val(s, 0) as u16,
                month: two_digit_val(s, 5) as u8,
                day: two_digit_val(s, 8) as u8,
            },
        )
    } else {
        None
    }
}

/// Parses a user-supplied date bound. Returns the date exactly when the
/// string has the `YYYY-MM-DD` shape and names a valid calendar date;
/// every other string is `InvalidDate`.
pub fn parse_date(s: &str) -> (r: Result<Date, SetupError>)
    ensures
        r matches Ok(d) ==> spec_parse_date(s@) == Some(d) && d.wf(),
        r matches Err(e) ==> spec_parse_date(s@) is None && e == SetupError::InvalidDate,
{
    let v = str_to_chars(s);
    if v.len() != 10 {
        return Err(SetupError::InvalidDate);
    }
    if !(exec_is_digit(v[0]) && exec_is_digit(v[1]) && exec_is_digit(v[2]) && exec_is_digit(v[3])
        && v[4] == '-' && exec_is_digit(v[5]) && exec_is_digit(v[6]) && v[7] == '-'
        && exec_is_digit(v[8]) && exec_is_digit(v[9])) {
        return Err(SetupError::InvalidDate);
    }
    let year: u16 = exec_digit_val(v[0]) * 1000 + exec_digit_val(v[1]) * 100 + exec_digit_val(v[2])
        * 10 + exec_digit_val(v[3]);
    let month: u8 = (exec_digit_val(v[5]) * 10 + exec_digit_val(v[6])) as u8;
    let day: u8 = (exec_digit_val(v[8]) * 10 + exec_digit_val(v[9])) as u8;
    if !exec_valid_date(year, month, day) {
        return Err(SetupError::InvalidDate);
    }
    Ok(Date { year, month, day })
}

/// Whether (y, m, d) is a valid calendar date.
pub fn exec_valid_date(y: u16, m: u8, d: u8) -> (r: bool)
    ensures
        r == valid_date(y as int, m as int, d as int),
{
    if !(1 <= m && m <= 12) {
        return false;
    }
    let max_day: u8 = if m == 2 {
        if y % 4 == 0 && (y % 100 != 0 || y % 400 == 0) {
            29
        } else {
            28
        }
    } else if m == 4 || m == 6 || m == 9 || m == 11 {
        30
    } else {
        31
    };
    1 <= d && d <= max_day
}

} // verus!
