use vstd::prelude::*;

verus! {

/// A calendar date, held as plain year / month / day numbers.
#[derive(Clone, Copy, Debug, PartialEq, Eq, Structural)]
pub struct Date {
    pub year: u16,
    pub month: u8,
    pub day: u8,
}

/// Leap years of the proleptic Gregorian calendar.
pub open spec fn is_leap_year(y: int) -> bool {
    y % 4 == 0 && (y % 100 != 0 || y % 400 == 0)
}

/// Number of days in a month, `0` for a month outside `1..=12`.
pub open spec fn days_in_month(y: int, m: int) -> int {
    if m == 1 || m == 3 || m == 5 || m == 7 || m == 8 || m == 10 || m == 12 {
        31
    } else if m == 4 || m == 6 || m == 9 || m == 11 {
        30
    } else if m == 2 {
        if is_leap_year(y) {
            29
        } else {
            28
        }
    } else {
        0
    }
}

/// A well-formed calendar triple: the month exists and the day lies within it.
pub open spec fn valid_ymd(y: int, m: int, d: int) -> bool {
    1 <= m <= 12 && 1 <= d <= days_in_month(y, m)
}

/// `a` is on or before `b` in calendar order.
pub open spec fn date_le(a: Date, b: Date) -> bool {
    a.year < b.year || (a.year == b.year && (a.month < b.month || (a.month == b.month
        && a.day <= b.day)))
}

impl Date {
    /// A well-formed date: the month exists and the day lies within it.
    pub open spec fn valid(self) -> bool {
        valid_ymd(self.year as int, self.month as int, self.day as int)
    }

    /// True when `self` is on or before `other`.
    pub fn le(&self, other: &Date) -> (r: bool)
        ensures
            r == date_le(*self, *other),
    {
        self.year < other.year || (self.year == other.year && (self.month < other.month || (
        self.month == other.month && self.day <= other.day)))
    }
}

/// An ASCII decimal digit.
pub open spec fn is_digit(c: u8) -> bool {
    48 <= c <= 57
}

/// The numeric value of an ASCII decimal digit.
pub open spec fn digit(c: u8) -> int {
    c - 48
}

/// The bytes have the shape `YYYY-MM-DD`: four digits, a dash, two digits,
/// a dash, two digits, and nothing more.
pub open spec fn date_format_ok(s: Seq<u8>) -> bool {
    &&& s.len() == 10
    &&& is_digit(s[0])
    &&& is_digit(s[1])
    &&& is_digit(s[2])
    &&& is_digit(s[3])
    &&& s[4] == 45
    &&& is_digit(s[5])
    &&& is_digit(s[6])
    &&& s[7] == 45
    &&& is_digit(s[8])
    &&& is_digit(s[9])
}

/// The year written in the first four bytes.
pub open spec fn year_of(s: Seq<u8>) -> int {
    1000 * digit(s[0]) + 100 * digit(s[1]) + 10 * digit(s[2]) + digit(s[3])
}

/// The month written in bytes five and six.
pub open spec fn month_of(s: Seq<u8>) -> int {
    10 * digit(s[5]) + digit(s[6])
}

/// The day written in the last two bytes.
pub open spec fn day_of(s: Seq<u8>) -> int {
    10 * digit(s[8]) + digit(s[9])
}

/// The bytes spell an ISO `YYYY-MM-DD` date that exists in the calendar.
pub open spec fn parses(s: Seq<u8>) -> bool {
    date_format_ok(s) && valid_ymd(year_of(s), month_of(s), day_of(s))
}

/// The date the bytes spell, meaningful only when `parses(s)` holds.
pub open spec fn parsed_date(s: Seq<u8>) -> Date {
    Date { year: year_of(s) as u16, month: month_of(s) as u8, day: day_of(s) as u8 }
}

/// True when `y` is a leap year.
pub fn leap_year(y: u16) -> (r: bool)
    ensures
        r == is_leap_year(y as int),
{
    y % 4 == 0 && (y % 100 != 0 || y % 400 == 0)
}

/// The number of days in month `m` of year `y`.
pub fn month_length(y: u16, m: u8) -> (r: u8)
    requires
        1 <= m <= 12,
    ensures
        r as int == days_in_month(y as int, m as int),
{
    if m == 1 || m == 3 || m == 5 || m == 7 || m == 8 || m == 10 || m == 12 {
        31
    } else if m == 4 || m == 6 || m == 9 || m == 11 {
        30
    } else {
        if leap_year(y) {
            29
        } else {
            28
        }
    }
}

/// Parses an ISO `YYYY-MM-DD` byte string into a date, rejecting anything
/// that is malformed or does not exist in the calendar.
pub fn parse_date(s: &Vec<u8>) -> (r: Option<Date>)
    ensures
        r is Some <==> parses(s@),
        r matches Some(d) ==> d == parsed_date(s@) && d.valid(),
{
    if s.len() != 10 {
        return None;
    }
    let b0 = s[0];
    let b1 = s[1];
    let b2 = s[2];
    let b3 = s[3];
    let b5 = s[5];
    let b6 = s[6];
    let b8 = s[8];
    let b9 = s[9];
    if !(48 <= b0 && b0 <= 57 && 48 <= b1 && b1 <= 57 && 48 <= b2 && b2 <= 57 && 48 <= b3 && b3
        <= 57) {
        return None;
    }
    if s[4] != 45 || s[7] != 45 {
        return None;
    }
    if !(48 <= b5 && b5 <= 57 && 48 <= b6 && b6 <= 57 && 48 <= b8 && b8 <= 57 && 48 <= b9 && b9
        <= 57) {
        return None;
    }
    let year: u16 = 1000 * ((b0 - 48) as u16) + 100 * ((b1 - 48) as u16) + 10 * ((b2 - 48) as u16)
        + ((b3 - 48) as u16);
    let month: u8 = 10 * (b5 - 48) + (b6 - 48);
    let day: u8 = 10 * (b8 - 48) + (b9 - 48);
    if month < 1 || month > 12 {
        return None;
    }
    if day < 1 || day > month_length(year, month) {
        return None;
    }
    Some(Date { year, month, day })
}

} // verus!
