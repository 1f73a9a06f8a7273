use chrono::{Datelike, Timelike};
use vstd::prelude::*;
use crate::text::digit;

verus! {

/// A calendar date and wall-clock time, to the second, with no time zone.
#[derive(Clone, Copy, Debug, PartialEq, Eq, Structural)]
pub struct Stamp {
    pub year: i32,
    pub month: u32,
    pub day: u32,
    pub hour: u32,
    pub minute: u32,
    pub second: u32,
}

pub open spec fn is_leap_year(y: int) -> bool {
    (y % 4 == 0 && y % 100 != 0) || y % 400 == 0
}

pub open spec fn days_in_month(y: int, m: int) -> int {
    if m == 2 {
        if is_leap_year(y) {
            29
        } else {
            28
        }
    } else if m == 4 || m == 6 || m == 9 || m == 11 {
        30
    } else {
        31
    }
}

/// `n` written with two digits, zero-padded.
pub open spec fn two_digits(n: int) -> Seq<char> {
    seq![digit(n / 10), digit(n % 10)]
}

impl Stamp {
    /// A real day of the Gregorian calendar and a time of day.
    pub open spec fn wf(&self) -> bool {
        &&& 1 <= self.month <= 12
        &&& 1 <= self.day <= days_in_month(self.year as int, self.month as int)
        &&& self.hour < 24
        &&& self.minute < 60
        &&& self.second < 60
    }

    /// The stamp names a whole minute in the years that a two-digit year
    /// can stand for (1970 to 2069).
    pub open spec fn short_form(&self) -> bool {
        &&& self.wf()
        &&& self.second == 0
        &&& 1970 <= self.year <= 2069
    }

    /// The stamp written as `DD/MM/YYYY HH:MM:SS`, for a year from 0 to 9999.
    pub open spec fn long_text(&self) -> Seq<char> {
        two_digits(self.day as int) + seq!['/'] + two_digits(self.month as int) + seq!['/']
            + two_digits(self.year as int / 100) + two_digits(self.year as int % 100) + seq![' ']
            + two_digits(self.hour as int) + seq![':'] + two_digits(self.minute as int) + seq![':']
            + two_digits(self.second as int)
    }

    /// Whether the stamp is a real date and time.
    pub fn is_valid(&self) -> (r: bool)
        ensures
            r == self.wf(),
    {
        if self.month < 1 || self.month > 12 || self.hour >= 24 || self.minute >= 60 || self.second >= 60 {
            return false;
        }
        let y = self.year as i64;
        let leap = (y % 4 == 0 && y % 100 != 0) || y % 400 == 0;
        let days: u32 = if self.month == 2 {
            if leap {
                29
            } else {
                28
            }
        } else if self.month == 4 || self.month == 6 || self.month == 9 || self.month == 11 {
            30
        } else {
            31
        };
        1 <= self.day && self.day <= days
    }

    /// The stamp written as `DD/MM/YY HH:MM`.
    pub open spec fn short_text(&self) -> Seq<char> {
        two_digits(self.day as int) + seq!['/'] + two_digits(self.month as int) + seq!['/']
            + two_digits(self.year as int % 100) + seq![' '] + two_digits(self.hour as int)
            + seq![':'] + two_digits(self.minute as int)
    }
}

/// What the date parser of the edit form makes of a text.
pub uninterp spec fn parsed_stamp(s: Seq<char>) -> Option<Stamp>;

/// Relies on chrono's `NaiveDateTime::parse_from_str` with the pattern
/// `%d/%m/%y %H:%M`: what it accepts is a real date and time with no seconds,
/// whose two-digit year stands for 1970 to 2069; it reads back every stamp
/// written in that pattern; and it needs the literal `/` of the pattern.
#[verifier::external_body]
pub(crate) fn parse_short(s: &str) -> (r: Option<Stamp>)
    ensures
        r == parsed_stamp(s@),
        r matches Some(t) ==> t.short_form(),
        forall|t: Stamp| t.short_form() && s@ == t.short_text() ==> r == Some(t),
        !s@.contains('/') ==> r is None,
{
    chrono::NaiveDateTime::parse_from_str(s, "%d/%m/%y %H:%M").ok().map(|d| Stamp {
        year: d.year(),
        month: d.month(),
        day: d.day(),
        hour: d.hour(),
        minute: d.minute(),
        second: d.second(),
    })
}

/// Relies on chrono's `NaiveDateTime::format` with the pattern
/// `%d/%m/%Y %H:%M:%S`: two zero-padded digits for each field and four for a
/// year from 0 to 9999.
#[verifier::external_body]
pub(crate) fn write_long(t: &Stamp) -> (r: String)
    requires
        t.wf(),
        0 <= t.year <= 9999,
    ensures
        r@ == t.long_text(),
{
    let date = chrono::NaiveDate::from_ymd_opt(t.year, t.month, t.day).unwrap();
    let time = chrono::NaiveTime::from_hms_opt(t.hour, t.minute, t.second).unwrap();
    chrono::NaiveDateTime::new(date, time).format("%d/%m/%Y %H:%M:%S").to_string()
}

} // verus!
