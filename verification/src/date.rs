//! Calendar dates as the pipeline reads them from photo metadata, and their
//! rendering through `chrono`.

use vstd::prelude::*;
use crate::text::dec_padded;

verus! {

/// The earliest year `chrono::NaiveDate` represents.
pub const MIN_YEAR: i32 = -262143;

/// The latest year `chrono::NaiveDate` represents.
pub const MAX_YEAR: i32 = 262142;

/// A leap year of the proleptic Gregorian calendar.
pub open spec fn is_leap_year(y: int) -> bool {
    (y % 4 == 0 && y % 100 != 0) || y % 400 == 0
}

/// The number of days of a month of the proleptic Gregorian calendar.
pub open spec fn days_in_month(y: int, m: int) -> int {
    if m == 2 {
        if is_leap_year(y) { 29 } else { 28 }
    } else if m == 4 || m == 6 || m == 9 || m == 11 {
        30
    } else {
        31
    }
}

/// A date that exists in the proleptic Gregorian calendar, within the years
/// `chrono::NaiveDate` represents.
pub open spec fn is_valid_date(y: int, m: int, d: int) -> bool {
    MIN_YEAR <= y <= MAX_YEAR && 1 <= m <= 12 && 1 <= d <= days_in_month(y, m)
}

/// A calendar date (year, month, day).
#[derive(Debug, Clone, Copy, PartialEq, Eq)]
pub struct Date {
    year: i32,
    month: u32,
    day: u32,
}

impl View for Date {
    type V = (int, int, int);

    closed spec fn view(&self) -> (int, int, int) {
        (self.year as int, self.month as int, self.day as int)
    }
}

impl Date {
    #[verifier::type_invariant]
    closed spec fn wf(self) -> bool {
        is_valid_date(self.year as int, self.month as int, self.day as int)
    }

    /// The date with the given year, month and day, or `None` when that day
    /// does not exist or the year is out of range.
    pub fn from_ymd_opt(year: i32, month: u32, day: u32) -> (r: Option<Date>)
        ensures
            r is Some <==> is_valid_date(year as int, month as int, day as int),
            r matches Some(d) ==> d@ == (year as int, month as int, day as int),
    {
        if year < MIN_YEAR || year > MAX_YEAR || month < 1 || month > 12 || day < 1 {
            return None;
        }
        let leap = (year % 4 == 0 && year % 100 != 0) || year % 400 == 0;
        proof {
            assert((year % 4 == 0) == ((year as int) % 4 == 0));
            assert((year % 100 == 0) == ((year as int) % 100 == 0));
            assert((year % 400 == 0) == ((year as int) % 400 == 0));
        }
        let days: u32 = if month == 2 {
            if leap { 29 } else { 28 }
        } else if month == 4 || month == 6 || month == 9 || month == 11 {
            30
        } else {
            31
        };
        if day > days {
            return None;
        }
        Some(Date { year, month, day })
    }

    /// The year.
    pub fn year(&self) -> (r: i32)
        ensures
            r as int == self@.0,
    {
        self.year
    }

    /// The month (1 to 12).
    pub fn month(&self) -> (r: u32)
        ensures
            r as int == self@.1,
    {
        self.month
    }

    /// The day of the month.
    pub fn day(&self) -> (r: u32)
        ensures
            r as int == self@.2,
    {
        self.day
    }
}

/// How `%Y` renders a year: four digits, zero-padded, for years 0 to 9999;
/// otherwise a sign (`+` or `-`) followed by at least four digits.
pub open spec fn year_text(y: int) -> Seq<char> {
    if 0 <= y <= 9999 {
        dec_padded(y as nat, 4)
    } else if y > 9999 {
        seq!['+'] + dec_padded(y as nat, 4)
    } else {
        seq!['-'] + dec_padded((-y) as nat, 4)
    }
}

/// How `%m` and `%d` render a month or day: two digits, zero-padded.
pub open spec fn two_digit_text(n: int) -> Seq<char> {
    dec_padded(n as nat, 2)
}

/// `chrono::NaiveDate::format` with a single `%Y`, `%m` or `%d`: the year
/// zero-padded to four digits (with a leading sign outside 0..=9999), or the
/// month or the day zero-padded to two digits.
#[verifier::external_body]
fn chrono_format(year: i32, month: u32, day: u32, pattern: &str) -> (r: String)
    requires
        is_valid_date(year as int, month as int, day as int),
        pattern@ == "%Y"@ || pattern@ == "%m"@ || pattern@ == "%d"@,
    ensures
        pattern@ == "%Y"@ ==> r@ == year_text(year as int),
        pattern@ == "%m"@ ==> r@ == two_digit_text(month as int),
        pattern@ == "%d"@ ==> r@ == two_digit_text(day as int),
{
    match chrono::NaiveDate::from_ymd_opt(year, month, day) {
        Some(d) => d.format(pattern).to_string(),
        None => String::new(),
    }
}

impl Date {
    /// The year as `%Y` renders it.
    pub fn year_text(&self) -> (r: String)
        ensures
            r@ == year_text(self@.0),
    {
        proof { use_type_invariant(self); }
        chrono_format(self.year, self.month, self.day, "%Y")
    }

    /// The month as `%m` renders it.
    pub fn month_text(&self) -> (r: String)
        ensures
            r@ == two_digit_text(self@.1),
    {
        proof { use_type_invariant(self); }
        chrono_format(self.year, self.month, self.day, "%m")
    }

    /// The day as `%d` renders it.
    pub fn day_text(&self) -> (r: String)
        ensures
            r@ == two_digit_text(self@.2),
    {
        proof { use_type_invariant(self); }
        chrono_format(self.year, self.month, self.day, "%d")
    }
}

/// The calendar's months: January, March, May, July, August, October and
/// December have 31 days; April, June, September and November 30;
/// February 29 in a leap year and 28 otherwise. No month has a 32nd day
/// and none is missing a day up to its length.
pub proof fn law_month_lengths(y: int, d: int)
    requires
        MIN_YEAR <= y <= MAX_YEAR,
    ensures
        1 <= d <= 31 ==> is_valid_date(y, 1, d) && is_valid_date(y, 3, d) && is_valid_date(y, 5, d)
            && is_valid_date(y, 7, d) && is_valid_date(y, 8, d) && is_valid_date(y, 10, d) && is_valid_date(y, 12, d),
        1 <= d <= 30 ==> is_valid_date(y, 4, d) && is_valid_date(y, 6, d) && is_valid_date(y, 9, d)
            && is_valid_date(y, 11, d),
        !is_valid_date(y, 4, 31) && !is_valid_date(y, 6, 31) && !is_valid_date(y, 9, 31) && !is_valid_date(y, 11, 31),
        1 <= d <= 28 ==> is_valid_date(y, 2, d),
        is_valid_date(y, 2, 29) <==> is_leap_year(y),
        !is_valid_date(y, 2, 30),
        forall|m: int| !is_valid_date(y, m, 32) && !is_valid_date(y, m, 0),
{
}

/// A year has 365 days, or 366 in a leap year.
pub proof fn law_year_length(y: int)
    ensures
        days_in_month(y, 1) + days_in_month(y, 2) + days_in_month(y, 3) + days_in_month(y, 4)
            + days_in_month(y, 5) + days_in_month(y, 6) + days_in_month(y, 7) + days_in_month(y, 8)
            + days_in_month(y, 9) + days_in_month(y, 10) + days_in_month(y, 11) + days_in_month(y, 12)
            == if is_leap_year(y) { 366int } else { 365int },
{
}

} // verus!
