//! Calendar dates and times of day.
//!
//! Which dates exist and on which weekday a date falls is taken from the
//! `chrono` crate; everything else is plain arithmetic on the fields.

use vstd::prelude::*;

verus! {

/// The first year that the calendar knows.
pub const MIN_YEAR: i32 = -262143;

/// The last year that the calendar knows.
pub const MAX_YEAR: i32 = 262142;

/// Leap years of the proleptic Gregorian calendar, year 0 included.
pub open spec fn is_leap_year(year: int) -> bool {
    year % 4 == 0 && (year % 100 != 0 || year % 400 == 0)
}

/// The number of days of a month of the proleptic Gregorian calendar.
pub open spec fn month_length(year: int, month: int) -> int {
    if month == 2 {
        if is_leap_year(year) {
            29
        } else {
            28
        }
    } else if month == 4 || month == 6 || month == 9 || month == 11 {
        30
    } else {
        31
    }
}

/// Whether year, month and day name a day of the calendar.
pub open spec fn is_calendar_date(year: int, month: int, day: int) -> bool {
    &&& MIN_YEAR <= year <= MAX_YEAR
    &&& 1 <= month <= 12
    &&& 1 <= day <= month_length(year, month)
}

/// The weekday of a calendar date, counted from Monday = 0 to Sunday = 6,
/// as `chrono` computes it.
pub uninterp spec fn weekday_from_monday(year: int, month: int, day: int) -> int;

/// Calls `chrono::NaiveDate::from_ymd_opt` and reports whether it found a
/// date. Trusted: the date exists exactly when the year lies between
/// `MIN_YEAR` and `MAX_YEAR`, the month between 1 and 12, and the day between
/// 1 and the length of that month in the proleptic Gregorian calendar.
#[verifier::external_body]
fn on_calendar(year: i32, month: u32, day: u32) -> (found: bool)
    ensures
        found == is_calendar_date(year as int, month as int, day as int),
{
    chrono::NaiveDate::from_ymd_opt(year, month, day).is_some()
}

/// Calls `chrono::Datelike::weekday` on the date that
/// `chrono::NaiveDate::from_ymd_opt` makes, and then
/// `chrono::Weekday::num_days_from_monday`. Trusted: the result is the
/// weekday of that date, a number from 0 to 6.
#[verifier::external_body]
fn weekday_number(year: i32, month: u32, day: u32) -> (number: u32)
    requires
        is_calendar_date(year as int, month as int, day as int),
    ensures
        number == weekday_from_monday(year as int, month as int, day as int),
        number <= 6,
{
    match chrono::NaiveDate::from_ymd_opt(year, month, day) {
        Some(date) => chrono::Datelike::weekday(&date).num_days_from_monday(),
        None => 0,
    }
}

/// A day: year, month (1 to 12) and day of the month (from 1).
#[derive(Clone, Copy, Debug, PartialEq, Eq, Structural)]
pub struct Date {
    pub year: i32,
    pub month: u32,
    pub day: u32,
}

impl Date {
    /// Whether this is a day of the calendar.
    pub open spec fn exists_on_calendar(self) -> bool {
        is_calendar_date(self.year as int, self.month as int, self.day as int)
    }

    /// Whether this day comes before `other`: years first, then months, then days.
    pub open spec fn earlier_than(self, other: Date) -> bool {
        ||| self.year < other.year
        ||| self.year == other.year && self.month < other.month
        ||| self.year == other.year && self.month == other.month && self.day < other.day
    }

    /// The date of the given year, month and day, if the calendar has it.
    pub fn from_ymd(year: i32, month: u32, day: u32) -> (date: Option<Date>)
        ensures
            date == if is_calendar_date(year as int, month as int, day as int) {
                Some(Date { year, month, day })
            } else {
                None
            },
    {
        if on_calendar(year, month, day) {
            Some(Date { year, month, day })
        } else {
            None
        }
    }

    /// Whether this day comes before `other`.
    pub fn is_before(&self, other: &Date) -> (before: bool)
        ensures
            before == self.earlier_than(*other),
    {
        self.year < other.year || (self.year == other.year && (self.month < other.month || (
        self.month == other.month && self.day < other.day)))
    }

    /// The weekday of this date, from Monday = 0 to Sunday = 6. `None` for
    /// a date that the calendar does not have.
    pub fn weekday(&self) -> (number: Option<u32>)
        ensures
            match number {
                Some(found) => {
                    &&& self.exists_on_calendar()
                    &&& found == weekday_from_monday(self.year as int, self.month as int, self.day as int)
                    &&& found <= 6
                },
                None => !self.exists_on_calendar(),
            },
    {
        if on_calendar(self.year, self.month, self.day) {
            Some(weekday_number(self.year, self.month, self.day))
        } else {
            None
        }
    }
}

/// Of two different days one comes before the other, and never both.
pub proof fn lemma_date_order_total(a: Date, b: Date)
    ensures
        a == b || a.earlier_than(b) || b.earlier_than(a),
        !(a.earlier_than(b) && b.earlier_than(a)),
        !a.earlier_than(a),
{
}

/// Coming before is transitive.
pub proof fn lemma_date_order_transitive(a: Date, b: Date, c: Date)
    requires
        a.earlier_than(b),
        b.earlier_than(c),
    ensures
        a.earlier_than(c),
{
}

/// The number of days of the given month, 0 where the calendar has no such month.
pub fn days_in_month(month: u32, year: i32) -> (days: u32)
    ensures
        days == if is_calendar_date(year as int, month as int, 1) {
            month_length(year as int, month as int)
        } else {
            0
        },
{
    if !on_calendar(year, month, 28) {
        0
    } else if on_calendar(year, month, 31) {
        31
    } else if on_calendar(year, month, 30) {
        30
    } else if on_calendar(year, month, 29) {
        29
    } else {
        28
    }
}

/// The month after the given one, `None` past the range of the numbers.
pub open spec fn following_month(month: u32, year: i32) -> Option<(u32, i32)> {
    if month == 12 {
        if year < i32::MAX {
            Some((1u32, (year + 1) as i32))
        } else {
            None
        }
    } else if month < u32::MAX {
        Some(((month + 1) as u32, year))
    } else {
        None
    }
}

/// The month before the given one, `None` past the range of the numbers.
pub open spec fn preceding_month(month: u32, year: i32) -> Option<(u32, i32)> {
    if month == 1 {
        if year > i32::MIN {
            Some((12u32, (year - 1) as i32))
        } else {
            None
        }
    } else if month > 0 {
        Some(((month - 1) as u32, year))
    } else {
        None
    }
}

/// The month after the given one, `None` past the range of the numbers.
pub fn month_after(month: u32, year: i32) -> (next: Option<(u32, i32)>)
    ensures
        next == following_month(month, year),
{
    if month == 12 {
        if year < i32::MAX {
            Some((1, year + 1))
        } else {
            None
        }
    } else if month < u32::MAX {
        Some((month + 1, year))
    } else {
        None
    }
}

/// The month before the given one, `None` past the range of the numbers.
pub fn month_before(month: u32, year: i32) -> (previous: Option<(u32, i32)>)
    ensures
        previous == preceding_month(month, year),
{
    if month == 1 {
        if year > i32::MIN {
            Some((12, year - 1))
        } else {
            None
        }
    } else if month > 0 {
        Some((month - 1, year))
    } else {
        None
    }
}

/// Going a month on and a month back leads to the month one came from.
pub proof fn lemma_month_there_and_back(month: u32, year: i32)
    requires
        1 <= month <= 12,
        i32::MIN < year < i32::MAX,
    ensures
        following_month(month, year) matches Some(next) && preceding_month(next.0, next.1) == Some(
            (month, year),
        ),
        preceding_month(month, year) matches Some(previous) && following_month(
            previous.0,
            previous.1,
        ) == Some((month, year)),
{
}

/// A time of day by hour and minute. The end of the day is 24:00.
#[derive(Clone, Copy, Debug, PartialEq, Eq, Structural)]
pub struct TimeOfDay {
    pub hour: u32,
    pub minute: u32,
}

impl TimeOfDay {
    /// Whether hour and minute name a time from 00:00 to 24:00.
    pub open spec fn is_valid(self) -> bool {
        (self.hour < 24 && self.minute < 60) || (self.hour == 24 && self.minute == 0)
    }

    /// Minutes since midnight.
    pub open spec fn minutes(self) -> int {
        self.hour * 60 + self.minute
    }

    /// Whether hour and minute name a time from 00:00 to 24:00.
    pub fn check(&self) -> (valid: bool)
        ensures
            valid == self.is_valid(),
    {
        (self.hour < 24 && self.minute < 60) || (self.hour == 24 && self.minute == 0)
    }

    /// Minutes since midnight.
    pub fn minute_of_day(&self) -> (minutes: i64)
        ensures
            minutes == self.minutes(),
    {
        self.hour as i64 * 60 + self.minute as i64
    }
}

/// The name of a month as the title of a calendar shows it, empty for a number that is no month.
pub open spec fn month_title(month: u32) -> Seq<char> {
    match month {
        1 => "Январь"@,
        2 => "Февраль"@,
        3 => "Март"@,
        4 => "Апрель"@,
        5 => "Май"@,
        6 => "Июнь"@,
        7 => "Июль"@,
        8 => "Август"@,
        9 => "Сентябрь"@,
        10 => "Октябрь"@,
        11 => "Ноябрь"@,
        12 => "Декабрь"@,
        _ => ""@,
    }
}

/// The name of a month as the title of a calendar shows it.
pub fn month_name(month: u32) -> (name: &'static str)
    ensures
        name@ == month_title(month),
{
    match month {
        1 => "Январь",
        2 => "Февраль",
        3 => "Март",
        4 => "Апрель",
        5 => "Май",
        6 => "Июнь",
        7 => "Июль",
        8 => "Август",
        9 => "Сентябрь",
        10 => "Октябрь",
        11 => "Ноябрь",
        12 => "Декабрь",
        _ => "",
    }
}

/// The name of a month as a date is read out, empty for a number that is no month.
pub open spec fn month_in_date(month: u32) -> Seq<char> {
    match month {
        1 => "января"@,
        2 => "февраля"@,
        3 => "марта"@,
        4 => "апреля"@,
        5 => "мая"@,
        6 => "июнь"@,
        7 => "июль"@,
        8 => "августа"@,
        9 => "сентября"@,
        10 => "октября"@,
        11 => "ноября"@,
        12 => "декабря"@,
        _ => ""@,
    }
}

/// The name of a month as a date is read out.
pub fn month_name_from_month(month: u32) -> (name: &'static str)
    ensures
        name@ == month_in_date(month),
{
    match month {
        1 => "января",
        2 => "февраля",
        3 => "марта",
        4 => "апреля",
        5 => "мая",
        6 => "июнь",
        7 => "июль",
        8 => "августа",
        9 => "сентября",
        10 => "октября",
        11 => "ноября",
        12 => "декабря",
        _ => "",
    }
}

} // verus!
