//! Calendar dates of the proleptic Gregorian calendar, as the statistics
//! queries bound their periods, computed with `chrono`.
use crate::errors::RepositoryError;
use chrono::{Datelike, Days, Months, NaiveDate};
use vstd::prelude::*;

verus! {

/// The earliest year `chrono` represents.
pub const MIN_YEAR: i32 = -262143;

/// The latest year `chrono` represents.
pub const MAX_YEAR: i32 = 262142;

/// A calendar date.
#[derive(Clone, Copy, Debug)]
pub struct CalendarDate {
    pub year: i32,
    pub month: u32,
    pub day: u32,
}

/// Whether `y` is a leap year.
pub open spec fn is_leap(y: int) -> bool {
    (y % 4 == 0 && y % 100 != 0) || y % 400 == 0
}

/// The number of days of month `m` of year `y`.
pub open spec fn days_in_month(y: int, m: int) -> int {
    if m == 2 {
        if is_leap(y) {
            29
        } else {
            28
        }
    } else if m == 4 || m == 6 || m == 9 || m == 11 {
        30
    } else {
        31
    }
}

/// Whether year `y`, month `m` and day `d` name a date that `chrono`
/// represents.
pub open spec fn valid_date(y: int, m: int, d: int) -> bool {
    &&& MIN_YEAR <= y <= MAX_YEAR
    &&& 1 <= m <= 12
    &&& 1 <= d <= days_in_month(y, m)
}

/// Whether `c` is a date that `chrono` represents.
pub open spec fn valid(c: CalendarDate) -> bool {
    valid_date(c.year as int, c.month as int, c.day as int)
}

/// The date `(y, m, d)`.
pub open spec fn date(y: int, m: int, d: int) -> CalendarDate {
    CalendarDate { year: y as i32, month: m as u32, day: d as u32 }
}

/// The day before `c`.
pub open spec fn previous_day(c: CalendarDate) -> CalendarDate {
    if c.day > 1 {
        date(c.year as int, c.month as int, c.day - 1)
    } else if c.month > 1 {
        date(c.year as int, c.month - 1, days_in_month(c.year as int, c.month - 1))
    } else {
        date(c.year - 1, 12, 31)
    }
}

/// The same day one month after `c`, or the last day of that month when it
/// is shorter.
pub open spec fn month_later(c: CalendarDate) -> CalendarDate {
    let y = if c.month == 12 {
        c.year + 1
    } else {
        c.year as int
    };
    let m = if c.month == 12 {
        1
    } else {
        c.month + 1
    };
    let d = if c.day > days_in_month(y, m) {
        days_in_month(y, m)
    } else {
        c.day as int
    };
    date(y, m, d)
}

/// `chrono::NaiveDate::from_ymd_opt`: the date `(year, month, day)`, or
/// `None` when it does not exist or lies outside the years `chrono`
/// represents. The date is handed back as its year, month and day.
#[verifier::external_body]
fn from_ymd_opt(year: i32, month: u32, day: u32) -> (r: Option<CalendarDate>)
    ensures
        r is Some <==> valid_date(year as int, month as int, day as int),
        r matches Some(c) ==> c == (CalendarDate { year, month, day }),
{
    match NaiveDate::from_ymd_opt(year, month, day) {
        Some(d) => Some(CalendarDate { year: d.year(), month: d.month(), day: d.day() }),
        None => None,
    }
}

/// `chrono::NaiveDate::checked_sub_days` by one day, on the date `c`: the day
/// before, or `None` before the earliest date `chrono` represents.
#[verifier::external_body]
fn checked_sub_one_day(c: CalendarDate) -> (r: Option<CalendarDate>)
    requires
        valid(c),
    ensures
        r is Some <==> valid(previous_day(c)),
        r matches Some(p) ==> p == previous_day(c),
{
    let before = match NaiveDate::from_ymd_opt(c.year, c.month, c.day) {
        Some(d) => d.checked_sub_days(Days::new(1)),
        None => None,
    };
    match before {
        Some(d) => Some(CalendarDate { year: d.year(), month: d.month(), day: d.day() }),
        None => None,
    }
}

/// `chrono::NaiveDate::checked_add_months` by one month, on the date `c`: the
/// same day a month later (the last day of that month when it is shorter),
/// or `None` past the latest date `chrono` represents.
#[verifier::external_body]
fn checked_add_one_month(c: CalendarDate) -> (r: Option<CalendarDate>)
    requires
        valid(c),
    ensures
        r is Some <==> valid(month_later(c)),
        r matches Some(n) ==> n == month_later(c),
{
    let later = match NaiveDate::from_ymd_opt(c.year, c.month, c.day) {
        Some(d) => d.checked_add_months(Months::new(1)),
        None => None,
    };
    match later {
        Some(d) => Some(CalendarDate { year: d.year(), month: d.month(), day: d.day() }),
        None => None,
    }
}

/// The date `(year, month, day)` when it exists.
pub fn ymd(year: i32, month: u32, day: u32) -> (r: Option<CalendarDate>)
    ensures
        r is Some <==> valid_date(year as int, month as int, day as int),
        r matches Some(c) ==> c == (CalendarDate { year, month, day }),
{
    from_ymd_opt(year, month, day)
}

/// `r` is what a yearly query starts from: the first day of `year`, or the
/// repository error `message` when the year lies outside what `chrono`
/// represents.
pub open spec fn year_start_is(
    year: i32,
    message: Seq<char>,
    r: Result<CalendarDate, RepositoryError>,
) -> bool {
    if MIN_YEAR <= year <= MAX_YEAR {
        r == Ok::<CalendarDate, RepositoryError>(date(year as int, 1, 1))
    } else {
        r matches Err(RepositoryError::Custom(m)) && m@ == message
    }
}

/// The first day of a year, or `message` as the repository's error when the
/// year lies outside what `chrono` represents.
pub fn year_start(year: i32, message: &str) -> (r: Result<CalendarDate, RepositoryError>)
    ensures
        year_start_is(year, message@, r),
{
    match ymd(year, 1, 1) {
        Some(c) => Ok(c),
        None => Err(RepositoryError::Custom(String::from_str(message))),
    }
}

/// The two months a monthly status query compares: the requested month and
/// the one before, each from its first to its last day.
#[derive(Clone, Copy, Debug)]
pub struct MonthWindow {
    pub prev_date: CalendarDate,
    pub last_day_prev: CalendarDate,
    pub current_date: CalendarDate,
    pub last_day_current: CalendarDate,
}

/// The last day of the month of `first` (a first day of a month): `first`
/// itself when no later month can be represented.
pub open spec fn last_day_of(first: CalendarDate) -> CalendarDate {
    if first.year == MAX_YEAR && first.month == 12 {
        first
    } else {
        date(first.year as int, first.month as int, days_in_month(first.year as int, first.month as int))
    }
}

/// The first day of the month before the month of `first`.
pub open spec fn first_of_previous(first: CalendarDate) -> CalendarDate {
    if first.month > 1 {
        date(first.year as int, first.month - 1, 1)
    } else {
        date(first.year - 1, 12, 1)
    }
}

/// The window for month `month` of `year`, given as a signed number the way
/// requests carry it.
pub open spec fn window_for(year: i32, month: i32) -> MonthWindow {
    let current = date(year as int, month as int, 1);
    let prev = first_of_previous(current);
    MonthWindow {
        prev_date: prev,
        last_day_prev: last_day_of(prev),
        current_date: current,
        last_day_current: last_day_of(current),
    }
}

proof fn lemma_last_day(first: CalendarDate)
    requires
        valid(first),
        first.day == 1,
    ensures
        valid(month_later(first)) <==> !(first.year == MAX_YEAR && first.month == 12),
        valid(month_later(first)) ==> month_later(first).day == 1 && valid(previous_day(month_later(first)))
            && previous_day(month_later(first)) == last_day_of(first),
{
}

/// The window of month `month` of `year`: the requested month and the
/// month before it. A month that does not exist is refused with
/// "Invalid current date"; January of the earliest year is left out, where
/// the month before cannot be represented.
pub fn month_window(year: i32, month: i32) -> (r: Result<MonthWindow, RepositoryError>)
    requires
        !(year == MIN_YEAR && month == 1),
    ensures
        valid_date(year as int, month as int, 1) ==> r == Ok::<MonthWindow, RepositoryError>(
            window_for(year, month),
        ),
        !valid_date(year as int, month as int, 1) ==> (r matches Err(
            RepositoryError::Custom(m),
        ) && m@ == "Invalid current date"@),
{
    #[verifier::truncate]
    let m: u32 = month as u32;
    assert(month < 0 ==> m > 12) by (bit_vector)
        requires
            m == month as u32,
    ;
    assert(month >= 0 ==> m == month);
    let current = match from_ymd_opt(year, m, 1) {
        Some(c) => c,
        None => return Err(RepositoryError::Custom(String::from_str("Invalid current date"))),
    };
    proof {
        lemma_last_day(current);
    }
    let prev = match checked_sub_one_day(current) {
        Some(d) => match from_ymd_opt(d.year, d.month, 1) {
            Some(p) => p,
            None => {
                proof {
                    assert(false);
                }
                current
            },
        },
        None => {
            proof {
                assert(false);
            }
            current
        },
    };
    proof {
        lemma_last_day(prev);
    }
    let last_day_current = match checked_add_one_month(current) {
        Some(n) => match checked_sub_one_day(n) {
            Some(l) => l,
            None => current,
        },
        None => current,
    };
    let last_day_prev = match checked_add_one_month(prev) {
        Some(n) => match checked_sub_one_day(n) {
            Some(l) => l,
            None => prev,
        },
        None => prev,
    };
    Ok(MonthWindow { prev_date: prev, last_day_prev, current_date: current, last_day_current })
}

/// The two months of a window are adjacent: the day after the last day of
/// the month before is the first day of the requested month, and each part
/// runs from a first day to the last day of the same month.
pub proof fn law_window_months_adjacent(year: i32, month: i32)
    requires
        valid_date(year as int, month as int, 1),
        !(year == MIN_YEAR && month == 1),
        !(year == MAX_YEAR && month == 12),
    ensures
        previous_day(window_for(year, month).current_date) == window_for(year, month).last_day_prev,
        window_for(year, month).last_day_current.day as int == days_in_month(year as int, month as int),
        window_for(year, month).prev_date.day == 1,
        window_for(year, month).last_day_prev.month == window_for(year, month).prev_date.month,
{
}

} // verus!
