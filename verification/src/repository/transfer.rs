//! The transfer repositories.
use crate::errors::RepositoryError;
use crate::repository::calendar::{
    month_window, valid_date, window_for, year_start, year_start_is, CalendarDate, MonthWindow,
    MIN_YEAR,
};
use vstd::prelude::*;

verus! {

/// Reads transfer rows.
pub struct TransferQueryRepository<Db> {
    /// The connection pool the queries run on.
    pub db: Db,
}

impl<Db> TransferQueryRepository<Db> {
    /// A repository over the pool `db`.
    pub fn new(db: Db) -> (r: Self)
        ensures
            r.db == db,
    {
        Self { db }
    }
}

/// Successful and failed transfers per month and per year.
pub struct TransferStatsStatusRepository<Db> {
    /// The connection pool the queries run on.
    pub db: Db,
}

impl<Db> TransferStatsStatusRepository<Db> {
    /// A repository over the pool `db`.
    pub fn new(db: Db) -> (r: Self)
        ensures
            r.db == db,
    {
        Self { db }
    }

    /// The two months a monthly status query covers: the requested month and
    /// the one before. A month that does not exist is refused with
    /// "Invalid current date".
    pub fn month_status_window(&self, year: i32, month: i32) -> (r: Result<
        MonthWindow,
        RepositoryError,
    >)
        requires
            !(year == MIN_YEAR && month == 1),
        ensures
            valid_date(year as int, month as int, 1) ==> r == Ok::<MonthWindow, RepositoryError>(
                window_for(year, month),
            ),
            !valid_date(year as int, month as int, 1) ==> (r matches Err(
                RepositoryError::Custom(m),
            ) && m@ == "Invalid current date"@),
    {
        month_window(year, month)
    }
}

/// Transfer amounts sent and received by one card per month and per year.
pub struct TransferStatsAmountByCardRepository<Db> {
    /// The connection pool the queries run on.
    pub db: Db,
}

impl<Db> TransferStatsAmountByCardRepository<Db> {
    /// A repository over the pool `db`.
    pub fn new(db: Db) -> (r: Self)
        ensures
            r.db == db,
    {
        Self { db }
    }

    /// The first day of the year the monthly amounts a card sent covers; a year outside what
    /// `chrono` represents is refused with "❌ Invalid year".
    pub fn sender_monthly_start(&self, year: i32) -> (r: Result<CalendarDate, RepositoryError>)
        ensures
            year_start_is(year, "❌ Invalid year"@, r),
    {
        year_start(year, "❌ Invalid year")
    }

    /// The first day of the year the monthly amounts a card received covers; a year outside what
    /// `chrono` represents is refused with "Invalid year".
    pub fn receiver_monthly_start(&self, year: i32) -> (r: Result<CalendarDate, RepositoryError>)
        ensures
            year_start_is(year, "Invalid year"@, r),
    {
        year_start(year, "Invalid year")
    }
}

} // verus!
