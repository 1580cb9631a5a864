//! The transaction repositories.
use crate::errors::RepositoryError;
use crate::repository::calendar::{year_start, year_start_is, CalendarDate};
use vstd::prelude::*;

verus! {

/// Reads transaction rows.
pub struct TransactionQueryRepository<Db> {
    /// The connection pool the queries run on.
    pub db: Db,
}

impl<Db> TransactionQueryRepository<Db> {
    /// A repository over the pool `db`.
    pub fn new(db: Db) -> (r: Self)
        ensures
            r.db == db,
    {
        Self { db }
    }

    /// The error of a failed lookup by id: `NotFound` when the database found
    /// no row, else the driver's failure with its message.
    pub fn lookup_error(&self, row_not_found: bool, message: String) -> (r: RepositoryError)
        ensures
            row_not_found ==> r == RepositoryError::NotFound,
            !row_not_found ==> r == RepositoryError::Sqlx(message),
    {
        if row_not_found {
            RepositoryError::NotFound
        } else {
            RepositoryError::Sqlx(message)
        }
    }
}

/// Transaction amounts per month and per year.
pub struct TransactionStatsAmountRepository<Db> {
    /// The connection pool the queries run on.
    pub db: Db,
}

impl<Db> TransactionStatsAmountRepository<Db> {
    /// A repository over the pool `db`.
    pub fn new(db: Db) -> (r: Self)
        ensures
            r.db == db,
    {
        Self { db }
    }

    /// The first day of the year the monthly transaction amounts covers; a year outside what
    /// `chrono` represents is refused with "Invalid year".
    pub fn monthly_amounts_start(&self, year: i32) -> (r: Result<CalendarDate, RepositoryError>)
        ensures
            year_start_is(year, "Invalid year"@, r),
    {
        year_start(year, "Invalid year")
    }
}

/// Payment methods of one card per month and per year.
pub struct TransactionStatsMethodByCardRepository<Db> {
    /// The connection pool the queries run on.
    pub db: Db,
}

impl<Db> TransactionStatsMethodByCardRepository<Db> {
    /// A repository over the pool `db`.
    pub fn new(db: Db) -> (r: Self)
        ensures
            r.db == db,
    {
        Self { db }
    }

    /// The first day of the year the monthly payment methods of a card covers; a year outside what
    /// `chrono` represents is refused with "Invalid year".
    pub fn monthly_method_start(&self, year: i32) -> (r: Result<CalendarDate, RepositoryError>)
        ensures
            year_start_is(year, "Invalid year"@, r),
    {
        year_start(year, "Invalid year")
    }
}

} // verus!
