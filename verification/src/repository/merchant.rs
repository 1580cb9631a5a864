//! The merchant statistics repositories.
use crate::errors::RepositoryError;
use crate::repository::calendar::{year_start, year_start_is, CalendarDate};
use vstd::prelude::*;

verus! {

/// Transaction amounts of all merchants per month and per year.
pub struct MerchantStatsAmountRepository<Db> {
    /// The connection pool the queries run on.
    pub db: Db,
}

impl<Db> MerchantStatsAmountRepository<Db> {
    /// A repository over the pool `db`.
    pub fn new(db: Db) -> (r: Self)
        ensures
            r.db == db,
    {
        Self { db }
    }

    /// The first day of the year the monthly merchant amounts covers; a year outside what
    /// `chrono` represents is refused with "Invalid year".
    pub fn monthly_amount_start(&self, year: i32) -> (r: Result<CalendarDate, RepositoryError>)
        ensures
            year_start_is(year, "Invalid year"@, r),
    {
        year_start(year, "Invalid year")
    }
}

/// Total transaction amounts of all merchants per month and per year.
pub struct MerchantStatsTotalAmountRepository<Db> {
    /// The connection pool the queries run on.
    pub db: Db,
}

impl<Db> MerchantStatsTotalAmountRepository<Db> {
    /// A repository over the pool `db`.
    pub fn new(db: Db) -> (r: Self)
        ensures
            r.db == db,
    {
        Self { db }
    }

    /// The first day of the year the monthly merchant totals covers; a year outside what
    /// `chrono` represents is refused with "❌ Invalid year".
    pub fn monthly_total_amount_start(&self, year: i32) -> (r: Result<CalendarDate, RepositoryError>)
        ensures
            year_start_is(year, "❌ Invalid year"@, r),
    {
        year_start(year, "❌ Invalid year")
    }
}

/// Total transaction amounts of the merchant of one API key per month and per year.
pub struct MerchantStatsTotalAmountByApiKeyRepository<Db> {
    /// The connection pool the queries run on.
    pub db: Db,
}

impl<Db> MerchantStatsTotalAmountByApiKeyRepository<Db> {
    /// A repository over the pool `db`.
    pub fn new(db: Db) -> (r: Self)
        ensures
            r.db == db,
    {
        Self { db }
    }

    /// The first day of the year the monthly totals of a merchant covers; a year outside what
    /// `chrono` represents is refused with "Invalid year".
    pub fn monthly_total_amount_start(&self, year: i32) -> (r: Result<CalendarDate, RepositoryError>)
        ensures
            year_start_is(year, "Invalid year"@, r),
    {
        year_start(year, "Invalid year")
    }
}

} // verus!
