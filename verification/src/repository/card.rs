//! The card repositories: card rows, transfer totals per card and
//! withdrawal statistics per card.
use crate::errors::RepositoryError;
use crate::repository::calendar::{year_start, year_start_is, CalendarDate};
use vstd::prelude::*;

verus! {

/// Creates, updates, trashes, restores and deletes card rows.
pub struct CardCommandRepository<Db> {
    /// The connection pool the queries run on.
    pub db: Db,
}

impl<Db> CardCommandRepository<Db> {
    /// A repository over the pool `db`.
    pub fn new(db: Db) -> (r: Self)
        ensures
            r.db == db,
    {
        Self { db }
    }

    /// The number of a new card, as generated for it; a failed generation is
    /// refused with "❌ error ketika gen card_number".
    pub fn generated_card_number<E>(&self, generated: Result<String, E>) -> (r: Result<
        String,
        RepositoryError,
    >)
        ensures
            match generated {
                Ok(n) => r == Ok::<String, RepositoryError>(n),
                Err(_) => r matches Err(RepositoryError::Custom(m)) && m@
                    == "❌ error ketika gen card_number"@,
            },
    {
        match generated {
            Ok(n) => Ok(n),
            Err(_) => Err(RepositoryError::Custom(String::from_str("❌ error ketika gen card_number"))),
        }
    }

    /// The card an update addresses; an update without one is refused with
    /// "card_id is required".
    pub fn card_id_for_update(&self, card_id: Option<i32>) -> (r: Result<i32, RepositoryError>)
        ensures
            match card_id {
                Some(id) => r == Ok::<i32, RepositoryError>(id),
                None => r matches Err(RepositoryError::Custom(m)) && m@ == "card_id is required"@,
            },
    {
        match card_id {
            Some(id) => Ok(id),
            None => Err(RepositoryError::Custom(String::from_str("card_id is required"))),
        }
    }
}

/// Sums transfer amounts, in all and per sending or receiving card.
pub struct CardDashboardTransferRepository<Db> {
    /// The connection pool the queries run on.
    pub db: Db,
}

impl<Db> CardDashboardTransferRepository<Db> {
    /// A repository over the pool `db`.
    pub fn new(db: Db) -> (r: Self)
        ensures
            r.db == db,
    {
        Self { db }
    }
}

/// Withdrawal amounts of one card per month and per year.
pub struct CardStatsWithdrawByCardRepository<Db> {
    /// The connection pool the queries run on.
    pub db: Db,
}

impl<Db> CardStatsWithdrawByCardRepository<Db> {
    /// A repository over the pool `db`.
    pub fn new(db: Db) -> (r: Self)
        ensures
            r.db == db,
    {
        Self { db }
    }

    /// The first day of the year the monthly withdrawal amounts of a card covers; a year outside what
    /// `chrono` represents is refused with "❌ Invalid year".
    pub fn monthly_amount_start(&self, year: i32) -> (r: Result<CalendarDate, RepositoryError>)
        ensures
            year_start_is(year, "❌ Invalid year"@, r),
    {
        year_start(year, "❌ Invalid year")
    }
}

} // verus!
