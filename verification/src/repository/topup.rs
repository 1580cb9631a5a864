//! The top-up repositories.
use crate::errors::RepositoryError;
use crate::flow::{key_num, key_text, with_num, with_text};
use crate::repository::calendar::{year_start, year_start_is, CalendarDate};
use vstd::prelude::*;

verus! {

/// Reads top-up rows.
pub struct TopupQueryRepository<Db> {
    /// The connection pool the queries run on.
    pub db: Db,
}

impl<Db> TopupQueryRepository<Db> {
    /// A repository over the pool `db`.
    pub fn new(db: Db) -> (r: Self)
        ensures
            r.db == db,
    {
        Self { db }
    }

    /// The top-ups of a card as found; none at all is refused with
    /// "No topups found for card_number" and the card's number.
    pub fn topups_of_card<T>(&self, card_number: &str, rows: Vec<T>) -> (r: Result<
        Vec<T>,
        RepositoryError,
    >)
        ensures
            rows.len() > 0 ==> r == Ok::<Vec<T>, RepositoryError>(rows),
            rows.len() == 0 ==> (r matches Err(RepositoryError::Custom(m)) && m@ == key_text(
                "No topups found for card_number "@,
                card_number@,
            )),
    {
        if rows.len() == 0 {
            Err(RepositoryError::Custom(with_text("No topups found for card_number ", card_number)))
        } else {
            Ok(rows)
        }
    }

    /// The top-up with id `id` as found; a missing one is refused with
    /// "Topup with ID <id> not found".
    pub fn topup_with_id<T>(&self, id: i32, row: Option<T>) -> (r: Result<T, RepositoryError>)
        ensures
            match row {
                Some(t) => r == Ok::<T, RepositoryError>(t),
                None => r matches Err(RepositoryError::Custom(m)) && m@ == key_num(
                    "Topup with ID "@,
                    id as int,
                ) + " not found"@,
            },
    {
        match row {
            Some(t) => Ok(t),
            None => {
                let mut m = with_num("Topup with ID ", id as i64);
                m.append(" not found");
                Err(RepositoryError::Custom(m))
            },
        }
    }
}

/// Top-up methods of one card per month and per year.
pub struct TopupStatsMethodByCardRepository<Db> {
    /// The connection pool the queries run on.
    pub db: Db,
}

impl<Db> TopupStatsMethodByCardRepository<Db> {
    /// A repository over the pool `db`.
    pub fn new(db: Db) -> (r: Self)
        ensures
            r.db == db,
    {
        Self { db }
    }

    /// The first day of the year the monthly top-up methods of a card covers; a year outside what
    /// `chrono` represents is refused with "Invalid year".
    pub fn monthly_methods_start(&self, year: i32) -> (r: Result<CalendarDate, RepositoryError>)
        ensures
            year_start_is(year, "Invalid year"@, r),
    {
        year_start(year, "Invalid year")
    }
}

} // verus!
