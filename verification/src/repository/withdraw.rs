//! The withdrawal repository.
use crate::errors::RepositoryError;
use crate::flow::{key_text, with_text};
use vstd::prelude::*;

verus! {

/// Reads withdrawal rows.
pub struct WithdrawQueryRepository<Db> {
    /// The connection pool the queries run on.
    pub db: Db,
}

impl<Db> WithdrawQueryRepository<Db> {
    /// A repository over the pool `db`.
    pub fn new(db: Db) -> (r: Self)
        ensures
            r.db == db,
    {
        Self { db }
    }

    /// The withdrawals of a card as found; none at all is refused with
    /// "No withdrawals found for card_number" and the card's number.
    pub fn withdrawals_of_card<T>(&self, card_number: &str, rows: Vec<T>) -> (r: Result<
        Vec<T>,
        RepositoryError,
    >)
        ensures
            rows.len() > 0 ==> r == Ok::<Vec<T>, RepositoryError>(rows),
            rows.len() == 0 ==> (r matches Err(RepositoryError::Custom(m)) && m@ == key_text(
                "No withdrawals found for card_number "@,
                card_number@,
            )),
    {
        if rows.len() == 0 {
            Err(
                RepositoryError::Custom(
                    with_text("No withdrawals found for card_number ", card_number),
                ),
            )
        } else {
            Ok(rows)
        }
    }
}

} // verus!
