//! Creating, changing and removing top-ups, and keeping the card's saldo in
//! step with them.
//!
//! Creating a top-up credits its amount to the saldo of its card; changing
//! one moves the saldo by the change of amount. When the saldo cannot be
//! found or updated, the top-up is marked `failed` (and a changed amount is
//! put back) before the error is reported.
use crate::errors::{RepositoryError, ServiceError, ServiceErrorView};
use crate::flow::{
    around, command_plan_is, key_around, key_num, key_text, or_custom, text, texts, with_num,
    with_text, CommandPlan, OnRepoError, OnRepoErrorView,
};
use crate::response::{responds, success, ApiResponse};
use crate::service::saldo::query::saldo_card_key;
use crate::service::topup::query::{topup_card_key, topup_id_key};
use crate::text::{mask_card_number, masked};
use vstd::prelude::*;

verus! {

/// The cache entries a new top-up of card `card_number` makes stale.
pub open spec fn created_stale_keys(card_number: Seq<char>) -> Seq<Seq<char>> {
    seq![
        key_around("topup:find_all_by_card_number:card:"@, masked(card_number), ":*"@),
        key_text("topup:find_by_card:card_number:"@, masked(card_number)),
        "topup:find_by_id:*"@,
        "topup:find_by_active:*"@,
        "topup:find_by_trashed:*"@,
        "topup:find_all:*"@,
        key_text("saldo:find_by_card:card_number:"@, masked(card_number)),
    ]
}

/// The cache entries a change of top-up `topup_id` of card `card_number`
/// makes stale.
pub open spec fn updated_stale_keys(topup_id: int, card_number: Seq<char>) -> Seq<Seq<char>> {
    seq![
        key_num("topup:find_by_id:id:"@, topup_id),
        key_text("topup:find_by_card:card_number:"@, masked(card_number)),
        key_around("topup:find_all_by_card_number:card:"@, masked(card_number), ":*"@),
        "topup:find_all:*"@,
        "topup:find_active:*"@,
        key_text("saldo:find_by_card:card_number:"@, masked(card_number)),
        "saldo:find_all:*"@,
        "saldo:find_active:*"@,
        key_text("card:find_by_card:number:"@, masked(card_number)),
    ]
}

/// A request to top up a card.
pub struct CreateTopupRequest {
    pub card_number: String,
    pub topup_amount: i64,
    pub topup_method: String,
}

/// A request to change a top-up.
pub struct UpdateTopupRequest {
    pub topup_id: Option<i32>,
    pub card_number: String,
    pub topup_amount: i64,
    pub topup_method: String,
}

/// The status a top-up is given when its processing ends.
pub enum TopupStatus {
    Success,
    Failed,
}

impl TopupStatus {
    /// The word stored for the status.
    pub fn as_str(&self) -> (r: &'static str)
        ensures
            *self is Success ==> r@ == "success"@,
            *self is Failed ==> r@ == "failed"@,
    {
        match self {
            TopupStatus::Success => "success",
            TopupStatus::Failed => "failed",
        }
    }
}

/// What a top-up operation does after a saldo step.
#[derive(Debug)]
pub enum TopupStep {
    /// Store `total_balance` as the card's saldo.
    UpdateBalance { total_balance: i64 },
    /// Mark the top-up `success`.
    MarkSuccess { topup_id: i32 },
    /// Make the writes [`compensating_writes`] gives for `topup_id` and
    /// `restore_amount` (ignoring whether they work), then answer with
    /// `error`.
    Compensate { topup_id: i32, restore_amount: Option<i64>, error: ServiceError },
}

/// `step` compensates top-up `topup_id` with this restored amount and error.
pub open spec fn compensates(
    step: TopupStep,
    topup_id: i32,
    restore_amount: Option<i64>,
    error: ServiceErrorView,
) -> bool {
    step matches TopupStep::Compensate { topup_id: t, restore_amount: a, error: e } && t
        == topup_id && a == restore_amount && e@ == error
}

/// A write that undoes part of a top-up whose saldo step failed.
pub enum CompensatingWrite {
    /// Put the top-up's amount back to `topup_amount`.
    RestoreAmount { topup_id: i32, topup_amount: i64 },
    /// Mark the top-up `failed`.
    MarkFailed { topup_id: i32 },
}

/// `writes` are the compensating writes, in order, of top-up `topup_id`:
/// its amount is put back first (when there is one to put back), then it is
/// marked failed.
pub open spec fn compensation_is(
    topup_id: i32,
    restore_amount: Option<i64>,
    writes: Seq<CompensatingWrite>,
) -> bool {
    match restore_amount {
        Some(a) => writes == seq![
            CompensatingWrite::RestoreAmount { topup_id, topup_amount: a },
            CompensatingWrite::MarkFailed { topup_id },
        ],
        None => writes == seq![CompensatingWrite::MarkFailed { topup_id }],
    }
}

/// The writes, in order, that a [`TopupStep::Compensate`] of top-up
/// `topup_id` with `restore_amount` asks for.
pub fn compensating_writes(topup_id: i32, restore_amount: Option<i64>) -> (r: Vec<
    CompensatingWrite,
>)
    ensures
        compensation_is(topup_id, restore_amount, r@),
{
    let mut writes: Vec<CompensatingWrite> = Vec::new();
    if let Some(a) = restore_amount {
        writes.push(CompensatingWrite::RestoreAmount { topup_id, topup_amount: a });
    }
    writes.push(CompensatingWrite::MarkFailed { topup_id });
    proof {
        match restore_amount {
            Some(a) => {
                assert(writes@ =~= seq![
                    CompensatingWrite::RestoreAmount { topup_id, topup_amount: a },
                    CompensatingWrite::MarkFailed { topup_id },
                ]);
            },
            None => {
                assert(writes@ =~= seq![CompensatingWrite::MarkFailed { topup_id }]);
            },
        }
    }
    writes
}

/// The dependencies of a [`TopupCommandService`].
pub struct TopupCommandServiceDeps<CQ, SQ, SC, Q, Cm, C> {
    pub card_query: CQ,
    pub saldo_query: SQ,
    pub saldo_command: SC,
    pub query: Q,
    pub command: Cm,
    pub cache_store: C,
}

/// Top-up commands over the card, saldo and top-up repositories and a cache.
pub struct TopupCommandService<CQ, SQ, SC, Q, Cm, C> {
    pub card_query: CQ,
    pub saldo_query: SQ,
    pub saldo_command: SC,
    pub query: Q,
    pub command: Cm,
    pub cache_store: C,
}

/// The saldo after crediting `amount` to `balance`.
pub open spec fn credited(balance: i64, amount: i64) -> int {
    balance + amount
}

impl<CQ, SQ, SC, Q, Cm, C> TopupCommandService<CQ, SQ, SC, Q, Cm, C> {
    /// The service over the given dependencies.
    pub fn new(deps: TopupCommandServiceDeps<CQ, SQ, SC, Q, Cm, C>) -> (r: Self)
        ensures
            r.card_query == deps.card_query,
            r.saldo_query == deps.saldo_query,
            r.saldo_command == deps.saldo_command,
            r.query == deps.query,
            r.command == deps.command,
            r.cache_store == deps.cache_store,
    {
        let TopupCommandServiceDeps {
            card_query,
            saldo_query,
            saldo_command,
            query,
            command,
            cache_store,
        } = deps;
        TopupCommandService { card_query, saldo_query, saldo_command, query, command, cache_store }
    }

    /// Creating: after looking the card up. An unknown card refuses.
    pub fn create_after_card<T>(card: Result<T, RepositoryError>) -> (r: Result<T, ServiceError>)
        ensures
            match card {
                Ok(c) => r == Ok::<T, ServiceError>(c),
                Err(_) => r matches Err(se) && se@ == ServiceErrorView::Custom("card not found"@),
            },
    {
        or_custom(card, "card not found")
    }

    /// Creating: after inserting the top-up. A failure refuses; the new
    /// top-up's id goes on.
    pub fn create_after_insert(created: Result<i32, RepositoryError>) -> (r: Result<
        i32,
        ServiceError,
    >)
        ensures
            match created {
                Ok(id) => r == Ok::<i32, ServiceError>(id),
                Err(_) => r matches Err(se) && se@ == ServiceErrorView::Custom(
                    "failed to create topup"@,
                ),
            },
    {
        or_custom(created, "failed to create topup")
    }

    /// Creating: after looking the card's saldo up. The amount is credited to
    /// it; without a saldo the top-up is marked failed.
    pub fn create_after_saldo(topup_id: i32, topup_amount: i64, saldo: Result<
        i64,
        RepositoryError,
    >) -> (r: TopupStep)
        requires
            saldo matches Ok(b) ==> i64::MIN <= credited(b, topup_amount) <= i64::MAX,
        ensures
            match saldo {
                Ok(b) => r == TopupStep::UpdateBalance {
                    total_balance: credited(b, topup_amount) as i64,
                },
                Err(_) => compensates(
                    r,
                    topup_id,
                    None,
                    ServiceErrorView::Custom("saldo not found"@),
                ),
            },
    {
        match saldo {
            Ok(b) => TopupStep::UpdateBalance { total_balance: b + topup_amount },
            Err(_) => TopupStep::Compensate {
                topup_id,
                restore_amount: None,
                error: ServiceError::Custom(text("saldo not found")),
            },
        }
    }

    /// Creating: after storing the new saldo. The top-up is then marked
    /// successful; a failed saldo update marks it failed.
    pub fn create_after_balance(topup_id: i32, updated: Result<(), RepositoryError>) -> (r:
        TopupStep)
        ensures
            match updated {
                Ok(_) => r == TopupStep::MarkSuccess { topup_id },
                Err(_) => compensates(
                    r,
                    topup_id,
                    None,
                    ServiceErrorView::Custom("failed to update saldo"@),
                ),
            },
    {
        match updated {
            Ok(_) => TopupStep::MarkSuccess { topup_id },
            Err(_) => TopupStep::Compensate {
                topup_id,
                restore_amount: None,
                error: ServiceError::Custom(text("failed to update saldo")),
            },
        }
    }

    /// Creating: after marking the top-up successful. A failure refuses.
    pub fn create_after_status(marked: Result<(), RepositoryError>) -> (r: Result<
        (),
        ServiceError,
    >)
        ensures
            match marked {
                Ok(_) => r is Ok,
                Err(_) => r matches Err(se) && se@ == ServiceErrorView::Custom(
                    "failed to update topup status"@,
                ),
            },
    {
        or_custom(marked, "failed to update topup status")
    }

    /// Creating: the answer, and the cache entries the new top-up makes stale.
    pub fn create_success<T>(card_number: &str, topup: T) -> (r: (ApiResponse<T>, Vec<String>))
        ensures
            responds(r.0, "Topup berhasil diproses"@, topup),
            texts(r.1@) == created_stale_keys(card_number@),
    {
        let m = mask_card_number(card_number);
        let mut keys: Vec<String> = Vec::new();
        keys.push(around("topup:find_all_by_card_number:card:", m.as_str(), ":*"));
        keys.push(with_text("topup:find_by_card:card_number:", m.as_str()));
        keys.push(text("topup:find_by_id:*"));
        keys.push(text("topup:find_by_active:*"));
        keys.push(text("topup:find_by_trashed:*"));
        keys.push(text("topup:find_all:*"));
        keys.push(with_text("saldo:find_by_card:card_number:", m.as_str()));
        assert(texts(keys@) =~= created_stale_keys(card_number@));
        (success(text("Topup berhasil diproses"), topup), keys)
    }

    /// Changing: the top-up to change, or a refusal when the request names
    /// none.
    pub fn update_topup_id(req: &UpdateTopupRequest) -> (r: Result<i32, ServiceError>)
        ensures
            match req.topup_id {
                Some(id) => r == Ok::<i32, ServiceError>(id),
                None => r matches Err(se) && se@ == ServiceErrorView::Custom(
                    "topup_id is required"@,
                ),
            },
    {
        crate::flow::require_id(req.topup_id, "topup_id is required")
    }

    /// Changing: after looking the card up. An unknown card marks the top-up
    /// failed and refuses.
    pub fn update_after_card<T>(topup_id: i32, card: Result<T, RepositoryError>) -> (r: Result<
        T,
        TopupStep,
    >)
        ensures
            match card {
                Ok(c) => r == Ok::<T, TopupStep>(c),
                Err(_) => r matches Err(step) && compensates(
                    step,
                    topup_id,
                    None,
                    ServiceErrorView::Custom("card not found"@),
                ),
            },
    {
        match card {
            Ok(c) => Ok(c),
            Err(_) => Err(
                TopupStep::Compensate {
                    topup_id,
                    restore_amount: None,
                    error: ServiceError::Custom(text("card not found")),
                },
            ),
        }
    }

    /// Changing: after reading the stored top-up. A failure refuses; the
    /// stored amount goes on.
    pub fn update_after_existing(existing: Result<i64, RepositoryError>) -> (r: Result<
        i64,
        ServiceError,
    >)
        ensures
            match existing {
                Ok(a) => r == Ok::<i64, ServiceError>(a),
                Err(_) => r matches Err(se) && se@ == ServiceErrorView::Custom("Database error"@),
            },
    {
        or_custom(existing, "Database error")
    }

    /// Changing: after writing the changed top-up. A failure marks it failed
    /// and refuses.
    pub fn update_after_write(topup_id: i32, written: Result<(), RepositoryError>) -> (r: Result<
        (),
        TopupStep,
    >)
        ensures
            match written {
                Ok(_) => r is Ok,
                Err(_) => r matches Err(step) && compensates(
                    step,
                    topup_id,
                    None,
                    ServiceErrorView::Custom("failed to update topup"@),
                ),
            },
    {
        match written {
            Ok(_) => Ok(()),
            Err(_) => Err(
                TopupStep::Compensate {
                    topup_id,
                    restore_amount: None,
                    error: ServiceError::Custom(text("failed to update topup")),
                },
            ),
        }
    }

    /// Changing: after looking the card's saldo up. The saldo moves by the
    /// change of amount; without a saldo the top-up is marked failed.
    pub fn update_after_saldo(
        topup_id: i32,
        new_amount: i64,
        old_amount: i64,
        saldo: Result<i64, RepositoryError>,
    ) -> (r: TopupStep)
        requires
            i64::MIN <= new_amount - old_amount <= i64::MAX,
            saldo matches Ok(b) ==> i64::MIN <= b + (new_amount - old_amount) <= i64::MAX,
        ensures
            match saldo {
                Ok(b) => r == TopupStep::UpdateBalance {
                    total_balance: (b + (new_amount - old_amount)) as i64,
                },
                Err(_) => compensates(
                    r,
                    topup_id,
                    None,
                    ServiceErrorView::Custom("saldo not found"@),
                ),
            },
    {
        let difference = new_amount - old_amount;
        match saldo {
            Ok(b) => TopupStep::UpdateBalance { total_balance: b + difference },
            Err(_) => TopupStep::Compensate {
                topup_id,
                restore_amount: None,
                error: ServiceError::Custom(text("saldo not found")),
            },
        }
    }

    /// Changing: after storing the new saldo. A failure puts the old amount
    /// back, marks the top-up failed and refuses.
    pub fn update_after_balance(topup_id: i32, old_amount: i64, updated: Result<
        (),
        RepositoryError,
    >) -> (r: Result<(), TopupStep>)
        ensures
            match updated {
                Ok(_) => r is Ok,
                Err(_) => r matches Err(step) && compensates(
                    step,
                    topup_id,
                    Some(old_amount),
                    ServiceErrorView::Custom("failed to update saldo"@),
                ),
            },
    {
        match updated {
            Ok(_) => Ok(()),
            Err(_) => Err(
                TopupStep::Compensate {
                    topup_id,
                    restore_amount: Some(old_amount),
                    error: ServiceError::Custom(text("failed to update saldo")),
                },
            ),
        }
    }

    /// Changing: after reading the changed top-up back. A failure refuses
    /// with its description; otherwise the re-read top-up goes on and the
    /// next step marks it successful.
    pub fn update_after_reread<T>(topup_id: i32, reread: Result<T, RepositoryError>) -> (r:
        Result<(T, TopupStep), ServiceError>)
        ensures
            match reread {
                Ok(t) => r == Ok::<(T, TopupStep), ServiceError>(
                    (t, TopupStep::MarkSuccess { topup_id }),
                ),
                Err(e) => r matches Err(se) && se@ == ServiceErrorView::Custom(
                    crate::errors::describe(e@),
                ),
            },
    {
        match reread {
            Ok(t) => Ok((t, TopupStep::MarkSuccess { topup_id })),
            Err(e) => Err(ServiceError::Custom(e.describe())),
        }
    }

    /// Changing: after marking the top-up successful. A failure refuses.
    pub fn update_after_status(marked: Result<(), RepositoryError>) -> (r: Result<
        (),
        ServiceError,
    >)
        ensures
            match marked {
                Ok(_) => r is Ok,
                Err(_) => r matches Err(se) && se@ == ServiceErrorView::Custom(
                    "failed to update topup status"@,
                ),
            },
    {
        or_custom(marked, "failed to update topup status")
    }

    /// Changing: the answer, and the cache entries the change makes stale.
    pub fn update_success<T>(topup_id: i32, card_number: &str, topup: T) -> (r: (
        ApiResponse<T>,
        Vec<String>,
    ))
        ensures
            responds(r.0, "Topup berhasil diperbarui"@, topup),
            texts(r.1@) == updated_stale_keys(topup_id as int, card_number@),
    {
        let m = mask_card_number(card_number);
        let mut keys: Vec<String> = Vec::new();
        keys.push(with_num("topup:find_by_id:id:", topup_id as i64));
        keys.push(with_text("topup:find_by_card:card_number:", m.as_str()));
        keys.push(around("topup:find_all_by_card_number:card:", m.as_str(), ":*"));
        keys.push(text("topup:find_all:*"));
        keys.push(text("topup:find_active:*"));
        keys.push(with_text("saldo:find_by_card:card_number:", m.as_str()));
        keys.push(text("saldo:find_all:*"));
        keys.push(text("saldo:find_active:*"));
        keys.push(with_text("card:find_by_card:number:", m.as_str()));
        assert(texts(keys@) =~= updated_stale_keys(topup_id as int, card_number@));
        (success(text("Topup berhasil diperbarui"), topup), keys)
    }

    /// Moving a top-up to the trash: answer and stale entries, or the failure.
    /// The card number is the trashed top-up's.
    pub fn trashed(&self, topup_id: i32, card_number: &str) -> (r: CommandPlan)
        ensures
            command_plan_is(
                r,
                "Topup trashed successfully"@,
                OnRepoErrorView::Custom(key_num("Failed to trash topup with id "@, topup_id as int)),
                seq![
                    key_num("topup:find_by_id:id:"@, topup_id as int),
                    key_text("topup:find_by_card:card_number:"@, card_number@),
                    "topup:find_active:*"@,
                    "topup:find_all:*"@,
                    "topup:find_trashed:*"@,
                ],
            ),
    {
        let mut keys: Vec<String> = Vec::new();
        keys.push(with_num("topup:find_by_id:id:", topup_id as i64));
        keys.push(with_text("topup:find_by_card:card_number:", card_number));
        keys.push(text("topup:find_active:*"));
        keys.push(text("topup:find_all:*"));
        keys.push(text("topup:find_trashed:*"));
        let r = CommandPlan::new(
            text("Topup trashed successfully"),
            OnRepoError::Custom(with_num("Failed to trash topup with id ", topup_id as i64)),
            keys,
        );
        assert(texts(r.invalidate@) =~= seq![
            key_num("topup:find_by_id:id:"@, topup_id as int),
            key_text("topup:find_by_card:card_number:"@, card_number@),
            "topup:find_active:*"@,
            "topup:find_all:*"@,
            "topup:find_trashed:*"@,
        ]);
        r
    }

    /// Restoring a top-up from the trash: answer and stale entries, or the
    /// failure. The card number is the restored top-up's.
    pub fn restore(&self, topup_id: i32, card_number: &str) -> (r: CommandPlan)
        ensures
            command_plan_is(
                r,
                "Topup restored successfully"@,
                OnRepoErrorView::Custom(
                    key_num("Failed to restore topup with id "@, topup_id as int),
                ),
                seq![
                    key_num("topup:find_by_id:id:"@, topup_id as int),
                    key_text("topup:find_by_card:card_number:"@, card_number@),
                    "topup:find_active:*"@,
                    "topup:find_all:*"@,
                    "topup:find_trashed:*"@,
                ],
            ),
    {
        let mut keys: Vec<String> = Vec::new();
        keys.push(with_num("topup:find_by_id:id:", topup_id as i64));
        keys.push(with_text("topup:find_by_card:card_number:", card_number));
        keys.push(text("topup:find_active:*"));
        keys.push(text("topup:find_all:*"));
        keys.push(text("topup:find_trashed:*"));
        let r = CommandPlan::new(
            text("Topup restored successfully"),
            OnRepoError::Custom(with_num("Failed to restore topup with id ", topup_id as i64)),
            keys,
        );
        assert(texts(r.invalidate@) =~= seq![
            key_num("topup:find_by_id:id:"@, topup_id as int),
            key_text("topup:find_by_card:card_number:"@, card_number@),
            "topup:find_active:*"@,
            "topup:find_all:*"@,
            "topup:find_trashed:*"@,
        ]);
        r
    }

    /// Deleting a trashed top-up for good.
    pub fn delete_permanent(&self, topup_id: i32) -> (r: CommandPlan)
        ensures
            command_plan_is(
                r,
                "Topup permanently deleted"@,
                OnRepoErrorView::Custom(
                    key_num("Failed to permanently delete topup with id "@, topup_id as int),
                ),
                seq![key_num("topup:find_by_id:id:"@, topup_id as int), "topup:find_trashed:*"@],
            ),
    {
        let mut keys: Vec<String> = Vec::new();
        keys.push(with_num("topup:find_by_id:id:", topup_id as i64));
        keys.push(text("topup:find_trashed:*"));
        let r = CommandPlan::new(
            text("Topup permanently deleted"),
            OnRepoError::Custom(
                with_num("Failed to permanently delete topup with id ", topup_id as i64),
            ),
            keys,
        );
        assert(texts(r.invalidate@) =~= seq![
            key_num("topup:find_by_id:id:"@, topup_id as int),
            "topup:find_trashed:*"@,
        ]);
        r
    }

    /// Restoring every trashed top-up.
    pub fn restore_all(&self) -> (r: CommandPlan)
        ensures
            command_plan_is(
                r,
                "All topups restored successfully"@,
                OnRepoErrorView::Custom("Failed to restore all trashed topups"@),
                seq!["topup:find_active:*"@, "topup:find_all:*"@, "topup:find_trashed:*"@],
            ),
    {
        let mut keys: Vec<String> = Vec::new();
        keys.push(text("topup:find_active:*"));
        keys.push(text("topup:find_all:*"));
        keys.push(text("topup:find_trashed:*"));
        let r = CommandPlan::new(
            text("All topups restored successfully"),
            OnRepoError::Custom(text("Failed to restore all trashed topups")),
            keys,
        );
        assert(texts(r.invalidate@) =~= seq![
            "topup:find_active:*"@,
            "topup:find_all:*"@,
            "topup:find_trashed:*"@,
        ]);
        r
    }

    /// Deleting every trashed top-up for good.
    pub fn delete_all(&self) -> (r: CommandPlan)
        ensures
            command_plan_is(
                r,
                "All topups permanently deleted"@,
                OnRepoErrorView::Custom("Failed to permanently delete all trashed topups"@),
                seq!["topup:find_trashed:*"@, "topup:find_active:*"@, "topup:find_all:*"@],
            ),
    {
        let mut keys: Vec<String> = Vec::new();
        keys.push(text("topup:find_trashed:*"));
        keys.push(text("topup:find_active:*"));
        keys.push(text("topup:find_all:*"));
        let r = CommandPlan::new(
            text("All topups permanently deleted"),
            OnRepoError::Custom(text("Failed to permanently delete all trashed topups")),
            keys,
        );
        assert(texts(r.invalidate@) =~= seq![
            "topup:find_trashed:*"@,
            "topup:find_active:*"@,
            "topup:find_all:*"@,
        ]);
        r
    }
}

/// A top-up that was created moves the card's saldo by exactly its amount,
/// and a change of amount moves it by exactly the change: crediting a new
/// amount after taking back the old one lands on the same saldo.
pub proof fn law_saldo_follows_topups(balance: i64, old_amount: i64, new_amount: i64)
    ensures
        credited(balance, old_amount) + (new_amount - old_amount) == balance + new_amount,
{
}

/// Creating or changing a top-up leaves no stale answer behind for the
/// lookups of its card: the cached top-ups of the card and the cached saldo
/// of the card are among the entries each makes stale, and a change also
/// makes the cached top-up itself stale.
pub proof fn law_topup_writes_refresh_card_reads(topup_id: int, card_number: Seq<char>)
    ensures
        created_stale_keys(card_number).contains(topup_card_key(card_number)),
        created_stale_keys(card_number).contains(saldo_card_key(card_number)),
        updated_stale_keys(topup_id, card_number).contains(topup_card_key(card_number)),
        updated_stale_keys(topup_id, card_number).contains(saldo_card_key(card_number)),
        updated_stale_keys(topup_id, card_number).contains(topup_id_key(topup_id)),
{
    assert(created_stale_keys(card_number)[1] == topup_card_key(card_number));
    assert(created_stale_keys(card_number)[6] == saldo_card_key(card_number));
    assert(updated_stale_keys(topup_id, card_number)[0] == topup_id_key(topup_id));
    assert(updated_stale_keys(topup_id, card_number)[1] == topup_card_key(card_number));
    assert(updated_stale_keys(topup_id, card_number)[5] == saldo_card_key(card_number));
}

} // verus!
