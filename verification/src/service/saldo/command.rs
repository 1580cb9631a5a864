//! Creating, changing and removing saldos.
use crate::context::{share, SharedResources};
use crate::errors::{RepositoryError, ServiceError, ServiceErrorView};
use crate::service::saldo::query::{saldo_card_key, saldo_id_key};
use crate::flow::{command_plan_is, or_custom, require_id, text, texts, CommandPlan, OnRepoError, OnRepoErrorView};
use crate::text::{decimal, mask_card_number, masked, push_decimal};
use std::sync::Arc;
use vstd::prelude::*;

verus! {

/// The cache entries a new saldo `saldo_id` of card `card_number` makes stale.
pub open spec fn saldo_created_stale_keys(card_number: Seq<char>, saldo_id: int) -> Seq<Seq<char>> {
    seq![
        "saldo:find_by_card:card_number:"@ + masked(card_number),
        "saldo:find_by_id:id:"@ + decimal(saldo_id),
        "saldo:find_all:*"@,
        "saldo:find_by_active:*"@,
    ]
}

/// The cache entries a change of saldo `saldo_id` of card `card_number` makes
/// stale.
pub open spec fn saldo_updated_stale_keys(saldo_id: int, card_number: Seq<char>) -> Seq<Seq<char>> {
    seq![
        "saldo:find_by_id:id:"@ + decimal(saldo_id),
        "saldo:find_by_card:card_number:"@ + masked(card_number),
        "saldo:find_all:*"@,
        "saldo:find_by_active:*"@,
    ]
}

/// The repositories a [`SaldoCommandService`] works with.
pub struct SaldoCommandServiceDeps<CardQuery, Command> {
    pub card_query: CardQuery,
    pub command: Command,
}

/// Saldo commands over the card and saldo repositories and the shared cache.
pub struct SaldoCommandService<CardQuery, Command, Metrics, Cache> {
    pub card_query: CardQuery,
    pub command: Command,
    pub tracing_metrics_core: Arc<Metrics>,
    pub cache_store: Arc<Cache>,
}

impl<CardQuery, Command, Metrics, Cache> SaldoCommandService<CardQuery, Command, Metrics, Cache> {
    /// The service over the given repositories and shared resources.
    pub fn new(deps: SaldoCommandServiceDeps<CardQuery, Command>, shared: &SharedResources<Metrics, Cache>) -> (r: Self)
        ensures
            r.card_query == deps.card_query,
            r.command == deps.command,
            r.tracing_metrics_core == shared.tracing_metrics,
            r.cache_store == shared.cache_store,
    {
        let SaldoCommandServiceDeps { card_query, command } = deps;
        SaldoCommandService {
            card_query,
            command,
            tracing_metrics_core: share(&shared.tracing_metrics),
            cache_store: share(&shared.cache_store),
        }
    }

    /// Creating: after looking the card up. An unknown card refuses.
    pub fn create_after_card<T>(&self, found: Result<T, RepositoryError>) -> (r: Result<T, ServiceError>)
        ensures
            match found {
                Ok(v) => r == Ok::<T, ServiceError>(v),
                Err(_) => r matches Err(se) && se@ == ServiceErrorView::Custom("Card not found"@),
            },
    {
        or_custom(found, "Card not found")
    }

    /// Creating the saldo of card `card_number`; `saldo_id` is the new saldo's.
    pub fn create(&self, card_number: &str, saldo_id: i32) -> (r_ok: CommandPlan)
        ensures
            command_plan_is(
                r_ok,
                "Saldo created successfully"@,
                OnRepoErrorView::Custom("Failed to create saldo"@),
                saldo_created_stale_keys(card_number@, saldo_id as int),
            ),
    {
        let masked_0 = mask_card_number(card_number);
        let message = text("Saldo created successfully");
        let policy_text = text("Failed to create saldo");
        let on_error = OnRepoError::Custom(policy_text);
        let mut keys: Vec<String> = Vec::new();
        let mut key_0 = text("saldo:find_by_card:card_number:");
        key_0.append(masked_0.as_str());
        keys.push(key_0);
        let mut key_1 = text("saldo:find_by_id:id:");
        push_decimal(&mut key_1, saldo_id as i64);
        keys.push(key_1);
        let key_2 = text("saldo:find_all:*");
        keys.push(key_2);
        let key_3 = text("saldo:find_by_active:*");
        keys.push(key_3);
        let plan = CommandPlan::new(message, on_error, keys);
        assert(texts(plan.invalidate@) =~= saldo_created_stale_keys(card_number@, saldo_id as int));
        plan
    }

    /// Changing: the saldo to change, or a refusal when the request names none.
    pub fn update_saldo_id(&self, id: Option<i32>) -> (r: Result<i32, ServiceError>)
        ensures
            match id {
                Some(v) => r == Ok::<i32, ServiceError>(v),
                None => r matches Err(se) && se@ == ServiceErrorView::Custom("saldo_id is required"@),
            },
    {
        require_id(id, "saldo_id is required")
    }

    /// Changing: after looking the card up. An unknown card refuses.
    pub fn update_after_card<T>(&self, found: Result<T, RepositoryError>) -> (r: Result<T, ServiceError>)
        ensures
            match found {
                Ok(v) => r == Ok::<T, ServiceError>(v),
                Err(_) => r matches Err(se) && se@ == ServiceErrorView::Custom("Card not found"@),
            },
    {
        or_custom(found, "Card not found")
    }

    /// Changing saldo `saldo_id` of card `card_number`.
    pub fn update(&self, saldo_id: i32, card_number: &str) -> (r_ok: CommandPlan)
        ensures
            command_plan_is(
                r_ok,
                "Saldo updated successfully"@,
                OnRepoErrorView::Custom("Failed to update saldo"@),
                saldo_updated_stale_keys(saldo_id as int, card_number@),
            ),
    {
        let masked_0 = mask_card_number(card_number);
        let message = text("Saldo updated successfully");
        let policy_text = text("Failed to update saldo");
        let on_error = OnRepoError::Custom(policy_text);
        let mut keys: Vec<String> = Vec::new();
        let mut key_0 = text("saldo:find_by_id:id:");
        push_decimal(&mut key_0, saldo_id as i64);
        keys.push(key_0);
        let mut key_1 = text("saldo:find_by_card:card_number:");
        key_1.append(masked_0.as_str());
        keys.push(key_1);
        let key_2 = text("saldo:find_all:*");
        keys.push(key_2);
        let key_3 = text("saldo:find_by_active:*");
        keys.push(key_3);
        let plan = CommandPlan::new(message, on_error, keys);
        assert(texts(plan.invalidate@) =~= saldo_updated_stale_keys(saldo_id as int, card_number@));
        plan
    }

    /// Moving saldo `id` to the trash; `card_number` is the trashed saldo's.
    pub fn trash(&self, id: i32, card_number: &str) -> (r_ok: CommandPlan)
        ensures
            command_plan_is(
                r_ok,
                "Saldo trashed successfully"@,
                OnRepoErrorView::Custom("Failed to trash saldo"@),
                seq![
                    "saldo:find_by_id:id:"@ + decimal(id as int),
                    "saldo:find_by_card:card_number:"@ + card_number@,
                    "saldo:find_all:*"@,
                    "saldo:find_by_active:*"@,
                    "saldo:find_by_trashed:*"@,
                ],
            ),
    {
        let message = text("Saldo trashed successfully");
        let policy_text = text("Failed to trash saldo");
        let on_error = OnRepoError::Custom(policy_text);
        let mut keys: Vec<String> = Vec::new();
        let mut key_0 = text("saldo:find_by_id:id:");
        push_decimal(&mut key_0, id as i64);
        keys.push(key_0);
        let mut key_1 = text("saldo:find_by_card:card_number:");
        key_1.append(card_number);
        keys.push(key_1);
        let key_2 = text("saldo:find_all:*");
        keys.push(key_2);
        let key_3 = text("saldo:find_by_active:*");
        keys.push(key_3);
        let key_4 = text("saldo:find_by_trashed:*");
        keys.push(key_4);
        let plan = CommandPlan::new(message, on_error, keys);
        assert(texts(plan.invalidate@) =~= seq![
            "saldo:find_by_id:id:"@ + decimal(id as int),
            "saldo:find_by_card:card_number:"@ + card_number@,
            "saldo:find_all:*"@,
            "saldo:find_by_active:*"@,
            "saldo:find_by_trashed:*"@,
        ]);
        plan
    }

    /// Restoring saldo `id` from the trash; `card_number` is the restored saldo's.
    pub fn restore(&self, id: i32, card_number: &str) -> (r_ok: CommandPlan)
        ensures
            command_plan_is(
                r_ok,
                "Saldo restored successfully"@,
                OnRepoErrorView::Custom("Failed to restore saldo"@),
                seq![
                    "saldo:find_by_id:id:"@ + decimal(id as int),
                    "saldo:find_by_card:card_number:"@ + card_number@,
                    "saldo:find_all:*"@,
                    "saldo:find_by_active:*"@,
                    "saldo:find_by_trashed:*"@,
                ],
            ),
    {
        let message = text("Saldo restored successfully");
        let policy_text = text("Failed to restore saldo");
        let on_error = OnRepoError::Custom(policy_text);
        let mut keys: Vec<String> = Vec::new();
        let mut key_0 = text("saldo:find_by_id:id:");
        push_decimal(&mut key_0, id as i64);
        keys.push(key_0);
        let mut key_1 = text("saldo:find_by_card:card_number:");
        key_1.append(card_number);
        keys.push(key_1);
        let key_2 = text("saldo:find_all:*");
        keys.push(key_2);
        let key_3 = text("saldo:find_by_active:*");
        keys.push(key_3);
        let key_4 = text("saldo:find_by_trashed:*");
        keys.push(key_4);
        let plan = CommandPlan::new(message, on_error, keys);
        assert(texts(plan.invalidate@) =~= seq![
            "saldo:find_by_id:id:"@ + decimal(id as int),
            "saldo:find_by_card:card_number:"@ + card_number@,
            "saldo:find_all:*"@,
            "saldo:find_by_active:*"@,
            "saldo:find_by_trashed:*"@,
        ]);
        plan
    }

    /// Deleting saldo `id` for good.
    pub fn delete(&self, id: i32) -> (r_ok: CommandPlan)
        ensures
            command_plan_is(
                r_ok,
                "Saldo permanently deleted"@,
                OnRepoErrorView::Custom("Failed to permanently delete saldo"@),
                seq![
                    "saldo:find_by_id:id:"@ + decimal(id as int),
                    "saldo:find_by_trashed:*"@,
                    "saldo:find_by_active:*"@,
                    "saldo:find_all:*"@,
                ],
            ),
    {
        let message = text("Saldo permanently deleted");
        let policy_text = text("Failed to permanently delete saldo");
        let on_error = OnRepoError::Custom(policy_text);
        let mut keys: Vec<String> = Vec::new();
        let mut key_0 = text("saldo:find_by_id:id:");
        push_decimal(&mut key_0, id as i64);
        keys.push(key_0);
        let key_1 = text("saldo:find_by_trashed:*");
        keys.push(key_1);
        let key_2 = text("saldo:find_by_active:*");
        keys.push(key_2);
        let key_3 = text("saldo:find_all:*");
        keys.push(key_3);
        let plan = CommandPlan::new(message, on_error, keys);
        assert(texts(plan.invalidate@) =~= seq![
            "saldo:find_by_id:id:"@ + decimal(id as int),
            "saldo:find_by_trashed:*"@,
            "saldo:find_by_active:*"@,
            "saldo:find_all:*"@,
        ]);
        plan
    }

    /// Restoring every trashed saldo.
    pub fn restore_all(&self) -> (r_ok: CommandPlan)
        ensures
            command_plan_is(
                r_ok,
                "All saldos restored successfully"@,
                OnRepoErrorView::Custom("Failed to restore all saldos"@),
                seq![
                    "saldo:find_by_trashed:*"@,
                    "saldo:find_by_active:*"@,
                    "saldo:find_all:*"@,
                ],
            ),
    {
        let message = text("All saldos restored successfully");
        let policy_text = text("Failed to restore all saldos");
        let on_error = OnRepoError::Custom(policy_text);
        let mut keys: Vec<String> = Vec::new();
        let key_0 = text("saldo:find_by_trashed:*");
        keys.push(key_0);
        let key_1 = text("saldo:find_by_active:*");
        keys.push(key_1);
        let key_2 = text("saldo:find_all:*");
        keys.push(key_2);
        let plan = CommandPlan::new(message, on_error, keys);
        assert(texts(plan.invalidate@) =~= seq![
            "saldo:find_by_trashed:*"@,
            "saldo:find_by_active:*"@,
            "saldo:find_all:*"@,
        ]);
        plan
    }

    /// Deleting every trashed saldo for good.
    pub fn delete_all(&self) -> (r_ok: CommandPlan)
        ensures
            command_plan_is(
                r_ok,
                "All saldos permanently deleted"@,
                OnRepoErrorView::Custom("Failed to delete all saldos"@),
                seq![
                    "saldo:find_by_trashed:*"@,
                    "saldo:find_by_active:*"@,
                    "saldo:find_all:*"@,
                ],
            ),
    {
        let message = text("All saldos permanently deleted");
        let policy_text = text("Failed to delete all saldos");
        let on_error = OnRepoError::Custom(policy_text);
        let mut keys: Vec<String> = Vec::new();
        let key_0 = text("saldo:find_by_trashed:*");
        keys.push(key_0);
        let key_1 = text("saldo:find_by_active:*");
        keys.push(key_1);
        let key_2 = text("saldo:find_all:*");
        keys.push(key_2);
        let plan = CommandPlan::new(message, on_error, keys);
        assert(texts(plan.invalidate@) =~= seq![
            "saldo:find_by_trashed:*"@,
            "saldo:find_by_active:*"@,
            "saldo:find_all:*"@,
        ]);
        plan
    }
}

/// Creating or changing a saldo leaves no stale answer behind for its
/// lookups: the cached saldo of its card and the cached saldo by id are among
/// the entries each makes stale.
pub proof fn law_saldo_writes_refresh_lookups(saldo_id: int, card_number: Seq<char>)
    ensures
        saldo_created_stale_keys(card_number, saldo_id).contains(saldo_card_key(card_number)),
        saldo_created_stale_keys(card_number, saldo_id).contains(saldo_id_key(saldo_id)),
        saldo_updated_stale_keys(saldo_id, card_number).contains(saldo_card_key(card_number)),
        saldo_updated_stale_keys(saldo_id, card_number).contains(saldo_id_key(saldo_id)),
{
    assert(saldo_created_stale_keys(card_number, saldo_id)[0] == saldo_card_key(card_number));
    assert(saldo_created_stale_keys(card_number, saldo_id)[1] == saldo_id_key(saldo_id));
    assert(saldo_updated_stale_keys(saldo_id, card_number)[0] == saldo_id_key(saldo_id));
    assert(saldo_updated_stale_keys(saldo_id, card_number)[1] == saldo_card_key(card_number));
}

} // verus!
