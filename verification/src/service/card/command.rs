//! Creating, changing and removing cards.
use crate::context::{share, SharedResources};
use crate::errors::{RepositoryError, ServiceError, ServiceErrorView};
use crate::flow::{command_plan_is, or_custom, require_id, text, texts, CommandPlan, OnRepoError, OnRepoErrorView};
use crate::text::{decimal, push_decimal};
use std::sync::Arc;
use crate::service::card::query::{card_id_key, card_user_key};
use vstd::prelude::*;

verus! {

/// The cache entries a change of card `card_id` of user `user_id` makes stale.
pub open spec fn card_updated_stale_keys(
    card_id: int,
    user_id: int,
    card_number: Seq<char>,
) -> Seq<Seq<char>> {
    seq![
        "card:find_by_id:id:"@ + decimal(card_id),
        "card:find_by_user_id:user_id:"@ + decimal(user_id),
        "card:find_by_card:number:"@ + card_number,
    ]
}

/// The repositories a [`CardCommandService`] works with.
pub struct CardCommandServiceDeps<UserQuery, Query, Command> {
    pub user_query: UserQuery,
    pub query: Query,
    pub command: Command,
}

/// Card commands over the user and card repositories and the shared cache.
pub struct CardCommandService<UserQuery, Query, Command, Metrics, Cache> {
    pub user_query: UserQuery,
    pub query: Query,
    pub command: Command,
    pub tracing_metrics_core: Arc<Metrics>,
    pub cache_store: Arc<Cache>,
}

impl<UserQuery, Query, Command, Metrics, Cache> CardCommandService<UserQuery, Query, Command, Metrics, Cache> {
    /// The service over the given repositories and shared resources.
    pub fn new(deps: CardCommandServiceDeps<UserQuery, Query, Command>, shared: &SharedResources<Metrics, Cache>) -> (r: Self)
        ensures
            r.user_query == deps.user_query,
            r.query == deps.query,
            r.command == deps.command,
            r.tracing_metrics_core == shared.tracing_metrics,
            r.cache_store == shared.cache_store,
    {
        let CardCommandServiceDeps { user_query, query, command } = deps;
        CardCommandService {
            user_query,
            query,
            command,
            tracing_metrics_core: share(&shared.tracing_metrics),
            cache_store: share(&shared.cache_store),
        }
    }

    /// Creating: after looking the owner up. An unknown owner refuses.
    pub fn create_after_user<T>(&self, found: Result<T, RepositoryError>) -> (r: Result<T, ServiceError>)
        ensures
            match found {
                Ok(v) => r == Ok::<T, ServiceError>(v),
                Err(_) => r matches Err(se) && se@ == ServiceErrorView::Custom("Failed to fetch user"@),
            },
    {
        or_custom(found, "Failed to fetch user")
    }

    /// Creating a card for user `user_id`: answer and stale entries, or the failure.
    pub fn create(&self, user_id: i32) -> (r_ok: CommandPlan)
        ensures
            command_plan_is(
                r_ok,
                "✅ Card created successfully!"@,
                OnRepoErrorView::Custom("Failed to create card"@),
                seq![
                    "card:find_by_user_id:user_id:"@ + decimal(user_id as int),
                ],
            ),
    {
        let message = text("✅ Card created successfully!");
        let policy_text = text("Failed to create card");
        let on_error = OnRepoError::Custom(policy_text);
        let mut keys: Vec<String> = Vec::new();
        let mut key_0 = text("card:find_by_user_id:user_id:");
        push_decimal(&mut key_0, user_id as i64);
        keys.push(key_0);
        let plan = CommandPlan::new(message, on_error, keys);
        assert(texts(plan.invalidate@) =~= seq![
            "card:find_by_user_id:user_id:"@ + decimal(user_id as int),
        ]);
        plan
    }

    /// Changing: the card to change, or a refusal when the request names none.
    pub fn update_card_id(&self, id: Option<i32>) -> (r: Result<i32, ServiceError>)
        ensures
            match id {
                Some(v) => r == Ok::<i32, ServiceError>(v),
                None => r matches Err(se) && se@ == ServiceErrorView::Custom("card_id is required"@),
            },
    {
        require_id(id, "card_id is required")
    }

    /// Changing: after looking the owner up. An unknown owner refuses.
    pub fn update_after_user<T>(&self, found: Result<T, RepositoryError>) -> (r: Result<T, ServiceError>)
        ensures
            match found {
                Ok(v) => r == Ok::<T, ServiceError>(v),
                Err(_) => r matches Err(se) && se@ == ServiceErrorView::Custom("Failed to fetch user"@),
            },
    {
        or_custom(found, "Failed to fetch user")
    }

    /// Changing card `card_id` of user `user_id`; `card_number` is the changed card's.
    pub fn update(&self, card_id: i32, user_id: i32, card_number: &str) -> (r_ok: CommandPlan)
        ensures
            command_plan_is(
                r_ok,
                "✅ Card updated successfully!"@,
                OnRepoErrorView::Custom("Failed to update card"@),
                card_updated_stale_keys(card_id as int, user_id as int, card_number@),
            ),
    {
        let message = text("✅ Card updated successfully!");
        let policy_text = text("Failed to update card");
        let on_error = OnRepoError::Custom(policy_text);
        let mut keys: Vec<String> = Vec::new();
        let mut key_0 = text("card:find_by_id:id:");
        push_decimal(&mut key_0, card_id as i64);
        keys.push(key_0);
        let mut key_1 = text("card:find_by_user_id:user_id:");
        push_decimal(&mut key_1, user_id as i64);
        keys.push(key_1);
        let mut key_2 = text("card:find_by_card:number:");
        key_2.append(card_number);
        keys.push(key_2);
        let plan = CommandPlan::new(message, on_error, keys);
        assert(texts(plan.invalidate@) =~= card_updated_stale_keys(card_id as int, user_id as int, card_number@));
        plan
    }

    /// Moving card `id` to the trash; owner and number are the trashed card's.
    pub fn trash(&self, id: i32, user_id: i32, card_number: &str) -> (r_ok: CommandPlan)
        ensures
            command_plan_is(
                r_ok,
                "🗑️ Card trashed successfully!"@,
                OnRepoErrorView::Custom("Failed to trash card"@),
                seq![
                    "card:find_by_id:id:"@ + decimal(id as int),
                    "card:find_by_user_id:user_id:"@ + decimal(user_id as int),
                    "card:find_by_card:number:"@ + card_number@,
                ],
            ),
    {
        let message = text("🗑️ Card trashed successfully!");
        let policy_text = text("Failed to trash card");
        let on_error = OnRepoError::Custom(policy_text);
        let mut keys: Vec<String> = Vec::new();
        let mut key_0 = text("card:find_by_id:id:");
        push_decimal(&mut key_0, id as i64);
        keys.push(key_0);
        let mut key_1 = text("card:find_by_user_id:user_id:");
        push_decimal(&mut key_1, user_id as i64);
        keys.push(key_1);
        let mut key_2 = text("card:find_by_card:number:");
        key_2.append(card_number);
        keys.push(key_2);
        let plan = CommandPlan::new(message, on_error, keys);
        assert(texts(plan.invalidate@) =~= seq![
            "card:find_by_id:id:"@ + decimal(id as int),
            "card:find_by_user_id:user_id:"@ + decimal(user_id as int),
            "card:find_by_card:number:"@ + card_number@,
        ]);
        plan
    }

    /// Restoring card `id` from the trash; owner and number are the restored card's.
    pub fn restore(&self, id: i32, user_id: i32, card_number: &str) -> (r_ok: CommandPlan)
        ensures
            command_plan_is(
                r_ok,
                "♻️ Card restored successfully!"@,
                OnRepoErrorView::Custom("Failed to restore card"@),
                seq![
                    "card:find_by_id:id:"@ + decimal(id as int),
                    "card:find_by_user_id:user_id:"@ + decimal(user_id as int),
                    "card:find_by_card:number:"@ + card_number@,
                ],
            ),
    {
        let message = text("♻️ Card restored successfully!");
        let policy_text = text("Failed to restore card");
        let on_error = OnRepoError::Custom(policy_text);
        let mut keys: Vec<String> = Vec::new();
        let mut key_0 = text("card:find_by_id:id:");
        push_decimal(&mut key_0, id as i64);
        keys.push(key_0);
        let mut key_1 = text("card:find_by_user_id:user_id:");
        push_decimal(&mut key_1, user_id as i64);
        keys.push(key_1);
        let mut key_2 = text("card:find_by_card:number:");
        key_2.append(card_number);
        keys.push(key_2);
        let plan = CommandPlan::new(message, on_error, keys);
        assert(texts(plan.invalidate@) =~= seq![
            "card:find_by_id:id:"@ + decimal(id as int),
            "card:find_by_user_id:user_id:"@ + decimal(user_id as int),
            "card:find_by_card:number:"@ + card_number@,
        ]);
        plan
    }

    /// Deleting: after looking the card up. An unknown card refuses.
    pub fn delete_after_card<T>(&self, found: Result<T, RepositoryError>) -> (r: Result<T, ServiceError>)
        ensures
            match found {
                Ok(v) => r == Ok::<T, ServiceError>(v),
                Err(_) => r matches Err(se) && se@ == ServiceErrorView::Custom("Failed to fetch card"@),
            },
    {
        or_custom(found, "Failed to fetch card")
    }

    /// Deleting card `id` for good; `card_number` is the deleted card's.
    pub fn delete(&self, id: i32, card_number: &str) -> (r_ok: CommandPlan)
        ensures
            command_plan_is(
                r_ok,
                "🧨 Card permanently deleted!"@,
                OnRepoErrorView::Custom("Failed to permanently delete card"@),
                seq![
                    "card:find_by_id:id:"@ + decimal(id as int),
                    "card:find_by_card:number:"@ + card_number@,
                ],
            ),
    {
        let message = text("🧨 Card permanently deleted!");
        let policy_text = text("Failed to permanently delete card");
        let on_error = OnRepoError::Custom(policy_text);
        let mut keys: Vec<String> = Vec::new();
        let mut key_0 = text("card:find_by_id:id:");
        push_decimal(&mut key_0, id as i64);
        keys.push(key_0);
        let mut key_1 = text("card:find_by_card:number:");
        key_1.append(card_number);
        keys.push(key_1);
        let plan = CommandPlan::new(message, on_error, keys);
        assert(texts(plan.invalidate@) =~= seq![
            "card:find_by_id:id:"@ + decimal(id as int),
            "card:find_by_card:number:"@ + card_number@,
        ]);
        plan
    }

    /// Restoring every trashed card.
    pub fn restore_all(&self) -> (r_ok: CommandPlan)
        ensures
            command_plan_is(
                r_ok,
                "🔄 All cards restored successfully!"@,
                OnRepoErrorView::Custom("Failed to restore all cards"@),
                seq![
                    "card:find_trashed:*"@,
                    "card:find_active:*"@,
                    "card:find_all:*"@,
                ],
            ),
    {
        let message = text("🔄 All cards restored successfully!");
        let policy_text = text("Failed to restore all cards");
        let on_error = OnRepoError::Custom(policy_text);
        let mut keys: Vec<String> = Vec::new();
        let key_0 = text("card:find_trashed:*");
        keys.push(key_0);
        let key_1 = text("card:find_active:*");
        keys.push(key_1);
        let key_2 = text("card:find_all:*");
        keys.push(key_2);
        let plan = CommandPlan::new(message, on_error, keys);
        assert(texts(plan.invalidate@) =~= seq![
            "card:find_trashed:*"@,
            "card:find_active:*"@,
            "card:find_all:*"@,
        ]);
        plan
    }

    /// Deleting every trashed card for good.
    pub fn delete_all(&self) -> (r_ok: CommandPlan)
        ensures
            command_plan_is(
                r_ok,
                "💣 All cards permanently deleted!"@,
                OnRepoErrorView::Custom("Failed to delete all cards"@),
                seq![
                    "card:find_trashed:*"@,
                    "card:find_active:*"@,
                    "card:find_all:*"@,
                ],
            ),
    {
        let message = text("💣 All cards permanently deleted!");
        let policy_text = text("Failed to delete all cards");
        let on_error = OnRepoError::Custom(policy_text);
        let mut keys: Vec<String> = Vec::new();
        let key_0 = text("card:find_trashed:*");
        keys.push(key_0);
        let key_1 = text("card:find_active:*");
        keys.push(key_1);
        let key_2 = text("card:find_all:*");
        keys.push(key_2);
        let plan = CommandPlan::new(message, on_error, keys);
        assert(texts(plan.invalidate@) =~= seq![
            "card:find_trashed:*"@,
            "card:find_active:*"@,
            "card:find_all:*"@,
        ]);
        plan
    }
}

/// Changing a card leaves no stale answer behind for its lookups by id and
/// by owner: both cached entries are among those the change makes stale.
pub proof fn law_card_update_refreshes_lookups(card_id: int, user_id: int, card_number: Seq<char>)
    ensures
        card_updated_stale_keys(card_id, user_id, card_number).contains(card_id_key(card_id)),
        card_updated_stale_keys(card_id, user_id, card_number).contains(card_user_key(user_id)),
{
    assert(card_updated_stale_keys(card_id, user_id, card_number)[0] == card_id_key(card_id));
    assert(card_updated_stale_keys(card_id, user_id, card_number)[1] == card_user_key(user_id));
}

} // verus!
