//! Creating, changing and removing merchants.
use crate::errors::{RepositoryError, ServiceError, ServiceErrorView};
use crate::flow::{with_num, with_text, command_plan_is, or_custom, require_id, text, texts, CommandPlan, OnRepoError, OnRepoErrorView};
use crate::text::{decimal, mask_api_key, masked, push_decimal};
use crate::service::merchant::query::{merchant_api_key_key, merchant_id_key};
use vstd::prelude::*;

verus! {

/// The cache entries a change of merchant `merchant_id` of user `user_id`,
/// with API key `api_key`, makes stale.
pub open spec fn merchant_updated_stale_keys(
    merchant_id: int,
    user_id: int,
    api_key: Seq<char>,
) -> Seq<Seq<char>> {
    seq![
        "merchant:find_by_id:id:"@ + decimal(merchant_id),
        "merchant:find_by_user_id:user_id:"@ + decimal(user_id),
        "merchant:find_by_apikey:key:"@ + masked(api_key),
        "merchant:find_all:*"@,
        "merchant:find_active:*"@,
        "merchant:find_trashed:*"@,
    ]
}

/// Merchant commands over the merchant and user repositories and a cache.
pub struct MerchantCommandService<Command, UserQuery, Cache> {
    pub command: Command,
    pub user_query: UserQuery,
    pub cache_store: Cache,
}

impl<Command, UserQuery, Cache> MerchantCommandService<Command, UserQuery, Cache> {
    /// The service over the given repositories and cache.
    pub fn new(command: Command, user_query: UserQuery, cache_store: Cache) -> (r: Self)
        ensures
            r.command == command,
            r.user_query == user_query,
            r.cache_store == cache_store,
    {
        MerchantCommandService { command, user_query, cache_store }
    }

    /// Creating: after looking the owner up. An unknown owner refuses.
    pub fn create_after_user<T>(&self, found: Result<T, RepositoryError>) -> (r: Result<T, ServiceError>)
        ensures
            match found {
                Ok(v) => r == Ok::<T, ServiceError>(v),
                Err(_) => r matches Err(se) && se@ == ServiceErrorView::Custom("Failed to fetch user"@),
            },
    {
        or_custom(found, "Failed to fetch user")
    }

    /// Creating: how a failed insert of merchant `name` of user `user_id` is
    /// reported, and the answer. A new merchant makes no cache entry stale: its
    /// answer is stored instead, under the keys of [`Self::create_cache_keys`].
    pub fn create(&self, name: &str, user_id: i32) -> (r_ok: CommandPlan)
        ensures
            command_plan_is(
                r_ok,
                "Merchant created successfully"@,
                OnRepoErrorView::CustomWith(
                    "💥 Failed to create merchant "@ + name@ + " (user_id="@ + decimal(user_id as int)
                        + "): "@,
                ),
                Seq::<Seq<char>>::empty(),
            ),
    {
        let mut prefix = text("💥 Failed to create merchant ");
        prefix.append(name);
        prefix.append(" (user_id=");
        push_decimal(&mut prefix, user_id as i64);
        prefix.append("): ");
        let keys: Vec<String> = Vec::new();
        let plan = CommandPlan::new(text("Merchant created successfully"), OnRepoError::CustomWith(prefix), keys);
        assert(texts(plan.invalidate@) =~= Seq::<Seq<char>>::empty());
        plan
    }

    /// The keys under which a new merchant's answer is cached (for ten
    /// minutes): by masked API key, by id and by owner.
    pub fn create_cache_keys(&self, id: i32, user_id: i32, api_key: &str) -> (r: Vec<String>)
        ensures
            texts(r@) == seq![
                "merchant:find_by_apikey:key:"@ + masked(api_key@),
                "merchant:find_by_id:id:"@ + decimal(id as int),
                "merchant:find_by_user_id:user_id:"@ + decimal(user_id as int),
            ],
    {
        let masked_key = mask_api_key(api_key);
        let mut keys: Vec<String> = Vec::new();
        keys.push(with_text("merchant:find_by_apikey:key:", masked_key.as_str()));
        keys.push(with_num("merchant:find_by_id:id:", id as i64));
        keys.push(with_num("merchant:find_by_user_id:user_id:", user_id as i64));
        assert(texts(keys@) =~= seq![
            "merchant:find_by_apikey:key:"@ + masked(api_key@),
            "merchant:find_by_id:id:"@ + decimal(id as int),
            "merchant:find_by_user_id:user_id:"@ + decimal(user_id as int),
        ]);
        keys
    }

    /// Changing: the merchant to change, or a refusal when the request names none.
    pub fn update_merchant_id(&self, id: Option<i32>) -> (r: Result<i32, ServiceError>)
        ensures
            match id {
                Some(v) => r == Ok::<i32, ServiceError>(v),
                None => r matches Err(se) && se@ == ServiceErrorView::Custom("merchant_id is required"@),
            },
    {
        require_id(id, "merchant_id is required")
    }

    /// Changing: after looking the owner up. An unknown owner refuses.
    pub fn update_after_user<T>(&self, found: Result<T, RepositoryError>) -> (r: Result<T, ServiceError>)
        ensures
            match found {
                Ok(v) => r == Ok::<T, ServiceError>(v),
                Err(_) => r matches Err(se) && se@ == ServiceErrorView::Custom("Failed to fetch user"@),
            },
    {
        or_custom(found, "Failed to fetch user")
    }

    /// Changing merchant `merchant_id`; `id`, `user_id` and `api_key` are the changed merchant's.
    pub fn update(&self, merchant_id: i32, id: i32, user_id: i32, api_key: &str) -> (r_ok: CommandPlan)
        ensures
            command_plan_is(
                r_ok,
                "Merchant updated successfully"@,
                OnRepoErrorView::CustomWith("💥 Failed to update merchant id="@
                + decimal(merchant_id as int)
                + ": "@),
                merchant_updated_stale_keys(id as int, user_id as int, api_key@),
            ),
    {
        let masked_0 = mask_api_key(api_key);
        let message = text("Merchant updated successfully");
        let mut policy_text = text("💥 Failed to update merchant id=");
        push_decimal(&mut policy_text, merchant_id as i64);
        policy_text.append(": ");
        let on_error = OnRepoError::CustomWith(policy_text);
        let mut keys: Vec<String> = Vec::new();
        let mut key_0 = text("merchant:find_by_id:id:");
        push_decimal(&mut key_0, id as i64);
        keys.push(key_0);
        let mut key_1 = text("merchant:find_by_user_id:user_id:");
        push_decimal(&mut key_1, user_id as i64);
        keys.push(key_1);
        let mut key_2 = text("merchant:find_by_apikey:key:");
        key_2.append(masked_0.as_str());
        keys.push(key_2);
        let key_3 = text("merchant:find_all:*");
        keys.push(key_3);
        let key_4 = text("merchant:find_active:*");
        keys.push(key_4);
        let key_5 = text("merchant:find_trashed:*");
        keys.push(key_5);
        let plan = CommandPlan::new(message, on_error, keys);
        assert(texts(plan.invalidate@) =~= merchant_updated_stale_keys(id as int, user_id as int, api_key@));
        plan
    }

    /// Changing the status: the merchant to change, or a refusal when the request names none.
    pub fn update_status_merchant_id(&self, id: Option<i32>) -> (r: Result<i32, ServiceError>)
        ensures
            match id {
                Some(v) => r == Ok::<i32, ServiceError>(v),
                None => r matches Err(se) && se@ == ServiceErrorView::Custom("merchant_id is required"@),
            },
    {
        require_id(id, "merchant_id is required")
    }

    /// Changing the status of merchant `merchant_id` to `status`; `id`, `user_id` and `api_key` are the changed merchant's.
    pub fn update_status(&self, merchant_id: i32, status: &str, id: i32, user_id: i32, api_key: &str) -> (r_ok: CommandPlan)
        ensures
            command_plan_is(
                r_ok,
                "Merchant status updated successfully"@,
                OnRepoErrorView::CustomWith("💥 Failed to update status for merchant id="@
                + decimal(merchant_id as int)
                + " to "@
                + status@
                + ": "@),
                seq![
                    "merchant:find_by_id:id:"@ + decimal(id as int),
                    "merchant:find_by_user_id:user_id:"@ + decimal(user_id as int),
                    "merchant:find_by_apikey:key:"@ + masked(api_key@),
                    "merchant:find_all:*"@,
                    "merchant:find_active:*"@,
                    "merchant:find_trashed:*"@,
                ],
            ),
    {
        let masked_0 = mask_api_key(api_key);
        let message = text("Merchant status updated successfully");
        let mut policy_text = text("💥 Failed to update status for merchant id=");
        push_decimal(&mut policy_text, merchant_id as i64);
        policy_text.append(" to ");
        policy_text.append(status);
        policy_text.append(": ");
        let on_error = OnRepoError::CustomWith(policy_text);
        let mut keys: Vec<String> = Vec::new();
        let mut key_0 = text("merchant:find_by_id:id:");
        push_decimal(&mut key_0, id as i64);
        keys.push(key_0);
        let mut key_1 = text("merchant:find_by_user_id:user_id:");
        push_decimal(&mut key_1, user_id as i64);
        keys.push(key_1);
        let mut key_2 = text("merchant:find_by_apikey:key:");
        key_2.append(masked_0.as_str());
        keys.push(key_2);
        let key_3 = text("merchant:find_all:*");
        keys.push(key_3);
        let key_4 = text("merchant:find_active:*");
        keys.push(key_4);
        let key_5 = text("merchant:find_trashed:*");
        keys.push(key_5);
        let plan = CommandPlan::new(message, on_error, keys);
        assert(texts(plan.invalidate@) =~= seq![
            "merchant:find_by_id:id:"@ + decimal(id as int),
            "merchant:find_by_user_id:user_id:"@ + decimal(user_id as int),
            "merchant:find_by_apikey:key:"@ + masked(api_key@),
            "merchant:find_all:*"@,
            "merchant:find_active:*"@,
            "merchant:find_trashed:*"@,
        ]);
        plan
    }

    /// Moving merchant `id` to the trash; `user_id` and `api_key` are the trashed merchant's.
    pub fn trash(&self, id: i32, user_id: i32, api_key: &str) -> (r_ok: CommandPlan)
        ensures
            command_plan_is(
                r_ok,
                "Merchant trashed successfully"@,
                OnRepoErrorView::Custom("Failed to trash merchant"@),
                seq![
                    "merchant:find_by_id:id:"@ + decimal(id as int),
                    "merchant:find_by_user_id:user_id:"@ + decimal(user_id as int),
                    "merchant:find_by_apikey:key:"@ + masked(api_key@),
                    "merchant:find_all:*"@,
                    "merchant:find_active:*"@,
                    "merchant:find_trashed:*"@,
                ],
            ),
    {
        let masked_0 = mask_api_key(api_key);
        let message = text("Merchant trashed successfully");
        let policy_text = text("Failed to trash merchant");
        let on_error = OnRepoError::Custom(policy_text);
        let mut keys: Vec<String> = Vec::new();
        let mut key_0 = text("merchant:find_by_id:id:");
        push_decimal(&mut key_0, id as i64);
        keys.push(key_0);
        let mut key_1 = text("merchant:find_by_user_id:user_id:");
        push_decimal(&mut key_1, user_id as i64);
        keys.push(key_1);
        let mut key_2 = text("merchant:find_by_apikey:key:");
        key_2.append(masked_0.as_str());
        keys.push(key_2);
        let key_3 = text("merchant:find_all:*");
        keys.push(key_3);
        let key_4 = text("merchant:find_active:*");
        keys.push(key_4);
        let key_5 = text("merchant:find_trashed:*");
        keys.push(key_5);
        let plan = CommandPlan::new(message, on_error, keys);
        assert(texts(plan.invalidate@) =~= seq![
            "merchant:find_by_id:id:"@ + decimal(id as int),
            "merchant:find_by_user_id:user_id:"@ + decimal(user_id as int),
            "merchant:find_by_apikey:key:"@ + masked(api_key@),
            "merchant:find_all:*"@,
            "merchant:find_active:*"@,
            "merchant:find_trashed:*"@,
        ]);
        plan
    }

    /// Restoring merchant `id` from the trash; `user_id` and `api_key` are the restored merchant's.
    pub fn restore(&self, id: i32, user_id: i32, api_key: &str) -> (r_ok: CommandPlan)
        ensures
            command_plan_is(
                r_ok,
                "Merchant restored successfully"@,
                OnRepoErrorView::Custom("Failed to restore merchant"@),
                seq![
                    "merchant:find_by_id:id:"@ + decimal(id as int),
                    "merchant:find_by_user_id:user_id:"@ + decimal(user_id as int),
                    "merchant:find_by_apikey:key:"@ + masked(api_key@),
                    "merchant:find_all:*"@,
                    "merchant:find_active:*"@,
                    "merchant:find_trashed:*"@,
                ],
            ),
    {
        let masked_0 = mask_api_key(api_key);
        let message = text("Merchant restored successfully");
        let policy_text = text("Failed to restore merchant");
        let on_error = OnRepoError::Custom(policy_text);
        let mut keys: Vec<String> = Vec::new();
        let mut key_0 = text("merchant:find_by_id:id:");
        push_decimal(&mut key_0, id as i64);
        keys.push(key_0);
        let mut key_1 = text("merchant:find_by_user_id:user_id:");
        push_decimal(&mut key_1, user_id as i64);
        keys.push(key_1);
        let mut key_2 = text("merchant:find_by_apikey:key:");
        key_2.append(masked_0.as_str());
        keys.push(key_2);
        let key_3 = text("merchant:find_all:*");
        keys.push(key_3);
        let key_4 = text("merchant:find_active:*");
        keys.push(key_4);
        let key_5 = text("merchant:find_trashed:*");
        keys.push(key_5);
        let plan = CommandPlan::new(message, on_error, keys);
        assert(texts(plan.invalidate@) =~= seq![
            "merchant:find_by_id:id:"@ + decimal(id as int),
            "merchant:find_by_user_id:user_id:"@ + decimal(user_id as int),
            "merchant:find_by_apikey:key:"@ + masked(api_key@),
            "merchant:find_all:*"@,
            "merchant:find_active:*"@,
            "merchant:find_trashed:*"@,
        ]);
        plan
    }

    /// Deleting merchant `id` for good.
    pub fn delete(&self, id: i32) -> (r_ok: CommandPlan)
        ensures
            command_plan_is(
                r_ok,
                "Merchant with id="@ + decimal(id as int) + " permanently deleted"@,
                OnRepoErrorView::Custom("Failed to permanently delete merchant"@),
                seq![
                    "merchant:find_by_id:id:"@ + decimal(id as int),
                    "merchant:find_by_user_id:user_id:*"@,
                    "merchant:find_by_apikey:key:*"@,
                    "merchant:find_all:*"@,
                    "merchant:find_active:*"@,
                    "merchant:find_trashed:*"@,
                ],
            ),
    {
        let mut message = text("Merchant with id=");
        push_decimal(&mut message, id as i64);
        message.append(" permanently deleted");
        let policy_text = text("Failed to permanently delete merchant");
        let on_error = OnRepoError::Custom(policy_text);
        let mut keys: Vec<String> = Vec::new();
        let mut key_0 = text("merchant:find_by_id:id:");
        push_decimal(&mut key_0, id as i64);
        keys.push(key_0);
        let key_1 = text("merchant:find_by_user_id:user_id:*");
        keys.push(key_1);
        let key_2 = text("merchant:find_by_apikey:key:*");
        keys.push(key_2);
        let key_3 = text("merchant:find_all:*");
        keys.push(key_3);
        let key_4 = text("merchant:find_active:*");
        keys.push(key_4);
        let key_5 = text("merchant:find_trashed:*");
        keys.push(key_5);
        let plan = CommandPlan::new(message, on_error, keys);
        assert(texts(plan.invalidate@) =~= seq![
            "merchant:find_by_id:id:"@ + decimal(id as int),
            "merchant:find_by_user_id:user_id:*"@,
            "merchant:find_by_apikey:key:*"@,
            "merchant:find_all:*"@,
            "merchant:find_active:*"@,
            "merchant:find_trashed:*"@,
        ]);
        plan
    }

    /// Restoring every trashed merchant.
    pub fn restore_all(&self) -> (r_ok: CommandPlan)
        ensures
            command_plan_is(
                r_ok,
                "All trashed merchants restored successfully"@,
                OnRepoErrorView::Custom("Failed to restore all merchants"@),
                seq![
                    "merchant:find_by_id:id:*"@,
                    "merchant:find_by_user_id:user_id:*"@,
                    "merchant:find_by_apikey:key:*"@,
                    "merchant:find_all:*"@,
                    "merchant:find_active:*"@,
                    "merchant:find_trashed:*"@,
                ],
            ),
    {
        let message = text("All trashed merchants restored successfully");
        let policy_text = text("Failed to restore all merchants");
        let on_error = OnRepoError::Custom(policy_text);
        let mut keys: Vec<String> = Vec::new();
        let key_0 = text("merchant:find_by_id:id:*");
        keys.push(key_0);
        let key_1 = text("merchant:find_by_user_id:user_id:*");
        keys.push(key_1);
        let key_2 = text("merchant:find_by_apikey:key:*");
        keys.push(key_2);
        let key_3 = text("merchant:find_all:*");
        keys.push(key_3);
        let key_4 = text("merchant:find_active:*");
        keys.push(key_4);
        let key_5 = text("merchant:find_trashed:*");
        keys.push(key_5);
        let plan = CommandPlan::new(message, on_error, keys);
        assert(texts(plan.invalidate@) =~= seq![
            "merchant:find_by_id:id:*"@,
            "merchant:find_by_user_id:user_id:*"@,
            "merchant:find_by_apikey:key:*"@,
            "merchant:find_all:*"@,
            "merchant:find_active:*"@,
            "merchant:find_trashed:*"@,
        ]);
        plan
    }

    /// Deleting every trashed merchant for good.
    pub fn delete_all(&self) -> (r_ok: CommandPlan)
        ensures
            command_plan_is(
                r_ok,
                "All trashed merchants permanently deleted"@,
                OnRepoErrorView::Custom("Failed to delete all merchants"@),
                seq![
                    "merchant:find_by_id:id:*"@,
                    "merchant:find_by_user_id:user_id:*"@,
                    "merchant:find_by_apikey:key:*"@,
                    "merchant:find_all:*"@,
                    "merchant:find_active:*"@,
                    "merchant:find_trashed:*"@,
                ],
            ),
    {
        let message = text("All trashed merchants permanently deleted");
        let policy_text = text("Failed to delete all merchants");
        let on_error = OnRepoError::Custom(policy_text);
        let mut keys: Vec<String> = Vec::new();
        let key_0 = text("merchant:find_by_id:id:*");
        keys.push(key_0);
        let key_1 = text("merchant:find_by_user_id:user_id:*");
        keys.push(key_1);
        let key_2 = text("merchant:find_by_apikey:key:*");
        keys.push(key_2);
        let key_3 = text("merchant:find_all:*");
        keys.push(key_3);
        let key_4 = text("merchant:find_active:*");
        keys.push(key_4);
        let key_5 = text("merchant:find_trashed:*");
        keys.push(key_5);
        let plan = CommandPlan::new(message, on_error, keys);
        assert(texts(plan.invalidate@) =~= seq![
            "merchant:find_by_id:id:*"@,
            "merchant:find_by_user_id:user_id:*"@,
            "merchant:find_by_apikey:key:*"@,
            "merchant:find_all:*"@,
            "merchant:find_active:*"@,
            "merchant:find_trashed:*"@,
        ]);
        plan
    }
}

/// Changing a merchant leaves no stale answer behind for its lookups by id
/// and by API key: both cached entries are among those the change makes
/// stale.
pub proof fn law_merchant_update_refreshes_lookups(merchant_id: int, user_id: int, api_key: Seq<char>)
    ensures
        merchant_updated_stale_keys(merchant_id, user_id, api_key).contains(merchant_id_key(merchant_id)),
        merchant_updated_stale_keys(merchant_id, user_id, api_key).contains(merchant_api_key_key(api_key)),
{
    assert(merchant_updated_stale_keys(merchant_id, user_id, api_key)[0] == merchant_id_key(merchant_id));
    assert(merchant_updated_stale_keys(merchant_id, user_id, api_key)[2] == merchant_api_key_key(api_key));
}

} // verus!
