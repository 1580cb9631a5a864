//! Creating, changing and removing roles.
use crate::context::{share, SharedResources};
use crate::errors::{ServiceError, ServiceErrorView};
use crate::flow::{command_plan_is, require_id, text, texts, CommandPlan, OnRepoError, OnRepoErrorView};
use crate::text::{decimal, push_decimal};
use std::sync::Arc;
use crate::service::role::query::{role_id_key, role_name_key};
use vstd::prelude::*;

verus! {

/// The cache entries a change of role `role_id`, named `name`, makes stale.
pub open spec fn role_updated_stale_keys(role_id: int, name: Seq<char>) -> Seq<Seq<char>> {
    seq![
        "role:find_by_id:id:"@ + decimal(role_id),
        "role:find_by_name:name:"@ + name,
        "role:find_all:*"@,
        "role:find_active:*"@,
        "role:find_trashed:*"@,
    ]
}

/// Role commands over a role repository and the shared cache.
pub struct RoleCommandService<Command, Metrics, Cache> {
    pub command: Command,
    pub tracing_metrics_core: Arc<Metrics>,
    pub cache_store: Arc<Cache>,
}

impl<Command, Metrics, Cache> RoleCommandService<Command, Metrics, Cache> {
    /// The service over the given repositories and shared resources.
    pub fn new(command: Command, shared: &SharedResources<Metrics, Cache>) -> (r: Self)
        ensures
            r.command == command,
            r.tracing_metrics_core == shared.tracing_metrics,
            r.cache_store == shared.cache_store,
    {
        RoleCommandService {
            command,
            tracing_metrics_core: share(&shared.tracing_metrics),
            cache_store: share(&shared.cache_store),
        }
    }

    /// Creating a role named `name`.
    pub fn create(&self, name: &str) -> (r_ok: CommandPlan)
        ensures
            command_plan_is(
                r_ok,
                "✅ Role created successfully!"@,
                OnRepoErrorView::CustomWith("💥 Failed to create role with name "@ + name@ + ": "@),
                seq![
                    "role:find_all:*"@,
                    "role:find_by_active:*"@,
                    "role_find_by_trashed"@,
                ],
            ),
    {
        let message = text("✅ Role created successfully!");
        let mut policy_text = text("💥 Failed to create role with name ");
        policy_text.append(name);
        policy_text.append(": ");
        let on_error = OnRepoError::CustomWith(policy_text);
        let mut keys: Vec<String> = Vec::new();
        let key_0 = text("role:find_all:*");
        keys.push(key_0);
        let key_1 = text("role:find_by_active:*");
        keys.push(key_1);
        let key_2 = text("role_find_by_trashed");
        keys.push(key_2);
        let plan = CommandPlan::new(message, on_error, keys);
        assert(texts(plan.invalidate@) =~= seq![
            "role:find_all:*"@,
            "role:find_by_active:*"@,
            "role_find_by_trashed"@,
        ]);
        plan
    }

    /// Changing: the role to change, or a refusal when the request names none.
    pub fn update_role_id(&self, id: Option<i32>) -> (r: Result<i32, ServiceError>)
        ensures
            match id {
                Some(v) => r == Ok::<i32, ServiceError>(v),
                None => r matches Err(se) && se@ == ServiceErrorView::Custom("role_id is required"@),
            },
    {
        require_id(id, "role_id is required")
    }

    /// Changing role `id`; `name` is the changed role's.
    pub fn update(&self, id: i32, name: &str) -> (r_ok: CommandPlan)
        ensures
            command_plan_is(
                r_ok,
                "✅ Role updated successfully!"@,
                OnRepoErrorView::CustomWith("💥 Failed to update role id="@ + decimal(id as int) + ": "@),
                role_updated_stale_keys(id as int, name@),
            ),
    {
        let message = text("✅ Role updated successfully!");
        let mut policy_text = text("💥 Failed to update role id=");
        push_decimal(&mut policy_text, id as i64);
        policy_text.append(": ");
        let on_error = OnRepoError::CustomWith(policy_text);
        let mut keys: Vec<String> = Vec::new();
        let mut key_0 = text("role:find_by_id:id:");
        push_decimal(&mut key_0, id as i64);
        keys.push(key_0);
        let mut key_1 = text("role:find_by_name:name:");
        key_1.append(name);
        keys.push(key_1);
        let key_2 = text("role:find_all:*");
        keys.push(key_2);
        let key_3 = text("role:find_active:*");
        keys.push(key_3);
        let key_4 = text("role:find_trashed:*");
        keys.push(key_4);
        let plan = CommandPlan::new(message, on_error, keys);
        assert(texts(plan.invalidate@) =~= role_updated_stale_keys(id as int, name@));
        plan
    }

    /// Moving role `id` to the trash; `name` is the trashed role's.
    pub fn trash(&self, id: i32, name: &str) -> (r_ok: CommandPlan)
        ensures
            command_plan_is(
                r_ok,
                "🗑️ Role trashed successfully!"@,
                OnRepoErrorView::Custom("Failed to trash role"@),
                seq![
                    "role:find_by_id:id:"@ + decimal(id as int),
                    "role:find_by_name:name:"@ + name@,
                    "role:find_all:*"@,
                    "role:find_active:*"@,
                    "role:find_trashed:*"@,
                ],
            ),
    {
        let message = text("🗑️ Role trashed successfully!");
        let policy_text = text("Failed to trash role");
        let on_error = OnRepoError::Custom(policy_text);
        let mut keys: Vec<String> = Vec::new();
        let mut key_0 = text("role:find_by_id:id:");
        push_decimal(&mut key_0, id as i64);
        keys.push(key_0);
        let mut key_1 = text("role:find_by_name:name:");
        key_1.append(name);
        keys.push(key_1);
        let key_2 = text("role:find_all:*");
        keys.push(key_2);
        let key_3 = text("role:find_active:*");
        keys.push(key_3);
        let key_4 = text("role:find_trashed:*");
        keys.push(key_4);
        let plan = CommandPlan::new(message, on_error, keys);
        assert(texts(plan.invalidate@) =~= seq![
            "role:find_by_id:id:"@ + decimal(id as int),
            "role:find_by_name:name:"@ + name@,
            "role:find_all:*"@,
            "role:find_active:*"@,
            "role:find_trashed:*"@,
        ]);
        plan
    }

    /// Restoring role `id` from the trash; `name` is the restored role's.
    pub fn restore(&self, id: i32, name: &str) -> (r_ok: CommandPlan)
        ensures
            command_plan_is(
                r_ok,
                "♻️ Role restored successfully!"@,
                OnRepoErrorView::Custom("Failed to restore role"@),
                seq![
                    "role:find_by_id:id:"@ + decimal(id as int),
                    "role:find_by_name:name:"@ + name@,
                    "role:find_all:*"@,
                    "role:find_active:*"@,
                    "role:find_trashed:*"@,
                ],
            ),
    {
        let message = text("♻️ Role restored successfully!");
        let policy_text = text("Failed to restore role");
        let on_error = OnRepoError::Custom(policy_text);
        let mut keys: Vec<String> = Vec::new();
        let mut key_0 = text("role:find_by_id:id:");
        push_decimal(&mut key_0, id as i64);
        keys.push(key_0);
        let mut key_1 = text("role:find_by_name:name:");
        key_1.append(name);
        keys.push(key_1);
        let key_2 = text("role:find_all:*");
        keys.push(key_2);
        let key_3 = text("role:find_active:*");
        keys.push(key_3);
        let key_4 = text("role:find_trashed:*");
        keys.push(key_4);
        let plan = CommandPlan::new(message, on_error, keys);
        assert(texts(plan.invalidate@) =~= seq![
            "role:find_by_id:id:"@ + decimal(id as int),
            "role:find_by_name:name:"@ + name@,
            "role:find_all:*"@,
            "role:find_active:*"@,
            "role:find_trashed:*"@,
        ]);
        plan
    }

    /// Deleting role `id` for good.
    pub fn delete(&self, id: i32) -> (r_ok: CommandPlan)
        ensures
            command_plan_is(
                r_ok,
                "🧨 Role permanently deleted!"@,
                OnRepoErrorView::Custom("Failed to permanently delete role"@),
                seq![
                    "role:find_by_id:id:"@ + decimal(id as int),
                    "role:find_by_name:name:*"@,
                    "role:find_all:*"@,
                    "role:find_active:*"@,
                    "role:find_trashed:*"@,
                ],
            ),
    {
        let message = text("🧨 Role permanently deleted!");
        let policy_text = text("Failed to permanently delete role");
        let on_error = OnRepoError::Custom(policy_text);
        let mut keys: Vec<String> = Vec::new();
        let mut key_0 = text("role:find_by_id:id:");
        push_decimal(&mut key_0, id as i64);
        keys.push(key_0);
        let key_1 = text("role:find_by_name:name:*");
        keys.push(key_1);
        let key_2 = text("role:find_all:*");
        keys.push(key_2);
        let key_3 = text("role:find_active:*");
        keys.push(key_3);
        let key_4 = text("role:find_trashed:*");
        keys.push(key_4);
        let plan = CommandPlan::new(message, on_error, keys);
        assert(texts(plan.invalidate@) =~= seq![
            "role:find_by_id:id:"@ + decimal(id as int),
            "role:find_by_name:name:*"@,
            "role:find_all:*"@,
            "role:find_active:*"@,
            "role:find_trashed:*"@,
        ]);
        plan
    }

    /// Restoring every trashed role.
    pub fn restore_all(&self) -> (r_ok: CommandPlan)
        ensures
            command_plan_is(
                r_ok,
                "🔄 All roles restored successfully!"@,
                OnRepoErrorView::Custom("Failed to restore all roles"@),
                seq![
                    "role:find_trashed:*"@,
                    "role:find_active:*"@,
                    "role:find_all:*"@,
                ],
            ),
    {
        let message = text("🔄 All roles restored successfully!");
        let policy_text = text("Failed to restore all roles");
        let on_error = OnRepoError::Custom(policy_text);
        let mut keys: Vec<String> = Vec::new();
        let key_0 = text("role:find_trashed:*");
        keys.push(key_0);
        let key_1 = text("role:find_active:*");
        keys.push(key_1);
        let key_2 = text("role:find_all:*");
        keys.push(key_2);
        let plan = CommandPlan::new(message, on_error, keys);
        assert(texts(plan.invalidate@) =~= seq![
            "role:find_trashed:*"@,
            "role:find_active:*"@,
            "role:find_all:*"@,
        ]);
        plan
    }

    /// Deleting every trashed role for good.
    pub fn delete_all(&self) -> (r_ok: CommandPlan)
        ensures
            command_plan_is(
                r_ok,
                "💣 All roles permanently deleted!"@,
                OnRepoErrorView::Custom("Failed to delete all roles"@),
                seq![
                    "role:find_trashed:*"@,
                    "role:find_active:*"@,
                    "role:find_all:*"@,
                ],
            ),
    {
        let message = text("💣 All roles permanently deleted!");
        let policy_text = text("Failed to delete all roles");
        let on_error = OnRepoError::Custom(policy_text);
        let mut keys: Vec<String> = Vec::new();
        let key_0 = text("role:find_trashed:*");
        keys.push(key_0);
        let key_1 = text("role:find_active:*");
        keys.push(key_1);
        let key_2 = text("role:find_all:*");
        keys.push(key_2);
        let plan = CommandPlan::new(message, on_error, keys);
        assert(texts(plan.invalidate@) =~= seq![
            "role:find_trashed:*"@,
            "role:find_active:*"@,
            "role:find_all:*"@,
        ]);
        plan
    }
}

/// Changing a role leaves no stale answer behind for its lookups by id and
/// by name: both cached entries are among those the change makes stale.
pub proof fn law_role_update_refreshes_lookups(role_id: int, name: Seq<char>)
    ensures
        role_updated_stale_keys(role_id, name).contains(role_id_key(role_id)),
        role_updated_stale_keys(role_id, name).contains(role_name_key(name)),
{
    assert(role_updated_stale_keys(role_id, name)[0] == role_id_key(role_id));
    assert(role_updated_stale_keys(role_id, name)[1] == role_name_key(name));
}

} // verus!
