//! Role lookups.
use crate::context::{share, SharedResources};
use crate::flow::{TEN_MINUTES_SECS, page_plan_is, read_plan_is, text, OnRepoError, OnRepoErrorView, PageReadPlan, ReadPlan};
use crate::pagination::{normal_page, normal_page_size, normalize, req_search_or_empty, FindAllRequest};
use crate::text::{decimal, push_decimal};
use std::sync::Arc;
use vstd::prelude::*;

verus! {

/// The cache key of a role looked up by name.
pub open spec fn role_name_key(name: Seq<char>) -> Seq<char> {
    "role:find_by_name:name:"@ + name
}

/// The cache key of a role looked up by id.
pub open spec fn role_id_key(role_id: int) -> Seq<char> {
    "role:find_by_id:id:"@ + decimal(role_id)
}

/// Role lookups over a role repository, answered from the cache when it can.
pub struct RoleQueryService<Query, Metrics, Cache> {
    pub query: Query,
    pub tracing_metrics_core: Arc<Metrics>,
    pub cache_store: Arc<Cache>,
}

impl<Query, Metrics, Cache> RoleQueryService<Query, Metrics, Cache> {
    /// The service over the given repositories and shared resources.
    pub fn new(query: Query, shared: &SharedResources<Metrics, Cache>) -> (r: Self)
        ensures
            r.query == query,
            r.tracing_metrics_core == shared.tracing_metrics,
            r.cache_store == shared.cache_store,
    {
        RoleQueryService {
            query,
            tracing_metrics_core: share(&shared.tracing_metrics),
            cache_store: share(&shared.cache_store),
        }
    }

    /// Listing all roles.
    pub fn find_all(&self, req: &FindAllRequest) -> (r_ok: PageReadPlan)
        ensures
            page_plan_is(
                r_ok,
                "role:find_all:page:"@
                + decimal(normal_page(req.page) as int)
                + ":size:"@
                + decimal(normal_page_size(req.page_size) as int)
                + ":search:"@
                + req_search_or_empty(*req, false),
                TEN_MINUTES_SECS,
                "Roles retrieved successfully"@,
                OnRepoErrorView::CustomDescribed,
                normal_page(req.page),
                normal_page_size(req.page_size),
            ),
    {
        let page = normalize(req, false);
        let mut key = text("role:find_all:page:");
        push_decimal(&mut key, page.page as i64);
        key.append(":size:");
        push_decimal(&mut key, page.page_size as i64);
        key.append(":search:");
        key.append(page.search_or_empty().as_str());
        let message = text("Roles retrieved successfully");
        let on_error = OnRepoError::CustomDescribed;
        PageReadPlan {
            cache_key: key,
            ttl_secs: TEN_MINUTES_SECS,
            message,
            on_error,
            page: page.page,
            page_size: page.page_size,
        }
    }

    /// Listing roles not in the trash.
    pub fn find_active(&self, req: &FindAllRequest) -> (r_ok: PageReadPlan)
        ensures
            page_plan_is(
                r_ok,
                "role:find_active:page:"@
                + decimal(normal_page(req.page) as int)
                + ":size:"@
                + decimal(normal_page_size(req.page_size) as int)
                + ":search:"@
                + req_search_or_empty(*req, false),
                TEN_MINUTES_SECS,
                "Active roles retrieved successfully"@,
                OnRepoErrorView::CustomDescribed,
                normal_page(req.page),
                normal_page_size(req.page_size),
            ),
    {
        let page = normalize(req, false);
        let mut key = text("role:find_active:page:");
        push_decimal(&mut key, page.page as i64);
        key.append(":size:");
        push_decimal(&mut key, page.page_size as i64);
        key.append(":search:");
        key.append(page.search_or_empty().as_str());
        let message = text("Active roles retrieved successfully");
        let on_error = OnRepoError::CustomDescribed;
        PageReadPlan {
            cache_key: key,
            ttl_secs: TEN_MINUTES_SECS,
            message,
            on_error,
            page: page.page,
            page_size: page.page_size,
        }
    }

    /// Listing roles in the trash.
    pub fn find_trashed(&self, req: &FindAllRequest) -> (r_ok: PageReadPlan)
        ensures
            page_plan_is(
                r_ok,
                "role:find_trashed:page:"@
                + decimal(normal_page(req.page) as int)
                + ":size:"@
                + decimal(normal_page_size(req.page_size) as int)
                + ":search:"@
                + req_search_or_empty(*req, false),
                TEN_MINUTES_SECS,
                "Trashed roles retrieved successfully"@,
                OnRepoErrorView::CustomDescribed,
                normal_page(req.page),
                normal_page_size(req.page_size),
            ),
    {
        let page = normalize(req, false);
        let mut key = text("role:find_trashed:page:");
        push_decimal(&mut key, page.page as i64);
        key.append(":size:");
        push_decimal(&mut key, page.page_size as i64);
        key.append(":search:");
        key.append(page.search_or_empty().as_str());
        let message = text("Trashed roles retrieved successfully");
        let on_error = OnRepoError::CustomDescribed;
        PageReadPlan {
            cache_key: key,
            ttl_secs: TEN_MINUTES_SECS,
            message,
            on_error,
            page: page.page,
            page_size: page.page_size,
        }
    }

    /// Looking a role up by id; the text is the answer when none exists.
    pub fn find_by_id(&self, id: i32) -> (r_ok: (ReadPlan, String))
        ensures
            read_plan_is(
                r_ok.0,
                role_id_key(id as int),
                TEN_MINUTES_SECS,
                "Role retrieved successfully"@,
                OnRepoErrorView::CustomDescribed,
            ) && r_ok.1@ == "Role with ID "@ + decimal(id as int) + " not found"@,
    {
        let mut key = text("role:find_by_id:id:");
        push_decimal(&mut key, id as i64);
        let message = text("Role retrieved successfully");
        let on_error = OnRepoError::CustomDescribed;
        let plan = ReadPlan::new(key, TEN_MINUTES_SECS, message, on_error);
        let mut missing = text("Role with ID ");
        push_decimal(&mut missing, id as i64);
        missing.append(" not found");
        (plan, missing)
    }

    /// Looking up a user's roles.
    pub fn find_by_user_id(&self, user_id: i32) -> (r_ok: ReadPlan)
        ensures
            read_plan_is(
                r_ok,
                "role:find_by_user_id:user_id:"@ + decimal(user_id as int),
                TEN_MINUTES_SECS,
                "User roles retrieved successfully"@,
                OnRepoErrorView::CustomDescribed,
            ),
    {
        let mut key = text("role:find_by_user_id:user_id:");
        push_decimal(&mut key, user_id as i64);
        let message = text("User roles retrieved successfully");
        let on_error = OnRepoError::CustomDescribed;
        let plan = ReadPlan::new(key, TEN_MINUTES_SECS, message, on_error);
        plan
    }

    /// Looking a role up by name; the text is the answer when none exists.
    pub fn find_by_name(&self, name: &str) -> (r_ok: (ReadPlan, String))
        ensures
            read_plan_is(
                r_ok.0,
                role_name_key(name@),
                TEN_MINUTES_SECS,
                "Role retrieved by name successfully"@,
                OnRepoErrorView::CustomDescribed,
            ) && r_ok.1@ == "Role with name '"@ + name@ + "' not found"@,
    {
        let mut key = text("role:find_by_name:name:");
        key.append(name);
        let message = text("Role retrieved by name successfully");
        let on_error = OnRepoError::CustomDescribed;
        let plan = ReadPlan::new(key, TEN_MINUTES_SECS, message, on_error);
        let mut missing = text("Role with name '");
        missing.append(name);
        missing.append("' not found");
        (plan, missing)
    }
}

} // verus!
