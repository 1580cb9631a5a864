//! Merchant lookups.
use crate::flow::{TEN_MINUTES_SECS, page_plan_is, read_plan_is, text, OnRepoError, OnRepoErrorView, PageReadPlan, ReadPlan};
use crate::pagination::{normal_page, normal_page_size, normalize, req_search_label, FindAllRequest};
use crate::text::{decimal, mask_api_key, masked, push_decimal};
use vstd::prelude::*;

verus! {

/// The cache key of a merchant looked up by API key; it holds the masked key.
pub open spec fn merchant_api_key_key(api_key: Seq<char>) -> Seq<char> {
    "merchant:find_by_apikey:key:"@ + masked(api_key)
}

/// The cache key of a merchant looked up by id.
pub open spec fn merchant_id_key(merchant_id: int) -> Seq<char> {
    "merchant:find_by_id:id:"@ + decimal(merchant_id)
}

/// Merchant lookups over a merchant repository, answered from the cache when it can.
pub struct MerchantQueryService<Query, Cache> {
    pub query: Query,
    pub cache_store: Cache,
}

impl<Query, Cache> MerchantQueryService<Query, Cache> {
    /// The service over the given repositories and cache.
    pub fn new(query: Query, cache_store: Cache) -> (r: Self)
        ensures
            r.query == query,
            r.cache_store == cache_store,
    {
        MerchantQueryService { query, cache_store }
    }

    /// Listing all merchants.
    pub fn find_all(&self, req: &FindAllRequest) -> (r_ok: PageReadPlan)
        ensures
            page_plan_is(
                r_ok,
                "merchant:find_all:page:"@
                + decimal(normal_page(req.page) as int)
                + ":size:"@
                + decimal(normal_page_size(req.page_size) as int)
                + ":search:"@
                + req_search_label(*req, false),
                TEN_MINUTES_SECS,
                "Merchants retrieved successfully"@,
                OnRepoErrorView::CustomDescribed,
                normal_page(req.page),
                normal_page_size(req.page_size),
            ),
    {
        let page = normalize(req, false);
        let mut key = text("merchant:find_all:page:");
        push_decimal(&mut key, page.page as i64);
        key.append(":size:");
        push_decimal(&mut key, page.page_size as i64);
        key.append(":search:");
        key.append(page.search_label().as_str());
        let message = text("Merchants retrieved successfully");
        let on_error = OnRepoError::CustomDescribed;
        PageReadPlan {
            cache_key: key,
            ttl_secs: TEN_MINUTES_SECS,
            message,
            on_error,
            page: page.page,
            page_size: page.page_size,
        }
    }

    /// Listing merchants not in the trash.
    pub fn find_active(&self, req: &FindAllRequest) -> (r_ok: PageReadPlan)
        ensures
            page_plan_is(
                r_ok,
                "merchant:find_active:page:"@
                + decimal(normal_page(req.page) as int)
                + ":size:"@
                + decimal(normal_page_size(req.page_size) as int)
                + ":search:"@
                + req_search_label(*req, false),
                TEN_MINUTES_SECS,
                "Active merchants retrieved successfully"@,
                OnRepoErrorView::Internal,
                normal_page(req.page),
                normal_page_size(req.page_size),
            ),
    {
        let page = normalize(req, false);
        let mut key = text("merchant:find_active:page:");
        push_decimal(&mut key, page.page as i64);
        key.append(":size:");
        push_decimal(&mut key, page.page_size as i64);
        key.append(":search:");
        key.append(page.search_label().as_str());
        let message = text("Active merchants retrieved successfully");
        let on_error = OnRepoError::Internal;
        PageReadPlan {
            cache_key: key,
            ttl_secs: TEN_MINUTES_SECS,
            message,
            on_error,
            page: page.page,
            page_size: page.page_size,
        }
    }

    /// Listing merchants in the trash.
    pub fn find_trashed(&self, req: &FindAllRequest) -> (r_ok: PageReadPlan)
        ensures
            page_plan_is(
                r_ok,
                "merchant:find_trashed:page:"@
                + decimal(normal_page(req.page) as int)
                + ":size:"@
                + decimal(normal_page_size(req.page_size) as int)
                + ":search:"@
                + req_search_label(*req, false),
                TEN_MINUTES_SECS,
                "Trashed merchants retrieved successfully"@,
                OnRepoErrorView::Internal,
                normal_page(req.page),
                normal_page_size(req.page_size),
            ),
    {
        let page = normalize(req, false);
        let mut key = text("merchant:find_trashed:page:");
        push_decimal(&mut key, page.page as i64);
        key.append(":size:");
        push_decimal(&mut key, page.page_size as i64);
        key.append(":search:");
        key.append(page.search_label().as_str());
        let message = text("Trashed merchants retrieved successfully");
        let on_error = OnRepoError::Internal;
        PageReadPlan {
            cache_key: key,
            ttl_secs: TEN_MINUTES_SECS,
            message,
            on_error,
            page: page.page,
            page_size: page.page_size,
        }
    }

    /// Looking a merchant up by id.
    pub fn find_by_id(&self, id: i32) -> (r_ok: ReadPlan)
        ensures
            read_plan_is(
                r_ok,
                merchant_id_key(id as int),
                TEN_MINUTES_SECS,
                "Merchant retrieved successfully"@,
                OnRepoErrorView::NotFoundAs("Merchant not found"@),
            ),
    {
        let mut key = text("merchant:find_by_id:id:");
        push_decimal(&mut key, id as i64);
        let message = text("Merchant retrieved successfully");
        let policy_text = text("Merchant not found");
        let on_error = OnRepoError::NotFoundAs(policy_text);
        let plan = ReadPlan::new(key, TEN_MINUTES_SECS, message, on_error);
        plan
    }

    /// Looking a merchant up by API key; the cache key holds the masked key.
    pub fn find_by_apikey(&self, api_key: &str) -> (r_ok: ReadPlan)
        ensures
            read_plan_is(
                r_ok,
                merchant_api_key_key(api_key@),
                TEN_MINUTES_SECS,
                "Merchant retrieved by API key"@,
                OnRepoErrorView::NotFoundAs("Invalid API key"@),
            ),
    {
        let masked_0 = mask_api_key(api_key);
        let mut key = text("merchant:find_by_apikey:key:");
        key.append(masked_0.as_str());
        let message = text("Merchant retrieved by API key");
        let policy_text = text("Invalid API key");
        let on_error = OnRepoError::NotFoundAs(policy_text);
        let plan = ReadPlan::new(key, TEN_MINUTES_SECS, message, on_error);
        plan
    }

    /// Looking up a user's merchants.
    pub fn find_merchant_user_id(&self, user_id: i32) -> (r_ok: ReadPlan)
        ensures
            read_plan_is(
                r_ok,
                "merchant:find_by_user_id:user_id:"@ + decimal(user_id as int),
                TEN_MINUTES_SECS,
                "Merchants by user ID retrieved successfully"@,
                OnRepoErrorView::Internal,
            ),
    {
        let mut key = text("merchant:find_by_user_id:user_id:");
        push_decimal(&mut key, user_id as i64);
        let message = text("Merchants by user ID retrieved successfully");
        let on_error = OnRepoError::Internal;
        let plan = ReadPlan::new(key, TEN_MINUTES_SECS, message, on_error);
        plan
    }
}

} // verus!
