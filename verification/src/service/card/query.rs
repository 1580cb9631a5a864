//! Card lookups.
use crate::flow::{TEN_MINUTES_SECS, page_plan_is, read_plan_is, text, OnRepoError, OnRepoErrorView, PageReadPlan, ReadPlan};
use crate::pagination::{normal_page, normal_page_size, normalize, req_search_or_empty, FindAllRequest};
use crate::text::{decimal, mask_card_number, masked, push_decimal};
use vstd::prelude::*;

verus! {

/// The cache key of a user's card.
pub open spec fn card_user_key(user_id: int) -> Seq<char> {
    "card:find_by_user_id:user_id:"@ + decimal(user_id)
}

/// The cache key of a card looked up by id.
pub open spec fn card_id_key(card_id: int) -> Seq<char> {
    "card:find_by_id:id:"@ + decimal(card_id)
}

/// Card lookups over a card repository, answered from the cache when it can.
pub struct CardQueryService<Query, Cache> {
    pub query: Query,
    pub cache_store: Cache,
}

impl<Query, Cache> CardQueryService<Query, Cache> {
    /// The service over the given repositories and cache.
    pub fn new(query: Query, cache_store: Cache) -> (r: Self)
        ensures
            r.query == query,
            r.cache_store == cache_store,
    {
        CardQueryService { query, cache_store }
    }

    /// Listing all cards: how the page is cached and answered.
    pub fn find_all(&self, req: &FindAllRequest) -> (r_ok: PageReadPlan)
        ensures
            page_plan_is(
                r_ok,
                "card:find_all:page:"@
                + decimal(normal_page(req.page) as int)
                + ":size:"@
                + decimal(normal_page_size(req.page_size) as int)
                + ":search:"@
                + req_search_or_empty(*req, false),
                TEN_MINUTES_SECS,
                "Cards retrieved successfully"@,
                OnRepoErrorView::CustomDescribed,
                normal_page(req.page),
                normal_page_size(req.page_size),
            ),
    {
        let page = normalize(req, false);
        let mut key = text("card:find_all:page:");
        push_decimal(&mut key, page.page as i64);
        key.append(":size:");
        push_decimal(&mut key, page.page_size as i64);
        key.append(":search:");
        key.append(page.search_or_empty().as_str());
        let message = text("Cards retrieved successfully");
        let on_error = OnRepoError::CustomDescribed;
        PageReadPlan {
            cache_key: key,
            ttl_secs: TEN_MINUTES_SECS,
            message,
            on_error,
            page: page.page,
            page_size: page.page_size,
        }
    }

    /// Listing cards not in the trash.
    pub fn find_active(&self, req: &FindAllRequest) -> (r_ok: PageReadPlan)
        ensures
            page_plan_is(
                r_ok,
                "card:find_active:page:"@
                + decimal(normal_page(req.page) as int)
                + ":size:"@
                + decimal(normal_page_size(req.page_size) as int)
                + ":search:"@
                + req_search_or_empty(*req, false),
                TEN_MINUTES_SECS,
                "Active cards retrieved successfully"@,
                OnRepoErrorView::Internal,
                normal_page(req.page),
                normal_page_size(req.page_size),
            ),
    {
        let page = normalize(req, false);
        let mut key = text("card:find_active:page:");
        push_decimal(&mut key, page.page as i64);
        key.append(":size:");
        push_decimal(&mut key, page.page_size as i64);
        key.append(":search:");
        key.append(page.search_or_empty().as_str());
        let message = text("Active cards retrieved successfully");
        let on_error = OnRepoError::Internal;
        PageReadPlan {
            cache_key: key,
            ttl_secs: TEN_MINUTES_SECS,
            message,
            on_error,
            page: page.page,
            page_size: page.page_size,
        }
    }

    /// Listing cards in the trash.
    pub fn find_trashed(&self, req: &FindAllRequest) -> (r_ok: PageReadPlan)
        ensures
            page_plan_is(
                r_ok,
                "card:find_trashed:page:"@
                + decimal(normal_page(req.page) as int)
                + ":size:"@
                + decimal(normal_page_size(req.page_size) as int)
                + ":search:"@
                + req_search_or_empty(*req, false),
                TEN_MINUTES_SECS,
                "Trashed cards retrieved successfully"@,
                OnRepoErrorView::Internal,
                normal_page(req.page),
                normal_page_size(req.page_size),
            ),
    {
        let page = normalize(req, false);
        let mut key = text("card:find_trashed:page:");
        push_decimal(&mut key, page.page as i64);
        key.append(":size:");
        push_decimal(&mut key, page.page_size as i64);
        key.append(":search:");
        key.append(page.search_or_empty().as_str());
        let message = text("Trashed cards retrieved successfully");
        let on_error = OnRepoError::Internal;
        PageReadPlan {
            cache_key: key,
            ttl_secs: TEN_MINUTES_SECS,
            message,
            on_error,
            page: page.page,
            page_size: page.page_size,
        }
    }

    /// Looking a card up by id.
    pub fn find_by_id(&self, id: i32) -> (r_ok: ReadPlan)
        ensures
            read_plan_is(
                r_ok,
                card_id_key(id as int),
                TEN_MINUTES_SECS,
                "Card retrieved successfully"@,
                OnRepoErrorView::Internal,
            ),
    {
        let mut key = text("card:find_by_id:id:");
        push_decimal(&mut key, id as i64);
        let message = text("Card retrieved successfully");
        let on_error = OnRepoError::Internal;
        let plan = ReadPlan::new(key, TEN_MINUTES_SECS, message, on_error);
        plan
    }

    /// Looking up a user's card.
    pub fn find_by_user_id(&self, user_id: i32) -> (r_ok: ReadPlan)
        ensures
            read_plan_is(
                r_ok,
                card_user_key(user_id as int),
                TEN_MINUTES_SECS,
                "Card by user ID retrieved successfully"@,
                OnRepoErrorView::Internal,
            ),
    {
        let mut key = text("card:find_by_user_id:user_id:");
        push_decimal(&mut key, user_id as i64);
        let message = text("Card by user ID retrieved successfully");
        let on_error = OnRepoError::Internal;
        let plan = ReadPlan::new(key, TEN_MINUTES_SECS, message, on_error);
        plan
    }

    /// Looking a card up by its number; the cache key holds the masked number.
    pub fn find_by_card(&self, card_number: &str) -> (r_ok: ReadPlan)
        ensures
            read_plan_is(
                r_ok,
                "card:find_by_card:number:"@ + masked(card_number@),
                TEN_MINUTES_SECS,
                "Card retrieved by card number"@,
                OnRepoErrorView::NotFoundAs("Card not found"@),
            ),
    {
        let masked_0 = mask_card_number(card_number);
        let mut key = text("card:find_by_card:number:");
        key.append(masked_0.as_str());
        let message = text("Card retrieved by card number");
        let policy_text = text("Card not found");
        let on_error = OnRepoError::NotFoundAs(policy_text);
        let plan = ReadPlan::new(key, TEN_MINUTES_SECS, message, on_error);
        plan
    }
}

} // verus!
