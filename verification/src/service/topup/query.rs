//! Top-up lookups.
use crate::errors::{ServiceError, ServiceErrorView};
use crate::flow::{TEN_MINUTES_SECS, page_plan_is, read_plan_is, text, OnRepoError, OnRepoErrorView, PageReadPlan, ReadPlan};
use crate::pagination::{normal_page, normal_page_size, normalize, req_search_or_empty, FindAllRequest};
use crate::text::{blank, decimal, is_blank, mask_card_number, masked, push_decimal};
use vstd::prelude::*;

verus! {

/// The cache key of a top-up looked up by id.
pub open spec fn topup_id_key(topup_id: int) -> Seq<char> {
    "topup:find_by_id:id:"@ + decimal(topup_id)
}

/// The cache key of a card's top-ups; it holds the masked card number.
pub open spec fn topup_card_key(card_number: Seq<char>) -> Seq<char> {
    "topup:find_by_card:card_number:"@ + masked(card_number)
}

/// Top-up lookups over a top-up repository, answered from the cache when it can.
pub struct TopupQueryService<Query, Cache> {
    pub query: Query,
    pub cache_store: Cache,
}

impl<Query, Cache> TopupQueryService<Query, Cache> {
    /// The service over the given repositories and cache.
    pub fn new(query: Query, cache_store: Cache) -> (r: Self)
        ensures
            r.query == query,
            r.cache_store == cache_store,
    {
        TopupQueryService { query, cache_store }
    }

    /// Listing all top-ups.
    pub fn find_all(&self, req: &FindAllRequest) -> (r_ok: PageReadPlan)
        ensures
            page_plan_is(
                r_ok,
                "topup:find_all:page:"@
                + decimal(normal_page(req.page) as int)
                + ":size:"@
                + decimal(normal_page_size(req.page_size) as int)
                + ":search:"@
                + req_search_or_empty(*req, false),
                TEN_MINUTES_SECS,
                "Topups retrieved successfully"@,
                OnRepoErrorView::CustomDescribed,
                normal_page(req.page),
                normal_page_size(req.page_size),
            ),
    {
        let page = normalize(req, false);
        let mut key = text("topup:find_all:page:");
        push_decimal(&mut key, page.page as i64);
        key.append(":size:");
        push_decimal(&mut key, page.page_size as i64);
        key.append(":search:");
        key.append(page.search_or_empty().as_str());
        let message = text("Topups retrieved successfully");
        let on_error = OnRepoError::CustomDescribed;
        PageReadPlan {
            cache_key: key,
            ttl_secs: TEN_MINUTES_SECS,
            message,
            on_error,
            page: page.page,
            page_size: page.page_size,
        }
    }

    /// Listing the top-ups of a card; a blank card number refuses.
    pub fn find_all_by_card_number(&self, req: &FindAllRequest, card_number: &str) -> (r: Result<PageReadPlan, ServiceError>)
        ensures
            is_blank(card_number@) ==> (r matches Err(se) && se@ == ServiceErrorView::Custom("Card number is required"@)),
            !(is_blank(card_number@)) ==> (r matches Ok(r_ok) && page_plan_is(
                r_ok,
                "topup:find_by_card_number:card:"@
                + masked(card_number@)
                + ":page:"@
                + decimal(normal_page(req.page) as int)
                + ":size:"@
                + decimal(normal_page_size(req.page_size) as int)
                + ":search:"@
                + req_search_or_empty(*req, false),
                TEN_MINUTES_SECS,
                "Topups by card number retrieved successfully"@,
                OnRepoErrorView::CustomDescribed,
                normal_page(req.page),
                normal_page_size(req.page_size),
            )),
    {
        if blank(card_number) {
            return Err(ServiceError::Custom(text("Card number is required")));
        }
        let page = normalize(req, false);
        let masked_0 = mask_card_number(card_number);
        let mut key = text("topup:find_by_card_number:card:");
        key.append(masked_0.as_str());
        key.append(":page:");
        push_decimal(&mut key, page.page as i64);
        key.append(":size:");
        push_decimal(&mut key, page.page_size as i64);
        key.append(":search:");
        key.append(page.search_or_empty().as_str());
        let message = text("Topups by card number retrieved successfully");
        let on_error = OnRepoError::CustomDescribed;
        Ok(PageReadPlan {
            cache_key: key,
            ttl_secs: TEN_MINUTES_SECS,
            message,
            on_error,
            page: page.page,
            page_size: page.page_size,
        })
    }

    /// Looking a top-up up by id.
    pub fn find_by_id(&self, topup_id: i32) -> (r_ok: ReadPlan)
        ensures
            read_plan_is(
                r_ok,
                topup_id_key(topup_id as int),
                TEN_MINUTES_SECS,
                "Topup retrieved successfully"@,
                OnRepoErrorView::CustomDescribed,
            ),
    {
        let mut key = text("topup:find_by_id:id:");
        push_decimal(&mut key, topup_id as i64);
        let message = text("Topup retrieved successfully");
        let on_error = OnRepoError::CustomDescribed;
        let plan = ReadPlan::new(key, TEN_MINUTES_SECS, message, on_error);
        plan
    }

    /// Looking up a card's top-ups; the cache key holds the masked number.
    pub fn find_by_card(&self, card_number: &str) -> (r_ok: ReadPlan)
        ensures
            read_plan_is(
                r_ok,
                topup_card_key(card_number@),
                TEN_MINUTES_SECS,
                "Topups retrieved successfully"@,
                OnRepoErrorView::CustomDescribed,
            ),
    {
        let masked_0 = mask_card_number(card_number);
        let mut key = text("topup:find_by_card:card_number:");
        key.append(masked_0.as_str());
        let message = text("Topups retrieved successfully");
        let on_error = OnRepoError::CustomDescribed;
        let plan = ReadPlan::new(key, TEN_MINUTES_SECS, message, on_error);
        plan
    }

    /// Listing top-ups not in the trash.
    pub fn find_active(&self, req: &FindAllRequest) -> (r_ok: PageReadPlan)
        ensures
            page_plan_is(
                r_ok,
                "topup:find_by_active:page:"@
                + decimal(normal_page(req.page) as int)
                + ":size:"@
                + decimal(normal_page_size(req.page_size) as int)
                + ":search:"@
                + req_search_or_empty(*req, false),
                TEN_MINUTES_SECS,
                "Active topups retrieved successfully"@,
                OnRepoErrorView::CustomDescribed,
                normal_page(req.page),
                normal_page_size(req.page_size),
            ),
    {
        let page = normalize(req, false);
        let mut key = text("topup:find_by_active:page:");
        push_decimal(&mut key, page.page as i64);
        key.append(":size:");
        push_decimal(&mut key, page.page_size as i64);
        key.append(":search:");
        key.append(page.search_or_empty().as_str());
        let message = text("Active topups retrieved successfully");
        let on_error = OnRepoError::CustomDescribed;
        PageReadPlan {
            cache_key: key,
            ttl_secs: TEN_MINUTES_SECS,
            message,
            on_error,
            page: page.page,
            page_size: page.page_size,
        }
    }

    /// Listing top-ups in the trash.
    pub fn find_trashed(&self, req: &FindAllRequest) -> (r_ok: PageReadPlan)
        ensures
            page_plan_is(
                r_ok,
                "topup:find_by_trashed:page:"@
                + decimal(normal_page(req.page) as int)
                + ":size:"@
                + decimal(normal_page_size(req.page_size) as int)
                + ":search:"@
                + req_search_or_empty(*req, false),
                TEN_MINUTES_SECS,
                "Trashed topups retrieved successfully"@,
                OnRepoErrorView::CustomDescribed,
                normal_page(req.page),
                normal_page_size(req.page_size),
            ),
    {
        let page = normalize(req, false);
        let mut key = text("topup:find_by_trashed:page:");
        push_decimal(&mut key, page.page as i64);
        key.append(":size:");
        push_decimal(&mut key, page.page_size as i64);
        key.append(":search:");
        key.append(page.search_or_empty().as_str());
        let message = text("Trashed topups retrieved successfully");
        let on_error = OnRepoError::CustomDescribed;
        PageReadPlan {
            cache_key: key,
            ttl_secs: TEN_MINUTES_SECS,
            message,
            on_error,
            page: page.page,
            page_size: page.page_size,
        }
    }
}

} // verus!
