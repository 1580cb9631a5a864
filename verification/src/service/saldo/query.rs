//! Saldo lookups.
use crate::flow::{TEN_MINUTES_SECS, page_plan_is, read_plan_is, text, OnRepoError, OnRepoErrorView, PageReadPlan, ReadPlan};
use crate::pagination::{normal_page, normal_page_size, normalize, req_search_or_empty, FindAllRequest};
use crate::text::{decimal, mask_card_number, masked, push_decimal};
use vstd::prelude::*;

verus! {

/// The cache key of a saldo looked up by id.
pub open spec fn saldo_id_key(saldo_id: int) -> Seq<char> {
    "saldo:find_by_id:id:"@ + decimal(saldo_id)
}

/// The cache key of a card's saldo; it holds the masked card number.
pub open spec fn saldo_card_key(card_number: Seq<char>) -> Seq<char> {
    "saldo:find_by_card:card_number:"@ + masked(card_number)
}

/// Saldo lookups over a saldo repository, answered from the cache when it can.
pub struct SaldoQueryService<Query, Cache> {
    pub query: Query,
    pub cache_store: Cache,
}

impl<Query, Cache> SaldoQueryService<Query, Cache> {
    /// The service over the given repositories and cache.
    pub fn new(query: Query, cache_store: Cache) -> (r: Self)
        ensures
            r.query == query,
            r.cache_store == cache_store,
    {
        SaldoQueryService { query, cache_store }
    }

    /// Listing all saldos.
    pub fn find_all(&self, req: &FindAllRequest) -> (r_ok: PageReadPlan)
        ensures
            page_plan_is(
                r_ok,
                "saldo:find_all:page:"@
                + decimal(normal_page(req.page) as int)
                + ":size:"@
                + decimal(normal_page_size(req.page_size) as int)
                + ":search:"@
                + req_search_or_empty(*req, false),
                TEN_MINUTES_SECS,
                "Saldos retrieved successfully"@,
                OnRepoErrorView::CustomDescribed,
                normal_page(req.page),
                normal_page_size(req.page_size),
            ),
    {
        let page = normalize(req, false);
        let mut key = text("saldo:find_all:page:");
        push_decimal(&mut key, page.page as i64);
        key.append(":size:");
        push_decimal(&mut key, page.page_size as i64);
        key.append(":search:");
        key.append(page.search_or_empty().as_str());
        let message = text("Saldos retrieved successfully");
        let on_error = OnRepoError::CustomDescribed;
        PageReadPlan {
            cache_key: key,
            ttl_secs: TEN_MINUTES_SECS,
            message,
            on_error,
            page: page.page,
            page_size: page.page_size,
        }
    }

    /// Listing saldos not in the trash.
    pub fn find_active(&self, req: &FindAllRequest) -> (r_ok: PageReadPlan)
        ensures
            page_plan_is(
                r_ok,
                "saldo:find_active:page:"@
                + decimal(normal_page(req.page) as int)
                + ":size:"@
                + decimal(normal_page_size(req.page_size) as int)
                + ":search:"@
                + req_search_or_empty(*req, false),
                TEN_MINUTES_SECS,
                "Active saldos retrieved successfully"@,
                OnRepoErrorView::CustomDescribed,
                normal_page(req.page),
                normal_page_size(req.page_size),
            ),
    {
        let page = normalize(req, false);
        let mut key = text("saldo:find_active:page:");
        push_decimal(&mut key, page.page as i64);
        key.append(":size:");
        push_decimal(&mut key, page.page_size as i64);
        key.append(":search:");
        key.append(page.search_or_empty().as_str());
        let message = text("Active saldos retrieved successfully");
        let on_error = OnRepoError::CustomDescribed;
        PageReadPlan {
            cache_key: key,
            ttl_secs: TEN_MINUTES_SECS,
            message,
            on_error,
            page: page.page,
            page_size: page.page_size,
        }
    }

    /// Listing saldos in the trash.
    pub fn find_trashed(&self, req: &FindAllRequest) -> (r_ok: PageReadPlan)
        ensures
            page_plan_is(
                r_ok,
                "saldo:find_trashed:page:"@
                + decimal(normal_page(req.page) as int)
                + ":size:"@
                + decimal(normal_page_size(req.page_size) as int)
                + ":search:"@
                + req_search_or_empty(*req, false),
                TEN_MINUTES_SECS,
                "Trashed saldos retrieved successfully"@,
                OnRepoErrorView::CustomDescribed,
                normal_page(req.page),
                normal_page_size(req.page_size),
            ),
    {
        let page = normalize(req, false);
        let mut key = text("saldo:find_trashed:page:");
        push_decimal(&mut key, page.page as i64);
        key.append(":size:");
        push_decimal(&mut key, page.page_size as i64);
        key.append(":search:");
        key.append(page.search_or_empty().as_str());
        let message = text("Trashed saldos retrieved successfully");
        let on_error = OnRepoError::CustomDescribed;
        PageReadPlan {
            cache_key: key,
            ttl_secs: TEN_MINUTES_SECS,
            message,
            on_error,
            page: page.page,
            page_size: page.page_size,
        }
    }

    /// Looking up a card's saldo; the cache key holds the masked number.
    pub fn find_by_card(&self, card_number: &str) -> (r_ok: ReadPlan)
        ensures
            read_plan_is(
                r_ok,
                saldo_card_key(card_number@),
                TEN_MINUTES_SECS,
                "Saldo retrieved successfully"@,
                OnRepoErrorView::CustomDescribed,
            ),
    {
        let masked_0 = mask_card_number(card_number);
        let mut key = text("saldo:find_by_card:card_number:");
        key.append(masked_0.as_str());
        let message = text("Saldo retrieved successfully");
        let on_error = OnRepoError::CustomDescribed;
        let plan = ReadPlan::new(key, TEN_MINUTES_SECS, message, on_error);
        plan
    }

    /// Looking a saldo up by id.
    pub fn find_by_id(&self, id: i32) -> (r_ok: ReadPlan)
        ensures
            read_plan_is(
                r_ok,
                saldo_id_key(id as int),
                TEN_MINUTES_SECS,
                "Saldo retrieved successfully"@,
                OnRepoErrorView::CustomDescribed,
            ),
    {
        let mut key = text("saldo:find_by_id:id:");
        push_decimal(&mut key, id as i64);
        let message = text("Saldo retrieved successfully");
        let on_error = OnRepoError::CustomDescribed;
        let plan = ReadPlan::new(key, TEN_MINUTES_SECS, message, on_error);
        plan
    }
}

} // verus!
