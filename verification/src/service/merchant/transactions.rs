//! Merchant transaction listings.
use crate::flow::{TEN_MINUTES_SECS, page_plan_is, text, OnRepoError, OnRepoErrorView, PageReadPlan};
use crate::pagination::{normal_page, normal_page_size, normalize, req_search_label, FindAllRequest};
use crate::text::{decimal, mask_api_key, masked, push_decimal};
use vstd::prelude::*;

verus! {

/// Merchant transaction listings, answered from the cache when it can.
pub struct MerchantTransactionService<Transaction, Cache> {
    pub transaction: Transaction,
    pub cache_store: Cache,
}

impl<Transaction, Cache> MerchantTransactionService<Transaction, Cache> {
    /// The service over the given repositories and cache.
    pub fn new(transaction: Transaction, cache_store: Cache) -> (r: Self)
        ensures
            r.transaction == transaction,
            r.cache_store == cache_store,
    {
        MerchantTransactionService { transaction, cache_store }
    }

    /// Listing all merchant transactions.
    pub fn find_all(&self, req: &FindAllRequest) -> (r_ok: PageReadPlan)
        ensures
            page_plan_is(
                r_ok,
                "merchant_transaction:find_all:page:"@
                + decimal(normal_page(req.page) as int)
                + ":size:"@
                + decimal(normal_page_size(req.page_size) as int)
                + ":search:"@
                + req_search_label(*req, true),
                TEN_MINUTES_SECS,
                "Merchant transactions retrieved successfully"@,
                OnRepoErrorView::CustomDescribed,
                normal_page(req.page),
                normal_page_size(req.page_size),
            ),
    {
        let page = normalize(req, true);
        let mut key = text("merchant_transaction:find_all:page:");
        push_decimal(&mut key, page.page as i64);
        key.append(":size:");
        push_decimal(&mut key, page.page_size as i64);
        key.append(":search:");
        key.append(page.search_label().as_str());
        let message = text("Merchant transactions retrieved successfully");
        let on_error = OnRepoError::CustomDescribed;
        PageReadPlan {
            cache_key: key,
            ttl_secs: TEN_MINUTES_SECS,
            message,
            on_error,
            page: page.page,
            page_size: page.page_size,
        }
    }

    /// Listing the transactions of the merchant with an API key; the cache key holds the masked key.
    pub fn find_all_by_api_key(&self, req: &FindAllRequest, api_key: &str) -> (r_ok: PageReadPlan)
        ensures
            page_plan_is(
                r_ok,
                "merchant_transaction:find_by_api_key:key:"@
                + masked(api_key@)
                + ":page:"@
                + decimal(normal_page(req.page) as int)
                + ":size:"@
                + decimal(normal_page_size(req.page_size) as int)
                + ":search:"@
                + req_search_label(*req, true),
                TEN_MINUTES_SECS,
                "Transactions by API key retrieved successfully"@,
                OnRepoErrorView::NotFoundAs("No transactions found for this API key"@),
                normal_page(req.page),
                normal_page_size(req.page_size),
            ),
    {
        let page = normalize(req, true);
        let masked_0 = mask_api_key(api_key);
        let mut key = text("merchant_transaction:find_by_api_key:key:");
        key.append(masked_0.as_str());
        key.append(":page:");
        push_decimal(&mut key, page.page as i64);
        key.append(":size:");
        push_decimal(&mut key, page.page_size as i64);
        key.append(":search:");
        key.append(page.search_label().as_str());
        let message = text("Transactions by API key retrieved successfully");
        let policy_text = text("No transactions found for this API key");
        let on_error = OnRepoError::NotFoundAs(policy_text);
        PageReadPlan {
            cache_key: key,
            ttl_secs: TEN_MINUTES_SECS,
            message,
            on_error,
            page: page.page,
            page_size: page.page_size,
        }
    }

    /// Listing the transactions of a merchant.
    pub fn find_all_by_id(&self, req: &FindAllRequest, merchant_id: i32) -> (r_ok: PageReadPlan)
        ensures
            page_plan_is(
                r_ok,
                "merchant_transaction:find_by_id:merchant_id:"@
                + decimal(merchant_id as int)
                + ":page:"@
                + decimal(normal_page(req.page) as int)
                + ":size:"@
                + decimal(normal_page_size(req.page_size) as int)
                + ":search:"@
                + req_search_label(*req, true),
                TEN_MINUTES_SECS,
                "Transactions by merchant ID retrieved successfully"@,
                OnRepoErrorView::NotFoundAs("Merchant not found or has no transactions"@),
                normal_page(req.page),
                normal_page_size(req.page_size),
            ),
    {
        let page = normalize(req, true);
        let mut key = text("merchant_transaction:find_by_id:merchant_id:");
        push_decimal(&mut key, merchant_id as i64);
        key.append(":page:");
        push_decimal(&mut key, page.page as i64);
        key.append(":size:");
        push_decimal(&mut key, page.page_size as i64);
        key.append(":search:");
        key.append(page.search_label().as_str());
        let message = text("Transactions by merchant ID retrieved successfully");
        let policy_text = text("Merchant not found or has no transactions");
        let on_error = OnRepoError::NotFoundAs(policy_text);
        PageReadPlan {
            cache_key: key,
            ttl_secs: TEN_MINUTES_SECS,
            message,
            on_error,
            page: page.page,
            page_size: page.page_size,
        }
    }
}

} // verus!
