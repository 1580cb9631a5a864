//! Transaction statistics by API key.
use crate::errors::{ServiceError, ServiceErrorView};
use crate::flow::{TEN_MINUTES_SECS, read_plan_is, text, OnRepoError, OnRepoErrorView, ReadPlan};
use crate::text::{decimal, mask_api_key, masked, push_decimal};
use vstd::prelude::*;

verus! {

/// A statistics request about the merchant with an API key, in one year.
pub struct MonthYearAmountApiKey {
    pub api_key: String,
    pub year: i32,
}

/// Transaction statistics of the merchant with an API key.
pub struct MerchantStatsAmountByApiKeyService<Amount, Cache> {
    pub amount: Amount,
    pub cache_store: Cache,
}

impl<Amount, Cache> MerchantStatsAmountByApiKeyService<Amount, Cache> {
    /// The service over the given repositories and cache.
    pub fn new(amount: Amount, cache_store: Cache) -> (r: Self)
        ensures
            r.amount == amount,
            r.cache_store == cache_store,
    {
        MerchantStatsAmountByApiKeyService { amount, cache_store }
    }

    /// Monthly statistics of the merchant with an API key.
    pub fn find_monthly_amount(&self, req: &MonthYearAmountApiKey, problem: Option<String>) -> (r: Result<ReadPlan, ServiceError>)
        ensures
            match problem {
                Some(e) => r matches Err(se) && se@ == ServiceErrorView::Custom(e@),
                None => r matches Ok(r_ok) && read_plan_is(
                    r_ok,
                    "merchant:monthly_amount:api_key:"@
                    + masked(req.api_key@)
                    + ":year:"@
                    + decimal(req.year as int),
                    TEN_MINUTES_SECS,
                    "Monthly transaction amounts for api_key "@
                    + masked(req.api_key@)
                    + " in year "@
                    + decimal(req.year as int)
                    + " retrieved successfully"@,
                    OnRepoErrorView::Pass,
                ),
            },
    {
        if let Some(e) = problem {
            return Err(ServiceError::Custom(e));
        }
        let masked_0 = mask_api_key(req.api_key.as_str());
        let mut key = text("merchant:monthly_amount:api_key:");
        key.append(masked_0.as_str());
        key.append(":year:");
        push_decimal(&mut key, req.year as i64);
        let mut message = text("Monthly transaction amounts for api_key ");
        message.append(masked_0.as_str());
        message.append(" in year ");
        push_decimal(&mut message, req.year as i64);
        message.append(" retrieved successfully");
        let on_error = OnRepoError::Pass;
        let plan = ReadPlan::new(key, TEN_MINUTES_SECS, message, on_error);
        Ok(plan)
    }

    /// Yearly statistics of the merchant with an API key.
    pub fn find_yearly_amount(&self, req: &MonthYearAmountApiKey, problem: Option<String>) -> (r: Result<ReadPlan, ServiceError>)
        ensures
            match problem {
                Some(e) => r matches Err(se) && se@ == ServiceErrorView::Custom(e@),
                None => r matches Ok(r_ok) && read_plan_is(
                    r_ok,
                    "merchant:yearly_amount:api_key:"@
                    + masked(req.api_key@)
                    + ":year:"@
                    + decimal(req.year as int),
                    TEN_MINUTES_SECS,
                    "Yearly transaction amounts for api_key "@
                    + masked(req.api_key@)
                    + " in year "@
                    + decimal(req.year as int)
                    + " retrieved successfully"@,
                    OnRepoErrorView::Pass,
                ),
            },
    {
        if let Some(e) = problem {
            return Err(ServiceError::Custom(e));
        }
        let masked_0 = mask_api_key(req.api_key.as_str());
        let mut key = text("merchant:yearly_amount:api_key:");
        key.append(masked_0.as_str());
        key.append(":year:");
        push_decimal(&mut key, req.year as i64);
        let mut message = text("Yearly transaction amounts for api_key ");
        message.append(masked_0.as_str());
        message.append(" in year ");
        push_decimal(&mut message, req.year as i64);
        message.append(" retrieved successfully");
        let on_error = OnRepoError::Pass;
        let plan = ReadPlan::new(key, TEN_MINUTES_SECS, message, on_error);
        Ok(plan)
    }
}

} // verus!
