//! Transaction statistics by merchant.
use crate::errors::{ServiceError, ServiceErrorView};
use crate::flow::{TEN_MINUTES_SECS, read_plan_is, text, OnRepoError, OnRepoErrorView, ReadPlan};
use crate::text::{decimal, push_decimal};
use vstd::prelude::*;

verus! {

/// A statistics request about one merchant in one year.
pub struct MonthYearTotalAmountMerchant {
    pub merchant_id: i32,
    pub year: i32,
}

/// Transaction statistics of one merchant.
pub struct MerchantStatsTotalAmountByMerchantService<TotalAmount, Cache> {
    pub total_amount: TotalAmount,
    pub cache_store: Cache,
}

impl<TotalAmount, Cache> MerchantStatsTotalAmountByMerchantService<TotalAmount, Cache> {
    /// The service over the given repositories and cache.
    pub fn new(total_amount: TotalAmount, cache_store: Cache) -> (r: Self)
        ensures
            r.total_amount == total_amount,
            r.cache_store == cache_store,
    {
        MerchantStatsTotalAmountByMerchantService { total_amount, cache_store }
    }

    /// Monthly statistics of one merchant.
    pub fn find_monthly_total_amount(&self, req: &MonthYearTotalAmountMerchant, problem: Option<String>) -> (r: Result<ReadPlan, ServiceError>)
        ensures
            match problem {
                Some(e) => r matches Err(se) && se@ == ServiceErrorView::Custom(e@),
                None => r matches Ok(r_ok) && read_plan_is(
                    r_ok,
                    "merchant:monthly_total_amount:merchant_id:"@
                    + decimal(req.merchant_id as int)
                    + ":year:"@
                    + decimal(req.year as int),
                    TEN_MINUTES_SECS,
                    "Monthly total transaction amounts for merchant_id "@
                    + decimal(req.merchant_id as int)
                    + " in year "@
                    + decimal(req.year as int)
                    + " retrieved successfully"@,
                    OnRepoErrorView::Pass,
                ),
            },
    {
        if let Some(e) = problem {
            return Err(ServiceError::Custom(e));
        }
        let mut key = text("merchant:monthly_total_amount:merchant_id:");
        push_decimal(&mut key, req.merchant_id as i64);
        key.append(":year:");
        push_decimal(&mut key, req.year as i64);
        let mut message = text("Monthly total transaction amounts for merchant_id ");
        push_decimal(&mut message, req.merchant_id as i64);
        message.append(" in year ");
        push_decimal(&mut message, req.year as i64);
        message.append(" retrieved successfully");
        let on_error = OnRepoError::Pass;
        let plan = ReadPlan::new(key, TEN_MINUTES_SECS, message, on_error);
        Ok(plan)
    }

    /// Yearly statistics of one merchant.
    pub fn find_yearly_total_amount(&self, req: &MonthYearTotalAmountMerchant, problem: Option<String>) -> (r: Result<ReadPlan, ServiceError>)
        ensures
            match problem {
                Some(e) => r matches Err(se) && se@ == ServiceErrorView::Custom(e@),
                None => r matches Ok(r_ok) && read_plan_is(
                    r_ok,
                    "merchant:yearly_total_amount:merchant_id:"@
                    + decimal(req.merchant_id as int)
                    + ":year:"@
                    + decimal(req.year as int),
                    TEN_MINUTES_SECS,
                    "Yearly total transaction amounts for merchant_id "@
                    + decimal(req.merchant_id as int)
                    + " in year "@
                    + decimal(req.year as int)
                    + " retrieved successfully"@,
                    OnRepoErrorView::Pass,
                ),
            },
    {
        if let Some(e) = problem {
            return Err(ServiceError::Custom(e));
        }
        let mut key = text("merchant:yearly_total_amount:merchant_id:");
        push_decimal(&mut key, req.merchant_id as i64);
        key.append(":year:");
        push_decimal(&mut key, req.year as i64);
        let mut message = text("Yearly total transaction amounts for merchant_id ");
        push_decimal(&mut message, req.merchant_id as i64);
        message.append(" in year ");
        push_decimal(&mut message, req.year as i64);
        message.append(" retrieved successfully");
        let on_error = OnRepoError::Pass;
        let plan = ReadPlan::new(key, TEN_MINUTES_SECS, message, on_error);
        Ok(plan)
    }
}

} // verus!
