//! Transaction statistics by merchant.
use crate::context::{share, SharedResources};
use crate::errors::{ServiceError, ServiceErrorView};
use crate::flow::{TEN_MINUTES_SECS, read_plan_is, text, OnRepoError, OnRepoErrorView, ReadPlan};
use crate::text::{decimal, push_decimal};
use std::sync::Arc;
use vstd::prelude::*;

verus! {

/// A statistics request about one merchant in one year.
pub struct MonthYearAmountMerchant {
    pub merchant_id: i32,
    pub year: i32,
}

/// Transaction statistics of one merchant.
pub struct MerchantStatsAmountByMerchantService<Amount, Metrics, Cache> {
    pub amount: Amount,
    pub tracing_metrics_core: Arc<Metrics>,
    pub cache_store: Arc<Cache>,
}

impl<Amount, Metrics, Cache> MerchantStatsAmountByMerchantService<Amount, Metrics, Cache> {
    /// The service over the given repositories and shared resources.
    pub fn new(amount: Amount, shared: &SharedResources<Metrics, Cache>) -> (r: Self)
        ensures
            r.amount == amount,
            r.tracing_metrics_core == shared.tracing_metrics,
            r.cache_store == shared.cache_store,
    {
        MerchantStatsAmountByMerchantService {
            amount,
            tracing_metrics_core: share(&shared.tracing_metrics),
            cache_store: share(&shared.cache_store),
        }
    }

    /// Monthly statistics of one merchant.
    pub fn find_monthly_amount(&self, req: &MonthYearAmountMerchant, problem: Option<String>) -> (r: Result<ReadPlan, ServiceError>)
        ensures
            match problem {
                Some(e) => r matches Err(se) && se@ == ServiceErrorView::Custom(e@),
                None => r matches Ok(r_ok) && read_plan_is(
                    r_ok,
                    "merchant:monthly_amount:merchant_id:"@
                    + decimal(req.merchant_id as int)
                    + ":year:"@
                    + decimal(req.year as int),
                    TEN_MINUTES_SECS,
                    "Monthly transaction amounts for merchant_id "@
                    + decimal(req.merchant_id as int)
                    + " in year "@
                    + decimal(req.year as int)
                    + " retrieved successfully"@,
                    OnRepoErrorView::Pass,
                ),
            },
    {
        if let Some(e) = problem {
            return Err(ServiceError::Custom(e));
        }
        let mut key = text("merchant:monthly_amount:merchant_id:");
        push_decimal(&mut key, req.merchant_id as i64);
        key.append(":year:");
        push_decimal(&mut key, req.year as i64);
        let mut message = text("Monthly transaction amounts for merchant_id ");
        push_decimal(&mut message, req.merchant_id as i64);
        message.append(" in year ");
        push_decimal(&mut message, req.year as i64);
        message.append(" retrieved successfully");
        let on_error = OnRepoError::Pass;
        let plan = ReadPlan::new(key, TEN_MINUTES_SECS, message, on_error);
        Ok(plan)
    }

    /// Yearly statistics of one merchant.
    pub fn find_yearly_amount(&self, req: &MonthYearAmountMerchant, problem: Option<String>) -> (r: Result<ReadPlan, ServiceError>)
        ensures
            match problem {
                Some(e) => r matches Err(se) && se@ == ServiceErrorView::Custom(e@),
                None => r matches Ok(r_ok) && read_plan_is(
                    r_ok,
                    "merchant:yearly_amount:merchant_id:"@
                    + decimal(req.merchant_id as int)
                    + ":year:"@
                    + decimal(req.year as int),
                    TEN_MINUTES_SECS,
                    "Yearly transaction amounts for merchant_id "@
                    + decimal(req.merchant_id as int)
                    + " in year "@
                    + decimal(req.year as int)
                    + " retrieved successfully"@,
                    OnRepoErrorView::Pass,
                ),
            },
    {
        if let Some(e) = problem {
            return Err(ServiceError::Custom(e));
        }
        let mut key = text("merchant:yearly_amount:merchant_id:");
        push_decimal(&mut key, req.merchant_id as i64);
        key.append(":year:");
        push_decimal(&mut key, req.year as i64);
        let mut message = text("Yearly transaction amounts for merchant_id ");
        push_decimal(&mut message, req.merchant_id as i64);
        message.append(" in year ");
        push_decimal(&mut message, req.year as i64);
        message.append(" retrieved successfully");
        let on_error = OnRepoError::Pass;
        let plan = ReadPlan::new(key, TEN_MINUTES_SECS, message, on_error);
        Ok(plan)
    }
}

} // verus!
