//! Top-up amount statistics.
use crate::context::{share, SharedResources};
use crate::errors::{ServiceError, ServiceErrorView};
use crate::flow::{around, TEN_MINUTES_SECS, read_plan_is, text, OnRepoError, OnRepoErrorView, ReadPlan};
use crate::text::{decimal, push_decimal};
use std::sync::Arc;
use vstd::prelude::*;

verus! {

/// Top-up amount statistics over all cards.
pub struct TopupStatsAmountService<Amount, Metrics, Cache> {
    pub amount: Amount,
    pub tracing_metrics_core: Arc<Metrics>,
    pub cache_store: Arc<Cache>,
}

impl<Amount, Metrics, Cache> TopupStatsAmountService<Amount, Metrics, Cache> {
    /// The service over the given repositories and shared resources.
    pub fn new(amount: Amount, shared: &SharedResources<Metrics, Cache>) -> (r: Self)
        ensures
            r.amount == amount,
            r.tracing_metrics_core == shared.tracing_metrics,
            r.cache_store == shared.cache_store,
    {
        TopupStatsAmountService {
            amount,
            tracing_metrics_core: share(&shared.tracing_metrics),
            cache_store: share(&shared.cache_store),
        }
    }

    /// Monthly top-up amounts in a year (2000 to 2100).
    pub fn get_monthly_amounts(&self, year: i32) -> (r: Result<ReadPlan, ServiceError>)
        ensures
            !(2000 <= year <= 2100) ==> (r matches Err(se) && se@ == ServiceErrorView::Custom(
                "Year must be between 2000 and 2100"@,
            )),
            2000 <= year <= 2100 ==> (r matches Ok(r_ok) && read_plan_is(
                r_ok,
                "topup:monthly_amounts:year:"@ + decimal(year as int),
                TEN_MINUTES_SECS,
                "Monthly top-up amounts for year "@
                + decimal(year as int)
                + " retrieved successfully"@,
                OnRepoErrorView::Pass,
            )),
    {
        if !(2000 <= year && year <= 2100) {
            return Err(ServiceError::Custom(text("Year must be between 2000 and 2100")));
        }
        let mut key = text("topup:monthly_amounts:year:");
        push_decimal(&mut key, year as i64);
        let mut message = text("Monthly top-up amounts for year ");
        push_decimal(&mut message, year as i64);
        message.append(" retrieved successfully");
        let on_error = OnRepoError::Pass;
        let plan = ReadPlan::new(key, TEN_MINUTES_SECS, message, on_error);
        Ok(plan)
    }

    /// Yearly top-up amounts around a year (2000 to 2100).
    pub fn get_yearly_amounts(&self, year: i32) -> (r: Result<ReadPlan, ServiceError>)
        ensures
            !(2000 <= year <= 2100) ==> (r matches Err(se) && se@ == ServiceErrorView::Custom(
                "Year must be between 2000 and 2100"@,
            )),
            2000 <= year <= 2100 ==> (r matches Ok(r_ok) && read_plan_is(
                r_ok,
                "topup:yearly_amounts:year:"@ + decimal(year as int),
                TEN_MINUTES_SECS,
                "Yearly top-up amounts for year "@
                + decimal(year as int)
                + " retrieved successfully"@,
                OnRepoErrorView::Pass,
            )),
    {
        if !(2000 <= year && year <= 2100) {
            return Err(ServiceError::Custom(text("Year must be between 2000 and 2100")));
        }
        let mut key = text("topup:yearly_amounts:year:");
        push_decimal(&mut key, year as i64);
        let mut message = text("Yearly top-up amounts for year ");
        push_decimal(&mut message, year as i64);
        message.append(" retrieved successfully");
        let on_error = OnRepoError::Pass;
        let plan = ReadPlan::new(key, TEN_MINUTES_SECS, message, on_error);
        Ok(plan)
    }
}

} // verus!
