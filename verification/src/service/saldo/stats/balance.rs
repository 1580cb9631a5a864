//! Balance statistics over all saldos.
use crate::context::{share, SharedResources};
use crate::errors::{ServiceError, ServiceErrorView};
use crate::flow::{around, TEN_MINUTES_SECS, read_plan_is, text, OnRepoError, OnRepoErrorView, ReadPlan};
use crate::text::{decimal, push_decimal};
use std::sync::Arc;
use vstd::prelude::*;

verus! {

/// Balance statistics over all saldos.
pub struct SaldoBalanceService<Balance, Metrics, Cache> {
    pub balance: Balance,
    pub tracing_metrics_core: Arc<Metrics>,
    pub cache_store: Arc<Cache>,
}

impl<Balance, Metrics, Cache> SaldoBalanceService<Balance, Metrics, Cache> {
    /// The service over the given repositories and shared resources.
    pub fn new(balance: Balance, shared: &SharedResources<Metrics, Cache>) -> (r: Self)
        ensures
            r.balance == balance,
            r.tracing_metrics_core == shared.tracing_metrics,
            r.cache_store == shared.cache_store,
    {
        SaldoBalanceService {
            balance,
            tracing_metrics_core: share(&shared.tracing_metrics),
            cache_store: share(&shared.cache_store),
        }
    }

    /// Monthly balances in a year (2000 to 2100).
    pub fn get_month_balance(&self, year: i32) -> (r: Result<ReadPlan, ServiceError>)
        ensures
            !(2000 <= year <= 2100) ==> (r matches Err(se) && se@ == ServiceErrorView::Custom(
                "Year must be between 2000 and 2100"@,
            )),
            2000 <= year <= 2100 ==> (r matches Ok(r_ok) && read_plan_is(
                r_ok,
                "saldo:monthly_balance:year:"@ + decimal(year as int),
                TEN_MINUTES_SECS,
                "Monthly balance for year "@
                + decimal(year as int)
                + " retrieved successfully"@,
                OnRepoErrorView::Pass,
            )),
    {
        if !(2000 <= year && year <= 2100) {
            return Err(ServiceError::Custom(text("Year must be between 2000 and 2100")));
        }
        let mut key = text("saldo:monthly_balance:year:");
        push_decimal(&mut key, year as i64);
        let mut message = text("Monthly balance for year ");
        push_decimal(&mut message, year as i64);
        message.append(" retrieved successfully");
        let on_error = OnRepoError::Pass;
        let plan = ReadPlan::new(key, TEN_MINUTES_SECS, message, on_error);
        Ok(plan)
    }

    /// Yearly balances around a year (2000 to 2100).
    pub fn get_year_balance(&self, year: i32) -> (r: Result<ReadPlan, ServiceError>)
        ensures
            !(2000 <= year <= 2100) ==> (r matches Err(se) && se@ == ServiceErrorView::Custom(
                "Year must be between 2000 and 2100"@,
            )),
            2000 <= year <= 2100 ==> (r matches Ok(r_ok) && read_plan_is(
                r_ok,
                "saldo:yearly_balance:year:"@ + decimal(year as int),
                TEN_MINUTES_SECS,
                "Yearly balance for year "@
                + decimal(year as int)
                + " retrieved successfully"@,
                OnRepoErrorView::Pass,
            )),
    {
        if !(2000 <= year && year <= 2100) {
            return Err(ServiceError::Custom(text("Year must be between 2000 and 2100")));
        }
        let mut key = text("saldo:yearly_balance:year:");
        push_decimal(&mut key, year as i64);
        let mut message = text("Yearly balance for year ");
        push_decimal(&mut message, year as i64);
        message.append(" retrieved successfully");
        let on_error = OnRepoError::Pass;
        let plan = ReadPlan::new(key, TEN_MINUTES_SECS, message, on_error);
        Ok(plan)
    }
}

} // verus!
