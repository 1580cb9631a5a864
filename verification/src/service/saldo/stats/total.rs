//! Total-balance statistics over all saldos.
use crate::errors::{ServiceError, ServiceErrorView};
use crate::flow::{around, TEN_MINUTES_SECS, read_plan_is, text, OnRepoError, OnRepoErrorView, ReadPlan};
use crate::text::{decimal, push_decimal};
use vstd::prelude::*;

verus! {

/// A request for the monthly total balances of a year.
pub struct MonthTotalSaldoBalance {
    pub year: i32,
}

/// Total-balance statistics over all saldos.
pub struct SaldoTotalBalanceService<TotalBalance, Cache> {
    pub total_balance: TotalBalance,
    pub cache_store: Cache,
}

impl<TotalBalance, Cache> SaldoTotalBalanceService<TotalBalance, Cache> {
    /// The service over the given repositories and cache.
    pub fn new(total_balance: TotalBalance, cache_store: Cache) -> (r: Self)
        ensures
            r.total_balance == total_balance,
            r.cache_store == cache_store,
    {
        SaldoTotalBalanceService { total_balance, cache_store }
    }

    /// Monthly total balances in a year.
    pub fn get_month_total_balance(&self, req: &MonthTotalSaldoBalance, problem: Option<String>) -> (r: Result<ReadPlan, ServiceError>)
        ensures
            match problem {
                Some(e) => r matches Err(se) && se@ == ServiceErrorView::Custom(e@),
                None => r matches Ok(r_ok) && read_plan_is(
                    r_ok,
                    "saldo:monthly_total_balance:year:"@ + decimal(req.year as int),
                    TEN_MINUTES_SECS,
                    "Monthly total balance for year "@
                    + decimal(req.year as int)
                    + " retrieved successfully"@,
                    OnRepoErrorView::Pass,
                ),
            },
    {
        if let Some(e) = problem {
            return Err(ServiceError::Custom(e));
        }
        let mut key = text("saldo:monthly_total_balance:year:");
        push_decimal(&mut key, req.year as i64);
        let mut message = text("Monthly total balance for year ");
        push_decimal(&mut message, req.year as i64);
        message.append(" retrieved successfully");
        let on_error = OnRepoError::Pass;
        let plan = ReadPlan::new(key, TEN_MINUTES_SECS, message, on_error);
        Ok(plan)
    }

    /// Yearly total balances around a year (2000 to 2100).
    pub fn get_year_total_balance(&self, year: i32) -> (r: Result<ReadPlan, ServiceError>)
        ensures
            !(2000 <= year <= 2100) ==> (r matches Err(se) && se@ == ServiceErrorView::Custom(
                "Year must be between 2000 and 2100"@,
            )),
            2000 <= year <= 2100 ==> (r matches Ok(r_ok) && read_plan_is(
                r_ok,
                "saldo:yearly_total_balance:year:"@ + decimal(year as int),
                TEN_MINUTES_SECS,
                "Yearly total balance for year "@
                + decimal(year as int)
                + " retrieved successfully"@,
                OnRepoErrorView::Pass,
            )),
    {
        if !(2000 <= year && year <= 2100) {
            return Err(ServiceError::Custom(text("Year must be between 2000 and 2100")));
        }
        let mut key = text("saldo:yearly_total_balance:year:");
        push_decimal(&mut key, year as i64);
        let mut message = text("Yearly total balance for year ");
        push_decimal(&mut message, year as i64);
        message.append(" retrieved successfully");
        let on_error = OnRepoError::Pass;
        let plan = ReadPlan::new(key, TEN_MINUTES_SECS, message, on_error);
        Ok(plan)
    }
}

} // verus!
