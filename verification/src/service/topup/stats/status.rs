//! Top-up status statistics.
use crate::errors::{ServiceError, ServiceErrorView};
use crate::flow::{TEN_MINUTES_SECS, read_plan_is, text, OnRepoError, OnRepoErrorView, ReadPlan};
use crate::text::{decimal, push_decimal};
use vstd::prelude::*;

verus! {

/// A statistics request about one month.
pub struct MonthTopupStatus {
    pub year: i32,
    pub month: i32,
}

/// Top-up status statistics over all cards.
pub struct TopupStatsStatusService<Status, Cache> {
    pub status: Status,
    pub cache_store: Cache,
}

impl<Status, Cache> TopupStatsStatusService<Status, Cache> {
    /// The service over the given repositories and cache.
    pub fn new(status: Status, cache_store: Cache) -> (r: Self)
        ensures
            r.status == status,
            r.cache_store == cache_store,
    {
        TopupStatsStatusService { status, cache_store }
    }

    /// Successful top-ups of a month.
    pub fn get_month_status_success(&self, req: &MonthTopupStatus, problem: Option<String>) -> (r: Result<ReadPlan, ServiceError>)
        ensures
            match problem {
                Some(e) => r matches Err(se) && se@ == ServiceErrorView::Custom(e@),
                None => r matches Ok(r_ok) && read_plan_is(
                    r_ok,
                    "topup:monthly_status_success:month:"@
                    + decimal(req.month as int)
                    + ":year:"@
                    + decimal(req.year as int),
                    TEN_MINUTES_SECS,
                    "Successfully retrieved successful top-ups for "@
                    + decimal(req.year as int)
                    + "-"@
                    + decimal(req.month as int),
                    OnRepoErrorView::Pass,
                ),
            },
    {
        if let Some(e) = problem {
            return Err(ServiceError::Custom(e));
        }
        let mut key = text("topup:monthly_status_success:month:");
        push_decimal(&mut key, req.month as i64);
        key.append(":year:");
        push_decimal(&mut key, req.year as i64);
        let mut message = text("Successfully retrieved successful top-ups for ");
        push_decimal(&mut message, req.year as i64);
        message.append("-");
        push_decimal(&mut message, req.month as i64);
        let on_error = OnRepoError::Pass;
        let plan = ReadPlan::new(key, TEN_MINUTES_SECS, message, on_error);
        Ok(plan)
    }

    /// Successful top-ups by year (2000 to 2100).
    pub fn get_yearly_status_success(&self, year: i32) -> (r: Result<ReadPlan, ServiceError>)
        ensures
            !(2000 <= year <= 2100) ==> (r matches Err(se) && se@ == ServiceErrorView::Custom(
                "Year must be between 2000 and 2100"@,
            )),
            2000 <= year <= 2100 ==> (r matches Ok(r_ok) && read_plan_is(
                r_ok,
                "topup:yearly_status_success:year:"@ + decimal(year as int),
                TEN_MINUTES_SECS,
                "Successfully retrieved successful top-ups for year "@
                + decimal(year as int),
                OnRepoErrorView::Pass,
            )),
    {
        if !(2000 <= year && year <= 2100) {
            return Err(ServiceError::Custom(text("Year must be between 2000 and 2100")));
        }
        let mut key = text("topup:yearly_status_success:year:");
        push_decimal(&mut key, year as i64);
        let mut message = text("Successfully retrieved successful top-ups for year ");
        push_decimal(&mut message, year as i64);
        let on_error = OnRepoError::Pass;
        let plan = ReadPlan::new(key, TEN_MINUTES_SECS, message, on_error);
        Ok(plan)
    }

    /// Failed top-ups of a month.
    pub fn get_month_status_failed(&self, req: &MonthTopupStatus, problem: Option<String>) -> (r: Result<ReadPlan, ServiceError>)
        ensures
            match problem {
                Some(e) => r matches Err(se) && se@ == ServiceErrorView::Custom(e@),
                None => r matches Ok(r_ok) && read_plan_is(
                    r_ok,
                    "topup:monthly_status_failed:month:"@
                    + decimal(req.month as int)
                    + ":year:"@
                    + decimal(req.year as int),
                    TEN_MINUTES_SECS,
                    "Successfully retrieved failed top-ups for "@
                    + decimal(req.year as int)
                    + "-"@
                    + decimal(req.month as int),
                    OnRepoErrorView::Pass,
                ),
            },
    {
        if let Some(e) = problem {
            return Err(ServiceError::Custom(e));
        }
        let mut key = text("topup:monthly_status_failed:month:");
        push_decimal(&mut key, req.month as i64);
        key.append(":year:");
        push_decimal(&mut key, req.year as i64);
        let mut message = text("Successfully retrieved failed top-ups for ");
        push_decimal(&mut message, req.year as i64);
        message.append("-");
        push_decimal(&mut message, req.month as i64);
        let on_error = OnRepoError::Pass;
        let plan = ReadPlan::new(key, TEN_MINUTES_SECS, message, on_error);
        Ok(plan)
    }

    /// Failed top-ups by year (2000 to 2100).
    pub fn get_yearly_status_failed(&self, year: i32) -> (r: Result<ReadPlan, ServiceError>)
        ensures
            !(2000 <= year <= 2100) ==> (r matches Err(se) && se@ == ServiceErrorView::Custom(
                "Year must be between 2000 and 2100"@,
            )),
            2000 <= year <= 2100 ==> (r matches Ok(r_ok) && read_plan_is(
                r_ok,
                "topup:yearly_status_failed:year:"@ + decimal(year as int),
                TEN_MINUTES_SECS,
                "Successfully retrieved failed top-ups for year "@
                + decimal(year as int),
                OnRepoErrorView::Pass,
            )),
    {
        if !(2000 <= year && year <= 2100) {
            return Err(ServiceError::Custom(text("Year must be between 2000 and 2100")));
        }
        let mut key = text("topup:yearly_status_failed:year:");
        push_decimal(&mut key, year as i64);
        let mut message = text("Successfully retrieved failed top-ups for year ");
        push_decimal(&mut message, year as i64);
        let on_error = OnRepoError::Pass;
        let plan = ReadPlan::new(key, TEN_MINUTES_SECS, message, on_error);
        Ok(plan)
    }
}

} // verus!
