//! Top-up status statistics of one card.
use crate::errors::{ServiceError, ServiceErrorView};
use crate::flow::{TEN_MINUTES_SECS, read_plan_is, text, OnRepoError, OnRepoErrorView, ReadPlan};
use crate::text::{decimal, mask_card_number, masked, push_decimal};
use vstd::prelude::*;

verus! {

/// A statistics request about one card in one month.
pub struct MonthTopupStatusCardNumber {
    pub card_number: String,
    pub year: i32,
    pub month: i32,
}

/// A statistics request about one card in one year.
pub struct YearTopupStatusCardNumber {
    pub card_number: String,
    pub year: i32,
}

/// Top-up status statistics of one card.
pub struct TopupStatsStatusByCardService<Status, Cache> {
    pub status: Status,
    pub cache_store: Cache,
}

impl<Status, Cache> TopupStatsStatusByCardService<Status, Cache> {
    /// The service over the given repositories and cache.
    pub fn new(status: Status, cache_store: Cache) -> (r: Self)
        ensures
            r.status == status,
            r.cache_store == cache_store,
    {
        TopupStatsStatusByCardService { status, cache_store }
    }

    /// Successful top-ups of a card in a month.
    pub fn get_month_status_success(&self, req: &MonthTopupStatusCardNumber, problem: Option<String>) -> (r: Result<ReadPlan, ServiceError>)
        ensures
            match problem {
                Some(e) => r matches Err(se) && se@ == ServiceErrorView::Custom(e@),
                None => r matches Ok(r_ok) && read_plan_is(
                    r_ok,
                    "topup:monthly_status_success:card:"@
                    + masked(req.card_number@)
                    + ":year:"@
                    + decimal(req.year as int)
                    + ":month:"@
                    + decimal(req.month as int),
                    TEN_MINUTES_SECS,
                    "Successfully retrieved successful top-ups for card "@
                    + masked(req.card_number@)
                    + " in "@
                    + decimal(req.year as int)
                    + "-"@
                    + decimal(req.month as int),
                    OnRepoErrorView::Pass,
                ),
            },
    {
        if let Some(e) = problem {
            return Err(ServiceError::Custom(e));
        }
        let masked_0 = mask_card_number(req.card_number.as_str());
        let mut key = text("topup:monthly_status_success:card:");
        key.append(masked_0.as_str());
        key.append(":year:");
        push_decimal(&mut key, req.year as i64);
        key.append(":month:");
        push_decimal(&mut key, req.month as i64);
        let mut message = text("Successfully retrieved successful top-ups for card ");
        message.append(masked_0.as_str());
        message.append(" in ");
        push_decimal(&mut message, req.year as i64);
        message.append("-");
        push_decimal(&mut message, req.month as i64);
        let on_error = OnRepoError::Pass;
        let plan = ReadPlan::new(key, TEN_MINUTES_SECS, message, on_error);
        Ok(plan)
    }

    /// Successful top-ups of a card by year.
    pub fn get_yearly_status_success(&self, req: &YearTopupStatusCardNumber, problem: Option<String>) -> (r: Result<ReadPlan, ServiceError>)
        ensures
            match problem {
                Some(e) => r matches Err(se) && se@ == ServiceErrorView::Custom(e@),
                None => r matches Ok(r_ok) && read_plan_is(
                    r_ok,
                    "topup:yearly_status_success:card:"@
                    + masked(req.card_number@)
                    + ":year:"@
                    + decimal(req.year as int),
                    TEN_MINUTES_SECS,
                    "Successfully retrieved yearly successful top-ups for card "@
                    + masked(req.card_number@)
                    + " in "@
                    + decimal(req.year as int),
                    OnRepoErrorView::Pass,
                ),
            },
    {
        if let Some(e) = problem {
            return Err(ServiceError::Custom(e));
        }
        let masked_0 = mask_card_number(req.card_number.as_str());
        let mut key = text("topup:yearly_status_success:card:");
        key.append(masked_0.as_str());
        key.append(":year:");
        push_decimal(&mut key, req.year as i64);
        let mut message = text("Successfully retrieved yearly successful top-ups for card ");
        message.append(masked_0.as_str());
        message.append(" in ");
        push_decimal(&mut message, req.year as i64);
        let on_error = OnRepoError::Pass;
        let plan = ReadPlan::new(key, TEN_MINUTES_SECS, message, on_error);
        Ok(plan)
    }

    /// Failed top-ups of a card in a month.
    pub fn get_month_status_failed(&self, req: &MonthTopupStatusCardNumber, problem: Option<String>) -> (r: Result<ReadPlan, ServiceError>)
        ensures
            match problem {
                Some(e) => r matches Err(se) && se@ == ServiceErrorView::Custom(e@),
                None => r matches Ok(r_ok) && read_plan_is(
                    r_ok,
                    "topup:monthly_status_failed:card:"@
                    + masked(req.card_number@)
                    + ":year:"@
                    + decimal(req.year as int)
                    + ":month:"@
                    + decimal(req.month as int),
                    TEN_MINUTES_SECS,
                    "Successfully retrieved failed top-ups for card "@
                    + masked(req.card_number@)
                    + " in "@
                    + decimal(req.year as int)
                    + "-"@
                    + decimal(req.month as int),
                    OnRepoErrorView::Pass,
                ),
            },
    {
        if let Some(e) = problem {
            return Err(ServiceError::Custom(e));
        }
        let masked_0 = mask_card_number(req.card_number.as_str());
        let mut key = text("topup:monthly_status_failed:card:");
        key.append(masked_0.as_str());
        key.append(":year:");
        push_decimal(&mut key, req.year as i64);
        key.append(":month:");
        push_decimal(&mut key, req.month as i64);
        let mut message = text("Successfully retrieved failed top-ups for card ");
        message.append(masked_0.as_str());
        message.append(" in ");
        push_decimal(&mut message, req.year as i64);
        message.append("-");
        push_decimal(&mut message, req.month as i64);
        let on_error = OnRepoError::Pass;
        let plan = ReadPlan::new(key, TEN_MINUTES_SECS, message, on_error);
        Ok(plan)
    }

    /// Failed top-ups of a card by year.
    pub fn get_yearly_status_failed(&self, req: &YearTopupStatusCardNumber, problem: Option<String>) -> (r: Result<ReadPlan, ServiceError>)
        ensures
            match problem {
                Some(e) => r matches Err(se) && se@ == ServiceErrorView::Custom(e@),
                None => r matches Ok(r_ok) && read_plan_is(
                    r_ok,
                    "topup:yearly_status_failed:card:"@
                    + masked(req.card_number@)
                    + ":year:"@
                    + decimal(req.year as int),
                    TEN_MINUTES_SECS,
                    "Successfully retrieved yearly failed top-ups for card "@
                    + masked(req.card_number@)
                    + " in "@
                    + decimal(req.year as int),
                    OnRepoErrorView::Pass,
                ),
            },
    {
        if let Some(e) = problem {
            return Err(ServiceError::Custom(e));
        }
        let masked_0 = mask_card_number(req.card_number.as_str());
        let mut key = text("topup:yearly_status_failed:card:");
        key.append(masked_0.as_str());
        key.append(":year:");
        push_decimal(&mut key, req.year as i64);
        let mut message = text("Successfully retrieved yearly failed top-ups for card ");
        message.append(masked_0.as_str());
        message.append(" in ");
        push_decimal(&mut message, req.year as i64);
        let on_error = OnRepoError::Pass;
        let plan = ReadPlan::new(key, TEN_MINUTES_SECS, message, on_error);
        Ok(plan)
    }
}

} // verus!
