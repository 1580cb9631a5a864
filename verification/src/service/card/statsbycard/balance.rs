//! Balance statistics of one card.
use crate::context::{share, SharedResources};
use crate::errors::{ServiceError, ServiceErrorView};
use crate::flow::{around, ONE_HOUR_SECS, TEN_MINUTES_SECS, read_plan_is, text, OnRepoError, OnRepoErrorView, ReadPlan};
use crate::text::{decimal, mask_card_number, masked, push_decimal};
use std::sync::Arc;
use vstd::prelude::*;

verus! {

/// A statistics request about one card in one year.
pub struct MonthYearCardNumberCard {
    pub card_number: String,
    pub year: i32,
}

/// Balance statistics of one card.
pub struct CardStatsBalanceByCardService<Balance, Metrics, Cache> {
    pub balance: Balance,
    pub tracing_metrics_core: Arc<Metrics>,
    pub cache_store: Arc<Cache>,
}

impl<Balance, Metrics, Cache> CardStatsBalanceByCardService<Balance, Metrics, Cache> {
    /// The service over the given repositories and shared resources.
    pub fn new(balance: Balance, shared: &SharedResources<Metrics, Cache>) -> (r: Self)
        ensures
            r.balance == balance,
            r.tracing_metrics_core == shared.tracing_metrics,
            r.cache_store == shared.cache_store,
    {
        CardStatsBalanceByCardService {
            balance,
            tracing_metrics_core: share(&shared.tracing_metrics),
            cache_store: share(&shared.cache_store),
        }
    }

    /// Monthly balances of a card in a year.
    pub fn get_monthly_balance(&self, req: &MonthYearCardNumberCard, problem: Option<String>) -> (r: Result<ReadPlan, ServiceError>)
        ensures
            match problem {
                Some(e) => r matches Err(se) && se@ == ServiceErrorView::Custom(e@),
                None => r matches Ok(r_ok) && read_plan_is(
                    r_ok,
                    "card_stats_balance:monthly:card:"@
                    + masked(req.card_number@)
                    + ":year:"@
                    + decimal(req.year as int),
                    TEN_MINUTES_SECS,
                    "Monthly balance for card "@
                    + masked(req.card_number@)
                    + " in year "@
                    + decimal(req.year as int)
                    + " retrieved successfully"@,
                    OnRepoErrorView::Pass,
                ),
            },
    {
        if let Some(e) = problem {
            return Err(ServiceError::Custom(e));
        }
        let masked_0 = mask_card_number(req.card_number.as_str());
        let mut key = text("card_stats_balance:monthly:card:");
        key.append(masked_0.as_str());
        key.append(":year:");
        push_decimal(&mut key, req.year as i64);
        let mut message = text("Monthly balance for card ");
        message.append(masked_0.as_str());
        message.append(" in year ");
        push_decimal(&mut message, req.year as i64);
        message.append(" retrieved successfully");
        let on_error = OnRepoError::Pass;
        let plan = ReadPlan::new(key, TEN_MINUTES_SECS, message, on_error);
        Ok(plan)
    }

    /// Yearly balances of a card around a year (cached for an hour).
    pub fn get_yearly_balance(&self, req: &MonthYearCardNumberCard, problem: Option<String>) -> (r: Result<ReadPlan, ServiceError>)
        ensures
            match problem {
                Some(e) => r matches Err(se) && se@ == ServiceErrorView::Custom(e@),
                None => r matches Ok(r_ok) && read_plan_is(
                    r_ok,
                    "card_stats_balance:yearly:card:"@
                    + masked(req.card_number@)
                    + ":year:"@
                    + decimal(req.year as int),
                    ONE_HOUR_SECS,
                    "Yearly balance for card "@
                    + masked(req.card_number@)
                    + " in year "@
                    + decimal(req.year as int)
                    + " retrieved successfully"@,
                    OnRepoErrorView::Pass,
                ),
            },
    {
        if let Some(e) = problem {
            return Err(ServiceError::Custom(e));
        }
        let masked_0 = mask_card_number(req.card_number.as_str());
        let mut key = text("card_stats_balance:yearly:card:");
        key.append(masked_0.as_str());
        key.append(":year:");
        push_decimal(&mut key, req.year as i64);
        let mut message = text("Yearly balance for card ");
        message.append(masked_0.as_str());
        message.append(" in year ");
        push_decimal(&mut message, req.year as i64);
        message.append(" retrieved successfully");
        let on_error = OnRepoError::Pass;
        let plan = ReadPlan::new(key, ONE_HOUR_SECS, message, on_error);
        Ok(plan)
    }
}

} // verus!
