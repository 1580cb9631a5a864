//! Transfer statistics of one card.
use crate::context::{share, SharedResources};
use crate::errors::{ServiceError, ServiceErrorView};
use crate::flow::{around, TEN_MINUTES_SECS, read_plan_is, text, OnRepoError, OnRepoErrorView, ReadPlan};
use crate::text::{decimal, mask_card_number, masked, push_decimal};
use std::sync::Arc;
use vstd::prelude::*;

verus! {

use crate::service::card::statsbycard::balance::MonthYearCardNumberCard;

/// Transfer statistics of one card, as sender and as receiver.
pub struct CardStatsTransferByCardService<Transfer, Metrics, Cache> {
    pub transfer: Transfer,
    pub tracing_metrics_core: Arc<Metrics>,
    pub cache_store: Arc<Cache>,
}

impl<Transfer, Metrics, Cache> CardStatsTransferByCardService<Transfer, Metrics, Cache> {
    /// The service over the given repositories and shared resources.
    pub fn new(transfer: Transfer, shared: &SharedResources<Metrics, Cache>) -> (r: Self)
        ensures
            r.transfer == transfer,
            r.tracing_metrics_core == shared.tracing_metrics,
            r.cache_store == shared.cache_store,
    {
        CardStatsTransferByCardService {
            transfer,
            tracing_metrics_core: share(&shared.tracing_metrics),
            cache_store: share(&shared.cache_store),
        }
    }

    /// Monthly amounts a card sent in a year.
    pub fn get_monthly_amount_sender(&self, req: &MonthYearCardNumberCard, problem: Option<String>) -> (r: Result<ReadPlan, ServiceError>)
        ensures
            match problem {
                Some(e) => r matches Err(se) && se@ == ServiceErrorView::Custom(e@),
                None => r matches Ok(r_ok) && read_plan_is(
                    r_ok,
                    "card_stats_transfer:monthly_sender:card:"@
                    + masked(req.card_number@)
                    + ":year:"@
                    + decimal(req.year as int),
                    TEN_MINUTES_SECS,
                    "Monthly transfer amounts (sent) for card "@
                    + masked(req.card_number@)
                    + " in year "@
                    + decimal(req.year as int)
                    + " retrieved successfully"@,
                    OnRepoErrorView::Pass,
                ),
            },
    {
        if let Some(e) = problem {
            return Err(ServiceError::Custom(e));
        }
        let masked_0 = mask_card_number(req.card_number.as_str());
        let mut key = text("card_stats_transfer:monthly_sender:card:");
        key.append(masked_0.as_str());
        key.append(":year:");
        push_decimal(&mut key, req.year as i64);
        let mut message = text("Monthly transfer amounts (sent) for card ");
        message.append(masked_0.as_str());
        message.append(" in year ");
        push_decimal(&mut message, req.year as i64);
        message.append(" retrieved successfully");
        let on_error = OnRepoError::Pass;
        let plan = ReadPlan::new(key, TEN_MINUTES_SECS, message, on_error);
        Ok(plan)
    }

    /// Yearly amounts a card sent around a year.
    pub fn get_yearly_amount_sender(&self, req: &MonthYearCardNumberCard, problem: Option<String>) -> (r: Result<ReadPlan, ServiceError>)
        ensures
            match problem {
                Some(e) => r matches Err(se) && se@ == ServiceErrorView::Custom(e@),
                None => r matches Ok(r_ok) && read_plan_is(
                    r_ok,
                    "card_stats_transfer:yearly_sender:card:"@
                    + masked(req.card_number@)
                    + ":year:"@
                    + decimal(req.year as int),
                    TEN_MINUTES_SECS,
                    "Yearly transfer amounts (sent) for card "@
                    + masked(req.card_number@)
                    + " in year "@
                    + decimal(req.year as int)
                    + " retrieved successfully"@,
                    OnRepoErrorView::Pass,
                ),
            },
    {
        if let Some(e) = problem {
            return Err(ServiceError::Custom(e));
        }
        let masked_0 = mask_card_number(req.card_number.as_str());
        let mut key = text("card_stats_transfer:yearly_sender:card:");
        key.append(masked_0.as_str());
        key.append(":year:");
        push_decimal(&mut key, req.year as i64);
        let mut message = text("Yearly transfer amounts (sent) for card ");
        message.append(masked_0.as_str());
        message.append(" in year ");
        push_decimal(&mut message, req.year as i64);
        message.append(" retrieved successfully");
        let on_error = OnRepoError::Pass;
        let plan = ReadPlan::new(key, TEN_MINUTES_SECS, message, on_error);
        Ok(plan)
    }

    /// Monthly amounts a card received in a year.
    pub fn get_monthly_amount_receiver(&self, req: &MonthYearCardNumberCard, problem: Option<String>) -> (r: Result<ReadPlan, ServiceError>)
        ensures
            match problem {
                Some(e) => r matches Err(se) && se@ == ServiceErrorView::Custom(e@),
                None => r matches Ok(r_ok) && read_plan_is(
                    r_ok,
                    "card_stats_transfer:monthly_receiver:card:"@
                    + masked(req.card_number@)
                    + ":year:"@
                    + decimal(req.year as int),
                    TEN_MINUTES_SECS,
                    "Monthly transfer amounts (received) for card "@
                    + masked(req.card_number@)
                    + " in year "@
                    + decimal(req.year as int)
                    + " retrieved successfully"@,
                    OnRepoErrorView::Pass,
                ),
            },
    {
        if let Some(e) = problem {
            return Err(ServiceError::Custom(e));
        }
        let masked_0 = mask_card_number(req.card_number.as_str());
        let mut key = text("card_stats_transfer:monthly_receiver:card:");
        key.append(masked_0.as_str());
        key.append(":year:");
        push_decimal(&mut key, req.year as i64);
        let mut message = text("Monthly transfer amounts (received) for card ");
        message.append(masked_0.as_str());
        message.append(" in year ");
        push_decimal(&mut message, req.year as i64);
        message.append(" retrieved successfully");
        let on_error = OnRepoError::Pass;
        let plan = ReadPlan::new(key, TEN_MINUTES_SECS, message, on_error);
        Ok(plan)
    }

    /// Yearly amounts a card received around a year.
    pub fn get_yearly_amount_receiver(&self, req: &MonthYearCardNumberCard, problem: Option<String>) -> (r: Result<ReadPlan, ServiceError>)
        ensures
            match problem {
                Some(e) => r matches Err(se) && se@ == ServiceErrorView::Custom(e@),
                None => r matches Ok(r_ok) && read_plan_is(
                    r_ok,
                    "card_stats_transfer:yearly_receiver:card:"@
                    + masked(req.card_number@)
                    + ":year:"@
                    + decimal(req.year as int),
                    TEN_MINUTES_SECS,
                    "Yearly transfer amounts (received) for card "@
                    + masked(req.card_number@)
                    + " in year "@
                    + decimal(req.year as int)
                    + " retrieved successfully"@,
                    OnRepoErrorView::Pass,
                ),
            },
    {
        if let Some(e) = problem {
            return Err(ServiceError::Custom(e));
        }
        let masked_0 = mask_card_number(req.card_number.as_str());
        let mut key = text("card_stats_transfer:yearly_receiver:card:");
        key.append(masked_0.as_str());
        key.append(":year:");
        push_decimal(&mut key, req.year as i64);
        let mut message = text("Yearly transfer amounts (received) for card ");
        message.append(masked_0.as_str());
        message.append(" in year ");
        push_decimal(&mut message, req.year as i64);
        message.append(" retrieved successfully");
        let on_error = OnRepoError::Pass;
        let plan = ReadPlan::new(key, TEN_MINUTES_SECS, message, on_error);
        Ok(plan)
    }
}

} // verus!
