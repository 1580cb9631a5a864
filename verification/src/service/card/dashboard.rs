//! Card dashboards.
use crate::errors::RepositoryError;
use crate::flow::{
    law_stored_answer_given_back, read_plan_is, read_settled, read_start, text, OnRepoError,
    OnRepoErrorView, ReadOutcome, ReadPlan, ReadStart, TEN_MINUTES_SECS,
};
use crate::response::responds;
use crate::text::{mask_card_number, masked};
use vstd::prelude::*;

verus! {

/// Totals over all cards.
#[derive(Clone, Debug)]
pub struct DashboardCard {
    pub total_balance: Option<i64>,
    pub total_topup: Option<i64>,
    pub total_transaction: Option<i64>,
    pub total_transfer: Option<i64>,
    pub total_withdraw: Option<i64>,
}

/// Totals of one card.
#[derive(Clone, Debug)]
pub struct DashboardCardCardNumber {
    pub total_balance: Option<i64>,
    pub total_topup: Option<i64>,
    pub total_transaction: Option<i64>,
    pub total_transfer_send: Option<i64>,
    pub total_transfer_receiver: Option<i64>,
    pub total_withdraw: Option<i64>,
}

/// The repositories and cache a [`CardDashboardService`] works with.
pub struct CardDashboardServiceDeps<Balance, Topup, Transaction, Transfer, Withdraw, Cache> {
    pub balance: Balance,
    pub topup: Topup,
    pub transaction: Transaction,
    pub transfer: Transfer,
    pub withdraw: Withdraw,
    pub cache_store: Cache,
}

/// Dashboards: totals of balances, top-ups, transactions, transfers and withdrawals.
pub struct CardDashboardService<Balance, Topup, Transaction, Transfer, Withdraw, Cache> {
    pub balance: Balance,
    pub topup: Topup,
    pub transaction: Transaction,
    pub transfer: Transfer,
    pub withdraw: Withdraw,
    pub cache_store: Cache,
}

impl<Balance, Topup, Transaction, Transfer, Withdraw, Cache> CardDashboardService<Balance, Topup, Transaction, Transfer, Withdraw, Cache> {
    /// The service over the given repositories and cache.
    pub fn new(deps: CardDashboardServiceDeps<Balance, Topup, Transaction, Transfer, Withdraw, Cache>) -> (r: Self)
        ensures
            r.balance == deps.balance,
            r.topup == deps.topup,
            r.transaction == deps.transaction,
            r.transfer == deps.transfer,
            r.withdraw == deps.withdraw,
            r.cache_store == deps.cache_store,
    {
        let CardDashboardServiceDeps { balance, topup, transaction, transfer, withdraw, cache_store } = deps;
        CardDashboardService { balance, topup, transaction, transfer, withdraw, cache_store }
    }

    /// The global dashboard: asked of each repository in turn (balance, top-up, transaction,
    /// transfer, withdrawal), the first failure handed on.
    pub fn get_dashboard(&self) -> (r_ok: ReadPlan)
        ensures
            read_plan_is(
                r_ok,
                "dashboard:global"@,
                TEN_MINUTES_SECS,
                "Global dashboard retrieved successfully"@,
                OnRepoErrorView::Pass,
            ),
    {
        let key = text("dashboard:global");
        let message = text("Global dashboard retrieved successfully");
        let on_error = OnRepoError::Pass;
        let plan = ReadPlan::new(key, TEN_MINUTES_SECS, message, on_error);
        plan
    }

    /// The dashboard of one card: asked of each repository in turn (balance, top-up,
    /// transaction, transfers sent, transfers received, withdrawal), the first failure handed on.
    pub fn get_dashboard_bycard(&self, card_number: &str) -> (r_ok: ReadPlan)
        ensures
            read_plan_is(
                r_ok,
                "dashboard:card:"@ + masked(card_number@),
                TEN_MINUTES_SECS,
                "Dashboard for card "@
                + masked(card_number@)
                + " retrieved successfully"@,
                OnRepoErrorView::Pass,
            ),
    {
        let masked_0 = mask_card_number(card_number);
        let mut key = text("dashboard:card:");
        key.append(masked_0.as_str());
        let mut message = text("Dashboard for card ");
        message.append(masked_0.as_str());
        message.append(" retrieved successfully");
        let on_error = OnRepoError::Pass;
        let plan = ReadPlan::new(key, TEN_MINUTES_SECS, message, on_error);
        plan
    }

    /// The global totals, once each repository has answered: every total is
    /// present. A failing repository ends the dashboard with its error, as the
    /// plan of [`Self::get_dashboard`] says.
    pub fn dashboard_card(
        &self,
        total_balance: i64,
        total_topup: i64,
        total_transaction: i64,
        total_transfer: i64,
        total_withdraw: i64,
    ) -> (r: DashboardCard)
        ensures
            r == (DashboardCard {
                total_balance: Some(total_balance),
                total_topup: Some(total_topup),
                total_transaction: Some(total_transaction),
                total_transfer: Some(total_transfer),
                total_withdraw: Some(total_withdraw),
            }),
    {
        DashboardCard {
            total_balance: Some(total_balance),
            total_topup: Some(total_topup),
            total_transaction: Some(total_transaction),
            total_transfer: Some(total_transfer),
            total_withdraw: Some(total_withdraw),
        }
    }

    /// The totals of one card, once each repository has answered.
    pub fn dashboard_card_number(
        &self,
        total_balance: i64,
        total_topup: i64,
        total_transaction: i64,
        total_transfer_send: i64,
        total_transfer_receiver: i64,
        total_withdraw: i64,
    ) -> (r: DashboardCardCardNumber)
        ensures
            r == (DashboardCardCardNumber {
                total_balance: Some(total_balance),
                total_topup: Some(total_topup),
                total_transaction: Some(total_transaction),
                total_transfer_send: Some(total_transfer_send),
                total_transfer_receiver: Some(total_transfer_receiver),
                total_withdraw: Some(total_withdraw),
            }),
    {
        DashboardCardCardNumber {
            total_balance: Some(total_balance),
            total_topup: Some(total_topup),
            total_transaction: Some(total_transaction),
            total_transfer_send: Some(total_transfer_send),
            total_transfer_receiver: Some(total_transfer_receiver),
            total_withdraw: Some(total_withdraw),
        }
    }
}

/// The global dashboard is read through the cache: the totals the
/// repositories gave are answered and stored under "dashboard:global" for
/// ten minutes, and a read that finds that answer in the cache gives it back
/// as it is and asks no repository.
pub proof fn law_dashboard_read_through(plan: ReadPlan, totals: DashboardCard, out: ReadOutcome<
    DashboardCard,
>)
    requires
        read_plan_is(
            plan,
            "dashboard:global"@,
            TEN_MINUTES_SECS,
            "Global dashboard retrieved successfully"@,
            OnRepoErrorView::Pass,
        ),
        read_settled(plan, Ok::<DashboardCard, RepositoryError>(totals), out),
    ensures
        out matches ReadOutcome::Store { key, ttl_secs, response } && key@ == "dashboard:global"@
            && ttl_secs == 600 && responds(
            response,
            "Global dashboard retrieved successfully"@,
            totals,
        ) && read_start(Some(response)) == ReadStart::Answer(response),
{
    law_stored_answer_given_back(plan, totals, out);
}

} // verus!
