use payment_core::context::SharedResources;
use payment_core::errors::{RepositoryError, ServiceError};
use payment_core::flow::{
    map_repo_error, read_begin, CommandOutcome, OnRepoError, PageOutcome, ReadOutcome, ReadStart,
};
use payment_core::pagination::FindAllRequest;
use payment_core::service::auth::{AuthService, LoginStep, RefreshStep, TokenCheck, TokenResponse};
use payment_core::service::card::dashboard::{CardDashboardService, CardDashboardServiceDeps};
use payment_core::service::card::statsbycard::balance::MonthYearCardNumberCard;
use payment_core::service::card::statsbycard::transfer::CardStatsTransferByCardService;
use payment_core::service::merchant::transactions::MerchantTransactionService;
use payment_core::service::saldo::command::{SaldoCommandService, SaldoCommandServiceDeps};
use payment_core::service::saldo::query::SaldoQueryService;
use payment_core::service::token::{refresh_expiry, TokenService, MAX_UTC_SECS, MIN_UTC_SECS};
use payment_core::service::topup::command::{
    compensating_writes, CompensatingWrite, TopupCommandService, TopupStatus, TopupStep,
};
use payment_core::service::topup::query::TopupQueryService;
use std::sync::Arc;

type Auth = AuthService<(), (), (), (), (), (), (), (), ()>;
type Topups = TopupCommandService<(), (), (), (), (), ()>;

fn custom(e: &ServiceError) -> &str {
    match e {
        ServiceError::Custom(m) => m.as_str(),
        _ => panic!("not a custom error"),
    }
}

fn shared() -> SharedResources<(), ()> {
    SharedResources { tracing_metrics: Arc::new(()), cache_store: Arc::new(()) }
}

#[test]
fn login_refused_after_five_failures() {
    let mut cached: Option<i32> = None;
    for expected in 1..=5 {
        assert!(matches!(Auth::login_user_begin(cached), LoginStep::LookupUser));
        match Auth::login_user_after_password(cached, false) {
            LoginStep::Refuse { error: ServiceError::InvalidCredentials, attempts } => {
                assert_eq!(attempts, Some(expected));
                cached = attempts;
            },
            _ => panic!("a wrong password must be refused"),
        }
    }
    match Auth::login_user_begin(cached) {
        LoginStep::Refuse { error, attempts } => {
            assert_eq!(custom(&error), "Too many failed attempts. Try again later.");
            assert_eq!(attempts, None);
        },
        _ => panic!("the sixth login must be refused"),
    }
}

#[test]
fn login_steps_for_unknown_user_and_success() {
    match Auth::login_user_after_lookup(Some(2), Ok(false)) {
        LoginStep::Refuse { error, attempts } => {
            assert_eq!(custom(&error), "user not found");
            assert_eq!(attempts, Some(3));
        },
        _ => panic!("unknown users are refused"),
    }
    match Auth::login_user_after_lookup(None, Err(RepositoryError::NotFound)) {
        LoginStep::Refuse { error: ServiceError::Repo(RepositoryError::NotFound), attempts } => {
            assert_eq!(attempts, None)
        },
        _ => panic!("lookup failures are handed on"),
    }
    assert!(matches!(Auth::login_user_after_lookup(None, Ok(true)), LoginStep::CheckPassword));
    assert!(matches!(Auth::login_user_after_password(Some(4), true), LoginStep::IssueTokens));
    let tokens = TokenResponse { access_token: "a".to_string(), refresh_token: "r".to_string() };
    let answer = Auth::login_user_success(tokens);
    assert_eq!(answer.status, "success");
    assert_eq!(answer.message, "Login successful");
    assert_eq!(answer.data.access_token, "a");
}

#[test]
fn registration_steps() {
    assert_eq!(Auth::registered_key("a@b.c"), "auth:registered:a@b.c");
    assert_eq!(Auth::login_attempts_key("a@b.c"), "auth:login_attempts:a@b.c");
    assert_eq!(Auth::get_me_key(12), "auth:getme:12");
    assert_eq!(Auth::refresh_key("tok"), "auth:refresh:tok");
    assert_eq!(custom(&Auth::register_user_after_lookup(Ok(true)).unwrap_err()), "Email already registered");
    assert!(Auth::register_user_after_lookup(Ok(false)).is_ok());
    match Auth::register_user_after_hash(Err::<String, ()>(())).unwrap_err() {
        ServiceError::InternalServerError(m) => assert_eq!(m, "Failed to hash password"),
        _ => panic!("hash failures are internal errors"),
    }
    assert_eq!(Auth::default_role_name(), "ROLE_ADMIN");
    assert_eq!(custom(&Auth::register_user_after_role(Ok(None)).unwrap_err()), "Default role not found");
    assert_eq!(Auth::register_user_after_role(Ok(Some(3))).unwrap(), 3);
    let link = Auth::register_user_after_create(Ok(41), 3).unwrap();
    assert_eq!((link.user_id, link.role_id), (41, 3));
    let done = Auth::register_user_after_assign(Ok(()), "user").unwrap();
    assert_eq!(done.message, "User registered successfully");
}

#[test]
fn refresh_token_checks() {
    assert!(matches!(Auth::refresh_token_after_check("tok", TokenCheck::Valid(9)), RefreshStep::Rotate(9)));
    match Auth::refresh_token_after_check("tok", TokenCheck::Expired) {
        RefreshStep::Discard { cache_key, error: ServiceError::TokenExpired } => {
            assert_eq!(cache_key, "auth:refresh:tok")
        },
        _ => panic!("an expired token is discarded"),
    }
    match Auth::refresh_token_after_check("tok", TokenCheck::Invalid) {
        RefreshStep::Refuse(e) => assert_eq!(custom(&e), "invalid token"),
        _ => panic!("an invalid token is refused without deleting anything"),
    }
}

#[test]
fn refresh_tokens_expire_a_day_later() {
    assert_eq!(refresh_expiry(0).unwrap(), "1970-01-02 00:00:00");
    assert_eq!(refresh_expiry(1_700_000_000).unwrap(), "2023-11-15 22:13:20");
    assert!(refresh_expiry(MAX_UTC_SECS - 86_400).is_some());
    assert!(refresh_expiry(MAX_UTC_SECS - 86_399).is_none());
    assert!(refresh_expiry(MIN_UTC_SECS - 86_400).is_some());
    assert!(refresh_expiry(MIN_UTC_SECS - 86_401).is_none());
    assert!(refresh_expiry(i64::MAX).is_none());
    assert!(refresh_expiry(i64::MIN).is_none());
}

#[test]
fn compensation_puts_amount_back_before_failing() {
    let w = compensating_writes(4, Some(250));
    assert_eq!(w.len(), 2);
    assert!(matches!(w[0], CompensatingWrite::RestoreAmount { topup_id: 4, topup_amount: 250 }));
    assert!(matches!(w[1], CompensatingWrite::MarkFailed { topup_id: 4 }));
    let only = compensating_writes(4, None);
    assert_eq!(only.len(), 1);
    assert!(matches!(only[0], CompensatingWrite::MarkFailed { topup_id: 4 }));
}

#[test]
fn token_requests() {
    let t = TokenService::new((), ());
    let a = t.create_access_token(5);
    assert_eq!((a.subject, a.kind), (5, "access"));
    let r = t.create_refresh_token(5);
    assert_eq!((r.subject, r.kind), (5, "refresh"));
    let rec = t.refresh_record(5, "tok".to_string(), "2030-01-01".to_string());
    assert_eq!((rec.user_id, rec.token.as_str()), (5, "tok"));
    assert_eq!(t.create_refresh_token_after_store(Ok(()), "tok".to_string()).unwrap(), "tok");
}

#[test]
fn topup_credits_and_moves_saldo() {
    match Topups::create_after_saldo(7, 250, Ok(1000)) {
        TopupStep::UpdateBalance { total_balance } => assert_eq!(total_balance, 1250),
        _ => panic!("a found saldo is credited"),
    }
    match Topups::update_after_saldo(7, 400, 250, Ok(1250)) {
        TopupStep::UpdateBalance { total_balance } => assert_eq!(total_balance, 1400),
        _ => panic!("a found saldo moves by the change"),
    }
    match Topups::create_after_saldo(7, 250, Err(RepositoryError::NotFound)) {
        TopupStep::Compensate { topup_id, restore_amount, error } => {
            assert_eq!(topup_id, 7);
            assert_eq!(restore_amount, None);
            assert_eq!(custom(&error), "saldo not found");
        },
        _ => panic!("a missing saldo fails the top-up"),
    }
    match Topups::update_after_balance(7, 250, Err(RepositoryError::NotFound)).unwrap_err() {
        TopupStep::Compensate { restore_amount, error, .. } => {
            assert_eq!(restore_amount, Some(250));
            assert_eq!(custom(&error), "failed to update saldo");
        },
        _ => panic!("a failed saldo write puts the old amount back"),
    }
    assert_eq!(TopupStatus::Success.as_str(), "success");
    assert_eq!(TopupStatus::Failed.as_str(), "failed");
}

#[test]
fn topup_writes_invalidate_card_lookups() {
    let (answer, keys) = Topups::create_success("4111111111111111", 3u8);
    assert_eq!(answer.message, "Topup berhasil diproses");
    let q = TopupQueryService::new((), ());
    let lookup = q.find_by_card("4111111111111111");
    assert_eq!(lookup.cache_key, "topup:find_by_card:card_number:************1111");
    assert!(keys.contains(&lookup.cache_key));
    let saldo = SaldoQueryService::new((), ()).find_by_card("4111111111111111");
    assert!(keys.contains(&saldo.cache_key));
    let (_, update_keys) = Topups::update_success(5, "4111111111111111", ());
    assert!(update_keys.contains(&lookup.cache_key));
    assert!(update_keys.contains(&q.find_by_id(5).cache_key));
    assert!(update_keys.contains(&saldo.cache_key));
}

#[test]
fn saldo_writes_invalidate_lookups() {
    let s = SaldoCommandService::new(SaldoCommandServiceDeps { card_query: (), command: () }, &shared());
    let q = SaldoQueryService::new((), ());
    let created = s.create("5555444433332222", 9);
    assert_eq!(created.message, "Saldo created successfully");
    assert!(created.invalidate.contains(&q.find_by_card("5555444433332222").cache_key));
    assert!(created.invalidate.contains(&q.find_by_id(9).cache_key));
    let updated = s.update(9, "5555444433332222");
    assert!(updated.invalidate.contains(&q.find_by_id(9).cache_key));
}

#[test]
fn command_plan_settles() {
    let s = SaldoCommandService::new(SaldoCommandServiceDeps { card_query: (), command: () }, &shared());
    match s.create("1234567", 1).settle(Ok("row")) {
        CommandOutcome::Invalidate { keys, response } => {
            assert_eq!(keys.len(), 4);
            assert_eq!(response.data, "row");
        },
        _ => panic!("success invalidates"),
    }
    match s.create("1234567", 1).settle(Err::<u8, _>(RepositoryError::NotFound)) {
        CommandOutcome::Failed(e) => assert_eq!(custom(&e), "Failed to create saldo"),
        _ => panic!("failure is reported"),
    }
}

#[test]
fn read_plan_settles_with_described_error() {
    let q = TopupQueryService::new((), ());
    match q.find_by_id(3).settle(Err::<u8, _>(RepositoryError::Sqlx("closed".to_string()))) {
        ReadOutcome::Failed(e) => assert_eq!(custom(&e), "Database error: closed"),
        _ => panic!("failure is reported"),
    }
    match q.find_by_id(3).settle(Ok(11u8)) {
        ReadOutcome::Store { key, ttl_secs, response } => {
            assert_eq!(key, "topup:find_by_id:id:3");
            assert_eq!(ttl_secs, 600);
            assert_eq!(response.message, "Topup retrieved successfully");
            assert_eq!(response.data, 11);
        },
        _ => panic!("data is stored"),
    }
}

#[test]
fn page_plan_counts_pages() {
    let m = MerchantTransactionService::new((), ());
    let req = FindAllRequest { page: 0, page_size: 10, search: "  ".to_string() };
    let plan = m.find_all_by_id(&req, 4);
    assert_eq!(plan.cache_key, "merchant_transaction:find_by_id:merchant_id:4:page:1:size:10:search:None");
    match plan.settle(Ok((vec![1, 2, 3], 25i64))) {
        PageOutcome::Store { response, .. } => {
            assert_eq!(response.pagination.total_pages, 3);
            assert_eq!(response.pagination.total_items, 25);
            assert_eq!(response.pagination.page, 1);
        },
        _ => panic!("data is stored"),
    }
    match m.find_all_by_id(&req, 4).settle(Err::<((), i64), _>(RepositoryError::NotFound)) {
        PageOutcome::Failed(ServiceError::NotFound(msg)) => {
            assert_eq!(msg, "Merchant not found or has no transactions")
        },
        _ => panic!("a missing merchant is not found"),
    }
}

#[test]
fn error_policies() {
    let e = || RepositoryError::Custom("bad".to_string());
    assert!(matches!(map_repo_error(&OnRepoError::Pass, e()), ServiceError::Repo(RepositoryError::Custom(_))));
    assert_eq!(custom(&map_repo_error(&OnRepoError::Custom("fixed".to_string()), e())), "fixed");
    assert_eq!(custom(&map_repo_error(&OnRepoError::CustomDescribed, e())), "bad");
    assert_eq!(custom(&map_repo_error(&OnRepoError::CustomWith("Failed: ".to_string()), e())), "Failed: bad");
    match map_repo_error(&OnRepoError::Internal, RepositoryError::NotFound) {
        ServiceError::InternalServerError(m) => assert_eq!(m, "Record not found"),
        _ => panic!("internal"),
    }
    match map_repo_error(&OnRepoError::NotFoundAs("gone".to_string()), e()) {
        ServiceError::InternalServerError(m) => assert_eq!(m, "bad"),
        _ => panic!("only a missing row is not found"),
    }
}

#[test]
fn stats_plan_masks_card_and_refuses_invalid_requests() {
    let s = CardStatsTransferByCardService::new((), &shared());
    let req = MonthYearCardNumberCard { card_number: "4000123412341234".to_string(), year: 2024 };
    let plan = s.get_monthly_amount_sender(&req, None).unwrap();
    assert_eq!(plan.cache_key, "card_stats_transfer:monthly_sender:card:************1234:year:2024");
    assert_eq!(
        plan.message,
        "Monthly transfer amounts (sent) for card ************1234 in year 2024 retrieved successfully"
    );
    let refused = s.get_monthly_amount_sender(&req, Some("year: out of range".to_string()));
    assert_eq!(custom(&refused.unwrap_err()), "year: out of range");
}

#[test]
fn dashboard_of_one_card() {
    let d = CardDashboardService::new(CardDashboardServiceDeps {
        balance: (),
        topup: (),
        transaction: (),
        transfer: (),
        withdraw: (),
        cache_store: (),
    });
    let plan = d.get_dashboard_bycard("4000123412341234");
    assert_eq!(plan.cache_key, "dashboard:card:************1234");
    assert_eq!(plan.message, "Dashboard for card ************1234 retrieved successfully");
    assert_eq!(d.get_dashboard().cache_key, "dashboard:global");
    let totals = d.dashboard_card_number(1, 2, 3, 4, 5, 6);
    assert_eq!(totals.total_transfer_receiver, Some(5));
    assert_eq!(totals.total_withdraw, Some(6));
}

#[test]
fn services_share_the_cache_and_metrics() {
    let resources = shared();
    let s = SaldoCommandService::new(SaldoCommandServiceDeps { card_query: (), command: () }, &resources);
    assert!(Arc::ptr_eq(&s.cache_store, &resources.cache_store));
    assert!(Arc::ptr_eq(&s.tracing_metrics_core, &resources.tracing_metrics));
    assert_eq!(Arc::strong_count(&resources.cache_store), 2);
}

#[test]
fn changing_a_topup_ends_by_marking_it_successful() {
    let (row, step) = Topups::update_after_reread(7, Ok("row")).unwrap();
    assert_eq!(row, "row");
    assert!(matches!(step, TopupStep::MarkSuccess { topup_id: 7 }));
    let e = Topups::update_after_reread::<u8>(7, Err(RepositoryError::Sqlx("gone".to_string()))).unwrap_err();
    assert_eq!(custom(&e), "Database error: gone");
    match Topups::update_after_saldo(7, 150, 100, Ok(1000)) {
        TopupStep::UpdateBalance { total_balance } => assert_eq!(total_balance, 1050),
        _ => panic!("the saldo moves by the change"),
    }
}

#[test]
fn dashboard_answer_is_stored_then_given_back() {
    let d = CardDashboardService::new(CardDashboardServiceDeps {
        balance: (),
        topup: (),
        transaction: (),
        transfer: (),
        withdraw: (),
        cache_store: (),
    });
    assert!(matches!(read_begin::<u8>(None), ReadStart::AskRepository));
    let totals = d.dashboard_card(1, 2, 3, 4, 5);
    match d.get_dashboard().settle(Ok(totals)) {
        ReadOutcome::Store { key, ttl_secs, response } => {
            assert_eq!(key, "dashboard:global");
            assert_eq!(ttl_secs, 600);
            match read_begin(Some(response.clone())) {
                ReadStart::Answer(again) => {
                    assert_eq!(again.message, response.message);
                    assert_eq!(again.data.total_withdraw, Some(5));
                },
                ReadStart::AskRepository => panic!("a cached answer is given back"),
            }
        },
        ReadOutcome::Failed(_) => panic!("totals are stored"),
    }
}
