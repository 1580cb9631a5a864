use payment_core::errors::RepositoryError;
use payment_core::repository::calendar::{month_window, year_start, ymd, CalendarDate, MAX_YEAR, MIN_YEAR};
use payment_core::repository::card::{
    CardCommandRepository, CardDashboardTransferRepository, CardStatsWithdrawByCardRepository,
};
use payment_core::repository::merchant::{
    MerchantStatsAmountRepository, MerchantStatsTotalAmountByApiKeyRepository,
    MerchantStatsTotalAmountRepository,
};
use payment_core::repository::topup::{TopupQueryRepository, TopupStatsMethodByCardRepository};
use payment_core::repository::transaction::{
    TransactionQueryRepository, TransactionStatsAmountRepository,
    TransactionStatsMethodByCardRepository,
};
use payment_core::repository::transfer::{
    TransferQueryRepository, TransferStatsAmountByCardRepository, TransferStatsStatusRepository,
};
use payment_core::repository::withdraw::WithdrawQueryRepository;

fn ymd_of(c: CalendarDate) -> (i32, u32, u32) {
    (c.year, c.month, c.day)
}

fn custom(e: RepositoryError) -> String {
    match e {
        RepositoryError::Custom(m) => m,
        _ => panic!("not a custom error"),
    }
}

#[test]
fn calendar_dates_exist_or_not() {
    assert_eq!(ymd(2024, 2, 29).map(ymd_of), Some((2024, 2, 29)));
    assert!(ymd(2023, 2, 29).is_none());
    assert!(ymd(1900, 2, 29).is_none());
    assert_eq!(ymd(2000, 2, 29).map(ymd_of), Some((2000, 2, 29)));
    assert!(ymd(2024, 4, 31).is_none());
    assert!(ymd(2024, 13, 1).is_none());
    assert!(ymd(2024, 1, 0).is_none());
    assert!(ymd(MAX_YEAR + 1, 1, 1).is_none());
    assert!(ymd(MIN_YEAR - 1, 12, 31).is_none());
    assert_eq!(ymd(MIN_YEAR, 1, 1).map(ymd_of), Some((MIN_YEAR, 1, 1)));
}

#[test]
fn year_start_or_message() {
    assert_eq!(ymd_of(year_start(2024, "Invalid year").unwrap()), (2024, 1, 1));
    assert_eq!(custom(year_start(300_000, "Invalid year").unwrap_err()), "Invalid year");
    assert_eq!(custom(year_start(-300_000, "❌ Invalid year").unwrap_err()), "❌ Invalid year");
}

#[test]
fn month_window_of_march_leap_year() {
    let w = month_window(2024, 3).unwrap();
    assert_eq!(ymd_of(w.prev_date), (2024, 2, 1));
    assert_eq!(ymd_of(w.last_day_prev), (2024, 2, 29));
    assert_eq!(ymd_of(w.current_date), (2024, 3, 1));
    assert_eq!(ymd_of(w.last_day_current), (2024, 3, 31));
}

#[test]
fn month_window_of_january_reaches_back_a_year() {
    let w = month_window(2023, 1).unwrap();
    assert_eq!(ymd_of(w.prev_date), (2022, 12, 1));
    assert_eq!(ymd_of(w.last_day_prev), (2022, 12, 31));
    assert_eq!(ymd_of(w.last_day_current), (2023, 1, 31));
    let f = month_window(2023, 3).unwrap();
    assert_eq!(ymd_of(f.last_day_prev), (2023, 2, 28));
}

#[test]
fn month_window_refuses_missing_months() {
    assert_eq!(custom(month_window(2024, 13).unwrap_err()), "Invalid current date");
    assert_eq!(custom(month_window(2024, 0).unwrap_err()), "Invalid current date");
    assert_eq!(custom(month_window(2024, -1).unwrap_err()), "Invalid current date");
    assert_eq!(custom(month_window(MAX_YEAR + 1, 5).unwrap_err()), "Invalid current date");
}

#[test]
fn month_window_at_the_last_representable_month() {
    let w = month_window(MAX_YEAR, 12).unwrap();
    assert_eq!(ymd_of(w.current_date), (MAX_YEAR, 12, 1));
    assert_eq!(ymd_of(w.last_day_current), (MAX_YEAR, 12, 1));
    assert_eq!(ymd_of(w.last_day_prev), (MAX_YEAR, 11, 30));
}

#[test]
fn month_window_adjacent_months() {
    for month in 2..=12 {
        let w = month_window(2021, month).unwrap();
        assert_eq!(w.last_day_prev.month + 1, w.current_date.month);
        assert_eq!(w.prev_date.month, w.last_day_prev.month);
        assert_eq!(w.current_date.day, 1);
    }
}

#[test]
fn repositories_hold_their_pool() {
    assert_eq!(CardCommandRepository::new(1u8).db, 1);
    assert_eq!(CardDashboardTransferRepository::new(2u8).db, 2);
    assert_eq!(CardStatsWithdrawByCardRepository::new(3u8).db, 3);
    assert_eq!(MerchantStatsAmountRepository::new(4u8).db, 4);
    assert_eq!(MerchantStatsTotalAmountRepository::new(5u8).db, 5);
    assert_eq!(MerchantStatsTotalAmountByApiKeyRepository::new(6u8).db, 6);
    assert_eq!(TopupQueryRepository::new(7u8).db, 7);
    assert_eq!(TopupStatsMethodByCardRepository::new(8u8).db, 8);
    assert_eq!(TransactionQueryRepository::new(9u8).db, 9);
    assert_eq!(TransactionStatsAmountRepository::new(10u8).db, 10);
    assert_eq!(TransactionStatsMethodByCardRepository::new(11u8).db, 11);
    assert_eq!(TransferQueryRepository::new(12u8).db, 12);
    assert_eq!(TransferStatsStatusRepository::new(13u8).db, 13);
    assert_eq!(TransferStatsAmountByCardRepository::new(14u8).db, 14);
    assert_eq!(WithdrawQueryRepository::new(15u8).db, 15);
}

#[test]
fn card_command_repository_refusals() {
    let r = CardCommandRepository::new(());
    assert_eq!(r.generated_card_number(Ok::<String, ()>("4111".to_string())).unwrap(), "4111");
    assert_eq!(
        custom(r.generated_card_number(Err::<String, &str>("rng")).unwrap_err()),
        "❌ error ketika gen card_number"
    );
    assert_eq!(r.card_id_for_update(Some(8)).unwrap(), 8);
    assert_eq!(custom(r.card_id_for_update(None).unwrap_err()), "card_id is required");
}

#[test]
fn yearly_queries_start_on_new_year() {
    let y = 2025;
    assert_eq!(ymd_of(CardStatsWithdrawByCardRepository::new(()).monthly_amount_start(y).unwrap()), (2025, 1, 1));
    assert_eq!(ymd_of(MerchantStatsAmountRepository::new(()).monthly_amount_start(y).unwrap()), (2025, 1, 1));
    assert_eq!(ymd_of(TransferStatsAmountByCardRepository::new(()).sender_monthly_start(y).unwrap()), (2025, 1, 1));
}

#[test]
fn yearly_queries_refuse_years_out_of_range() {
    let y = 1_000_000;
    assert_eq!(custom(CardStatsWithdrawByCardRepository::new(()).monthly_amount_start(y).unwrap_err()), "❌ Invalid year");
    assert_eq!(custom(MerchantStatsAmountRepository::new(()).monthly_amount_start(y).unwrap_err()), "Invalid year");
    assert_eq!(custom(MerchantStatsTotalAmountRepository::new(()).monthly_total_amount_start(y).unwrap_err()), "❌ Invalid year");
    assert_eq!(custom(MerchantStatsTotalAmountByApiKeyRepository::new(()).monthly_total_amount_start(y).unwrap_err()), "Invalid year");
    assert_eq!(custom(TopupStatsMethodByCardRepository::new(()).monthly_methods_start(y).unwrap_err()), "Invalid year");
    assert_eq!(custom(TransactionStatsAmountRepository::new(()).monthly_amounts_start(y).unwrap_err()), "Invalid year");
    assert_eq!(custom(TransactionStatsMethodByCardRepository::new(()).monthly_method_start(y).unwrap_err()), "Invalid year");
    let t = TransferStatsAmountByCardRepository::new(());
    assert_eq!(custom(t.sender_monthly_start(y).unwrap_err()), "❌ Invalid year");
    assert_eq!(custom(t.receiver_monthly_start(y).unwrap_err()), "Invalid year");
}

#[test]
fn transfer_status_window_through_repository() {
    let r = TransferStatsStatusRepository::new(());
    let w = r.month_status_window(2024, 2).unwrap();
    assert_eq!(ymd_of(w.prev_date), (2024, 1, 1));
    assert_eq!(ymd_of(w.last_day_current), (2024, 2, 29));
    assert_eq!(custom(r.month_status_window(2024, 40).unwrap_err()), "Invalid current date");
}

#[test]
fn topup_lookups_that_find_nothing() {
    let r = TopupQueryRepository::new(());
    assert_eq!(r.topups_of_card("4111", vec![1, 2]).unwrap(), vec![1, 2]);
    assert_eq!(
        custom(r.topups_of_card("4111222233334444", Vec::<u8>::new()).unwrap_err()),
        "No topups found for card_number 4111222233334444"
    );
    assert_eq!(r.topup_with_id(3, Some("row")).unwrap(), "row");
    assert_eq!(custom(r.topup_with_id(17, None::<u8>).unwrap_err()), "Topup with ID 17 not found");
    assert_eq!(custom(r.topup_with_id(-2, None::<u8>).unwrap_err()), "Topup with ID -2 not found");
}

#[test]
fn withdraw_lookup_that_finds_nothing() {
    let r = WithdrawQueryRepository::new(());
    assert_eq!(r.withdrawals_of_card("9", vec!["a"]).unwrap(), vec!["a"]);
    assert_eq!(
        custom(r.withdrawals_of_card("5555", Vec::<u8>::new()).unwrap_err()),
        "No withdrawals found for card_number 5555"
    );
}

#[test]
fn transaction_lookup_errors() {
    let r = TransactionQueryRepository::new(());
    assert!(matches!(r.lookup_error(true, "gone".to_string()), RepositoryError::NotFound));
    match r.lookup_error(false, "pool timed out".to_string()) {
        RepositoryError::Sqlx(m) => assert_eq!(m, "pool timed out"),
        _ => panic!("expected a driver error"),
    }
}

#[test]
fn repository_error_descriptions() {
    assert_eq!(RepositoryError::NotFound.describe(), "Record not found");
    assert_eq!(RepositoryError::Custom("x".to_string()).describe(), "x");
    assert_eq!(RepositoryError::Sqlx("y".to_string()).describe(), "Database error: y");
}
