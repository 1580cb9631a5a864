use payment_core::flow::{around, with_num, with_text};
use payment_core::pagination::{limit, normalize, offset, total_pages, FindAllRequest};
use payment_core::repository::rows::{any_rows_affected, listed_total, query_window};
use payment_core::text::{blank, decimal_string, mask_api_key, mask_card_number, push_decimal};

fn req(page: i32, page_size: i32, search: &str) -> FindAllRequest {
    FindAllRequest { page, page_size, search: search.to_string() }
}

#[test]
fn normalize_applies_defaults() {
    let p = normalize(&req(0, -3, ""), false);
    assert_eq!(p.page, 1);
    assert_eq!(p.page_size, 10);
    assert!(p.search.is_none());
    assert_eq!(p.search_label(), "None");
    assert_eq!(p.search_or_empty(), "");
    let q = normalize(&req(4, 25, "abc"), false);
    assert_eq!((q.page, q.page_size), (4, 25));
    assert_eq!(q.search.as_deref(), Some("abc"));
}

#[test]
fn normalize_trim_decides_blank_search() {
    assert!(normalize(&req(1, 10, " \t\n"), true).search.is_none());
    assert_eq!(normalize(&req(1, 10, " \t\n"), false).search.as_deref(), Some(" \t\n"));
    assert_eq!(normalize(&req(1, 10, " x "), true).search.as_deref(), Some(" x "));
}

#[test]
fn total_pages_rounds_up() {
    assert_eq!(total_pages(0, 10), 0);
    assert_eq!(total_pages(1, 10), 1);
    assert_eq!(total_pages(10, 10), 1);
    assert_eq!(total_pages(11, 10), 2);
    assert_eq!(total_pages(25, 10), 3);
    assert_eq!(total_pages(i64::MAX, 1), i32::MAX);
    assert_eq!(total_pages(-15, 10), -1);
}

#[test]
fn limit_and_offset_clamp() {
    assert_eq!(limit(0), 1);
    assert_eq!(limit(-7), 1);
    assert_eq!(limit(50), 50);
    assert_eq!(limit(1000), 100);
    assert_eq!(offset(1, 10), 0);
    assert_eq!(offset(3, 10), 20);
    assert_eq!(offset(-5, 10), 0);
    assert_eq!(offset(2, 1000), 100);
    assert_eq!(offset(i32::MAX, 100), (i32::MAX as i64 - 1) * 100);
}

#[test]
fn consecutive_pages_are_adjacent() {
    for page in 1..20 {
        for size in [1, 7, 10, 100, 250] {
            assert_eq!(offset(page + 1, size), offset(page, size) + limit(size) as i64);
        }
    }
}

#[test]
fn query_window_of_a_request() {
    let w = query_window(&req(3, 20, "coffee")).unwrap();
    assert_eq!(w.limit, 20);
    assert_eq!(w.offset, 40);
    assert_eq!(w.search.as_deref(), Some("coffee"));
    let b = query_window(&req(0, 0, "   ")).unwrap();
    assert_eq!((b.limit, b.offset), (1, 0));
    assert!(b.search.is_none());
}

#[test]
fn query_window_refuses_overflowing_offsets() {
    assert!(query_window(&req(i32::MIN, 10, "")).is_none());
    assert!(query_window(&req(30_000_000, 100, "")).is_none());
    let edge = query_window(&req(21_474_837, 100, "")).unwrap();
    assert_eq!(edge.offset, 2_147_483_600);
}

#[test]
fn listed_total_and_affected_rows() {
    assert_eq!(listed_total(Some(42)), 42);
    assert_eq!(listed_total(None), 0);
    assert!(any_rows_affected(1));
    assert!(!any_rows_affected(0));
}

#[test]
fn decimal_numerals() {
    assert_eq!(decimal_string(0), "0");
    assert_eq!(decimal_string(-42), "-42");
    assert_eq!(decimal_string(1234567890), "1234567890");
    assert_eq!(decimal_string(i64::MIN), "-9223372036854775808");
    assert_eq!(decimal_string(i64::MAX), "9223372036854775807");
    let mut s = String::from("id:");
    push_decimal(&mut s, 907);
    assert_eq!(s, "id:907");
}

#[test]
fn masking_keeps_last_four() {
    assert_eq!(mask_card_number("4111111111111111"), "************1111");
    assert_eq!(mask_card_number("12345"), "*2345");
    assert_eq!(mask_card_number("1234"), "1234");
    assert_eq!(mask_card_number(""), "");
    assert_eq!(mask_api_key("sk_live_abcdef"), "**********cdef");
    assert_eq!(mask_card_number("ééééé"), "*éééé");
}

#[test]
fn blank_texts() {
    assert!(blank(""));
    assert!(blank(" \t\r\n\u{3000}"));
    assert!(!blank(" a "));
}

#[test]
fn key_builders() {
    assert_eq!(with_num("topup:find_by_id:id:", -3), "topup:find_by_id:id:-3");
    assert_eq!(with_text("auth:refresh:", "tok"), "auth:refresh:tok");
    assert_eq!(around("a:", "b", ":*"), "a:b:*");
}
