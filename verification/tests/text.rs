//! Decimal and hexadecimal text, parsing, keys and money.

use ticket_system::keys::{
    auth_cache_key, auth_cache_pattern, last_login_key, search_cache_key, seat_lock_key,
    seat_lock_keys, seats_cache_key, EVENTS_KEY, EVENTS_TTL_SECONDS, SEATS_CACHE_PATTERN,
    SEATS_TTL_SECONDS, SEAT_KEY_PATTERN, SEAT_LOCK_PATTERN,
};
use ticket_system::money::{amount_text, analytics_response, SalesCounts};
use ticket_system::protocol::Message;
use ticket_system::seats::LOCK_TTL_SECONDS;
use ticket_system::status::{
    BookingStatus, DisplayStatus, GatewayStatus, PaymentStatus, SeatStatus,
};
use ticket_system::text::{
    find_char, parse_i64, push_decimal, push_decimal_u64, strip_prefix, to_hex,
};

fn decimal(value: i64) -> String {
    let mut out = String::new();
    push_decimal(&mut out, value);
    out
}

#[test]
fn decimal_text_of_integers() {
    assert_eq!(decimal(0), "0");
    assert_eq!(decimal(7), "7");
    assert_eq!(decimal(10), "10");
    assert_eq!(decimal(-1), "-1");
    assert_eq!(decimal(1_700_000_000), "1700000000");
    assert_eq!(decimal(i64::MAX), "9223372036854775807");
    assert_eq!(decimal(i64::MIN), "-9223372036854775808");
    let mut out = String::from("p=");
    push_decimal(&mut out, 42);
    assert_eq!(out, "p=42");
    let mut out = String::new();
    push_decimal_u64(&mut out, u64::MAX);
    assert_eq!(out, "18446744073709551615");
}

#[test]
fn decimal_text_agrees_with_the_standard_library() {
    for value in [-1000i64, -99, -10, -9, 9, 99, 100, 101, 65_535, 4_294_967_296] {
        assert_eq!(decimal(value), value.to_string());
        assert_eq!(parse_i64(&value.to_string()), Some(value));
    }
}

#[test]
fn hexadecimal_text_of_bytes() {
    assert_eq!(to_hex(&vec![]), "");
    assert_eq!(to_hex(&vec![0]), "00");
    assert_eq!(to_hex(&vec![0x0f, 0xa0, 0xff]), "0fa0ff");
    assert_eq!(to_hex(&vec![1, 35, 69, 103, 137, 171, 205, 239]), "0123456789abcdef");
}

#[test]
fn parsing_signed_decimals() {
    assert_eq!(parse_i64("0"), Some(0));
    assert_eq!(parse_i64("123"), Some(123));
    assert_eq!(parse_i64("+123"), Some(123));
    assert_eq!(parse_i64("-123"), Some(-123));
    assert_eq!(parse_i64("-0"), Some(0));
    assert_eq!(parse_i64("007"), Some(7));
    assert_eq!(parse_i64("9223372036854775807"), Some(i64::MAX));
    assert_eq!(parse_i64("-9223372036854775808"), Some(i64::MIN));
    assert_eq!(parse_i64("0000000000000000000000000000000012"), Some(12));
}

#[test]
fn parsing_rejects_what_is_no_number_in_range() {
    for text in [
        "",
        "+",
        "-",
        " 1",
        "1 ",
        "1a",
        "a1",
        "--1",
        "+-1",
        "1.0",
        "١٢",
        "9223372036854775808",
        "-9223372036854775809",
        "99999999999999999999999999999999999999999999",
        "9223372036854775808x",
    ] {
        assert_eq!(parse_i64(text), None, "{:?}", text);
        assert!(text.parse::<i64>().is_err());
    }
}

#[test]
fn searching_and_stripping_text() {
    assert_eq!(find_char("a:b:c", ':'), Some(1));
    assert_eq!(find_char(":", ':'), Some(0));
    assert_eq!(find_char("abc", ':'), None);
    assert_eq!(find_char("", ':'), None);
    // Positions count characters, not bytes.
    assert_eq!(find_char("почта:пароль", ':'), Some(5));
    assert_eq!(strip_prefix("seat:12", "seat:"), Some("12"));
    assert_eq!(strip_prefix("seat:", "seat:"), Some(""));
    assert_eq!(strip_prefix("seats:12", "seat:"), None);
    assert_eq!(strip_prefix("sea", "seat:"), None);
    assert_eq!(strip_prefix("место:1", "место:"), Some("1"));
    assert_eq!(strip_prefix("anything", ""), Some("anything"));
}

#[test]
fn key_schema() {
    assert_eq!(seat_lock_key(42), "seat:42:reserved");
    assert_eq!(seat_lock_key(-1), "seat:-1:reserved");
    assert_eq!(seats_cache_key(7), "seats:7");
    assert_eq!(EVENTS_KEY, "events");
    assert_eq!(
        search_cache_key("rock", "2025-01-31", 2, 20),
        "search:events:q=rock&date=2025-01-31&p=2&ps=20"
    );
    assert_eq!(search_cache_key("", "", 1, 1), "search:events:q=&date=&p=1&ps=1");
    assert_eq!(auth_cache_key("a@b.c", "hash"), "auth:a@b.c:hash");
    assert_eq!(auth_cache_pattern("a@b.c"), "auth:a@b.c:*");
    assert_eq!(last_login_key(15), "last_login_update:15");
    assert_eq!(seat_lock_keys(&vec![5, 6]), vec!["seat:5:reserved", "seat:6:reserved"]);
    assert!(seat_lock_keys(&vec![]).is_empty());
    assert_eq!(SEAT_LOCK_PATTERN, "seat:*:reserved");
    assert_eq!(SEAT_KEY_PATTERN, "seat:*");
    assert_eq!(SEATS_CACHE_PATTERN, "seats:*");
    assert_eq!(LOCK_TTL_SECONDS, 300);
    assert_eq!(SEATS_TTL_SECONDS, 86400);
    assert_eq!(EVENTS_TTL_SECONDS, 3600);
}

#[test]
fn status_names_and_their_reading() {
    for status in [SeatStatus::Free, SeatStatus::Reserved, SeatStatus::Sold] {
        assert_eq!(SeatStatus::parse(status.name()), Some(status));
        assert_eq!(status.display().durable(), status);
        assert_eq!(status.display().name(), status.name());
    }
    assert_eq!(SeatStatus::Free.name(), "FREE");
    assert_eq!(SeatStatus::Reserved.name(), "RESERVED");
    assert_eq!(SeatStatus::Sold.name(), "SOLD");
    // The older spelling is read, and written back as FREE.
    assert_eq!(SeatStatus::parse("AVAILABLE"), Some(SeatStatus::Free));
    assert_eq!(SeatStatus::parse("AVAILABLE").unwrap().name(), "FREE");
    // The display state never reaches the store.
    assert_eq!(SeatStatus::parse("SELECTED"), None);
    assert_eq!(DisplayStatus::Selected.name(), "SELECTED");
    assert_eq!(DisplayStatus::Selected.durable(), SeatStatus::Free);
    assert_eq!(SeatStatus::parse("free"), None);
    assert_eq!(SeatStatus::parse(""), None);
    for status in [
        BookingStatus::Created,
        BookingStatus::PendingPayment,
        BookingStatus::Paid,
        BookingStatus::Cancelled,
    ] {
        assert_eq!(BookingStatus::parse(status.name()), Some(status));
    }
    assert_eq!(BookingStatus::PendingPayment.name(), "pending_payment");
    assert_eq!(BookingStatus::parse("PAID"), None);
    for status in [
        PaymentStatus::Pending,
        PaymentStatus::Completed,
        PaymentStatus::Failed,
        PaymentStatus::Expired,
    ] {
        assert_eq!(PaymentStatus::parse(status.name()), Some(status));
    }
    assert_eq!(PaymentStatus::Completed.name(), "completed");
    assert_eq!(PaymentStatus::parse("done"), None);
}

#[test]
fn gateway_status_texts() {
    assert_eq!(GatewayStatus::parse("NEW"), GatewayStatus::New);
    assert_eq!(GatewayStatus::parse("AUTHORIZED"), GatewayStatus::Authorized);
    assert_eq!(GatewayStatus::parse("CONFIRMED"), GatewayStatus::Confirmed);
    assert_eq!(GatewayStatus::parse("CANCELLED"), GatewayStatus::Cancelled);
    assert_eq!(GatewayStatus::parse("FAILED"), GatewayStatus::Failed);
    assert_eq!(GatewayStatus::parse("EXPIRED"), GatewayStatus::Expired);
    assert_eq!(GatewayStatus::parse("REFUNDED"), GatewayStatus::Refunded);
    for text in ["", "confirmed", "CONFIRMED ", "CANCELED", "PAID"] {
        assert_eq!(GatewayStatus::parse(text), GatewayStatus::Unknown);
    }
    assert!(GatewayStatus::Confirmed.is_settled());
    assert!(GatewayStatus::Authorized.is_settled());
    assert!(!GatewayStatus::New.is_settled());
    assert!(!GatewayStatus::Refunded.is_settled());
    for status in [
        GatewayStatus::Cancelled,
        GatewayStatus::Failed,
        GatewayStatus::Expired,
        GatewayStatus::Refunded,
    ] {
        assert!(status.is_dead());
        assert!(!status.is_settled());
    }
    for status in [
        GatewayStatus::New,
        GatewayStatus::Authorized,
        GatewayStatus::Confirmed,
        GatewayStatus::Unknown,
    ] {
        assert!(!status.is_dead());
    }
}

#[test]
fn amounts_have_two_decimal_places() {
    assert_eq!(amount_text(0), "0.00");
    assert_eq!(amount_text(5), "0.05");
    assert_eq!(amount_text(50), "0.50");
    assert_eq!(amount_text(100), "1.00");
    assert_eq!(amount_text(150_050), "1500.50");
    assert_eq!(amount_text(-5), "-0.05");
    assert_eq!(amount_text(-12_345), "-123.45");
    assert_eq!(amount_text(i64::MAX), "92233720368547758.07");
    assert_eq!(amount_text(i64::MIN), "-92233720368547758.08");
}

#[test]
fn analytics_are_served_for_events_that_exist() {
    let counts = SalesCounts {
        total_seats: 10,
        sold_seats: 3,
        reserved_seats: 2,
        free_seats: 5,
        revenue_minor: 450_075,
        bookings_count: 2,
    };
    let response = analytics_response(7, true, Some(counts)).unwrap();
    assert_eq!(response.event_id, 7);
    assert_eq!(response.total_seats, 10);
    assert_eq!(response.sold_seats, 3);
    assert_eq!(response.reserved_seats, 2);
    assert_eq!(response.free_seats, 5);
    assert_eq!(response.total_revenue, "4500.75");
    assert_eq!(response.bookings_count, 2);
    let empty = analytics_response(7, true, None).unwrap();
    assert_eq!(empty.total_seats, 0);
    assert_eq!(empty.total_revenue, "0.00");
    assert_eq!(analytics_response(0, true, Some(counts)).unwrap_err(), Message::AnalyticsIdNotPositive);
    assert_eq!(analytics_response(-7, false, None).unwrap_err(), Message::AnalyticsIdNotPositive);
    assert_eq!(analytics_response(7, false, Some(counts)).unwrap_err(), Message::EventNotFound);
    assert_eq!(Message::EventNotFound.text(), "Событие не найдено");
    assert_eq!(Message::AnalyticsIdNotPositive.text(), "ID события должен быть > 0");
}
