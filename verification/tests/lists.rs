//! Listings, the cache, search, grouping and the reaper's bookkeeping.

use std::sync::Arc;

use ticket_system::bookings::{group_bookings, user_user_id_to_i64, BookingSeatRow};
use ticket_system::cache::{
    lock_probes, read_through, update_seats_with_reservations, ReadResult, ReadStep, Seat, Source,
};
use ticket_system::cleanup::{
    CleanupService, CleanupStats, EMPTY_BOOKING_HOURS, PAYMENT_EXPIRY_MINUTES,
    STALE_BOOKING_MINUTES, SWEEP_INTERVAL_SECONDS,
};
use ticket_system::config::{
    AppConfig, CircuitBreakerConfig, Config, DatabaseConfig, PaymentConfig, RedisConfig,
};
use ticket_system::listing::{
    page_number, page_size, plan_seats_query, seats_sql, window, SeatsQuery, Window,
};
use ticket_system::protocol::{Command, Message};
use ticket_system::search::{
    needs_full_text, plan_search, prepare_search_query, EventsQuery, SearchDate,
};
use ticket_system::settle::{Settle, SettleKind};
use ticket_system::status::DisplayStatus;
use ticket_system::AppState;

fn service() -> CleanupService {
    let config = Config {
        app: AppConfig {
            host: "0.0.0.0".to_string(),
            port: 8000,
            environment: "test".to_string(),
            rust_log: "info".to_string(),
        },
        database: DatabaseConfig {
            url: "postgres://localhost".to_string(),
            user: "u".to_string(),
            password: "p".to_string(),
            db: "d".to_string(),
            pool_size: 20,
        },
        redis: RedisConfig { url: "redis://localhost".to_string(), pool_size: 20 },
        payment: PaymentConfig {
            merchant_id: "shop".to_string(),
            merchant_password: "secret".to_string(),
            gateway_url: "https://gateway.example".to_string(),
            success_url: String::new(),
            fail_url: String::new(),
            webhook_url: String::new(),
        },
        circuit_breaker: CircuitBreakerConfig::default(),
    };
    CleanupService::new(Arc::new(AppState { config }))
}

fn seat(id: i64, status: DisplayStatus) -> Seat {
    Seat {
        id,
        event_id: 7,
        row: 1,
        number: id as i32,
        status,
        booking_id: None,
        category: Some("A".to_string()),
        price_minor: Some(1000),
    }
}

fn statuses(seats: &[Seat]) -> Vec<DisplayStatus> {
    seats.iter().map(|s| s.status).collect()
}

fn row(booking_id: i64, event_id: i64, seat_id: Option<i64>) -> BookingSeatRow {
    BookingSeatRow { booking_id, event_id, seat_id }
}

#[test]
fn user_ids_are_widened() {
    assert_eq!(user_user_id_to_i64(0), 0);
    assert_eq!(user_user_id_to_i64(15), 15);
    assert_eq!(user_user_id_to_i64(-1), -1);
    assert_eq!(user_user_id_to_i64(i32::MAX), 2_147_483_647);
    assert_eq!(user_user_id_to_i64(i32::MIN), -2_147_483_648);
}

#[test]
fn pages_and_windows() {
    assert_eq!(page_number(None), 1);
    assert_eq!(page_number(Some(0)), 1);
    assert_eq!(page_number(Some(3)), 3);
    assert_eq!(page_size(None), 20);
    assert_eq!(page_size(Some(0)), 1);
    assert_eq!(page_size(Some(1)), 1);
    assert_eq!(page_size(Some(20)), 20);
    assert_eq!(page_size(Some(21)), 20);
    assert_eq!(page_size(Some(u32::MAX)), 20);
    assert_eq!(window(None, None), Window { limit: 20, offset: 0 });
    assert_eq!(window(Some(1), Some(5)), Window { limit: 5, offset: 0 });
    assert_eq!(window(Some(3), Some(5)), Window { limit: 5, offset: 10 });
    assert_eq!(window(Some(0), Some(50)), Window { limit: 20, offset: 0 });
    // A page number that a 32-bit product could not hold.
    assert_eq!(window(Some(u32::MAX), None), Window { limit: 20, offset: 85_899_345_880 });
}

#[test]
fn statement_that_lists_seats() {
    assert_eq!(
        seats_sql(false, false),
        "SELECT id, row, number, status FROM seats WHERE event_id = $1 ORDER BY row, number LIMIT $2 OFFSET $3"
    );
    assert_eq!(
        seats_sql(true, false),
        "SELECT id, row, number, status FROM seats WHERE event_id = $1 AND row = $2 ORDER BY row, number LIMIT $3 OFFSET $4"
    );
    assert_eq!(
        seats_sql(false, true),
        "SELECT id, row, number, status FROM seats WHERE event_id = $1 AND status = $2 ORDER BY row, number LIMIT $3 OFFSET $4"
    );
    assert_eq!(
        seats_sql(true, true),
        "SELECT id, row, number, status FROM seats WHERE event_id = $1 AND row = $2 AND status = $3 ORDER BY row, number LIMIT $4 OFFSET $5"
    );
}

#[test]
fn seat_queries_are_checked() {
    let query = SeatsQuery {
        event_id: 7,
        page: Some(2),
        page_size: Some(10),
        row: Some(3),
        status: Some("FREE".to_string()),
    };
    let plan = plan_seats_query(&query).unwrap();
    assert_eq!(plan.sql, seats_sql(true, true));
    assert_eq!(plan.window, Window { limit: 10, offset: 10 });
    let plain = SeatsQuery { row: None, status: None, page: None, page_size: None, ..query.clone() };
    let plan = plan_seats_query(&plain).unwrap();
    assert_eq!(plan.sql, seats_sql(false, false));
    assert_eq!(plan.window, Window { limit: 20, offset: 0 });
    for status in ["RESERVED", "SOLD"] {
        let query = SeatsQuery { status: Some(status.to_string()), ..query.clone() };
        assert!(plan_seats_query(&query).is_ok());
    }
    for event_id in [0, -7] {
        let query = SeatsQuery { event_id, row: Some(0), ..query.clone() };
        assert_eq!(plan_seats_query(&query).unwrap_err(), Message::EventIdNotPositive);
    }
    for row in [0, -1] {
        let query = SeatsQuery { row: Some(row), status: Some("x".to_string()), ..query.clone() };
        assert_eq!(plan_seats_query(&query).unwrap_err(), Message::RowNotPositive);
    }
    for status in ["", "free", "AVAILABLE", "SELECTED", "FREE "] {
        let query = SeatsQuery { status: Some(status.to_string()), ..query.clone() };
        assert_eq!(plan_seats_query(&query).unwrap_err(), Message::StatusNotKnown);
    }
    assert_eq!(Message::RowNotPositive.text(), "row должен быть > 0");
    assert_eq!(Message::StatusNotKnown.text(), "status должен быть FREE | RESERVED | SOLD");
    assert_eq!(Message::EventIdNotPositive.text(), "event_id должен быть > 0");
}

#[test]
fn reading_through_the_cache() {
    let delivered = ReadResult::Delivered;
    let missing = ReadResult::Missing;
    assert_eq!(read_through(ReadStep::AskCache, delivered), ReadStep::Serve(Source::Cache));
    assert_eq!(read_through(ReadStep::AskCache, missing), ReadStep::AskStore);
    assert_eq!(read_through(ReadStep::AskStore, delivered), ReadStep::FillCache);
    assert_eq!(read_through(ReadStep::AskStore, missing), ReadStep::Serve(Source::Nowhere));
    // A cache that does not take the list does not keep it from being served.
    assert_eq!(read_through(ReadStep::FillCache, delivered), ReadStep::Serve(Source::Store));
    assert_eq!(read_through(ReadStep::FillCache, missing), ReadStep::Serve(Source::Store));
    for source in [Source::Cache, Source::Store, Source::Nowhere] {
        assert_eq!(read_through(ReadStep::Serve(source), missing), ReadStep::Serve(source));
    }
}

#[test]
fn locks_in_flight_are_shown_as_selected() {
    let mut seats = vec![
        seat(1, DisplayStatus::Free),
        seat(2, DisplayStatus::Reserved),
        seat(3, DisplayStatus::Free),
        seat(4, DisplayStatus::Sold),
        seat(5, DisplayStatus::Free),
    ];
    assert_eq!(lock_probes(&seats), vec![1, 3, 5]);
    update_seats_with_reservations(&mut seats, &vec![false, true, true]);
    assert_eq!(
        statuses(&seats),
        vec![
            DisplayStatus::Free,
            DisplayStatus::Reserved,
            DisplayStatus::Selected,
            DisplayStatus::Sold,
            DisplayStatus::Selected,
        ]
    );
    assert_eq!(seats[2].id, 3);
    assert_eq!(seats[2].category, Some("A".to_string()));
    assert_eq!(seats[2].price_minor, Some(1000));
    // What is shown as selected is written to the store as free.
    assert_eq!(seats[2].status.durable().name(), "FREE");
    // Seats that are shown as selected are not probed again.
    assert_eq!(lock_probes(&seats), vec![1]);
}

#[test]
fn missing_answers_are_locks_that_are_not_there() {
    let mut seats = vec![seat(1, DisplayStatus::Free), seat(2, DisplayStatus::Free)];
    update_seats_with_reservations(&mut seats, &vec![true]);
    assert_eq!(statuses(&seats), vec![DisplayStatus::Selected, DisplayStatus::Free]);
    let mut seats = vec![seat(1, DisplayStatus::Free), seat(2, DisplayStatus::Sold)];
    update_seats_with_reservations(&mut seats, &vec![]);
    assert_eq!(statuses(&seats), vec![DisplayStatus::Free, DisplayStatus::Sold]);
    let mut seats = vec![seat(1, DisplayStatus::Sold)];
    update_seats_with_reservations(&mut seats, &vec![true, true]);
    assert_eq!(statuses(&seats), vec![DisplayStatus::Sold]);
    let mut none: Vec<Seat> = vec![];
    update_seats_with_reservations(&mut none, &vec![true]);
    assert!(none.is_empty());
    assert!(lock_probes(&none).is_empty());
}

#[test]
fn search_plans() {
    let plan = plan_search(&EventsQuery {
        query: Some("рок концерт".to_string()),
        date: Some("2025-01-31".to_string()),
        page: Some(3),
        page_size: Some(50),
    });
    assert_eq!(plan.cache_key, "search:events:q=рок концерт&date=2025-01-31&p=3&ps=20");
    assert_eq!(plan.query, "рок концерт");
    assert_eq!(plan.window, Window { limit: 20, offset: 40 });
    assert_eq!(plan.from_date, Some(SearchDate { year: 2025, month: 1, day: 31 }));
    let plan = plan_search(&EventsQuery { query: None, date: None, page: None, page_size: None });
    assert_eq!(plan.cache_key, "search:events:q=&date=&p=1&ps=20");
    assert_eq!(plan.query, "");
    assert_eq!(plan.window, Window { limit: 20, offset: 0 });
    assert_eq!(plan.from_date, None);
    // Page 0 is cached under its own number and served as the first page.
    let plan = plan_search(&EventsQuery {
        query: None,
        date: Some("tomorrow".to_string()),
        page: Some(0),
        page_size: Some(0),
    });
    assert_eq!(plan.cache_key, "search:events:q=&date=tomorrow&p=0&ps=1");
    assert_eq!(plan.window, Window { limit: 1, offset: 0 });
    assert_eq!(plan.from_date, None);
}

#[test]
fn search_dates() {
    let date = |text: &str| {
        plan_search(&EventsQuery {
            query: None,
            date: Some(text.to_string()),
            page: None,
            page_size: None,
        })
        .from_date
    };
    assert_eq!(date("2024-02-29"), Some(SearchDate { year: 2024, month: 2, day: 29 }));
    assert_eq!(date("2025-12-01"), Some(SearchDate { year: 2025, month: 12, day: 1 }));
    for text in ["", "2025-02-29", "2025-13-01", "2025-00-10", "31.01.2025", "2025-01-31T10:00"] {
        assert_eq!(date(text), None, "{:?}", text);
    }
}

#[test]
fn queries_for_the_full_text_index() {
    assert_eq!(prepare_search_query("rock concert"), "rock concert");
    assert_eq!(prepare_search_query("  rock \t\n concert  "), "rock concert");
    assert_eq!(prepare_search_query("rock'n'roll; DROP TABLE--"), "rocknroll DROP TABLE--");
    assert_eq!(prepare_search_query("рок-концерт №5!"), "рок-концерт 5");
    assert_eq!(prepare_search_query("a , b"), "a b");
    assert_eq!(prepare_search_query("!!!"), "");
    assert_eq!(prepare_search_query("   "), "");
    assert_eq!(prepare_search_query(""), "");
    assert_eq!(prepare_search_query("! a"), "a");
    assert_eq!(prepare_search_query("a\u{a0}b"), "a b");
    let today = Some(SearchDate { year: 2025, month: 1, day: 31 });
    assert!(!needs_full_text("", &None));
    assert!(needs_full_text("rock", &None));
    assert!(needs_full_text("", &today));
    assert!(needs_full_text(" ", &None));
}

#[test]
fn bookings_are_grouped_by_rising_id() {
    let rows = vec![
        row(9, 70, Some(3)),
        row(9, 70, Some(5)),
        row(2, 71, None),
        row(4, 72, Some(8)),
        row(9, 99, Some(1)),
        row(4, 72, None),
    ];
    let bookings = group_bookings(&rows);
    let ids: Vec<i64> = bookings.iter().map(|b| b.id).collect();
    assert_eq!(ids, vec![2, 4, 9]);
    assert_eq!(bookings[0].event_id, 71);
    assert!(bookings[0].seats.is_empty());
    assert_eq!(bookings[1].event_id, 72);
    assert_eq!(bookings[1].seats, vec![8]);
    // The event is that of the first row about the booking.
    assert_eq!(bookings[2].event_id, 70);
    assert_eq!(bookings[2].seats, vec![3, 5, 1]);
    assert!(group_bookings(&vec![]).is_empty());
    let one = group_bookings(&vec![row(-1, 7, Some(i64::MAX))]);
    assert_eq!((one[0].id, one[0].event_id, one[0].seats.clone()), (-1, 7, vec![i64::MAX]));
}

#[test]
fn seat_ids_are_read_from_keys() {
    let service = service();
    let read = |key: &str| service.extract_seat_id_from_key(key);
    assert_eq!(read("seat:123"), Some("123".to_string()));
    assert_eq!(read("seat:123:reserved"), Some("123".to_string()));
    assert_eq!(read("seat:123:reserved:more"), Some("123".to_string()));
    assert_eq!(read("seat:"), Some("".to_string()));
    assert_eq!(read("seat::reserved"), Some("".to_string()));
    assert_eq!(read("seat:abc:reserved"), Some("abc".to_string()));
    assert_eq!(read("seats:7"), None);
    assert_eq!(read("events"), None);
    assert_eq!(read(""), None);
    assert_eq!(read("Seat:1"), None);
    assert_eq!(service.lock_key_seat("seat:123:reserved"), Some(123));
    assert_eq!(service.lock_key_seat("seat:-5"), Some(-5));
    assert_eq!(service.lock_key_seat("seat:abc:reserved"), None);
    assert_eq!(service.lock_key_seat("seat:"), None);
    assert_eq!(service.lock_key_seat("seats:7"), None);
    assert_eq!(service.lock_key_seat("seat:99999999999999999999"), None);
    for seat_id in [1, 42, i64::MAX, i64::MIN] {
        let key = ticket_system::keys::seat_lock_key(seat_id);
        assert_eq!(service.lock_key_seat(&key), Some(seat_id));
    }
}

#[test]
fn orphaned_locks_are_found() {
    let service = service();
    let keys: Vec<String> = ["seat:1:reserved", "seat:2:reserved", "seat:x:reserved", "seats:3", "seat:4"]
        .iter()
        .map(|k| k.to_string())
        .collect();
    assert_eq!(service.seats_to_probe(&keys), vec![Some(1), Some(2), None, None, Some(4)]);
    let orphans = service.orphaned_keys(&keys, &vec![true, false, false, false, false]);
    assert_eq!(orphans, vec!["seat:2:reserved", "seat:4"]);
    assert!(service.orphaned_keys(&keys, &vec![true, true, false, false, true]).is_empty());
    assert!(service.orphaned_keys(&vec![], &vec![]).is_empty());
    // An answer that is missing is a seat that is not active.
    assert_eq!(service.orphaned_keys(&keys, &vec![true]), vec!["seat:2:reserved", "seat:4"]);
    assert_eq!(
        service.orphaned_keys(&keys, &vec![]),
        vec!["seat:1:reserved", "seat:2:reserved", "seat:4"]
    );
    assert!(service.orphaned_keys(&vec![], &vec![false]).is_empty());
    assert_eq!(service.clear_redis_reservations(&vec![8]), vec!["seat:8:reserved"]);
}

#[test]
fn cleanup_statistics() {
    let stats = CleanupStats {
        expired_payments: 3,
        empty_bookings: 4,
        stale_bookings: 5,
        redis_reserves: 100,
    };
    assert_eq!(stats.total_items_to_cleanup(), 12);
    let none = CleanupStats { expired_payments: 0, empty_bookings: 0, stale_bookings: 0, redis_reserves: 9 };
    assert_eq!(none.total_items_to_cleanup(), 0);
    let large = CleanupStats {
        expired_payments: i64::MAX - 2,
        empty_bookings: 1,
        stale_bookings: 1,
        redis_reserves: 0,
    };
    assert_eq!(large.total_items_to_cleanup(), i64::MAX);
    assert_eq!(SWEEP_INTERVAL_SECONDS, 300);
    assert_eq!(PAYMENT_EXPIRY_MINUTES, 15);
    assert_eq!(STALE_BOOKING_MINUTES, 30);
    assert_eq!(EMPTY_BOOKING_HOURS, 2);
}

#[test]
fn reaper_names_its_settlements() {
    let service = service();
    assert_eq!(service.cleanup_expired_payment(3, 7), Settle::start(SettleKind::Expired, 3, 7));
    assert_eq!(service.cleanup_stale_booking(3, 7), Settle::start(SettleKind::Dropped, 3, 7));
    assert_eq!(service.cleanup_stale_booking(3, 7).1, Command::Begin);
}
