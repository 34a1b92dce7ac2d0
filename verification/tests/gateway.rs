//! The payment gateway client: signing, requests, answers and the breaker
//! around every call.

use ticket_system::breaker::CircuitState;
use ticket_system::config::{CircuitBreakerConfig, PaymentConfig};
use ticket_system::gateway::{
    check_reply, confirm_reply, currency, gateway_error_status, init_reply, sign,
    CircuitBreakerError, PaymentCheckResponse, PaymentConfirmResponse, PaymentGatewayClient,
    PaymentInitResponse, DIGEST_BYTES, TOKEN_CHARS, UNKNOWN_GATEWAY_CODE,
};
use ticket_system::machine::Machine;
use ticket_system::payments::{
    new_order_id, order_id_at, payment_description, ApiError, InitiatePayment,
};
use ticket_system::protocol::{
    CheckDigest, Command, InitDigest, Message, Outcome, Reply, Settlement, Summary,
};
use ticket_system::settle::{Settle, SettleKind};
use ticket_system::status::GatewayStatus;
use ticket_system::webhook::Webhook;

fn payment_config() -> PaymentConfig {
    PaymentConfig {
        merchant_id: "shop".to_string(),
        merchant_password: "secret".to_string(),
        gateway_url: "https://gateway.example".to_string(),
        success_url: "https://shop.example/ok".to_string(),
        fail_url: "https://shop.example/fail".to_string(),
        webhook_url: "https://shop.example/hook".to_string(),
    }
}

fn client_with(failure_threshold: u32, timeout_seconds: u64) -> PaymentGatewayClient {
    PaymentGatewayClient::from_config(
        &payment_config(),
        &CircuitBreakerConfig { failure_threshold, timeout_seconds },
    )
}

fn client() -> PaymentGatewayClient {
    client_with(5, 60)
}

/// An error of the HTTP client, made without touching the network.
fn transport_error() -> reqwest::Error {
    reqwest::Client::new().get("not an address").build().unwrap_err()
}

fn check_response(status: Option<&str>) -> PaymentCheckResponse {
    PaymentCheckResponse {
        success: true,
        status: status.map(|s| s.to_string()),
        payment_id: Some("pay-1".to_string()),
        amount: Some(150_000),
        currency: Some("KZT".to_string()),
        order_id: Some("booking-7-1700000000".to_string()),
        code: None,
        message: None,
    }
}

#[test]
fn signing_is_sha256_in_lower_case_hex() {
    assert_eq!(sign(""), "e3b0c44298fc1c149afbf4c8996fb92427ae41e4649b934ca495991b7852b855");
    assert_eq!(
        sign("hello world"),
        "b94d27b9934d3e08a52e52d7da7dabfac484efe37a5380ee9088f7ace2efcde9"
    );
    assert_ne!(sign("hello world"), "hello world");
}

#[test]
fn init_token_signs_amount_currency_order_password_merchant() {
    let client = client();
    assert_eq!(
        client.generate_init_token(150_000, "KZT", "booking-7-1700000000"),
        "7386af97160cbcd492f88cdb099ef4f38217139ad3ed04c3982ff488d0c32509"
    );
    assert_eq!(
        client.generate_init_token(150_000, "KZT", "booking-7-1700000000"),
        sign("150000KZTbooking-7-1700000000secretshop")
    );
    assert_eq!(
        client.generate_init_token(-5, "USD", "o-1"),
        "b94b524d63b4454067822df61a6d646eb56afb5692006a62ae434cb7e72fbc6a"
    );
}

#[test]
fn init_token_signs_the_utf8_bytes_of_its_text() {
    let config = PaymentConfig {
        merchant_id: "магазин".to_string(),
        merchant_password: "пароль-".to_string(),
        ..payment_config()
    };
    let client = PaymentGatewayClient::from_config(&config, &CircuitBreakerConfig::default());
    assert_eq!(
        client.generate_init_token(150_050, "KZT", "booking-12-1700000000"),
        "b9c4940a4731f03835c54717f260c72ef6933c55a94378e80307101e036718c0"
    );
}

#[test]
fn tokens_have_64_lower_case_hex_characters() {
    let client = client();
    let tokens = [
        sign(""),
        sign("x"),
        client.generate_init_token(0, "", ""),
        client.generate_init_token(i64::MIN, "KZT", "booking-1-1"),
        client.generate_check_token(""),
        client.generate_check_token("pay-1"),
        client.create_payment(
            1,
            "o".to_string(),
            String::new(),
            None,
            String::new(),
            String::new(),
            String::new(),
        )
        .token,
    ];
    for token in tokens {
        assert_eq!(token.len(), TOKEN_CHARS);
        assert_eq!(token.len(), 64);
        assert!(token.chars().all(|c| c.is_ascii_digit() || ('a'..='f').contains(&c)));
    }
    assert_eq!(DIGEST_BYTES, 32);
}

#[test]
fn check_token_signs_payment_password_merchant() {
    let client = client();
    assert_eq!(
        client.generate_check_token("pay-1"),
        "f843c9f21799ad4039e9ec979f57b7c39e10832742b5dd9659dae73264bc4e9e"
    );
    assert_eq!(client.generate_check_token("pay-1"), sign("pay-1secretshop"));
}

#[test]
fn gateway_addresses() {
    let client = client();
    assert_eq!(client.init_url(), "https://gateway.example/api/v1/PaymentInit/init");
    assert_eq!(client.check_url(), "https://gateway.example/api/v1/PaymentCheck/check");
    assert_eq!(client.confirm_url(), "https://gateway.example/api/v1/PaymentConfirm/confirm");
}

#[test]
fn request_to_open_a_payment() {
    let config = payment_config();
    let request = client().create_payment(
        150_000,
        "booking-7-1700000000".to_string(),
        "Concert - 2 билет(ов)".to_string(),
        Some("a@b.c".to_string()),
        config.success_url.clone(),
        config.fail_url.clone(),
        config.webhook_url.clone(),
    );
    assert_eq!(request.team_slug, "shop");
    assert_eq!(request.token, "7386af97160cbcd492f88cdb099ef4f38217139ad3ed04c3982ff488d0c32509");
    assert_eq!(request.amount, 150_000);
    assert_eq!(request.order_id, "booking-7-1700000000");
    assert_eq!(request.currency, "KZT");
    assert_eq!(currency(), "KZT");
    assert_eq!(request.description, "Concert - 2 билет(ов)");
    assert_eq!(request.success_url, "https://shop.example/ok");
    assert_eq!(request.fail_url, "https://shop.example/fail");
    assert_eq!(request.notification_url, "https://shop.example/hook");
    assert_eq!(request.email, Some("a@b.c".to_string()));
    assert_eq!(request.language, "ru");
}

#[test]
fn requests_to_check_and_to_capture() {
    let client = client();
    let check = client.check_payment_status("pay-1");
    assert_eq!(check.team_slug, "shop");
    assert_eq!(check.payment_id, "pay-1");
    assert_eq!(check.token, sign("pay-1secretshop"));
    let confirm = client.confirm_payment("pay-1", 150_000, "KZT", "booking-7-1700000000");
    assert_eq!(confirm.team_slug, "shop");
    assert_eq!(confirm.payment_id, "pay-1");
    assert_eq!(confirm.amount, 150_000);
    assert_eq!(confirm.currency, "KZT");
    assert_eq!(confirm.order_id, "booking-7-1700000000");
    assert_eq!(confirm.token, sign("150000KZTbooking-7-1700000000secretshop"));
}

#[test]
fn capture_takes_what_the_check_reported() {
    let client = client();
    let check = check_response(Some("AUTHORIZED"));
    let request = client.confirm_checked("pay-1", &check).unwrap();
    assert_eq!(request.payment_id, "pay-1");
    assert_eq!(request.amount, 150_000);
    assert_eq!(request.currency, "KZT");
    assert_eq!(request.order_id, "booking-7-1700000000");
    assert_eq!(request.token, client.generate_init_token(150_000, "KZT", "booking-7-1700000000"));
    for missing in 0..3 {
        let mut partial = check_response(Some("AUTHORIZED"));
        match missing {
            0 => partial.amount = None,
            1 => partial.currency = None,
            _ => partial.order_id = None,
        }
        assert!(client.confirm_checked("pay-1", &partial).is_none());
        assert!(!partial.digest().confirmable);
    }
}

#[test]
fn order_ids_and_descriptions() {
    assert_eq!(order_id_at(7, 1_700_000_000), "booking-7-1700000000");
    assert_eq!(order_id_at(12, 0), "booking-12-0");
    assert_eq!(order_id_at(1, -1), "booking-1--1");
    assert_eq!(payment_description("Concert", 2), "Concert - 2 билет(ов)");
    assert_eq!(payment_description("", 1), " - 1 билет(ов)");
    let fresh = new_order_id(7);
    let stamp = fresh.strip_prefix("booking-7-").unwrap();
    assert!(stamp.parse::<i64>().unwrap() > 1_600_000_000);
}

#[test]
fn bodies_of_refusals() {
    let body = ApiError::refused(Message::BookingEmpty);
    assert!(!body.success);
    assert_eq!(body.message, "Booking not found or empty");
    assert_eq!(body.code, None);
    let body = ApiError::gateway_refused(Some("Insufficient funds".to_string()), 1004);
    assert!(!body.success);
    assert_eq!(body.message, "Insufficient funds");
    assert_eq!(body.code, Some(1004));
    let body = ApiError::gateway_refused(None, UNKNOWN_GATEWAY_CODE);
    assert_eq!(body.message, "Unknown error");
    assert_eq!(body.code, Some(9999));
}

#[test]
fn gateway_error_codes() {
    assert_eq!(gateway_error_status(1001), 401);
    assert_eq!(gateway_error_status(1002), 409);
    assert_eq!(gateway_error_status(1004), 402);
    assert_eq!(gateway_error_status(1006), 400);
    assert_eq!(gateway_error_status(3015), 429);
    for code in [0, 1, 1000, 1003, 1005, 3014, 9999, -1001, i32::MAX, i32::MIN] {
        assert_eq!(gateway_error_status(code), 502);
    }
    assert_eq!(UNKNOWN_GATEWAY_CODE, 9999);
}

#[test]
fn what_answers_mean() {
    let init = PaymentInitResponse {
        success: true,
        payment_id: Some("pay-1".to_string()),
        payment_url: Some("https://pay".to_string()),
        expires_at: None,
        code: None,
        message: None,
    };
    assert_eq!(init.digest(), InitDigest { success: true, code: None, has_payment_id: true });
    let refused = PaymentInitResponse {
        success: false,
        payment_id: None,
        code: Some(1004),
        message: Some("no funds".to_string()),
        ..init.clone()
    };
    assert_eq!(refused.digest(), InitDigest { success: false, code: Some(1004), has_payment_id: false });
    assert_eq!(init_reply(&Ok(init)), Reply::Init(InitDigest { success: true, code: None, has_payment_id: true }));
    assert_eq!(init_reply(&Err(CircuitBreakerError::Open)), Reply::BreakerOpen);
    assert_eq!(
        init_reply(&Err(CircuitBreakerError::PaymentGatewayError(transport_error()))),
        Reply::Failed
    );

    let check = check_response(Some("CONFIRMED"));
    assert_eq!(
        check.digest(),
        CheckDigest { success: true, status: Some(GatewayStatus::Confirmed), confirmable: true }
    );
    assert_eq!(check_response(None).digest().status, None);
    assert_eq!(check_response(Some("whatever")).digest().status, Some(GatewayStatus::Unknown));
    assert_eq!(check_reply(&Ok(check_response(Some("NEW")))), Reply::Check(check_response(Some("NEW")).digest()));
    assert_eq!(check_reply(&Err(CircuitBreakerError::Open)), Reply::BreakerOpen);
    assert_eq!(
        check_reply(&Err(CircuitBreakerError::PaymentGatewayError(transport_error()))),
        Reply::Failed
    );

    let confirm = PaymentConfirmResponse { success: true, code: None, message: None };
    assert_eq!(confirm_reply(&Ok(confirm)), Reply::Confirm(true));
    let confirm = PaymentConfirmResponse { success: false, code: Some(1), message: None };
    assert_eq!(confirm_reply(&Ok(confirm)), Reply::Confirm(false));
    assert_eq!(confirm_reply(&Err(CircuitBreakerError::Open)), Reply::BreakerOpen);
    assert_eq!(
        confirm_reply(&Err(CircuitBreakerError::PaymentGatewayError(transport_error()))),
        Reply::Failed
    );
}

#[test]
fn breaker_errors_describe_themselves() {
    assert_eq!(
        CircuitBreakerError::Open.message(),
        "Circuit breaker is open - payment gateway temporarily unavailable"
    );
    let error = transport_error();
    let detail = error.to_string();
    let message = CircuitBreakerError::PaymentGatewayError(error).message();
    assert_eq!(message, format!("Payment gateway error: {}", detail));
    assert!(!detail.is_empty());
}

#[test]
fn calls_pass_through_a_closed_breaker() {
    let mut client = client();
    assert_eq!(client.get_circuit_breaker_status(), (CircuitState::Closed, 0));
    assert!(client.begin_call().is_ok());
    let answer = client.finish_call(Ok(41)).unwrap();
    assert_eq!(answer, 41);
    assert_eq!(client.get_circuit_breaker_status(), (CircuitState::Closed, 0));
    assert!(client.begin_call().is_ok());
    let failed = client.finish_call::<i32>(Err(transport_error()));
    assert!(matches!(failed, Err(CircuitBreakerError::PaymentGatewayError(_))));
    assert_eq!(client.get_circuit_breaker_status(), (CircuitState::Closed, 1));
    client.finish_call(Ok(())).unwrap();
    assert_eq!(client.get_circuit_breaker_status(), (CircuitState::Closed, 0));
    // The client signs as before.
    assert_eq!(client.generate_check_token("pay-1"), sign("pay-1secretshop"));
}

/// What the shell does for `Command::GatewayInit`: the breaker is asked,
/// the call goes out if it may, and the breaker is told how it went.
fn call_gateway(
    client: &mut PaymentGatewayClient,
    reached: &mut u32,
    answer: fn() -> Result<PaymentInitResponse, reqwest::Error>,
) -> Reply {
    match client.begin_call() {
        Err(error) => init_reply(&Err(error)),
        Ok(()) => {
            *reached += 1;
            init_reply(&client.finish_call(answer()))
        }
    }
}

fn initiate(
    client: &mut PaymentGatewayClient,
    reached: &mut u32,
    answer: fn() -> Result<PaymentInitResponse, reqwest::Error>,
) -> Outcome {
    let (machine, command) = InitiatePayment::start(1, 1);
    assert_eq!(command, Command::BookingSummary { booking_id: 1, user_id: 1 });
    let summary = Reply::Summary(Some(Summary { total_minor: 5000, seat_count: 1 }));
    let (machine, command) = machine.next(summary);
    assert_eq!(command, Command::GatewayInit { amount_minor: 5000, seat_count: 1 });
    let (mut machine, mut command) = machine.next(call_gateway(client, reached, answer));
    loop {
        match command {
            Command::Finish(outcome) => return outcome,
            Command::RecordPayment { .. } | Command::SetBookingStatus { .. } => {
                (machine, command) = machine.next(Reply::Rows(1));
            }
            _ => (machine, command) = machine.next(Reply::Done),
        }
    }
}

fn gateway_down() -> Result<PaymentInitResponse, reqwest::Error> {
    Err(transport_error())
}

fn gateway_up() -> Result<PaymentInitResponse, reqwest::Error> {
    Ok(PaymentInitResponse {
        success: true,
        payment_id: Some("pay-1".to_string()),
        payment_url: None,
        expires_at: None,
        code: None,
        message: None,
    })
}

#[test]
fn gateway_outage_opens_breaker() {
    let mut client = client_with(5, 3600);
    let mut reached = 0;
    for n in 1..=5 {
        let outcome = initiate(&mut client, &mut reached, gateway_down);
        assert_eq!(outcome, Outcome::Rejected { status: 502, message: Message::GatewayUnreachable });
        assert_eq!(reached, n);
    }
    assert_eq!(client.get_circuit_breaker_status(), (CircuitState::Open, 5));
    let sixth = initiate(&mut client, &mut reached, gateway_up);
    assert_eq!(sixth, Outcome::Rejected { status: 503, message: Message::GatewayUnavailable });
    assert_eq!(sixth.http_status(), 503);
    assert_eq!(reached, 5);
    assert_eq!(client.get_circuit_breaker_status(), (CircuitState::Open, 5));
}

#[test]
fn breaker_closes_when_the_probe_succeeds() {
    // No timeout: the breaker probes as soon as it is asked.
    let mut client = client_with(5, 0);
    let mut reached = 0;
    for _ in 0..5 {
        initiate(&mut client, &mut reached, gateway_down);
    }
    assert_eq!(client.get_circuit_breaker_status(), (CircuitState::Open, 5));
    let probe = initiate(&mut client, &mut reached, gateway_up);
    assert_eq!(probe, Outcome::PaymentStarted { amount_minor: 5000, seat_count: 1 });
    assert_eq!(reached, 6);
    assert_eq!(client.get_circuit_breaker_status(), (CircuitState::Closed, 0));
}

#[test]
fn breaker_opens_again_when_the_probe_fails() {
    let mut client = client_with(2, 0);
    let mut reached = 0;
    initiate(&mut client, &mut reached, gateway_down);
    initiate(&mut client, &mut reached, gateway_down);
    assert_eq!(client.get_circuit_breaker_status().0, CircuitState::Open);
    let probe = initiate(&mut client, &mut reached, gateway_down);
    assert_eq!(probe, Outcome::Rejected { status: 502, message: Message::GatewayUnreachable });
    assert_eq!(reached, 3);
    assert_eq!(client.get_circuit_breaker_status(), (CircuitState::Open, 3));
}

#[test]
fn client_names_the_life_cycle_handlers() {
    let client = client();
    assert_eq!(client.process_successful_payment(3, 7), Settle::start(SettleKind::Completed, 3, 7));
    assert_eq!(client.process_failed_payment(3, 7), Settle::start(SettleKind::Failed, 3, 7));
    assert_eq!(client.process_successful_payment(3, 7).1, Command::Begin);
    assert_eq!(
        client.process_webhook_notification("CONFIRMED"),
        Webhook::start(GatewayStatus::Confirmed)
    );
    assert_eq!(
        client.process_webhook_notification("nonsense"),
        Webhook::start(GatewayStatus::Unknown)
    );
    assert_eq!(client.process_webhook_notification("NEW").1, Command::FindPaymentBooking);
    let (sweep, command) = client.cleanup_expired_payments(3, 7);
    assert_eq!(command, Command::GatewayCheck);
    assert_eq!(sweep.next(Reply::BreakerOpen).1, Command::Begin);
    assert_eq!(client.clear_redis_reservations(&vec![5, 6]), vec!["seat:5:reserved", "seat:6:reserved"]);
    let unknown = Webhook::start(GatewayStatus::Unknown).0;
    let owner = ticket_system::protocol::Owner { booking_id: 3, event_id: 7 };
    assert_eq!(
        unknown.next(Reply::Owner(Some(owner))).1,
        Command::Finish(Outcome::Settled(Settlement::UnknownStatus))
    );
}
