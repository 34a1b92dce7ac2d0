//! The client side of the payment gateway: request signing, the requests
//! themselves, what its answers mean, and the circuit breaker around every
//! call. Sending a request is left to the shell; this module says what is
//! sent and what follows from the answer.

use vstd::prelude::*;
use vstd::string::*;
use vstd::utf8::encode_utf8;
use sha2::{Digest, Sha256};
use crate::breaker::{BreakerView, CircuitBreaker, CircuitState};
use crate::cleanup::ExpiredPayment;
use crate::config::{CircuitBreakerConfig, PaymentConfig};
use crate::keys::{seat_lock_keys, spec_seat_lock_keys};
use crate::protocol::{
    CheckDigest, Command, InitDigest, Reply, HTTP_BAD_GATEWAY, HTTP_BAD_REQUEST, HTTP_CONFLICT,
    HTTP_PAYMENT_REQUIRED, HTTP_TOO_MANY_REQUESTS, HTTP_UNAUTHORIZED,
};
use crate::settle::{Settle, SettleKind};
use crate::status::GatewayStatus;
use crate::text::{decimal, hex_of, lemma_hex_len, push_decimal, to_hex};
use crate::webhook::Webhook;

verus! {

/// The SHA-256 digest of a sequence of bytes.
pub uninterp spec fn sha256(data: Seq<u8>) -> Seq<u8>;

/// The bytes of a SHA-256 digest.
pub const DIGEST_BYTES: usize = 32;

/// The characters of a token: two for each byte of the digest.
pub const TOKEN_CHARS: usize = 64;

/// `Digest::digest` of `Sha256` of the crate sha2: the SHA-256 digest of
/// `data`, which depends on `data` alone and has 32 bytes.
#[verifier::external_body]
fn sha256_digest(data: &[u8]) -> (digest: Vec<u8>)
    ensures
        digest@ == sha256(data@),
        digest@.len() == DIGEST_BYTES,
{
    Sha256::digest(data).to_vec()
}

/// An error of the HTTP client. It is carried through as it is.
#[verifier::external_type_specification]
#[verifier::external_body]
pub struct ExTransportError(reqwest::Error);

/// `Display` of `reqwest::Error`: the client's own description of what went
/// wrong. Nothing is claimed of the text.
#[verifier::external_body]
fn transport_error_text(error: &reqwest::Error) -> String {
    error.to_string()
}

/// Why a call to the gateway gave no answer.
#[derive(Debug)]
pub enum CircuitBreakerError {
    /// The breaker is open: the call was not made.
    Open,
    /// The call was made and failed on the way.
    PaymentGatewayError(reqwest::Error),
}

impl CircuitBreakerError {
    /// A description for logs and callers.
    pub fn message(&self) -> (text: String)
        ensures
            self is Open ==> text@
                == "Circuit breaker is open - payment gateway temporarily unavailable"@,
            self is PaymentGatewayError ==> text@.subrange(0, "Payment gateway error: "@.len() as int)
                == "Payment gateway error: "@,
    {
        match self {
            CircuitBreakerError::Open => String::from_str(
                "Circuit breaker is open - payment gateway temporarily unavailable",
            ),
            CircuitBreakerError::PaymentGatewayError(error) => {
                let mut text = String::from_str("Payment gateway error: ");
                let detail = transport_error_text(error);
                text.append(detail.as_str());
                assert(text@.subrange(0, "Payment gateway error: "@.len() as int)
                    =~= "Payment gateway error: "@);
                text
            },
        }
    }
}

/// Seconds a call to the gateway may take before it counts as failed.
pub const GATEWAY_TIMEOUT_SECONDS: u64 = 30;

/// The currency every payment is made in.
pub open spec fn spec_currency() -> Seq<char> {
    "KZT"@
}

/// The language of the payment page.
pub open spec fn spec_language() -> Seq<char> {
    "ru"@
}

/// The currency every payment is made in.
pub fn currency() -> (code: &'static str)
    ensures
        code@ == spec_currency(),
{
    "KZT"
}

/// The text that is signed for a request to open or to capture a payment:
/// amount, currency, order id, password and merchant, one after the other.
pub open spec fn init_signing_text(
    amount: i64,
    currency: Seq<char>,
    order_id: Seq<char>,
    password: Seq<char>,
    team_slug: Seq<char>,
) -> Seq<char> {
    decimal(amount as int) + currency + order_id + password + team_slug
}

/// The text that is signed for a request for the state of a payment:
/// payment id, password and merchant.
pub open spec fn check_signing_text(
    payment_id: Seq<char>,
    password: Seq<char>,
    team_slug: Seq<char>,
) -> Seq<char> {
    payment_id + password + team_slug
}

/// The token for a text: the SHA-256 digest of its UTF-8 bytes, in
/// lower-case hexadecimal.
pub open spec fn token_of(text: Seq<char>) -> Seq<char> {
    hex_of(sha256(encode_utf8(text)))
}

/// Signs a text. A token has 64 characters.
pub fn sign(text: &str) -> (token: String)
    ensures
        token@ == token_of(text@),
        token@.len() == TOKEN_CHARS,
{
    let digest = sha256_digest(text.as_bytes());
    proof {
        lemma_hex_len(digest@);
    }
    to_hex(&digest)
}

/// The HTTP status for an error code with which the gateway refused to open
/// a payment.
pub open spec fn spec_gateway_error_status(code: i32) -> u16 {
    if code == 1001 {
        HTTP_UNAUTHORIZED
    } else if code == 1002 {
        HTTP_CONFLICT
    } else if code == 1004 {
        HTTP_PAYMENT_REQUIRED
    } else if code == 1006 {
        HTTP_BAD_REQUEST
    } else if code == 3015 {
        HTTP_TOO_MANY_REQUESTS
    } else {
        HTTP_BAD_GATEWAY
    }
}

/// The code that stands for an error the gateway gave no code for.
pub const UNKNOWN_GATEWAY_CODE: i32 = 9999;

/// The HTTP status for an error code with which the gateway refused to open a payment.
pub fn gateway_error_status(code: i32) -> (status: u16)
    ensures
        status == spec_gateway_error_status(code),
{
    if code == 1001 {
        HTTP_UNAUTHORIZED
    } else if code == 1002 {
        HTTP_CONFLICT
    } else if code == 1004 {
        HTTP_PAYMENT_REQUIRED
    } else if code == 1006 {
        HTTP_BAD_REQUEST
    } else if code == 3015 {
        HTTP_TOO_MANY_REQUESTS
    } else {
        HTTP_BAD_GATEWAY
    }
}

/// A request to open a payment.
#[derive(Debug, Clone)]
pub struct PaymentInitRequest {
    pub team_slug: String,
    pub token: String,
    pub amount: i64,
    pub order_id: String,
    pub currency: String,
    pub description: String,
    pub success_url: String,
    pub fail_url: String,
    pub notification_url: String,
    pub email: Option<String>,
    pub language: String,
}

/// The gateway's answer to a request to open a payment.
#[derive(Debug, Clone)]
pub struct PaymentInitResponse {
    pub success: bool,
    pub payment_id: Option<String>,
    pub payment_url: Option<String>,
    pub expires_at: Option<String>,
    pub code: Option<i32>,
    pub message: Option<String>,
}

/// A request for the state of a payment.
#[derive(Debug, Clone)]
pub struct PaymentCheckRequest {
    pub team_slug: String,
    pub token: String,
    pub payment_id: String,
}

/// The gateway's answer to a request for the state of a payment.
#[derive(Debug, Clone)]
pub struct PaymentCheckResponse {
    pub success: bool,
    pub status: Option<String>,
    pub payment_id: Option<String>,
    pub amount: Option<i64>,
    pub currency: Option<String>,
    pub order_id: Option<String>,
    pub code: Option<i32>,
    pub message: Option<String>,
}

/// A request to capture an authorized payment.
#[derive(Debug, Clone)]
pub struct PaymentConfirmRequest {
    pub team_slug: String,
    pub token: String,
    pub payment_id: String,
    pub amount: i64,
    pub currency: String,
    pub order_id: String,
}

/// The gateway's answer to a request to capture a payment.
#[derive(Debug, Clone)]
pub struct PaymentConfirmResponse {
    pub success: bool,
    pub code: Option<i32>,
    pub message: Option<String>,
}

impl PaymentInitResponse {
    /// What the answer means for the operation that asked.
    pub open spec fn spec_digest(&self) -> InitDigest {
        InitDigest {
            success: self.success,
            code: self.code,
            has_payment_id: self.payment_id is Some,
        }
    }

    /// What the answer means for the operation that asked.
    pub fn digest(&self) -> (d: InitDigest)
        ensures
            d == self.spec_digest(),
    {
        InitDigest {
            success: self.success,
            code: self.code,
            has_payment_id: self.payment_id.is_some(),
        }
    }
}

impl PaymentCheckResponse {
    /// What the answer means for the operation that asked.
    pub open spec fn spec_digest(&self) -> CheckDigest {
        CheckDigest {
            success: self.success,
            status: match self.status {
                Some(text) => Some(GatewayStatus::spec_parse(text@)),
                None => None,
            },
            confirmable: self.amount is Some && self.currency is Some && self.order_id is Some,
        }
    }

    /// What the answer means for the operation that asked.
    pub fn digest(&self) -> (d: CheckDigest)
        ensures
            d == self.spec_digest(),
    {
        let status = match &self.status {
            Some(text) => Some(GatewayStatus::parse(text.as_str())),
            None => None,
        };
        CheckDigest {
            success: self.success,
            status,
            confirmable: self.amount.is_some() && self.currency.is_some() && self.order_id.is_some(),
        }
    }
}

/// The reply that stands for the outcome of a request to open a payment.
pub open spec fn spec_init_reply(outcome: Result<PaymentInitResponse, CircuitBreakerError>) -> Reply {
    match outcome {
        Ok(response) => Reply::Init(response.spec_digest()),
        Err(CircuitBreakerError::Open) => Reply::BreakerOpen,
        Err(CircuitBreakerError::PaymentGatewayError(_)) => Reply::Failed,
    }
}

/// The reply that stands for the outcome of a request for a payment's state.
pub open spec fn spec_check_reply(outcome: Result<PaymentCheckResponse, CircuitBreakerError>) -> Reply {
    match outcome {
        Ok(response) => Reply::Check(response.spec_digest()),
        Err(CircuitBreakerError::Open) => Reply::BreakerOpen,
        Err(CircuitBreakerError::PaymentGatewayError(_)) => Reply::Failed,
    }
}

/// The reply that stands for the outcome of a request to capture a payment.
pub open spec fn spec_confirm_reply(
    outcome: Result<PaymentConfirmResponse, CircuitBreakerError>,
) -> Reply {
    match outcome {
        Ok(response) => Reply::Confirm(response.success),
        Err(CircuitBreakerError::Open) => Reply::BreakerOpen,
        Err(CircuitBreakerError::PaymentGatewayError(_)) => Reply::Failed,
    }
}

/// The reply that stands for the outcome of a request to open a payment.
pub fn init_reply(outcome: &Result<PaymentInitResponse, CircuitBreakerError>) -> (reply: Reply)
    ensures
        reply == spec_init_reply(*outcome),
{
    match outcome {
        Ok(response) => Reply::Init(response.digest()),
        Err(CircuitBreakerError::Open) => Reply::BreakerOpen,
        Err(CircuitBreakerError::PaymentGatewayError(_)) => Reply::Failed,
    }
}

/// The reply that stands for the outcome of a request for a payment's state.
pub fn check_reply(outcome: &Result<PaymentCheckResponse, CircuitBreakerError>) -> (reply: Reply)
    ensures
        reply == spec_check_reply(*outcome),
{
    match outcome {
        Ok(response) => Reply::Check(response.digest()),
        Err(CircuitBreakerError::Open) => Reply::BreakerOpen,
        Err(CircuitBreakerError::PaymentGatewayError(_)) => Reply::Failed,
    }
}

/// The reply that stands for the outcome of a request to capture a payment.
pub fn confirm_reply(outcome: &Result<PaymentConfirmResponse, CircuitBreakerError>) -> (reply: Reply)
    ensures
        reply == spec_confirm_reply(*outcome),
{
    match outcome {
        Ok(response) => Reply::Confirm(response.success),
        Err(CircuitBreakerError::Open) => Reply::BreakerOpen,
        Err(CircuitBreakerError::PaymentGatewayError(_)) => Reply::Failed,
    }
}

/// The client of one payment gateway, with the circuit breaker that guards
/// it.
#[derive(Debug)]
pub struct PaymentGatewayClient {
    team_slug: String,
    password: String,
    base_url: String,
    circuit_breaker: CircuitBreaker,
}

impl PaymentGatewayClient {
    /// The merchant the client signs for.
    pub closed spec fn team_slug(&self) -> Seq<char> {
        self.team_slug@
    }

    /// The secret the client signs with.
    pub closed spec fn password(&self) -> Seq<char> {
        self.password@
    }

    /// The address of the gateway.
    pub closed spec fn base_url(&self) -> Seq<char> {
        self.base_url@
    }

    /// The circuit breaker of the client.
    pub closed spec fn breaker(&self) -> BreakerView {
        self.circuit_breaker@
    }

    /// Whether two clients differ in nothing but the state of their breaker.
    pub open spec fn same_identity(&self, other: &PaymentGatewayClient) -> bool {
        &&& self.team_slug() == other.team_slug()
        &&& self.password() == other.password()
        &&& self.base_url() == other.base_url()
    }

    /// A client for the configured gateway, behind a closed breaker.
    pub fn from_config(config: &PaymentConfig, breaker: &CircuitBreakerConfig) -> (client:
        PaymentGatewayClient)
        ensures
            client.team_slug() == config.merchant_id@,
            client.password() == config.merchant_password@,
            client.base_url() == config.gateway_url@,
            client.breaker() == (BreakerView {
                state: CircuitState::Closed,
                failure_count: 0,
                last_failure_time: 0,
                failure_threshold: breaker.failure_threshold,
                timeout_seconds: breaker.timeout_seconds,
            }),
    {
        PaymentGatewayClient {
            team_slug: config.merchant_id.clone(),
            password: config.merchant_password.clone(),
            base_url: config.gateway_url.clone(),
            circuit_breaker: CircuitBreaker::new(breaker.failure_threshold, breaker.timeout_seconds),
        }
    }

    /// The token for a request to open or to capture a payment.
    pub fn generate_init_token(&self, amount: i64, currency: &str, order_id: &str) -> (token: String)
        ensures
            token@ == token_of(
                init_signing_text(amount, currency@, order_id@, self.password(), self.team_slug()),
            ),
            token@.len() == TOKEN_CHARS,
    {
        let mut text = String::new();
        push_decimal(&mut text, amount);
        text.append(currency);
        text.append(order_id);
        text.append(self.password.as_str());
        text.append(self.team_slug.as_str());
        assert(text@ =~= init_signing_text(
            amount,
            currency@,
            order_id@,
            self.password(),
            self.team_slug(),
        ));
        sign(text.as_str())
    }

    /// The token for a request for the state of a payment.
    pub fn generate_check_token(&self, payment_id: &str) -> (token: String)
        ensures
            token@ == token_of(check_signing_text(payment_id@, self.password(), self.team_slug())),
            token@.len() == TOKEN_CHARS,
    {
        let mut text = String::new();
        text.append(payment_id);
        text.append(self.password.as_str());
        text.append(self.team_slug.as_str());
        assert(text@ =~= check_signing_text(payment_id@, self.password(), self.team_slug()));
        sign(text.as_str())
    }

    /// The address of one of the gateway's operations.
    fn endpoint(&self, path: &str) -> (url: String)
        ensures
            url@ == self.base_url() + path@,
    {
        let mut url = self.base_url.clone();
        url.append(path);
        url
    }

    /// Where requests to open a payment go.
    pub fn init_url(&self) -> (url: String)
        ensures
            url@ == self.base_url() + "/api/v1/PaymentInit/init"@,
    {
        self.endpoint("/api/v1/PaymentInit/init")
    }

    /// Where requests for the state of a payment go.
    pub fn check_url(&self) -> (url: String)
        ensures
            url@ == self.base_url() + "/api/v1/PaymentCheck/check"@,
    {
        self.endpoint("/api/v1/PaymentCheck/check")
    }

    /// Where requests to capture a payment go.
    pub fn confirm_url(&self) -> (url: String)
        ensures
            url@ == self.base_url() + "/api/v1/PaymentConfirm/confirm"@,
    {
        self.endpoint("/api/v1/PaymentConfirm/confirm")
    }

    /// The request that opens a payment of `amount` minor units in the one
    /// currency, signed, with a payment page in the one language.
    pub fn create_payment(
        &self,
        amount: i64,
        order_id: String,
        description: String,
        email: Option<String>,
        success_url: String,
        fail_url: String,
        webhook_url: String,
    ) -> (request: PaymentInitRequest)
        ensures
            request.team_slug@ == self.team_slug(),
            request.token@ == token_of(
                init_signing_text(amount, spec_currency(), order_id@, self.password(), self.team_slug()),
            ),
            request.amount == amount,
            request.order_id == order_id,
            request.currency@ == spec_currency(),
            request.description == description,
            request.success_url == success_url,
            request.fail_url == fail_url,
            request.notification_url == webhook_url,
            request.email == email,
            request.language@ == spec_language(),
    {
        let token = self.generate_init_token(amount, currency(), order_id.as_str());
        PaymentInitRequest {
            team_slug: self.team_slug.clone(),
            token,
            amount,
            order_id,
            currency: String::from_str(currency()),
            description,
            success_url,
            fail_url,
            notification_url: webhook_url,
            email,
            language: String::from_str("ru"),
        }
    }

    /// The signed request for the state of a payment.
    pub fn check_payment_status(&self, payment_id: &str) -> (request: PaymentCheckRequest)
        ensures
            request.team_slug@ == self.team_slug(),
            request.token@ == token_of(
                check_signing_text(payment_id@, self.password(), self.team_slug()),
            ),
            request.payment_id@ == payment_id@,
    {
        PaymentCheckRequest {
            team_slug: self.team_slug.clone(),
            token: self.generate_check_token(payment_id),
            payment_id: String::from_str(payment_id),
        }
    }

    /// The signed request that captures an authorized payment.
    pub fn confirm_payment(&self, payment_id: &str, amount: i64, currency: &str, order_id: &str) -> (request:
        PaymentConfirmRequest)
        ensures
            request.team_slug@ == self.team_slug(),
            request.token@ == token_of(
                init_signing_text(amount, currency@, order_id@, self.password(), self.team_slug()),
            ),
            request.payment_id@ == payment_id@,
            request.amount == amount,
            request.currency@ == currency@,
            request.order_id@ == order_id@,
    {
        PaymentConfirmRequest {
            team_slug: self.team_slug.clone(),
            token: self.generate_init_token(amount, currency, order_id),
            payment_id: String::from_str(payment_id),
            amount,
            currency: String::from_str(currency),
            order_id: String::from_str(order_id),
        }
    }

    /// The request that captures a payment with the amount, currency and
    /// order id that a check reported; none if the check left one of them
    /// out.
    pub fn confirm_checked(&self, payment_id: &str, check: &PaymentCheckResponse) -> (request: Option<
        PaymentConfirmRequest,
    >)
        ensures
            request is Some <==> check.spec_digest().confirmable,
            request is Some ==> {
                let r = request->0;
                &&& r.team_slug@ == self.team_slug()
                &&& r.token@ == token_of(
                    init_signing_text(
                        check.amount->0,
                        check.currency->0@,
                        check.order_id->0@,
                        self.password(),
                        self.team_slug(),
                    ),
                )
                &&& r.payment_id@ == payment_id@
                &&& r.amount == check.amount->0
                &&& r.currency@ == check.currency->0@
                &&& r.order_id@ == check.order_id->0@
            },
    {
        match (&check.amount, &check.currency, &check.order_id) {
            (Some(amount), Some(currency), Some(order_id)) => Some(
                self.confirm_payment(payment_id, *amount, currency.as_str(), order_id.as_str()),
            ),
            _ => None,
        }
    }

    /// Asks the breaker whether a call may go out now. An open breaker
    /// whose timeout has passed lets it through as a probe.
    pub fn begin_call(&mut self) -> (admitted: Result<(), CircuitBreakerError>)
        ensures
            final(self).same_identity(old(self)),
            exists|now: u64|
                (admitted is Ok) == old(self).breaker().admits(now) && final(self).breaker() == old(
                    self,
                ).breaker().after_attempt(now),
            admitted is Err ==> admitted->Err_0 is Open,
    {
        if self.circuit_breaker.can_execute() {
            Ok(())
        } else {
            Err(CircuitBreakerError::Open)
        }
    }

    /// Tells the breaker how a call that went out has ended and hands the
    /// answer on: a success is recorded for an answer, a failure for a
    /// transport error.
    pub fn finish_call<T>(&mut self, outcome: Result<T, reqwest::Error>) -> (result: Result<
        T,
        CircuitBreakerError,
    >)
        ensures
            final(self).same_identity(old(self)),
            match outcome {
                Ok(answer) => result == Ok::<T, CircuitBreakerError>(answer) && final(self).breaker()
                    == old(self).breaker().after_success(),
                Err(error) => result == Err::<T, CircuitBreakerError>(
                    CircuitBreakerError::PaymentGatewayError(error),
                ) && exists|now: u64|
                    final(self).breaker() == old(self).breaker().after_failure(now),
            },
    {
        match outcome {
            Ok(answer) => {
                self.circuit_breaker.record_success();
                Ok(answer)
            },
            Err(error) => {
                self.circuit_breaker.record_failure();
                Err(CircuitBreakerError::PaymentGatewayError(error))
            },
        }
    }

    /// Begins to settle a payment that went through: payment completed,
    /// booking paid, the reserved seats of the booking sold; then the locks
    /// of those seats and the cached seat list of the event are deleted.
    pub fn process_successful_payment(&self, booking_id: i64, event_id: i64) -> (step: (Settle, Command))
        ensures
            step == Settle::spec_start(SettleKind::Completed, booking_id, event_id),
    {
        Settle::start(SettleKind::Completed, booking_id, event_id)
    }

    /// Begins to settle a payment that failed: payment failed, the
    /// reserved seats of the booking freed, the booking deleted; then the
    /// same cleanup.
    pub fn process_failed_payment(&self, booking_id: i64, event_id: i64) -> (step: (Settle, Command))
        ensures
            step == Settle::spec_start(SettleKind::Failed, booking_id, event_id),
    {
        Settle::start(SettleKind::Failed, booking_id, event_id)
    }

    /// Begins to handle a notification with the status text the gateway
    /// sent.
    pub fn process_webhook_notification(&self, status: &str) -> (step: (Webhook, Command))
        ensures
            step == Webhook::spec_start(GatewayStatus::spec_parse(status@)),
    {
        Webhook::start(GatewayStatus::parse(status))
    }

    /// Begins to sweep one payment that was pending for too long: the
    /// gateway is asked one last time before the payment is given up.
    pub fn cleanup_expired_payments(&self, booking_id: i64, event_id: i64) -> (step: (
        ExpiredPayment,
        Command,
    ))
        ensures
            step == ExpiredPayment::spec_start(booking_id, event_id),
    {
        ExpiredPayment::start(booking_id, event_id)
    }

    /// The lock keys to delete for seats that were freed or sold.
    pub fn clear_redis_reservations(&self, seat_ids: &Vec<i64>) -> (keys: Vec<String>)
        ensures
            keys.deep_view() == spec_seat_lock_keys(seat_ids@),
    {
        seat_lock_keys(seat_ids)
    }

    /// The state of the breaker and the failures it has counted.
    pub fn get_circuit_breaker_status(&self) -> (status: (CircuitState, u32))
        ensures
            status.0 == self.breaker().state,
            status.1 == self.breaker().failure_count,
    {
        (self.circuit_breaker.get_state(), self.circuit_breaker.failure_count())
    }
}

} // verus!
