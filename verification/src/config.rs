//! Settings of the service. They are plain values; reading them from the
//! process environment is left to the program that embeds the engine.

use vstd::prelude::*;

verus! {

/// All settings.
#[derive(Debug, Clone)]
pub struct Config {
    pub app: AppConfig,
    pub database: DatabaseConfig,
    pub redis: RedisConfig,
    pub payment: PaymentConfig,
    pub circuit_breaker: CircuitBreakerConfig,
}

/// Where the service listens and how it logs.
#[derive(Debug, Clone)]
pub struct AppConfig {
    pub host: String,
    pub port: u16,
    pub environment: String,
    pub rust_log: String,
}

/// The durable store.
#[derive(Debug, Clone)]
pub struct DatabaseConfig {
    pub url: String,
    pub user: String,
    pub password: String,
    pub db: String,
    pub pool_size: u32,
}

/// The key store.
#[derive(Debug, Clone)]
pub struct RedisConfig {
    pub url: String,
    pub pool_size: u32,
}

/// Signed session tokens.
#[derive(Debug, Clone)]
pub struct JwtConfig {
    pub secret: String,
    pub expires_in_hours: i64,
}

/// The payment gateway and the addresses it sends payers and notifications to.
#[derive(Debug, Clone)]
pub struct PaymentConfig {
    pub merchant_id: String,
    pub merchant_password: String,
    pub gateway_url: String,
    pub success_url: String,
    pub fail_url: String,
    pub webhook_url: String,
}

/// The circuit breaker in front of the payment gateway.
#[derive(Debug, Clone, Copy)]
pub struct CircuitBreakerConfig {
    pub failure_threshold: u32,
    pub timeout_seconds: u64,
}

/// Failures in a row that open the breaker, unless configured otherwise.
pub const DEFAULT_FAILURE_THRESHOLD: u32 = 5;

/// Seconds an open breaker waits before a probe, unless configured otherwise.
pub const DEFAULT_BREAKER_TIMEOUT_SECONDS: u64 = 60;

impl Default for CircuitBreakerConfig {
    fn default() -> (config: CircuitBreakerConfig)
        ensures
            config.failure_threshold == DEFAULT_FAILURE_THRESHOLD,
            config.timeout_seconds == DEFAULT_BREAKER_TIMEOUT_SECONDS,
    {
        CircuitBreakerConfig {
            failure_threshold: DEFAULT_FAILURE_THRESHOLD,
            timeout_seconds: DEFAULT_BREAKER_TIMEOUT_SECONDS,
        }
    }
}

} // verus!
