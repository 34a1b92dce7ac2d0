//! The engine of a ticket service: who gets which seat, how a booking is
//! paid, and how what was left half done is cleared away.
//!
//! The engine performs no I/O. Every operation is a machine
//! ([`machine::Machine`]) that hands out one [`protocol::Command`] at a time
//! for the program around it to perform against the durable store, the key
//! store and the payment gateway, and that decides on the reply what comes
//! next. [`world`] says in a model what the commands mean; [`laws`] and
//! [`contest`] prove over that model what the engine guarantees: that a
//! seat goes to one contender at most, that seats move only along their
//! life cycle unless an admin resets them, that cancelling undoes
//! selecting, that sold seats belong to paid bookings, that a repeated
//! notification changes nothing, that a payment that ran out of time is
//! swept in one go, and that a transaction of which a statement fails
//! leaves everything as it was.

use vstd::prelude::*;

pub mod auth;
pub mod bookings;
pub mod breaker;
pub mod cache;
pub mod cleanup;
pub mod config;
pub mod contest;
pub mod gateway;
pub mod keys;
pub mod laws;
pub mod listing;
pub mod machine;
pub mod money;
pub mod payments;
pub mod protocol;
pub mod reset;
pub mod search;
pub mod seats;
pub mod settle;
pub mod status;
pub mod text;
pub mod webhook;
pub mod world;

verus! {

/// What every part of the service shares. The handles to the durable store
/// and the key store belong to the program that embeds the engine; the
/// engine's share is the settings.
#[derive(Debug, Clone)]
pub struct AppState {
    pub config: config::Config,
}

} // verus!
