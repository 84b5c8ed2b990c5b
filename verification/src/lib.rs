//! Reservation-locked purchase pipeline.
//!
//! Turns a "buy this ticket" command into a payment-gateway intent while
//! guaranteeing that a sellable resource (a seat or a resale listing) is never
//! sold to two buyers concurrently. The library holds the decision logic of
//! the pipeline — distributed-lock discipline, the idempotency guard, price
//! and fee computation, the ledger-reservation policy and the retry policy —
//! over plain values; the surrounding I/O (broker, cache, ledger RPC, gateway
//! client) lives outside and drives the state machine defined here.

pub mod checks;
pub mod config;
pub mod coordinator;
pub mod decimal;
pub mod errors;
pub mod gateway;
pub mod messages;
pub mod price;
pub mod reservation;
pub mod retry;
