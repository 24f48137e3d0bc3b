//! An escrowed order-matching protocol between a client role and a device
//! role that may live in different trust domains, connected only by a
//! best-effort one-way message channel.
//!
//! The protocol engine runs a small device state machine
//! (ready, busy, accepted, idle) and moves escrowed funds between the two
//! parties according to the order's outcome and its deadline.

pub mod engine;
pub mod ledger;
pub mod types;
pub mod wire;
