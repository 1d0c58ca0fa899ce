//! Accounting core of a token-launch bonding-curve exchange.
//!
//! Each market is described by an [`state::Amm`] record keyed by a 32-byte
//! identifier. The record's storage slot and the program's value-custody
//! authority are derived deterministically from that identifier
//! ([`pda::derive_addresses`]). The creation handler
//! ([`create_amm::create_amm`]) initialises a record exactly once per
//! identifier, and the guard layer ([`guard`]) states and enforces the
//! locking and constant-product rules that every later value-moving
//! operation must honour.

pub mod constants;
pub mod create_amm;
pub mod errors;
pub mod guard;
pub mod keys;
pub mod ledger;
pub mod pda;
pub mod state;
