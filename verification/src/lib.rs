//! Verified models of the Mux Protocol Soroban contracts.
//!
//! Each contract is a plain-value state machine: its fields are the contract
//! instance's storage, and each entrypoint is a method that takes the
//! invocation context ([`host::Env`]) and returns what the contract returns.
//! A failed invocation leaves the storage unchanged, as the Soroban host
//! rolls a failed invocation back; it publishes no event, but for the
//! batcher's `bat_start` and `bat_abort`, which the host keeps, marked as
//! coming from a failed call.

pub mod host;
pub mod keys;
pub mod table;
pub mod spending_policy;
pub mod recovery;
pub mod account;
pub mod permissions;
pub mod batcher;
pub mod factory;
pub mod delegation;
pub mod registry;
pub mod wallet_registry;
pub mod smart_wallet;
pub mod wallet_factory_stub;
pub mod test_helpers;
