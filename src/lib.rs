//! A bonding-curve token launch and trading engine.
//!
//! Every token is paired with a constant-product pool seeded with real and
//! virtual reserves. Trades run against the pool until its real quote reserve
//! reaches the graduation threshold; the pool is then frozen and its owner
//! withdraws what it holds. Everything here is a pure state transition: the
//! caller supplies the clock, balances and identities, and performs the value
//! transfers that each operation reports.

pub mod address;
pub mod attestation;
pub mod constants;
pub mod error;
pub mod main_state;
pub mod pool;
pub mod user;
pub mod utils;
