//! Token-launch platform ledgers: a bonding-curve sale with vesting and
//! anti-bot gating, a tiered affiliate commission engine, and an
//! oracle-priced exchange pool with volatility-based fees.
//!
//! Every operation takes the current time and the signer as plain values,
//! validates before it mutates, and reports the token and lamport movements
//! it requires to the caller, which performs them.

pub mod address;
pub mod advisor;
pub mod affiliate;
pub mod basic_pool;
pub mod constants;
pub mod dex;
pub mod launch;
pub mod utils;
