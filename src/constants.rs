use vstd::prelude::*;

verus! {

/// Fixed-point precision of oracle prices and whole tokens (nine decimals).
pub const ORACLE_PRICE_PRECISION: u64 = 1_000_000_000;

/// One hundred percent in basis points.
pub const BPS_PRECISION: u64 = 10_000;

/// Oldest oracle price, in seconds, that a swap accepts.
pub const MAX_ORACLE_AGE_SECONDS: i64 = 300;

/// Smallest liquidity amount considered meaningful.
pub const MINIMUM_LIQUIDITY: u64 = 1_000_000;

/// Default trading fee in basis points.
pub const FEE_BPS: u16 = 30;

/// Largest commission or fee rate accepted, in basis points.
pub const MAX_RATE_BPS: u16 = 2000;

/// Smallest commission rate accepted by the gated update path, in basis points.
pub const MIN_RATE_BPS: u16 = 50;

/// Longest vesting period, one year in seconds.
pub const MAX_VESTING_DURATION_SECONDS: i64 = 31_557_600;

/// Shortest vesting period, one day in seconds.
pub const MIN_VESTING_DURATION_SECONDS: i64 = 86_400;

/// Largest number of items processed in one batch.
pub const MAX_BATCH_SIZE: usize = 100;

/// Number of times an external caller retries a transaction.
pub const RETRY_ATTEMPTS: u32 = 3;

/// Seconds an external caller waits for a transaction.
pub const TRANSACTION_TIMEOUT_SECONDS: u64 = 30;

/// Seconds that must pass between two gated commission-rate changes.
pub const RATE_UPDATE_INTERVAL_SECONDS: i64 = 86_400;

} // verus!
