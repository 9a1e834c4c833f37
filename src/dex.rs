use vstd::prelude::*;

use crate::address::{lemma_address_ext, Address};
use crate::constants::{BPS_PRECISION, MAX_ORACLE_AGE_SECONDS, ORACLE_PRICE_PRECISION};

verus! {

/// Errors of the exchange pool.
#[derive(Debug, Clone, Copy, PartialEq, Eq, Structural)]
pub enum BarterError {
    SlippageExceeded,
    InsufficientLiquidity,
    Overflow,
    Underflow,
    InvalidMint,
    InvalidOracleAuthority,
    OraclePriceStale,
    PythPriceFeedNotFound,
    SwitchboardFeedNotFound,
    AIOracleProgramNotFound,
    OraclePriceFetchFailed,
    OraclePriceConfidenceTooHigh,
    NoValidPriceSources,
    DynamicFeeCalculationFailed,
    FeeExceedsMaximum,
    InvalidVolatilityCalculation,
    PoolPaused,
    InsufficientTokenLiquidity,
    InvalidPoolConfiguration,
    PriceHistoryNotAvailable,
}

/// Where a pool's prices come from.
#[derive(Debug, Clone, Copy, PartialEq, Eq, Structural)]
pub enum OracleProvider {
    Pyth,
    Switchboard,
    AIOracle,
    Hybrid,
}

/// Number of slots of the price history ring buffer.
pub const PRICE_HISTORY_LEN: usize = 24;

/// Record of one oracle-priced pool of the pair (`mint_a`, `mint_b`). Prices are the
/// value of one unit of A in units of B, scaled by 10^9.
#[derive(Debug, Clone, Copy)]
pub struct LiquidityPool {
    pub mint_a: Address,
    pub mint_b: Address,
    pub oracle_authority: Address,
    pub oracle_provider: OracleProvider,
    pub pyth_price_feed_a: Option<Address>,
    pub pyth_price_feed_b: Option<Address>,
    pub switchboard_feed: Option<Address>,
    pub ai_oracle_program: Option<Address>,
    pub oracle_price: u64,
    pub last_oracle_update: i64,
    pub price_confidence: u64,
    pub pyth_price: Option<u64>,
    pub switchboard_price: Option<u64>,
    pub ai_price: Option<u64>,
    pub price_history: [u64; 24],
    pub history_index: u8,
    pub total_liquidity_a: u64,
    pub total_liquidity_b: u64,
    pub fee_bps: u16,
    pub dynamic_fee_enabled: bool,
    pub volatility_threshold: u64,
    pub last_volatility_update: i64,
    pub vault_a_bump: u8,
    pub vault_b_bump: u8,
}

/// Weighted contribution `price * weight` of a source, zero when absent.
pub open spec fn weighted_term(price: Option<u64>, weight: int) -> int {
    match price {
        Some(p) => p * weight,
        None => 0,
    }
}

/// Weight of a source when present, zero when absent.
pub open spec fn weight_of(price: Option<u64>, weight: int) -> int {
    if price is Some {
        weight
    } else {
        0
    }
}

/// Weighted mean of the present sources with weights 40 (Pyth), 35 (Switchboard) and
/// 25 (AI), rounded down; the last stored price when no source is present.
pub open spec fn weighted_price_of(pool: LiquidityPool) -> int {
    let total_weight = weight_of(pool.pyth_price, 40) + weight_of(pool.switchboard_price, 35)
        + weight_of(pool.ai_price, 25);
    let sum = weighted_term(pool.pyth_price, 40) + weighted_term(pool.switchboard_price, 35)
        + weighted_term(pool.ai_price, 25);
    if total_weight == 0 {
        pool.oracle_price as int
    } else {
        sum / total_weight
    }
}

/// Sum of the entries of `s`.
pub open spec fn seq_sum(s: Seq<u64>) -> int
    decreases s.len(),
{
    if s.len() == 0 {
        0
    } else {
        seq_sum(s.drop_last()) + s.last()
    }
}

/// Sum of the squared distances of the entries of `s` from `m`.
pub open spec fn squared_deviation_sum(s: Seq<u64>, m: int) -> int
    decreases s.len(),
{
    if s.len() == 0 {
        0
    } else {
        squared_deviation_sum(s.drop_last(), m) + (s.last() - m) * (s.last() - m)
    }
}

/// Population variance of `s` with the mean and the result rounded down.
pub open spec fn variance_of(s: Seq<u64>) -> int {
    let m = seq_sum(s) / (s.len() as int);
    squared_deviation_sum(s, m) / (s.len() as int)
}

/// `r` is the square root of `n` rounded down.
pub open spec fn is_floor_sqrt(n: int, r: int) -> bool {
    0 <= r && r * r <= n < (r + 1) * (r + 1)
}

/// Square root of `n`, rounded down.
pub open spec fn floor_sqrt(n: int) -> int {
    choose|r: int| #[trigger] is_floor_sqrt(n, r)
}

/// Prices recorded since the history cursor last wrapped.
pub open spec fn recorded_prices(pool: LiquidityPool) -> Seq<u64> {
    pool.price_history@.subrange(0, pool.history_index as int)
}

/// Standard deviation of the recorded prices times 10^9, rounded down and capped at
/// `u64::MAX`; zero with fewer than two recorded prices.
pub open spec fn volatility_of(pool: LiquidityPool) -> int {
    let s = recorded_prices(pool);
    if s.len() < 2 {
        0
    } else {
        let scaled = variance_of(s) * 1_000_000_000_000_000_000;
        if scaled > u128::MAX {
            u64::MAX as int
        } else {
            floor_sqrt(scaled)
        }
    }
}

/// Fee in basis points for a base fee, toggle, volatility and threshold: the base fee when
/// disabled; otherwise the base fee times `min(5, volatility / threshold)` when volatility
/// exceeds the threshold (times one if not), capped at 1000. `None` when volatility
/// exceeds a zero threshold.
pub open spec fn dynamic_fee_for(base: u16, enabled: bool, volatility: int, threshold: u64) -> Option<int> {
    if !enabled {
        Some(base as int)
    } else {
        let multiplier: Option<int> = if volatility <= threshold {
            Some(1)
        } else if threshold == 0 {
            None
        } else if volatility / (threshold as int) < 5 {
            Some(volatility / (threshold as int))
        } else {
            Some(5)
        };
        match multiplier {
            None => None,
            Some(k) => Some(if base * k < 1000 {
                base * k
            } else {
                1000
            }),
        }
    }
}

/// The pool's current fee, as `dynamic_fee_for` states.
pub open spec fn dynamic_fee_of(pool: LiquidityPool) -> Option<int> {
    dynamic_fee_for(
        pool.fee_bps,
        pool.dynamic_fee_enabled,
        volatility_of(pool),
        pool.volatility_threshold,
    )
}

proof fn lemma_sqrt_unique(n: int, r: int, s: int)
    requires
        0 <= r,
        r * r <= n < (r + 1) * (r + 1),
        0 <= s,
        s * s <= n < (s + 1) * (s + 1),
    ensures
        r == s,
{
    if r < s {
        assert((r + 1) * (r + 1) <= s * s) by (nonlinear_arith)
            requires
                0 <= r < s,
        ;
    } else if s < r {
        assert((s + 1) * (s + 1) <= r * r) by (nonlinear_arith)
            requires
                0 <= s < r,
        ;
    }
}

/// Square root of `n` rounded down, by bisection.
fn isqrt_u128(n: u128) -> (r: u64)
    ensures
        r == floor_sqrt(n as int),
{
    let mut lo: u128 = 0;
    let mut hi: u128 = 0x1_0000_0000_0000_0000;
    proof {
        assert(hi * hi > u128::MAX) by (nonlinear_arith)
            requires
                hi == 0x1_0000_0000_0000_0000,
        ;
    }
    while hi - lo > 1
        invariant
            lo < hi <= 0x1_0000_0000_0000_0000,
            lo * lo <= n,
            n < hi * hi,
        decreases hi - lo,
    {
        let mid: u128 = lo + (hi - lo) / 2;
        proof {
            assert(mid * mid < 0x1_0000_0000_0000_0000 * 0x1_0000_0000_0000_0000) by (nonlinear_arith)
                requires
                    mid < 0x1_0000_0000_0000_0000,
            ;
        }
        if mid * mid <= n {
            lo = mid;
        } else {
            hi = mid;
        }
    }
    proof {
        assert(hi == lo + 1);
        assert(is_floor_sqrt(n as int, lo as int));
        let w = floor_sqrt(n as int);
        lemma_sqrt_unique(n as int, lo as int, w);
    }
    lo as u64
}

proof fn lemma_prefix_step(s: Seq<u64>, i: int)
    requires
        0 <= i < s.len(),
    ensures
        s.subrange(0, i + 1).drop_last() == s.subrange(0, i),
        s.subrange(0, i + 1).last() == s[i],
{
    assert(s.subrange(0, i + 1).drop_last() =~= s.subrange(0, i));
}

proof fn lemma_deviation_sum_bound(s: Seq<u64>, m: int)
    requires
        0 <= m <= u64::MAX,
    ensures
        0 <= squared_deviation_sum(s, m) <= s.len() * (u64::MAX as int) * (u64::MAX as int),
    decreases s.len(),
{
    if s.len() > 0 {
        lemma_deviation_sum_bound(s.drop_last(), m);
        let d = s.last() - m;
        assert(0 <= d * d <= (u64::MAX as int) * (u64::MAX as int)) by (nonlinear_arith)
            requires
                -(u64::MAX as int) <= d <= u64::MAX,
        ;
    }
}

impl LiquidityPool {
    /// The history cursor points into the ring buffer.
    pub open spec fn wf(&self) -> bool {
        self.history_index < 24
    }

    /// Weighted price of the present sources, as `weighted_price_of` states.
    pub fn calculate_weighted_price(&self) -> (r: Result<u64, BarterError>)
        ensures
            0 <= weighted_price_of(*self) <= u64::MAX,
            r == Ok::<u64, BarterError>(weighted_price_of(*self) as u64),
    {
        let mut total_weight: u64 = 0;
        let mut weighted_sum: u128 = 0;
        if let Some(price) = self.pyth_price {
            weighted_sum = weighted_sum + price as u128 * 40;
            total_weight = total_weight + 40;
        }
        if let Some(price) = self.switchboard_price {
            weighted_sum = weighted_sum + price as u128 * 35;
            total_weight = total_weight + 35;
        }
        if let Some(price) = self.ai_price {
            weighted_sum = weighted_sum + price as u128 * 25;
            total_weight = total_weight + 25;
        }
        if total_weight == 0 {
            return Ok(self.oracle_price);
        }
        proof {
            let (w, t) = (weighted_sum as int, total_weight as int);
            assert(w <= t * (u64::MAX as int));
            assert(w / t <= u64::MAX) by (nonlinear_arith)
                requires
                    0 <= w <= t * (u64::MAX as int),
                    t > 0,
            ;
        }
        Ok((weighted_sum / total_weight as u128) as u64)
    }

    /// Volatility of the recorded prices, as `volatility_of` states.
    pub fn calculate_volatility(&self) -> (r: Result<u64, BarterError>)
        requires
            self.wf(),
        ensures
            0 <= volatility_of(*self) <= u64::MAX,
            r == Ok::<u64, BarterError>(volatility_of(*self) as u64),
    {
        let n: usize = self.history_index as usize;
        let ghost prices = recorded_prices(*self);
        if n < 2 {
            return Ok(0);
        }
        let mut sum: u128 = 0;
        let mut i: usize = 0;
        while i < n
            invariant
                n == prices.len(),
                n <= 24,
                prices == recorded_prices(*self),
                self.wf(),
                n == self.history_index,
                0 <= i <= n,
                sum == seq_sum(prices.subrange(0, i as int)),
                sum <= i * (u64::MAX as int),
            decreases n - i,
        {
            proof {
                lemma_prefix_step(prices, i as int);
                assert(prices[i as int] == self.price_history@[i as int]);
            }
            sum = sum + self.price_history[i] as u128;
            i = i + 1;
        }
        proof {
            assert(prices.subrange(0, n as int) =~= prices);
        }
        let mean: u128 = sum / n as u128;
        proof {
            assert(mean <= u64::MAX) by (nonlinear_arith)
                requires
                    sum <= n * (u64::MAX as int),
                    n >= 2,
                    mean as int == (sum as int) / (n as int),
            ;
        }
        let ghost bound: int = (u64::MAX as int) * (u64::MAX as int);
        let mut quotient: u128 = 0;
        let mut remainder: u128 = 0;
        let mut j: usize = 0;
        while j < n
            invariant
                n == prices.len(),
                2 <= n <= 24,
                prices == recorded_prices(*self),
                self.wf(),
                n == self.history_index,
                mean <= u64::MAX,
                bound == (u64::MAX as int) * (u64::MAX as int),
                0 <= j <= n,
                remainder < n,
                quotient * n + remainder == squared_deviation_sum(prices.subrange(0, j as int), mean as int),
                quotient <= bound,
            decreases n - j,
        {
            proof {
                lemma_prefix_step(prices, j as int);
                lemma_deviation_sum_bound(prices.subrange(0, j as int + 1), mean as int);
                assert(prices[j as int] == self.price_history@[j as int]);
            }
            let p = self.price_history[j] as u128;
            let d: u128 = if p > mean {
                p - mean
            } else {
                mean - p
            };
            proof {
                assert(d * d <= bound) by (nonlinear_arith)
                    requires
                        d <= u64::MAX,
                        bound == (u64::MAX as int) * (u64::MAX as int),
                ;
                assert(d * d == (p - mean) * (p - mean)) by (nonlinear_arith)
                    requires
                        d == p - mean || d == mean - p,
                ;
            }
            let sq: u128 = d * d;
            let q_add: u128 = sq / n as u128;
            let r_add: u128 = sq % n as u128;
            let ghost total: int = squared_deviation_sum(prices.subrange(0, j as int + 1), mean as int);
            proof {
                assert(total == quotient * n + remainder + sq);
                assert(sq == q_add * n + r_add) by (nonlinear_arith)
                    requires
                        n > 0,
                        q_add as int == (sq as int) / (n as int),
                        r_add as int == (sq as int) % (n as int),
                ;
                assert(total <= n * bound) by (nonlinear_arith)
                    requires
                        total <= (j + 1) * bound,
                        j + 1 <= n,
                        bound >= 0,
                ;
                assert((quotient + q_add) * n <= total) by (nonlinear_arith)
                    requires
                        total == quotient * n + remainder + q_add * n + r_add,
                        remainder >= 0,
                        r_add >= 0,
                ;
                assert(quotient + q_add <= bound) by (nonlinear_arith)
                    requires
                        (quotient + q_add) * n <= total,
                        total <= n * bound,
                        n > 0,
                ;
            }
            let mut new_quotient: u128 = quotient + q_add;
            let mut new_remainder: u128 = remainder + r_add;
            proof {
                assert(total == new_quotient * n + new_remainder) by (nonlinear_arith)
                    requires
                        total == quotient * n + remainder + q_add * n + r_add,
                        new_quotient == quotient + q_add,
                        new_remainder == remainder + r_add,
                ;
            }
            if new_remainder >= n as u128 {
                proof {
                    assert((new_quotient + 1) * n <= total) by (nonlinear_arith)
                        requires
                            total == new_quotient * n + new_remainder,
                            new_remainder >= n,
                    ;
                    assert(new_quotient + 1 <= bound) by (nonlinear_arith)
                        requires
                            (new_quotient + 1) * n <= total,
                            total <= n * bound,
                            n > 0,
                    ;
                }
                let ghost (q0, r0) = (new_quotient as int, new_remainder as int);
                new_quotient = new_quotient + 1;
                new_remainder = new_remainder - n as u128;
                proof {
                    assert(total == new_quotient * n + new_remainder) by (nonlinear_arith)
                        requires
                            total == q0 * n + r0,
                            new_quotient == q0 + 1,
                            new_remainder == r0 - n,
                    ;
                }
            }
            quotient = new_quotient;
            remainder = new_remainder;
            j = j + 1;
        }
        proof {
            assert(prices.subrange(0, n as int) =~= prices);
            let total = squared_deviation_sum(prices, mean as int);
            assert(quotient == total / (n as int)) by (nonlinear_arith)
                requires
                    total == quotient * n + remainder,
                    0 <= remainder < n,
            ;
            assert(variance_of(prices) == quotient);
        }
        if quotient > u128::MAX / 1_000_000_000_000_000_000 {
            return Ok(u64::MAX);
        }
        let scaled: u128 = quotient * 1_000_000_000_000_000_000;
        Ok(isqrt_u128(scaled))
    }

    /// Fee in basis points for a swap now, as `dynamic_fee_of` states;
    /// `DynamicFeeCalculationFailed` when volatility exceeds a zero threshold.
    pub fn calculate_dynamic_fee(&self) -> (r: Result<u16, BarterError>)
        requires
            self.wf(),
        ensures
            match dynamic_fee_of(*self) {
                Some(f) => 0 <= f <= u16::MAX && r == Ok::<u16, BarterError>(f as u16),
                None => r == Err::<u16, BarterError>(BarterError::DynamicFeeCalculationFailed),
            },
    {
        if !self.dynamic_fee_enabled {
            return Ok(self.fee_bps);
        }
        let volatility = self.calculate_volatility()?;
        let base_fee = self.fee_bps as u64;
        let multiplier: u64 = if volatility <= self.volatility_threshold {
            1
        } else if self.volatility_threshold == 0 {
            return Err(BarterError::DynamicFeeCalculationFailed);
        } else {
            let ratio = volatility / self.volatility_threshold;
            if ratio < 5 {
                ratio
            } else {
                5
            }
        };
        proof {
            assert(base_fee * multiplier <= 65535 * 5) by (nonlinear_arith)
                requires
                    base_fee <= 65535,
                    multiplier <= 5,
            ;
        }
        let dynamic_fee = base_fee * multiplier;
        if dynamic_fee < 1000 {
            Ok(dynamic_fee as u16)
        } else {
            Ok(1000)
        }
    }

    /// Records `new_price` at the history cursor and advances it, wrapping at 24.
    pub fn update_price_history(&mut self, new_price: u64)
        requires
            old(self).wf(),
        ensures
            *final(self) == price_recorded(*old(self), new_price),
            final(self).wf(),
    {
        let i = self.history_index as usize;
        self.price_history[i] = new_price;
        self.history_index = ((i + 1) % PRICE_HISTORY_LEN) as u8;
        proof {
            assert(self.price_history@ =~= old(self).price_history@.update(i as int, new_price));
        }
    }

    /// Whether the stored price is older than 300 seconds at `now`.
    pub fn is_oracle_stale(&self, now: i64) -> (r: Result<bool, BarterError>)
        ensures
            r == Ok::<bool, BarterError>(now - self.last_oracle_update > MAX_ORACLE_AGE_SECONDS),
    {
        let age: i128 = now as i128 - self.last_oracle_update as i128;
        Ok(age > MAX_ORACLE_AGE_SECONDS as i128)
    }
}

/// The pool after `price` is written at the history cursor and the cursor advanced.
pub open spec fn price_recorded(pool: LiquidityPool, price: u64) -> LiquidityPool {
    LiquidityPool {
        price_history: spec_history_update(pool.price_history, pool.history_index as int, price),
        history_index: ((pool.history_index + 1) % 24) as u8,
        ..pool
    }
}

/// `history` with slot `i` set to `price`.
pub open spec fn spec_history_update(history: [u64; 24], i: int, price: u64) -> [u64; 24] {
    vstd::array::spec_array_update(history, i, price)
}

/// Configuration of a new pool.
#[derive(Debug, Clone, Copy)]
pub struct CreatePoolArgs {
    pub oracle_authority: Address,
    pub oracle_provider: OracleProvider,
    pub pyth_price_feed_a: Option<Address>,
    pub pyth_price_feed_b: Option<Address>,
    pub switchboard_feed: Option<Address>,
    pub ai_oracle_program: Option<Address>,
    pub fee_bps: u16,
    pub dynamic_fee_enabled: bool,
    pub volatility_threshold: u64,
}

/// New per-source prices and confidence; `None` keeps the stored value.
#[derive(Debug, Clone, Copy)]
pub struct UpdatePriceArgs {
    pub pyth_price: Option<u64>,
    pub switchboard_price: Option<u64>,
    pub ai_price: Option<u64>,
    pub price_confidence: Option<u64>,
}

/// Event describing an accepted price update.
#[derive(Debug, Clone, Copy)]
pub struct PriceUpdateEvent {
    pub pool: Address,
    pub pyth_price: Option<u64>,
    pub switchboard_price: Option<u64>,
    pub ai_price: Option<u64>,
    pub weighted_price: u64,
    pub timestamp: i64,
}

/// A token movement for the caller to perform: `amount` units from `from` to `to`,
/// authorised by `authority`.
#[derive(Debug, Clone, Copy)]
pub struct TokenTransfer {
    pub from: Address,
    pub to: Address,
    pub authority: Address,
    pub amount: u64,
}

/// The accounts of a liquidity deposit.
#[derive(Debug, Clone, Copy)]
pub struct AddLiquidity {
    pub vault_a: Address,
    pub vault_b: Address,
    pub user_token_account_a: Address,
    pub user_token_account_b: Address,
    pub user: Address,
}

impl AddLiquidity {
    /// Transfer of `amount` of token A from the user to vault A.
    pub fn transfer_a_context(&self, amount: u64) -> (r: TokenTransfer)
        ensures
            r == (TokenTransfer {
                from: self.user_token_account_a,
                to: self.vault_a,
                authority: self.user,
                amount,
            }),
    {
        TokenTransfer { from: self.user_token_account_a, to: self.vault_a, authority: self.user, amount }
    }

    /// Transfer of `amount` of token B from the user to vault B.
    pub fn transfer_b_context(&self, amount: u64) -> (r: TokenTransfer)
        ensures
            r == (TokenTransfer {
                from: self.user_token_account_b,
                to: self.vault_b,
                authority: self.user,
                amount,
            }),
    {
        TokenTransfer { from: self.user_token_account_b, to: self.vault_b, authority: self.user, amount }
    }
}

/// `pool` holds the configuration that `create_pool` writes, with price one, a history of
/// ones, no source prices and no liquidity.
pub open spec fn is_new_pool(
    pool: LiquidityPool,
    mint_a: Address,
    mint_b: Address,
    args: CreatePoolArgs,
    vault_a_bump: u8,
    vault_b_bump: u8,
    now: i64,
) -> bool {
    &&& pool.mint_a == mint_a
    &&& pool.mint_b == mint_b
    &&& pool.oracle_authority == args.oracle_authority
    &&& pool.oracle_provider == args.oracle_provider
    &&& pool.pyth_price_feed_a == args.pyth_price_feed_a
    &&& pool.pyth_price_feed_b == args.pyth_price_feed_b
    &&& pool.switchboard_feed == args.switchboard_feed
    &&& pool.ai_oracle_program == args.ai_oracle_program
    &&& pool.oracle_price == ORACLE_PRICE_PRECISION
    &&& pool.last_oracle_update == now
    &&& pool.price_confidence == 0
    &&& pool.pyth_price is None
    &&& pool.switchboard_price is None
    &&& pool.ai_price is None
    &&& forall|i: int| 0 <= i < 24 ==> pool.price_history[i] == ORACLE_PRICE_PRECISION
    &&& pool.history_index == 0
    &&& pool.total_liquidity_a == 0
    &&& pool.total_liquidity_b == 0
    &&& pool.fee_bps == args.fee_bps
    &&& pool.dynamic_fee_enabled == args.dynamic_fee_enabled
    &&& pool.volatility_threshold == args.volatility_threshold
    &&& pool.last_volatility_update == now
    &&& pool.vault_a_bump == vault_a_bump
    &&& pool.vault_b_bump == vault_b_bump
}

/// Creates the pool of the pair (`mint_a`, `mint_b`) at `now`.
pub fn create_pool(
    mint_a: Address,
    mint_b: Address,
    args: CreatePoolArgs,
    vault_a_bump: u8,
    vault_b_bump: u8,
    now: i64,
) -> (r: LiquidityPool)
    ensures
        r.wf(),
        is_new_pool(r, mint_a, mint_b, args, vault_a_bump, vault_b_bump, now),
{
    LiquidityPool {
        mint_a,
        mint_b,
        oracle_authority: args.oracle_authority,
        oracle_provider: args.oracle_provider,
        pyth_price_feed_a: args.pyth_price_feed_a,
        pyth_price_feed_b: args.pyth_price_feed_b,
        switchboard_feed: args.switchboard_feed,
        ai_oracle_program: args.ai_oracle_program,
        oracle_price: ORACLE_PRICE_PRECISION,
        last_oracle_update: now,
        price_confidence: 0,
        pyth_price: None,
        switchboard_price: None,
        ai_price: None,
        price_history: [ORACLE_PRICE_PRECISION; 24],
        history_index: 0,
        total_liquidity_a: 0,
        total_liquidity_b: 0,
        fee_bps: args.fee_bps,
        dynamic_fee_enabled: args.dynamic_fee_enabled,
        volatility_threshold: args.volatility_threshold,
        last_volatility_update: now,
        vault_a_bump,
        vault_b_bump,
    }
}

/// The pool with the sources and confidence of `args` merged in.
pub open spec fn sources_merged(pool: LiquidityPool, args: UpdatePriceArgs) -> LiquidityPool {
    LiquidityPool {
        pyth_price: if args.pyth_price is Some {
            args.pyth_price
        } else {
            pool.pyth_price
        },
        switchboard_price: if args.switchboard_price is Some {
            args.switchboard_price
        } else {
            pool.switchboard_price
        },
        ai_price: if args.ai_price is Some {
            args.ai_price
        } else {
            pool.ai_price
        },
        price_confidence: match args.price_confidence {
            Some(c) => c,
            None => pool.price_confidence,
        },
        ..pool
    }
}

/// The pool after an accepted price update at `now`: sources merged, the weighted price
/// stored with its time, and recorded in the history.
pub open spec fn price_updated(pool: LiquidityPool, args: UpdatePriceArgs, now: i64) -> LiquidityPool {
    let merged = sources_merged(pool, args);
    price_recorded(
        LiquidityPool {
            oracle_price: weighted_price_of(merged) as u64,
            last_oracle_update: now,
            ..merged
        },
        weighted_price_of(merged) as u64,
    )
}

/// Accepts new source prices from the oracle authority: `InvalidOracleAuthority` unless
/// `signer` is it; otherwise the pool becomes `price_updated` and the event describing
/// the update is returned.
pub fn update_oracle_price(
    pool: &mut LiquidityPool,
    pool_address: Address,
    signer: Address,
    args: UpdatePriceArgs,
    now: i64,
) -> (r: Result<PriceUpdateEvent, BarterError>)
    requires
        old(pool).wf(),
    ensures
        final(pool).wf(),
        signer != old(pool).oracle_authority ==> r is Err && r == Err::<PriceUpdateEvent, BarterError>(
            BarterError::InvalidOracleAuthority,
        ) && *final(pool) == *old(pool),
        signer == old(pool).oracle_authority ==> r is Ok && *final(pool) == price_updated(
            *old(pool),
            args,
            now,
        ),
        r matches Ok(e) ==> e == (PriceUpdateEvent {
            pool: pool_address,
            pyth_price: final(pool).pyth_price,
            switchboard_price: final(pool).switchboard_price,
            ai_price: final(pool).ai_price,
            weighted_price: final(pool).oracle_price,
            timestamp: now,
        }),
{
    if signer != pool.oracle_authority {
        return Err(BarterError::InvalidOracleAuthority);
    }
    proof {
        lemma_address_ext(signer, pool.oracle_authority);
    }
    if let Some(p) = args.pyth_price {
        pool.pyth_price = Some(p);
    }
    if let Some(p) = args.switchboard_price {
        pool.switchboard_price = Some(p);
    }
    if let Some(p) = args.ai_price {
        pool.ai_price = Some(p);
    }
    if let Some(c) = args.price_confidence {
        pool.price_confidence = c;
    }
    let weighted_price = pool.calculate_weighted_price()?;
    pool.oracle_price = weighted_price;
    pool.last_oracle_update = now;
    pool.update_price_history(weighted_price);
    Ok(
        PriceUpdateEvent {
            pool: pool_address,
            pyth_price: pool.pyth_price,
            switchboard_price: pool.switchboard_price,
            ai_price: pool.ai_price,
            weighted_price,
            timestamp: now,
        },
    )
}

/// Deposits `amount_a` of token A and `amount_b` of token B into the vaults. The deposit
/// is custodial: no share is recorded and the pool record does not change.
pub fn add_liquidity(ctx: &AddLiquidity, amount_a: u64, amount_b: u64) -> (r: Result<
    (TokenTransfer, TokenTransfer),
    BarterError,
>)
    ensures
        r == Ok::<(TokenTransfer, TokenTransfer), BarterError>(
            (
                TokenTransfer {
                    from: ctx.user_token_account_a,
                    to: ctx.vault_a,
                    authority: ctx.user,
                    amount: amount_a,
                },
                TokenTransfer {
                    from: ctx.user_token_account_b,
                    to: ctx.vault_b,
                    authority: ctx.user,
                    amount: amount_b,
                },
            ),
        ),
{
    Ok((ctx.transfer_a_context(amount_a), ctx.transfer_b_context(amount_b)))
}

/// Changes the fee settings: `InvalidOracleAuthority` unless `signer` is the oracle
/// authority.
pub fn update_pool_config(
    pool: &mut LiquidityPool,
    signer: Address,
    fee_bps: u16,
    dynamic_fee_enabled: bool,
    volatility_threshold: u64,
    now: i64,
) -> (r: Result<(), BarterError>)
    ensures
        signer != old(pool).oracle_authority ==> r == Err::<(), BarterError>(
            BarterError::InvalidOracleAuthority,
        ) && *final(pool) == *old(pool),
        signer == old(pool).oracle_authority ==> r is Ok && *final(pool) == (LiquidityPool {
            fee_bps,
            dynamic_fee_enabled,
            volatility_threshold,
            last_volatility_update: now,
            ..*old(pool)
        }),
{
    if signer != pool.oracle_authority {
        return Err(BarterError::InvalidOracleAuthority);
    }
    proof {
        lemma_address_ext(signer, pool.oracle_authority);
    }
    pool.fee_bps = fee_bps;
    pool.dynamic_fee_enabled = dynamic_fee_enabled;
    pool.volatility_threshold = volatility_threshold;
    pool.last_volatility_update = now;
    Ok(())
}

/// Checks that the oracle authority asks for a pause or resume. No paused state is kept:
/// the pool record is not changed and swaps are not blocked.
pub fn emergency_pause(pool: &LiquidityPool, signer: Address, paused: bool) -> (r: Result<
    (),
    BarterError,
>)
    ensures
        signer != pool.oracle_authority ==> r == Err::<(), BarterError>(
            BarterError::InvalidOracleAuthority,
        ),
        signer == pool.oracle_authority ==> r is Ok,
{
    if signer != pool.oracle_authority {
        return Err(BarterError::InvalidOracleAuthority);
    }
    proof {
        lemma_address_ext(signer, pool.oracle_authority);
    }
    Ok(())
}

/// Amounts of an accepted swap. The caller moves `amount_in` from the user into the
/// source vault and `amount_out` from the other vault to the user.
#[derive(Debug, Clone, Copy, PartialEq, Eq, Structural)]
pub struct SwapOutcome {
    pub a_to_b: bool,
    pub price: u64,
    pub fee_bps: u16,
    pub amount_out_before_fee: u64,
    pub fee_amount: u64,
    pub amount_out: u64,
}

/// Output before the fee: `amount_in * price / 10^9` selling A, `amount_in * 10^9 / price`
/// selling B.
pub open spec fn gross_output(amount_in: int, price: int, a_to_b: bool) -> int {
    if a_to_b {
        amount_in * price / (ORACLE_PRICE_PRECISION as int)
    } else {
        amount_in * (ORACLE_PRICE_PRECISION as int) / price
    }
}

/// Fee taken from `gross` at `fee_bps`, rounded down.
pub open spec fn fee_amount_of(gross: int, fee_bps: int) -> int {
    gross * fee_bps / (BPS_PRECISION as int)
}

/// Outcome of a swap of `amount_in` of the token `source_mint` at `now`, given the vault
/// balances: `OraclePriceStale` when the price is older than 300 s, `NoValidPriceSources`
/// when the weighted price is zero, the fee's error, `Overflow` / `Underflow` when an
/// amount leaves its type, `SlippageExceeded` below `min_amount_out`,
/// `InsufficientLiquidity` when the paying vault holds too little, then the liquidity
/// counters' `Overflow` / `Underflow`.
pub open spec fn swap_outcome(
    pool: LiquidityPool,
    source_mint: Address,
    amount_in: u64,
    min_amount_out: u64,
    vault_a_amount: u64,
    vault_b_amount: u64,
    now: i64,
) -> Result<SwapOutcome, BarterError> {
    let price = weighted_price_of(pool);
    let a_to_b = source_mint == pool.mint_a;
    if now - pool.last_oracle_update > MAX_ORACLE_AGE_SECONDS {
        Err(BarterError::OraclePriceStale)
    } else if price == 0 {
        Err(BarterError::NoValidPriceSources)
    } else {
        match dynamic_fee_of(pool) {
            None => Err(BarterError::DynamicFeeCalculationFailed),
            Some(fee) => {
                let gross = gross_output(amount_in as int, price, a_to_b);
                let fee_amount = fee_amount_of(gross, fee);
                let out = gross - fee_amount;
                let paying_vault = if a_to_b {
                    vault_b_amount
                } else {
                    vault_a_amount
                };
                let (receiving, paying) = if a_to_b {
                    (pool.total_liquidity_a, pool.total_liquidity_b)
                } else {
                    (pool.total_liquidity_b, pool.total_liquidity_a)
                };
                if gross > u64::MAX {
                    Err(BarterError::Overflow)
                } else if fee_amount > gross {
                    Err(BarterError::Underflow)
                } else if out < min_amount_out {
                    Err(BarterError::SlippageExceeded)
                } else if paying_vault < out {
                    Err(BarterError::InsufficientLiquidity)
                } else if receiving + amount_in > u64::MAX {
                    Err(BarterError::Overflow)
                } else if paying < out {
                    Err(BarterError::Underflow)
                } else {
                    Ok(
                        SwapOutcome {
                            a_to_b,
                            price: price as u64,
                            fee_bps: fee as u16,
                            amount_out_before_fee: gross as u64,
                            fee_amount: fee_amount as u64,
                            amount_out: out as u64,
                        },
                    )
                }
            },
        }
    }
}

/// The pool after swap `o` of `amount_in` at `now`: liquidity counters moved, the price
/// recorded in the history.
pub open spec fn pool_after_swap(pool: LiquidityPool, o: SwapOutcome, amount_in: u64, now: i64) -> LiquidityPool {
    let moved = if o.a_to_b {
        LiquidityPool {
            total_liquidity_a: (pool.total_liquidity_a + amount_in) as u64,
            total_liquidity_b: (pool.total_liquidity_b - o.amount_out) as u64,
            last_volatility_update: now,
            ..pool
        }
    } else {
        LiquidityPool {
            total_liquidity_b: (pool.total_liquidity_b + amount_in) as u64,
            total_liquidity_a: (pool.total_liquidity_a - o.amount_out) as u64,
            last_volatility_update: now,
            ..pool
        }
    };
    price_recorded(moved, o.price)
}

/// Swaps `amount_in` of the token `source_mint` (selling A when it is `mint_a`, else B) at
/// the pool's weighted oracle price less the dynamic fee. The result is `swap_outcome`;
/// the pool becomes `pool_after_swap` on success and is unchanged on failure.
pub fn swap(
    pool: &mut LiquidityPool,
    source_mint: Address,
    amount_in: u64,
    min_amount_out: u64,
    vault_a_amount: u64,
    vault_b_amount: u64,
    now: i64,
) -> (r: Result<SwapOutcome, BarterError>)
    requires
        old(pool).wf(),
    ensures
        final(pool).wf(),
        r == swap_outcome(*old(pool), source_mint, amount_in, min_amount_out, vault_a_amount, vault_b_amount, now),
        r is Err ==> *final(pool) == *old(pool),
        r matches Ok(o) ==> *final(pool) == pool_after_swap(*old(pool), o, amount_in, now),
{
    if pool.is_oracle_stale(now)? {
        return Err(BarterError::OraclePriceStale);
    }
    let price = pool.calculate_weighted_price()?;
    if price == 0 {
        return Err(BarterError::NoValidPriceSources);
    }
    let fee_bps = pool.calculate_dynamic_fee()?;
    let a_to_b = source_mint == pool.mint_a;
    proof {
        if a_to_b {
            lemma_address_ext(source_mint, pool.mint_a);
        }
        let (a, p) = (amount_in as int, price as int);
        assert(a * p <= u64::MAX * u64::MAX) by (nonlinear_arith)
            requires
                0 <= a <= u64::MAX,
                0 <= p <= u64::MAX,
        ;
        assert(a * 1_000_000_000 <= u64::MAX * 1_000_000_000) by (nonlinear_arith)
            requires
                0 <= a <= u64::MAX,
        ;
    }
    let gross: u128 = if a_to_b {
        (amount_in as u128) * (price as u128) / ORACLE_PRICE_PRECISION as u128
    } else {
        (amount_in as u128) * (ORACLE_PRICE_PRECISION as u128) / price as u128
    };
    if gross > u64::MAX as u128 {
        return Err(BarterError::Overflow);
    }
    proof {
        let (g, f) = (gross as int, fee_bps as int);
        assert(g * f <= u64::MAX * 65535) by (nonlinear_arith)
            requires
                0 <= g <= u64::MAX,
                0 <= f <= 65535,
        ;
    }
    let fee_amount: u128 = gross * (fee_bps as u128) / BPS_PRECISION as u128;
    if fee_amount > gross {
        return Err(BarterError::Underflow);
    }
    let amount_out: u64 = (gross - fee_amount) as u64;
    if amount_out < min_amount_out {
        return Err(BarterError::SlippageExceeded);
    }
    let paying_vault = if a_to_b {
        vault_b_amount
    } else {
        vault_a_amount
    };
    if paying_vault < amount_out {
        return Err(BarterError::InsufficientLiquidity);
    }
    let (new_a, new_b) = if a_to_b {
        let a = match pool.total_liquidity_a.checked_add(amount_in) {
            Some(v) => v,
            None => return Err(BarterError::Overflow),
        };
        let b = match pool.total_liquidity_b.checked_sub(amount_out) {
            Some(v) => v,
            None => return Err(BarterError::Underflow),
        };
        (a, b)
    } else {
        let b = match pool.total_liquidity_b.checked_add(amount_in) {
            Some(v) => v,
            None => return Err(BarterError::Overflow),
        };
        let a = match pool.total_liquidity_a.checked_sub(amount_out) {
            Some(v) => v,
            None => return Err(BarterError::Underflow),
        };
        (a, b)
    };
    pool.total_liquidity_a = new_a;
    pool.total_liquidity_b = new_b;
    pool.last_volatility_update = now;
    pool.update_price_history(price);
    Ok(
        SwapOutcome {
            a_to_b,
            price,
            fee_bps,
            amount_out_before_fee: gross as u64,
            fee_amount: fee_amount as u64,
            amount_out,
        },
    )
}

proof fn lemma_net_output_monotone(g1: int, g2: int, fee: int)
    requires
        0 <= g1 <= g2,
        0 <= fee <= 10000,
    ensures
        g1 - fee_amount_of(g1, fee) <= g2 - fee_amount_of(g2, fee),
{
    assert(g2 * fee / 10000 <= g1 * fee / 10000 + (g2 - g1)) by (nonlinear_arith)
        requires
            0 <= g1 <= g2,
            0 <= fee <= 10000,
    ;
}

/// For a fixed pool state, time and direction, a larger input never yields a smaller
/// output among accepted swaps; an accepted swap always meets `min_amount_out`; and a
/// price older than 300 seconds rejects the swap.
pub proof fn lemma_swap_laws(
    pool: LiquidityPool,
    source_mint: Address,
    amount_in_1: u64,
    amount_in_2: u64,
    min_amount_out_1: u64,
    min_amount_out_2: u64,
    vault_a_amount: u64,
    vault_b_amount: u64,
    now: i64,
)
    requires
        amount_in_1 <= amount_in_2,
    ensures
        swap_outcome(pool, source_mint, amount_in_1, min_amount_out_1, vault_a_amount, vault_b_amount, now) matches Ok(o1)
            ==> swap_outcome(pool, source_mint, amount_in_2, min_amount_out_2, vault_a_amount, vault_b_amount, now) matches Ok(o2)
            ==> o1.amount_out <= o2.amount_out,
        swap_outcome(pool, source_mint, amount_in_1, min_amount_out_1, vault_a_amount, vault_b_amount, now) matches Ok(o1)
            ==> o1.amount_out >= min_amount_out_1,
        now - pool.last_oracle_update > MAX_ORACLE_AGE_SECONDS ==> swap_outcome(
            pool,
            source_mint,
            amount_in_1,
            min_amount_out_1,
            vault_a_amount,
            vault_b_amount,
            now,
        ) == Err::<SwapOutcome, BarterError>(BarterError::OraclePriceStale),
{
    let price = weighted_price_of(pool);
    let a_to_b = source_mint == pool.mint_a;
    if let Some(fee) = dynamic_fee_of(pool) {
        if price > 0 {
            let (x1, x2) = (amount_in_1 as int, amount_in_2 as int);
            let g1 = gross_output(x1, price, a_to_b);
            let g2 = gross_output(x2, price, a_to_b);
            if a_to_b {
                assert(0 <= x1 * price / 1_000_000_000 <= x2 * price / 1_000_000_000) by (nonlinear_arith)
                    requires
                        0 <= x1 <= x2,
                        price > 0,
                ;
            } else {
                assert(0 <= x1 * 1_000_000_000 / price <= x2 * 1_000_000_000 / price) by (nonlinear_arith)
                    requires
                        0 <= x1 <= x2,
                        price > 0,
                ;
            }
            if 0 <= fee <= 10000 {
                lemma_net_output_monotone(g1, g2, fee);
            } else if fee > 10000 {
                assert(g1 * fee / 10000 >= g1) by (nonlinear_arith)
                    requires
                        g1 >= 0,
                        fee > 10000,
                ;
            }
        }
    }
}

/// The dynamic fee is the base fee when disabled, or when volatility does not exceed the
/// threshold and the base fee is at most the 1000 bps cap (above the cap it is the cap);
/// otherwise it is `min(base * min(5, floor(volatility / threshold)), 1000)`.
pub proof fn lemma_dynamic_fee_rule(pool: LiquidityPool)
    ensures
        !pool.dynamic_fee_enabled ==> dynamic_fee_of(pool) == Some(pool.fee_bps as int),
        pool.dynamic_fee_enabled && volatility_of(pool) <= pool.volatility_threshold ==> dynamic_fee_of(
            pool,
        ) == Some(if pool.fee_bps < 1000 { pool.fee_bps as int } else { 1000 }),
        pool.dynamic_fee_enabled && volatility_of(pool) > pool.volatility_threshold
            && pool.volatility_threshold > 0 ==> dynamic_fee_of(pool) == Some(
            {
                let ratio = volatility_of(pool) / (pool.volatility_threshold as int);
                let k = if ratio < 5 { ratio } else { 5 };
                if pool.fee_bps * k < 1000 { pool.fee_bps * k } else { 1000 }
            },
        ),
{
}

} // verus!
