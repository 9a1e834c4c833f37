use vstd::prelude::*;

use crate::address::{lemma_address_ext, Address};
use crate::affiliate::{commission_outcome, process_commission, AffiliateInfo};
use crate::constants::{
    MAX_RATE_BPS, MAX_VESTING_DURATION_SECONDS, MIN_VESTING_DURATION_SECONDS,
};
use crate::utils::{
    bps_share, calculate_bonding_curve_price, calculate_commission_amount, calculate_tokens_to_mint,
    linear_price, tokens_for,
};

verus! {

/// Errors of the launch ledger.
#[derive(Debug, Clone, Copy, PartialEq, Eq, Structural)]
pub enum FactoryError {
    InvalidAmount,
    Overflow,
    Underflow,
    DivisionByZero,
    InsufficientFunds,
    AuthorityMismatch,
    AffiliateMismatch,
    LaunchNotActive,
    MaxSupplyReached,
    InvalidLaunchTime,
    InvalidPricingModel,
    VestingScheduleNotFound,
    NoTokensToClaim,
    VestingNotComplete,
    InvalidVestingParams,
    PurchaseAmountTooLow,
    PurchaseAmountTooHigh,
    PurchaseCooldownActive,
    AntiBotValidationFailed,
    InvalidFeeConfig,
    FeeCalculationOverflow,
    InvalidTimestamp,
    OutsideTimeWindow,
    InvalidAccountState,
    AccountNotInitialized,
}

/// How the price of a whole token follows sales or time.
#[derive(Debug, Clone, Copy, PartialEq, Eq, Structural)]
pub enum PricingModel {
    /// `initial_price + slope * tokens_sold`.
    LinearBondingCurve,
    /// `initial_price * (1 + slope)^tokens_sold`.
    ExponentialBondingCurve,
    /// `initial_price`.
    FixedPrice,
    /// Falls linearly from `initial_price` over the sale window, never below `slope`.
    DutchAuction,
}

/// Strength of the purchase gating, from none to strictest.
#[derive(Debug, Clone, Copy, PartialEq, Eq, Structural)]
pub enum AntiBotLevel {
    Disabled,
    Basic,
    Advanced,
    Maximum,
}

/// Record of one token sale.
#[derive(Debug, Clone, Copy)]
pub struct LaunchState {
    pub authority: Address,
    pub token_mint: Address,
    pub sol_vault_bump: u8,
    pub pricing_model: PricingModel,
    pub initial_price: u64,
    pub slope: u64,
    pub tokens_sold: u64,
    pub vesting_enabled: bool,
    pub vesting_duration_seconds: i64,
    pub vesting_cliff_seconds: i64,
    pub anti_bot_level: AntiBotLevel,
    pub min_purchase_amount: u64,
    pub max_purchase_amount: u64,
    pub purchase_cooldown_seconds: i64,
    pub last_purchase_timestamp: i64,
    pub max_tokens: u64,
    pub launch_start_time: i64,
    pub launch_end_time: i64,
    pub affiliate_fee_bps: u16,
    pub platform_fee_bps: u16,
    pub platform_fee_recipient: Address,
    pub total_sol_collected: u64,
    pub total_fees_collected: u64,
    pub purchase_count: u64,
}

/// `base` raised to `exp`.
pub open spec fn pow(base: int, exp: nat) -> int
    decreases exp,
{
    if exp == 0 {
        1
    } else {
        base * pow(base, (exp - 1) as nat)
    }
}

/// Dutch-auction price at `now`: `initial` reduced by `initial * elapsed / duration` over
/// the window, saturating at zero, and never below `floor`. Before the start, or for an
/// empty window, no reduction applies.
pub open spec fn dutch_price(initial: int, floor: int, start: int, end: int, now: int) -> int {
    let total = end - start;
    let elapsed = now - start;
    let reduction = if total <= 0 || elapsed <= 0 {
        0
    } else if elapsed >= total {
        initial
    } else {
        initial * elapsed / total
    };
    let reduced = initial - reduction;
    if reduced < floor {
        floor
    } else {
        reduced
    }
}

/// Price of a whole token under the launch's model at `now`, or `None` when it
/// overflows (the exponential power beyond `u128`, or a price beyond `u64`).
pub open spec fn price_at(s: LaunchState, now: i64) -> Option<int> {
    match s.pricing_model {
        PricingModel::LinearBondingCurve => {
            let p = linear_price(s.initial_price as int, s.slope as int, s.tokens_sold as int);
            if p > u64::MAX {
                None
            } else {
                Some(p)
            }
        },
        PricingModel::ExponentialBondingCurve => {
            let factor = pow(1 + s.slope, s.tokens_sold as nat);
            if factor > u128::MAX || s.initial_price * factor > u64::MAX {
                None
            } else {
                Some(s.initial_price * factor)
            }
        },
        PricingModel::FixedPrice => Some(s.initial_price as int),
        PricingModel::DutchAuction => Some(
            dutch_price(
                s.initial_price as int,
                s.slope as int,
                s.launch_start_time as int,
                s.launch_end_time as int,
                now as int,
            ),
        ),
    }
}

/// The anti-bot rule that a purchase of `amount` at `now` breaks, if any.
pub open spec fn anti_bot_error(s: LaunchState, amount: u64, now: i64) -> Option<FactoryError> {
    if s.anti_bot_level == AntiBotLevel::Disabled {
        None
    } else if amount < s.min_purchase_amount {
        Some(FactoryError::PurchaseAmountTooLow)
    } else if amount > s.max_purchase_amount {
        Some(FactoryError::PurchaseAmountTooHigh)
    } else if (s.anti_bot_level == AntiBotLevel::Advanced || s.anti_bot_level
        == AntiBotLevel::Maximum) && now - s.last_purchase_timestamp < s.purchase_cooldown_seconds {
        Some(FactoryError::PurchaseCooldownActive)
    } else {
        None
    }
}

proof fn lemma_pow_ge_one(base: int, exp: nat)
    requires
        base >= 1,
    ensures
        pow(base, exp) >= 1,
    decreases exp,
{
    if exp > 0 {
        lemma_pow_ge_one(base, (exp - 1) as nat);
        assert(base * pow(base, (exp - 1) as nat) >= 1) by (nonlinear_arith)
            requires
                base >= 1,
                pow(base, (exp - 1) as nat) >= 1,
        ;
    }
}

proof fn lemma_pow_monotone(base: int, i: nat, j: nat)
    requires
        base >= 1,
        i <= j,
    ensures
        pow(base, i) <= pow(base, j),
    decreases j,
{
    if i < j {
        lemma_pow_monotone(base, i, (j - 1) as nat);
        lemma_pow_ge_one(base, (j - 1) as nat);
        assert(pow(base, (j - 1) as nat) <= base * pow(base, (j - 1) as nat)) by (nonlinear_arith)
            requires
                base >= 1,
                pow(base, (j - 1) as nat) >= 1,
        ;
    }
}

/// `base^exp`, or `None` when it does not fit in a `u128`.
fn checked_pow_u128(base: u128, exp: u64) -> (r: Option<u128>)
    ensures
        pow(base as int, exp as nat) <= u128::MAX ==> r == Some(pow(base as int, exp as nat) as u128),
        pow(base as int, exp as nat) > u128::MAX ==> r is None,
{
    if base == 0 {
        if exp == 0 {
            return Some(1);
        }
        proof {
            assert(pow(0, exp as nat) == 0 * pow(0, (exp - 1) as nat));
        }
        return Some(0);
    }
    if base == 1 {
        proof {
            lemma_pow_one(exp as nat);
        }
        return Some(1);
    }
    let mut acc: u128 = 1;
    let mut i: u64 = 0;
    while i < exp
        invariant
            base >= 2,
            i <= exp,
            acc == pow(base as int, i as nat),
        decreases exp - i,
    {
        proof {
            lemma_pow_step(base as int, i as nat);
        }
        match acc.checked_mul(base) {
            Some(v) => {
                acc = v;
            },
            None => {
                proof {
                    lemma_pow_monotone(base as int, (i + 1) as nat, exp as nat);
                }
                return None;
            },
        }
        i = i + 1;
    }
    Some(acc)
}

proof fn lemma_pow_step(base: int, i: nat)
    ensures
        pow(base, i + 1) == pow(base, i) * base,
{
    assert(pow(base, i + 1) == base * pow(base, i));
    assert(base * pow(base, i) == pow(base, i) * base) by (nonlinear_arith);
}

proof fn lemma_pow_one(exp: nat)
    ensures
        pow(1, exp) == 1,
    decreases exp,
{
    if exp > 0 {
        lemma_pow_one((exp - 1) as nat);
    }
}

impl LaunchState {
    /// Whether `now` lies within the sale window, bounds included.
    pub fn is_launch_active(&self, now: i64) -> (r: bool)
        ensures
            r == (self.launch_start_time <= now <= self.launch_end_time),
    {
        now >= self.launch_start_time && now <= self.launch_end_time
    }

    /// Whether every token on offer has been sold.
    pub fn is_max_supply_reached(&self) -> (r: bool)
        ensures
            r == (self.tokens_sold >= self.max_tokens),
    {
        self.tokens_sold >= self.max_tokens
    }

    /// Price of a whole token at `now` under the launch's pricing model; `Overflow` when
    /// it does not fit.
    pub fn calculate_current_price(&self, now: i64) -> (r: Result<u64, FactoryError>)
        ensures
            match price_at(*self, now) {
                Some(p) => 0 <= p <= u64::MAX && r == Ok::<u64, FactoryError>(p as u64),
                None => r == Err::<u64, FactoryError>(FactoryError::Overflow),
            },
    {
        match self.pricing_model {
            PricingModel::LinearBondingCurve => {
                match calculate_bonding_curve_price(self.initial_price, self.slope, self.tokens_sold) {
                    Ok(p) => Ok(p),
                    Err(_) => Err(FactoryError::Overflow),
                }
            },
            PricingModel::ExponentialBondingCurve => {
                proof {
                    lemma_pow_ge_one(1 + self.slope, self.tokens_sold as nat);
                }
                let factor = match checked_pow_u128(self.slope as u128 + 1, self.tokens_sold) {
                    Some(f) => f,
                    None => return Err(FactoryError::Overflow),
                };
                let price = match (self.initial_price as u128).checked_mul(factor) {
                    Some(p) => p,
                    None => return Err(FactoryError::Overflow),
                };
                if price > u64::MAX as u128 {
                    return Err(FactoryError::Overflow);
                }
                Ok(price as u64)
            },
            PricingModel::FixedPrice => Ok(self.initial_price),
            PricingModel::DutchAuction => {
                let total: i128 = self.launch_end_time as i128 - self.launch_start_time as i128;
                let elapsed: i128 = now as i128 - self.launch_start_time as i128;
                let initial = self.initial_price as u128;
                let reduction: u128 = if total <= 0 || elapsed <= 0 {
                    0
                } else if elapsed >= total {
                    initial
                } else {
                    proof {
                        let (a, e, t) = (initial as int, elapsed as int, total as int);
                        assert(a * e <= a * t) by (nonlinear_arith)
                            requires
                                0 < e < t,
                                a >= 0,
                        ;
                        assert(a * t <= u64::MAX * (2 * (i64::MAX as int) + 1)) by (nonlinear_arith)
                            requires
                                0 < t <= 2 * (i64::MAX as int) + 1,
                                0 <= a <= u64::MAX,
                        ;
                        assert(a * e / t <= a) by (nonlinear_arith)
                            requires
                                0 < e < t,
                                a >= 0,
                        ;
                    }
                    initial * (elapsed as u128) / (total as u128)
                };
                let reduced = self.initial_price - reduction as u64;
                if reduced < self.slope {
                    Ok(self.slope)
                } else {
                    Ok(reduced)
                }
            },
        }
    }

    /// Checks a purchase of `amount` at `now` against the anti-bot rules: no check at
    /// level `Disabled`; otherwise the amount must lie within the purchase bounds, and from
    /// level `Advanced` on the cooldown must have passed since the last purchase.
    pub fn validate_purchase_amount(&self, amount: u64, now: i64) -> (r: Result<(), FactoryError>)
        ensures
            match anti_bot_error(*self, amount, now) {
                Some(e) => r == Err::<(), FactoryError>(e),
                None => r is Ok,
            },
    {
        match self.anti_bot_level {
            AntiBotLevel::Disabled => Ok(()),
            _ => {
                if amount < self.min_purchase_amount {
                    return Err(FactoryError::PurchaseAmountTooLow);
                }
                if amount > self.max_purchase_amount {
                    return Err(FactoryError::PurchaseAmountTooHigh);
                }
                match self.anti_bot_level {
                    AntiBotLevel::Advanced | AntiBotLevel::Maximum => {
                        let since: i128 = now as i128 - self.last_purchase_timestamp as i128;
                        if since < self.purchase_cooldown_seconds as i128 {
                            return Err(FactoryError::PurchaseCooldownActive);
                        }
                    },
                    _ => {},
                }
                Ok(())
            },
        }
    }
}

/// Tokens of one purchase held back and released over time.
#[derive(Debug, Clone, Copy)]
pub struct VestingSchedule {
    pub launch_state: Address,
    pub beneficiary: Address,
    pub total_amount: u64,
    pub claimed_amount: u64,
    pub start_time: i64,
    pub duration_seconds: i64,
    pub cliff_seconds: i64,
    pub last_claim_time: i64,
}

/// Per-buyer purchase history kept for anti-bot analysis.
#[derive(Debug, Clone, Copy)]
pub struct PurchaseTracker {
    pub buyer: Address,
    pub last_purchase_time: i64,
    pub total_purchased: u64,
    pub purchase_count: u32,
}

/// Amount vested at `now`: nothing before the cliff ends, everything once the duration
/// has passed, and in between `total * (now - start) / (duration - cliff)`. The time in
/// the numerator runs from the start, not from the end of the cliff.
pub open spec fn vested_at(v: VestingSchedule, now: i64) -> int {
    if now < v.start_time + v.cliff_seconds {
        0
    } else if now - v.start_time >= v.duration_seconds {
        v.total_amount as int
    } else {
        v.total_amount * (now - v.start_time) / (v.duration_seconds - v.cliff_seconds)
    }
}

/// `vested_at` as a `u64`: `Overflow` above the type, `Underflow` below zero (which a
/// negative cliff can cause).
pub open spec fn vested_result(v: VestingSchedule, now: i64) -> Result<u64, FactoryError> {
    let a = vested_at(v, now);
    if a > u64::MAX {
        Err(FactoryError::Overflow)
    } else if a < 0 {
        Err(FactoryError::Underflow)
    } else {
        Ok(a as u64)
    }
}

/// Amount that a claim at `now` releases: what has vested beyond what was claimed.
pub open spec fn claimable_result(v: VestingSchedule, now: i64) -> Result<u64, FactoryError> {
    match vested_result(v, now) {
        Ok(a) => Ok(if a > v.claimed_amount {
            (a - v.claimed_amount) as u64
        } else {
            0
        }),
        Err(e) => Err(e),
    }
}

impl VestingSchedule {
    /// Amount vested at `current_time`, as `vested_result` states.
    pub fn calculate_vested_amount(&self, current_time: i64) -> (r: Result<u64, FactoryError>)
        ensures
            r == vested_result(*self, current_time),
    {
        let now = current_time as i128;
        let start = self.start_time as i128;
        let cliff = self.cliff_seconds as i128;
        let duration = self.duration_seconds as i128;
        if now < start + cliff {
            return Ok(0);
        }
        let since: i128 = now - start;
        if since >= duration {
            return Ok(self.total_amount);
        }
        let span: i128 = duration - cliff;
        let total = self.total_amount;
        if since < 0 {
            if total == 0 {
                proof {
                    let (e, d) = (since as int, span as int);
                    assert(0 * e / d == 0) by (nonlinear_arith)
                        requires
                            d > 0,
                    ;
                }
                return Ok(0);
            }
            proof {
                let (a, e, d) = (total as int, since as int, span as int);
                assert(a * e / d < 0) by (nonlinear_arith)
                    requires
                        a >= 1,
                        e < 0,
                        d > 0,
                ;
            }
            return Err(FactoryError::Underflow);
        }
        proof {
            let (a, e) = (total as int, since as int);
            assert(a * e <= u64::MAX * (i64::MAX as int)) by (nonlinear_arith)
                requires
                    0 <= a <= u64::MAX,
                    0 <= e <= i64::MAX,
            ;
        }
        let vested: u128 = (total as u128) * (since as u128) / (span as u128);
        if vested > u64::MAX as u128 {
            return Err(FactoryError::Overflow);
        }
        Ok(vested as u64)
    }

    /// Amount that a claim at `current_time` releases, as `claimable_result` states.
    pub fn calculate_claimable_amount(&self, current_time: i64) -> (r: Result<u64, FactoryError>)
        ensures
            r == claimable_result(*self, current_time),
    {
        let vested = self.calculate_vested_amount(current_time)?;
        Ok(vested.saturating_sub(self.claimed_amount))
    }
}

/// Configuration of a new sale.
#[derive(Debug, Clone, Copy)]
pub struct CreateLaunchArgs {
    pub initial_price: u64,
    pub slope: u64,
    pub pricing_model: PricingModel,
    pub max_tokens: u64,
    pub launch_start_time: i64,
    pub launch_end_time: i64,
    pub vesting_enabled: bool,
    pub vesting_duration_seconds: i64,
    pub vesting_cliff_seconds: i64,
    pub anti_bot_level: AntiBotLevel,
    pub min_purchase_amount: u64,
    pub max_purchase_amount: u64,
    pub purchase_cooldown_seconds: i64,
    pub affiliate_fee_bps: u16,
    pub platform_fee_bps: u16,
    pub platform_fee_recipient: Address,
}

/// A vesting claim; the whole claimable amount is released whatever `amount` says.
#[derive(Debug, Clone, Copy)]
pub struct ClaimVestedTokensArgs {
    pub amount: u64,
}

/// Changes to a running sale; `None` leaves a setting as it is.
#[derive(Debug, Clone, Copy)]
pub struct UpdateLaunchArgs {
    pub new_end_time: Option<i64>,
    pub new_max_tokens: Option<u64>,
    pub new_min_purchase_amount: Option<u64>,
    pub new_max_purchase_amount: Option<u64>,
}

/// The configuration error of `args` at `now`, if any.
pub open spec fn launch_config_error(args: CreateLaunchArgs, now: i64) -> Option<FactoryError> {
    if args.launch_start_time < now || args.launch_end_time <= args.launch_start_time {
        Some(FactoryError::InvalidLaunchTime)
    } else if args.affiliate_fee_bps > MAX_RATE_BPS || args.platform_fee_bps > MAX_RATE_BPS {
        Some(FactoryError::InvalidFeeConfig)
    } else if args.vesting_enabled && (args.vesting_duration_seconds < MIN_VESTING_DURATION_SECONDS
        || args.vesting_duration_seconds > MAX_VESTING_DURATION_SECONDS
        || args.vesting_cliff_seconds > args.vesting_duration_seconds) {
        Some(FactoryError::InvalidVestingParams)
    } else {
        None
    }
}

/// The sale record that `create_launch` makes from `args` at `now`.
pub open spec fn launch_from(
    authority: Address,
    token_mint: Address,
    sol_vault_bump: u8,
    args: CreateLaunchArgs,
    now: i64,
) -> LaunchState {
    LaunchState {
        authority,
        token_mint,
        sol_vault_bump,
        pricing_model: args.pricing_model,
        initial_price: args.initial_price,
        slope: args.slope,
        tokens_sold: 0,
        vesting_enabled: args.vesting_enabled,
        vesting_duration_seconds: args.vesting_duration_seconds,
        vesting_cliff_seconds: args.vesting_cliff_seconds,
        anti_bot_level: args.anti_bot_level,
        min_purchase_amount: args.min_purchase_amount,
        max_purchase_amount: args.max_purchase_amount,
        purchase_cooldown_seconds: args.purchase_cooldown_seconds,
        last_purchase_timestamp: now,
        max_tokens: args.max_tokens,
        launch_start_time: args.launch_start_time,
        launch_end_time: args.launch_end_time,
        affiliate_fee_bps: args.affiliate_fee_bps,
        platform_fee_bps: args.platform_fee_bps,
        platform_fee_recipient: args.platform_fee_recipient,
        total_sol_collected: 0,
        total_fees_collected: 0,
        purchase_count: 0,
    }
}

/// Creates a sale of `token_mint` run by `authority`. `InvalidLaunchTime` unless
/// `now <= start < end`; `InvalidFeeConfig` when a fee exceeds 2000 bps;
/// `InvalidVestingParams` when vesting is enabled with a duration outside one day to one
/// year or a cliff longer than the duration. Counters start at zero.
pub fn create_launch(
    authority: Address,
    token_mint: Address,
    sol_vault_bump: u8,
    args: CreateLaunchArgs,
    now: i64,
) -> (r: Result<LaunchState, FactoryError>)
    ensures
        match launch_config_error(args, now) {
            Some(e) => r == Err::<LaunchState, FactoryError>(e),
            None => r == Ok::<LaunchState, FactoryError>(
                launch_from(authority, token_mint, sol_vault_bump, args, now),
            ),
        },
{
    if args.launch_start_time < now || args.launch_end_time <= args.launch_start_time {
        return Err(FactoryError::InvalidLaunchTime);
    }
    if args.affiliate_fee_bps > MAX_RATE_BPS || args.platform_fee_bps > MAX_RATE_BPS {
        return Err(FactoryError::InvalidFeeConfig);
    }
    if args.vesting_enabled {
        if args.vesting_duration_seconds < MIN_VESTING_DURATION_SECONDS
            || args.vesting_duration_seconds > MAX_VESTING_DURATION_SECONDS
            || args.vesting_cliff_seconds > args.vesting_duration_seconds {
            return Err(FactoryError::InvalidVestingParams);
        }
    }
    Ok(
        LaunchState {
            authority,
            token_mint,
            sol_vault_bump,
            pricing_model: args.pricing_model,
            initial_price: args.initial_price,
            slope: args.slope,
            tokens_sold: 0,
            vesting_enabled: args.vesting_enabled,
            vesting_duration_seconds: args.vesting_duration_seconds,
            vesting_cliff_seconds: args.vesting_cliff_seconds,
            anti_bot_level: args.anti_bot_level,
            min_purchase_amount: args.min_purchase_amount,
            max_purchase_amount: args.max_purchase_amount,
            purchase_cooldown_seconds: args.purchase_cooldown_seconds,
            last_purchase_timestamp: now,
            max_tokens: args.max_tokens,
            launch_start_time: args.launch_start_time,
            launch_end_time: args.launch_end_time,
            affiliate_fee_bps: args.affiliate_fee_bps,
            platform_fee_bps: args.platform_fee_bps,
            platform_fee_recipient: args.platform_fee_recipient,
            total_sol_collected: 0,
            total_fees_collected: 0,
            purchase_count: 0,
        },
    )
}

/// Releases the whole vault balance to the sale's authority: `AuthorityMismatch` unless
/// `signer` is the authority, `InvalidAmount` when the vault is empty; otherwise the
/// lamports to transfer.
pub fn withdraw_sol(state: &LaunchState, signer: Address, vault_lamports: u64) -> (r: Result<
    u64,
    FactoryError,
>)
    ensures
        signer != state.authority ==> r == Err::<u64, FactoryError>(FactoryError::AuthorityMismatch),
        signer == state.authority && vault_lamports == 0 ==> r == Err::<u64, FactoryError>(
            FactoryError::InvalidAmount,
        ),
        signer == state.authority && vault_lamports > 0 ==> r == Ok::<u64, FactoryError>(
            vault_lamports,
        ),
{
    if signer != state.authority {
        return Err(FactoryError::AuthorityMismatch);
    }
    proof {
        lemma_address_ext(signer, state.authority);
    }
    if vault_lamports == 0 {
        return Err(FactoryError::InvalidAmount);
    }
    Ok(vault_lamports)
}

/// Releases what has vested to the beneficiary: `AuthorityMismatch` unless `signer` is
/// the beneficiary, the error of `claimable_result`, `NoTokensToClaim` when nothing is
/// claimable. On success the amount is added to what was claimed, the claim time is
/// recorded, and the amount to transfer is returned.
pub fn claim_vested_tokens(
    vesting: &mut VestingSchedule,
    signer: Address,
    _args: ClaimVestedTokensArgs,
    now: i64,
) -> (r: Result<u64, FactoryError>)
    ensures
        signer != old(vesting).beneficiary ==> r == Err::<u64, FactoryError>(
            FactoryError::AuthorityMismatch,
        ),
        signer == old(vesting).beneficiary ==> match claimable_result(*old(vesting), now) {
            Err(e) => r == Err::<u64, FactoryError>(e),
            Ok(c) => if c == 0 {
                r == Err::<u64, FactoryError>(FactoryError::NoTokensToClaim)
            } else {
                r == Ok::<u64, FactoryError>(c)
            },
        },
        r is Err ==> *final(vesting) == *old(vesting),
        r matches Ok(c) ==> *final(vesting) == (VestingSchedule {
            claimed_amount: (old(vesting).claimed_amount + c) as u64,
            last_claim_time: now,
            ..*old(vesting)
        }),
{
    if signer != vesting.beneficiary {
        return Err(FactoryError::AuthorityMismatch);
    }
    proof {
        lemma_address_ext(signer, vesting.beneficiary);
    }
    let claimable = vesting.calculate_claimable_amount(now)?;
    if claimable == 0 {
        return Err(FactoryError::NoTokensToClaim);
    }
    vesting.claimed_amount = vesting.claimed_amount + claimable;
    vesting.last_claim_time = now;
    Ok(claimable)
}

/// The error of an update of the sale by `signer` at `now`, if any.
pub open spec fn update_launch_error(s: LaunchState, signer: Address, args: UpdateLaunchArgs, now: i64) -> Option<
    FactoryError,
> {
    if signer != s.authority {
        Some(FactoryError::AuthorityMismatch)
    } else if args.new_end_time matches Some(end) && end <= now {
        Some(FactoryError::InvalidLaunchTime)
    } else if args.new_max_tokens matches Some(m) && m < s.tokens_sold {
        Some(FactoryError::InvalidAmount)
    } else {
        None
    }
}

/// The sale after the changes of `args`.
pub open spec fn launch_updated(s: LaunchState, args: UpdateLaunchArgs) -> LaunchState {
    LaunchState {
        launch_end_time: match args.new_end_time {
            Some(e) => e,
            None => s.launch_end_time,
        },
        max_tokens: match args.new_max_tokens {
            Some(m) => m,
            None => s.max_tokens,
        },
        min_purchase_amount: match args.new_min_purchase_amount {
            Some(m) => m,
            None => s.min_purchase_amount,
        },
        max_purchase_amount: match args.new_max_purchase_amount {
            Some(m) => m,
            None => s.max_purchase_amount,
        },
        ..s
    }
}

/// Changes a running sale: `AuthorityMismatch` unless `signer` is the authority,
/// `InvalidLaunchTime` for a new end not after `now`, `InvalidAmount` for a new supply
/// below what was sold. Nothing changes on failure.
pub fn update_launch(state: &mut LaunchState, signer: Address, args: UpdateLaunchArgs, now: i64) -> (r:
    Result<(), FactoryError>)
    ensures
        match update_launch_error(*old(state), signer, args, now) {
            Some(e) => r == Err::<(), FactoryError>(e) && *final(state) == *old(state),
            None => r is Ok && *final(state) == launch_updated(*old(state), args),
        },
        old(state).tokens_sold <= old(state).max_tokens ==> final(state).tokens_sold
            <= final(state).max_tokens,
{
    if signer != state.authority {
        return Err(FactoryError::AuthorityMismatch);
    }
    proof {
        lemma_address_ext(signer, state.authority);
    }
    if let Some(end) = args.new_end_time {
        if end <= now {
            return Err(FactoryError::InvalidLaunchTime);
        }
    }
    if let Some(m) = args.new_max_tokens {
        if m < state.tokens_sold {
            return Err(FactoryError::InvalidAmount);
        }
    }
    if let Some(end) = args.new_end_time {
        state.launch_end_time = end;
    }
    if let Some(m) = args.new_max_tokens {
        state.max_tokens = m;
    }
    if let Some(m) = args.new_min_purchase_amount {
        state.min_purchase_amount = m;
    }
    if let Some(m) = args.new_max_purchase_amount {
        state.max_purchase_amount = m;
    }
    Ok(())
}

/// The accounts of a purchase that the sale logic reads: the sale record's own address
/// and the buyer.
#[derive(Debug, Clone, Copy)]
pub struct BuyTokens {
    pub launch_state: Address,
    pub buyer: Address,
}

/// Amounts of one purchase. The caller moves `platform_fee` lamports to the platform
/// recipient and `net_sol_amount` to the sale vault, mints `tokens_to_mint` to the buyer
/// (or to the vesting vault when `vested`), and mints `commission_amount` to the affiliate
/// when one was named.
#[derive(Debug, Clone, Copy, PartialEq, Eq, Structural)]
pub struct Purchase {
    pub price: u64,
    pub tokens_to_mint: u64,
    pub platform_fee: u64,
    pub affiliate_fee: u64,
    pub net_sol_amount: u64,
    pub commission_amount: u64,
    pub vested: bool,
}

/// Fee at `bps` on `sol_amount` when it `applies`, else zero.
pub open spec fn fee_of(sol_amount: u64, bps: u16, applies: bool) -> int {
    if applies {
        bps_share(sol_amount as int, bps as int)
    } else {
        0
    }
}

/// Price, tokens and fees of a purchase of `sol_amount` at `now`, or the error that
/// rejects it before any affiliate is involved.
pub open spec fn purchase_quote(s: LaunchState, sol_amount: u64, with_affiliate: bool, now: i64) -> Result<
    Purchase,
    FactoryError,
> {
    if sol_amount == 0 {
        Err(FactoryError::InvalidAmount)
    } else if !(s.launch_start_time <= now <= s.launch_end_time) {
        Err(FactoryError::LaunchNotActive)
    } else if s.tokens_sold >= s.max_tokens {
        Err(FactoryError::MaxSupplyReached)
    } else if anti_bot_error(s, sol_amount, now) is Some {
        Err(anti_bot_error(s, sol_amount, now).unwrap())
    } else {
        match price_at(s, now) {
            None => Err(FactoryError::Overflow),
            Some(price) => {
                let tokens = tokens_for(sol_amount as int, price);
                let platform_fee = fee_of(sol_amount, s.platform_fee_bps, s.platform_fee_bps > 0);
                let affiliate_fee = fee_of(sol_amount, s.affiliate_fee_bps, with_affiliate);
                if price == 0 {
                    Err(FactoryError::InvalidAmount)
                } else if tokens > u64::MAX {
                    Err(FactoryError::Overflow)
                } else if tokens == 0 {
                    Err(FactoryError::InsufficientFunds)
                } else if s.tokens_sold + tokens > u64::MAX {
                    Err(FactoryError::Overflow)
                } else if s.tokens_sold + tokens > s.max_tokens {
                    Err(FactoryError::MaxSupplyReached)
                } else if platform_fee > u64::MAX || affiliate_fee > u64::MAX {
                    Err(FactoryError::Overflow)
                } else if platform_fee + affiliate_fee > sol_amount {
                    Err(FactoryError::FeeCalculationOverflow)
                } else {
                    Ok(
                        Purchase {
                            price: price as u64,
                            tokens_to_mint: tokens as u64,
                            platform_fee: platform_fee as u64,
                            affiliate_fee: affiliate_fee as u64,
                            net_sol_amount: (sol_amount - platform_fee - affiliate_fee) as u64,
                            commission_amount: 0,
                            vested: false,
                        },
                    )
                }
            },
        }
    }
}

/// Outcome of a whole purchase: the quote, then the affiliate's commission when
/// `affiliate_key` names one (`AffiliateMismatch` when it is not the record's affiliate,
/// `Overflow` when the commission ledger overflows), then the sale's counters.
pub open spec fn purchase_outcome(
    s: LaunchState,
    info: AffiliateInfo,
    sol_amount: u64,
    affiliate_key: Option<Address>,
    enable_vesting: bool,
    now: i64,
) -> Result<Purchase, FactoryError> {
    match purchase_quote(s, sol_amount, affiliate_key is Some, now) {
        Err(e) => Err(e),
        Ok(q) => {
            let commission: Result<u64, FactoryError> = match affiliate_key {
                None => Ok(0),
                Some(k) => if k != info.affiliate_key {
                    Err(FactoryError::AffiliateMismatch)
                } else {
                    match commission_outcome(info, q.tokens_to_mint, now) {
                        Some((c, _)) => Ok(c),
                        None => Err(FactoryError::Overflow),
                    }
                },
            };
            match commission {
                Err(e) => Err(e),
                Ok(c) => if s.total_sol_collected + q.net_sol_amount > u64::MAX
                    || s.total_fees_collected + q.platform_fee > u64::MAX || s.purchase_count + 1
                    > u64::MAX {
                    Err(FactoryError::Overflow)
                } else {
                    Ok(Purchase { commission_amount: c, vested: enable_vesting, ..q })
                },
            }
        },
    }
}

/// The sale record after purchase `p` at `now`.
pub open spec fn launch_after_purchase(s: LaunchState, p: Purchase, now: i64) -> LaunchState {
    LaunchState {
        tokens_sold: (s.tokens_sold + p.tokens_to_mint) as u64,
        total_sol_collected: (s.total_sol_collected + p.net_sol_amount) as u64,
        total_fees_collected: (s.total_fees_collected + p.platform_fee) as u64,
        purchase_count: (s.purchase_count + 1) as u64,
        last_purchase_timestamp: now,
        ..s
    }
}

/// The vesting record that a vested purchase of `tokens` at `now` writes.
pub open spec fn vesting_for(s: LaunchState, ctx: BuyTokens, tokens: u64, now: i64) -> VestingSchedule {
    VestingSchedule {
        launch_state: ctx.launch_state,
        beneficiary: ctx.buyer,
        total_amount: tokens,
        claimed_amount: 0,
        start_time: now,
        duration_seconds: s.vesting_duration_seconds,
        cliff_seconds: s.vesting_cliff_seconds,
        last_claim_time: now,
    }
}

/// Buys tokens for `sol_amount` lamports at `now`, as one atomic step across the sale and
/// the commission ledger. The result is `purchase_outcome`; on failure nothing changes.
/// On success the sale's counters advance, the vesting record is rewritten when
/// `enable_vesting`, and the named affiliate's record is updated as `process_commission`
/// does, paying a commission at the affiliate's own rate on the tokens bought.
pub fn buy_tokens(
    state: &mut LaunchState,
    vesting: &mut VestingSchedule,
    affiliate_info: &mut AffiliateInfo,
    ctx: BuyTokens,
    sol_amount: u64,
    affiliate_key: Option<Address>,
    enable_vesting: bool,
    now: i64,
) -> (r: Result<Purchase, FactoryError>)
    ensures
        r == purchase_outcome(
            *old(state),
            *old(affiliate_info),
            sol_amount,
            affiliate_key,
            enable_vesting,
            now,
        ),
        r is Err ==> *final(state) == *old(state) && *final(vesting) == *old(vesting)
            && *final(affiliate_info) == *old(affiliate_info),
        r matches Ok(p) ==> {
            &&& *final(state) == launch_after_purchase(*old(state), p, now)
            &&& final(state).tokens_sold <= final(state).max_tokens
            &&& enable_vesting ==> *final(vesting) == vesting_for(*old(state), ctx, p.tokens_to_mint, now)
            &&& !enable_vesting ==> *final(vesting) == *old(vesting)
            &&& affiliate_key is None ==> *final(affiliate_info) == *old(affiliate_info)
            &&& affiliate_key is Some ==> commission_outcome(
                *old(affiliate_info),
                p.tokens_to_mint,
                now,
            ) == Some((p.commission_amount, *final(affiliate_info)))
        },
{
    if sol_amount == 0 {
        return Err(FactoryError::InvalidAmount);
    }
    if !state.is_launch_active(now) {
        return Err(FactoryError::LaunchNotActive);
    }
    if state.is_max_supply_reached() {
        return Err(FactoryError::MaxSupplyReached);
    }
    state.validate_purchase_amount(sol_amount, now)?;
    let price = state.calculate_current_price(now)?;
    if price == 0 {
        return Err(FactoryError::InvalidAmount);
    }
    let tokens = match calculate_tokens_to_mint(sol_amount, price) {
        Ok(t) => t,
        Err(_) => return Err(FactoryError::Overflow),
    };
    if tokens == 0 {
        return Err(FactoryError::InsufficientFunds);
    }
    let new_total = match state.tokens_sold.checked_add(tokens) {
        Some(t) => t,
        None => return Err(FactoryError::Overflow),
    };
    if new_total > state.max_tokens {
        return Err(FactoryError::MaxSupplyReached);
    }
    let platform_fee = if state.platform_fee_bps > 0 {
        match calculate_commission_amount(sol_amount, state.platform_fee_bps) {
            Ok(f) => f,
            Err(_) => return Err(FactoryError::Overflow),
        }
    } else {
        0
    };
    let affiliate_fee = if affiliate_key.is_some() {
        match calculate_commission_amount(sol_amount, state.affiliate_fee_bps) {
            Ok(f) => f,
            Err(_) => return Err(FactoryError::Overflow),
        }
    } else {
        0
    };
    if platform_fee > u64::MAX - affiliate_fee {
        proof {
            assert(fee_of(sol_amount, state.platform_fee_bps, state.platform_fee_bps > 0)
                == platform_fee);
        }
        return Err(FactoryError::FeeCalculationOverflow);
    }
    if platform_fee + affiliate_fee > sol_amount {
        return Err(FactoryError::FeeCalculationOverflow);
    }
    let net_sol_amount = sol_amount - platform_fee - affiliate_fee;
    let mut updated_info = *affiliate_info;
    let commission: u64 = match affiliate_key {
        None => 0,
        Some(key) => {
            if key != affiliate_info.affiliate_key {
                return Err(FactoryError::AffiliateMismatch);
            }
            proof {
                lemma_address_ext(key, affiliate_info.affiliate_key);
            }
            match process_commission(&mut updated_info, tokens, now) {
                Ok(c) => c,
                Err(_) => return Err(FactoryError::Overflow),
            }
        },
    };
    let total_sol = match state.total_sol_collected.checked_add(net_sol_amount) {
        Some(v) => v,
        None => return Err(FactoryError::Overflow),
    };
    let total_fees = match state.total_fees_collected.checked_add(platform_fee) {
        Some(v) => v,
        None => return Err(FactoryError::Overflow),
    };
    let count = match state.purchase_count.checked_add(1) {
        Some(v) => v,
        None => return Err(FactoryError::Overflow),
    };
    if enable_vesting {
        *vesting = VestingSchedule {
            launch_state: ctx.launch_state,
            beneficiary: ctx.buyer,
            total_amount: tokens,
            claimed_amount: 0,
            start_time: now,
            duration_seconds: state.vesting_duration_seconds,
            cliff_seconds: state.vesting_cliff_seconds,
            last_claim_time: now,
        };
    }
    *affiliate_info = updated_info;
    state.tokens_sold = new_total;
    state.total_sol_collected = total_sol;
    state.total_fees_collected = total_fees;
    state.purchase_count = count;
    state.last_purchase_timestamp = now;
    Ok(
        Purchase {
            price,
            tokens_to_mint: tokens,
            platform_fee,
            affiliate_fee,
            net_sol_amount,
            commission_amount: commission,
            vested: enable_vesting,
        },
    )
}

/// While tokens remain and the purchase window is open, the computed price of a whole
/// token is positive. This needs a positive initial price, and for a Dutch auction either
/// a positive floor or a time before the window's end (at the end the reduction reaches
/// the whole initial price and only the floor remains).
pub proof fn lemma_price_positive(s: LaunchState, now: i64)
    requires
        s.initial_price > 0,
        s.launch_start_time <= now <= s.launch_end_time,
        s.tokens_sold < s.max_tokens,
        s.pricing_model == PricingModel::DutchAuction ==> now < s.launch_end_time || s.slope > 0,
    ensures
        price_at(s, now) matches Some(p) ==> p > 0,
{
    let (a, b, n) = (s.initial_price as int, s.slope as int, s.tokens_sold as int);
    match s.pricing_model {
        PricingModel::LinearBondingCurve => {
            assert(b * n >= 0) by (nonlinear_arith)
                requires
                    b >= 0,
                    n >= 0,
            ;
        },
        PricingModel::ExponentialBondingCurve => {
            lemma_pow_ge_one(1 + b, n as nat);
            let f = pow(1 + b, n as nat);
            assert(a * f >= a) by (nonlinear_arith)
                requires
                    a > 0,
                    f >= 1,
            ;
        },
        PricingModel::FixedPrice => {},
        PricingModel::DutchAuction => {
            let t = s.launch_end_time - s.launch_start_time;
            let e = now - s.launch_start_time;
            if t > 0 && e > 0 && e < t {
                assert(a * e / t < a) by (nonlinear_arith)
                    requires
                        a > 0,
                        0 < e < t,
                ;
            }
        },
    }
}

/// One purchase request: lamports offered, the affiliate named, whether to vest, and the
/// time.
pub struct PurchaseRequest {
    pub sol_amount: u64,
    pub affiliate_key: Option<Address>,
    pub enable_vesting: bool,
    pub now: i64,
}

/// Sale and affiliate records after one request, as `buy_tokens` leaves them.
pub open spec fn after_request(s: LaunchState, info: AffiliateInfo, q: PurchaseRequest) -> (
    LaunchState,
    AffiliateInfo,
) {
    match purchase_outcome(s, info, q.sol_amount, q.affiliate_key, q.enable_vesting, q.now) {
        Err(_) => (s, info),
        Ok(p) => (
            launch_after_purchase(s, p, q.now),
            if q.affiliate_key is Some {
                match commission_outcome(info, p.tokens_to_mint, q.now) {
                    Some((_, updated)) => updated,
                    None => info,
                }
            } else {
                info
            },
        ),
    }
}

/// Sale and affiliate records after a sequence of requests.
pub open spec fn after_requests(s: LaunchState, info: AffiliateInfo, qs: Seq<PurchaseRequest>) -> (
    LaunchState,
    AffiliateInfo,
)
    decreases qs.len(),
{
    if qs.len() == 0 {
        (s, info)
    } else {
        let (s1, i1) = after_requests(s, info, qs.drop_last());
        after_request(s1, i1, qs.last())
    }
}

/// Tokens sold never exceed the supply on offer, across any sequence of purchases that
/// starts from a sale within its supply (as every created sale is).
pub proof fn lemma_sold_within_supply(s: LaunchState, info: AffiliateInfo, qs: Seq<PurchaseRequest>)
    requires
        s.tokens_sold <= s.max_tokens,
    ensures
        after_requests(s, info, qs).0.tokens_sold <= after_requests(s, info, qs).0.max_tokens,
    decreases qs.len(),
{
    if qs.len() > 0 {
        lemma_sold_within_supply(s, info, qs.drop_last());
        let (s1, i1) = after_requests(s, info, qs.drop_last());
        lemma_purchase_within_supply(s1, i1, qs.last());
    }
}

proof fn lemma_price_in_range(s: LaunchState, now: i64)
    ensures
        price_at(s, now) matches Some(p) ==> 0 <= p <= u64::MAX,
{
    let a = s.initial_price as int;
    match s.pricing_model {
        PricingModel::LinearBondingCurve => {
            let (b, n) = (s.slope as int, s.tokens_sold as int);
            assert(b * n >= 0) by (nonlinear_arith)
                requires
                    b >= 0,
                    n >= 0,
            ;
        },
        PricingModel::ExponentialBondingCurve => {
            lemma_pow_ge_one(1 + s.slope, s.tokens_sold as nat);
            let f = pow(1 + s.slope, s.tokens_sold as nat);
            assert(a * f >= 0) by (nonlinear_arith)
                requires
                    a >= 0,
                    f >= 1,
            ;
        },
        PricingModel::FixedPrice => {},
        PricingModel::DutchAuction => {
            let t = s.launch_end_time - s.launch_start_time;
            let e = now - s.launch_start_time;
            if t > 0 && e > 0 && e < t {
                assert(0 <= a * e / t <= a) by (nonlinear_arith)
                    requires
                        a >= 0,
                        0 < e < t,
                ;
            }
        },
    }
}

proof fn lemma_purchase_within_supply(s: LaunchState, info: AffiliateInfo, q: PurchaseRequest)
    requires
        s.tokens_sold <= s.max_tokens,
    ensures
        after_request(s, info, q).0.tokens_sold <= after_request(s, info, q).0.max_tokens,
{
    let with_affiliate = q.affiliate_key is Some;
    match purchase_quote(s, q.sol_amount, with_affiliate, q.now) {
        Err(_) => {},
        Ok(quote) => {
            lemma_price_in_range(s, q.now);
            if let Some(price) = price_at(s, q.now) {
                if price > 0 {
                    let t = q.sol_amount * 1_000_000_000int / price;
                    assert(t >= 0) by (nonlinear_arith)
                        requires
                            q.sol_amount >= 0,
                            price > 0,
                            t == q.sol_amount * 1_000_000_000int / price,
                    ;
                }
            }
        },
    }
}

/// Shape of the vesting curve: nothing is vested before the cliff ends, and everything
/// once the duration has passed (for a cliff no longer than the duration).
pub proof fn lemma_vesting_bounds(v: VestingSchedule, t: i64)
    ensures
        t < v.start_time + v.cliff_seconds ==> vested_at(v, t) == 0,
        v.cliff_seconds <= v.duration_seconds && t >= v.start_time + v.duration_seconds ==> vested_at(
            v,
            t,
        ) == v.total_amount,
{
}

/// Without a cliff the vested amount never decreases over time and never exceeds the
/// total. With a cliff the linear formula runs from the start but divides by the time
/// after the cliff, so it can exceed the total just before the end and then drop to it.
pub proof fn lemma_vesting_monotone(v: VestingSchedule, t1: i64, t2: i64)
    requires
        v.cliff_seconds == 0,
        t1 <= t2,
    ensures
        0 <= vested_at(v, t1) <= vested_at(v, t2) <= v.total_amount,
{
    let a = v.total_amount as int;
    let d = v.duration_seconds as int;
    let e1 = t1 - v.start_time;
    let e2 = t2 - v.start_time;
    if 0 <= e1 && e1 < d {
        assert(0 <= a * e1 / d <= a) by (nonlinear_arith)
            requires
                a >= 0,
                0 <= e1 < d,
        ;
    }
    if 0 <= e2 && e2 < d {
        assert(0 <= a * e2 / d <= a) by (nonlinear_arith)
            requires
                a >= 0,
                0 <= e2 < d,
        ;
    }
    if 0 <= e1 && e2 < d {
        assert(a * e1 / d <= a * e2 / d) by (nonlinear_arith)
            requires
                a >= 0,
                0 <= e1 <= e2,
                d > 0,
        ;
    }
}

/// Without a cliff, a claim never takes the claimed amount beyond the total.
pub proof fn lemma_claim_within_total(v: VestingSchedule, now: i64)
    requires
        v.cliff_seconds == 0,
        v.claimed_amount <= v.total_amount,
    ensures
        claimable_result(v, now) matches Ok(c) ==> v.claimed_amount + c <= v.total_amount,
{
    lemma_vesting_monotone(v, now, now);
}

} // verus!
