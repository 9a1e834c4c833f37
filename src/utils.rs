use vstd::prelude::*;

use crate::constants::{BPS_PRECISION, ORACLE_PRICE_PRECISION};

verus! {

/// Errors of the shared arithmetic and time helpers.
#[derive(Debug, Clone, Copy, PartialEq, Eq, Structural)]
pub enum ErrorCode {
    Overflow,
    Underflow,
    DivisionByZero,
    InvalidTimestamp,
}

/// Share of `amount` at `bps` basis points, rounded down.
pub open spec fn bps_share(amount: int, bps: int) -> int {
    amount * bps / (BPS_PRECISION as int)
}

/// Price on a linear bonding curve after `sold` units.
pub open spec fn linear_price(initial_price: int, slope: int, sold: int) -> int {
    initial_price + slope * sold
}

/// Base units of a nine-decimal token bought with `sol_amount` lamports at `price` lamports
/// per whole token.
pub open spec fn tokens_for(sol_amount: int, price: int) -> int {
    sol_amount * (ORACLE_PRICE_PRECISION as int) / price
}

/// `a * b`, or `Overflow` when the product does not fit in a `u128`.
pub fn safe_mul_u128(a: u128, b: u128) -> (r: Result<u128, ErrorCode>)
    ensures
        a * b <= u128::MAX ==> r == Ok::<u128, ErrorCode>((a * b) as u128),
        a * b > u128::MAX ==> r == Err::<u128, ErrorCode>(ErrorCode::Overflow),
{
    match a.checked_mul(b) {
        Some(v) => Ok(v),
        None => Err(ErrorCode::Overflow),
    }
}

/// `a / b` rounded down, or `DivisionByZero` when `b` is zero.
pub fn safe_div_u128(a: u128, b: u128) -> (r: Result<u128, ErrorCode>)
    ensures
        b != 0 ==> r == Ok::<u128, ErrorCode>(a / b),
        b == 0 ==> r == Err::<u128, ErrorCode>(ErrorCode::DivisionByZero),
{
    if b == 0 {
        return Err(ErrorCode::DivisionByZero);
    }
    Ok(a / b)
}

/// `a + b`, or `Overflow` when the sum does not fit in a `u128`.
pub fn safe_add_u128(a: u128, b: u128) -> (r: Result<u128, ErrorCode>)
    ensures
        a + b <= u128::MAX ==> r == Ok::<u128, ErrorCode>((a + b) as u128),
        a + b > u128::MAX ==> r == Err::<u128, ErrorCode>(ErrorCode::Overflow),
{
    match a.checked_add(b) {
        Some(v) => Ok(v),
        None => Err(ErrorCode::Overflow),
    }
}

/// `a - b`, or `Underflow` when `b` exceeds `a`.
pub fn safe_sub_u128(a: u128, b: u128) -> (r: Result<u128, ErrorCode>)
    ensures
        b <= a ==> r == Ok::<u128, ErrorCode>((a - b) as u128),
        b > a ==> r == Err::<u128, ErrorCode>(ErrorCode::Underflow),
{
    match a.checked_sub(b) {
        Some(v) => Ok(v),
        None => Err(ErrorCode::Underflow),
    }
}

/// `floor(amount * commission_bps / 10000)`, or `Overflow` when that does not fit in a `u64`
/// (possible only for rates above one hundred percent).
pub fn calculate_commission_amount(amount: u64, commission_bps: u16) -> (r: Result<u64, ErrorCode>)
    ensures
        bps_share(amount as int, commission_bps as int) <= u64::MAX ==> r == Ok::<u64, ErrorCode>(
            bps_share(amount as int, commission_bps as int) as u64,
        ),
        bps_share(amount as int, commission_bps as int) > u64::MAX ==> r == Err::<u64, ErrorCode>(
            ErrorCode::Overflow,
        ),
{
    proof {
        assert(amount * commission_bps <= u64::MAX * 65535) by (nonlinear_arith)
            requires
                amount <= u64::MAX,
                commission_bps <= 65535,
        ;
    }
    let product = safe_mul_u128(amount as u128, commission_bps as u128)?;
    let share = safe_div_u128(product, BPS_PRECISION as u128)?;
    if share > u64::MAX as u128 {
        return Err(ErrorCode::Overflow);
    }
    Ok(share as u64)
}

/// `initial_price + slope * tokens_sold`, or `Overflow` when that does not fit in a `u64`.
pub fn calculate_bonding_curve_price(initial_price: u64, slope: u64, tokens_sold: u64) -> (r: Result<
    u64,
    ErrorCode,
>)
    ensures
        linear_price(initial_price as int, slope as int, tokens_sold as int) <= u64::MAX ==> r
            == Ok::<u64, ErrorCode>(linear_price(initial_price as int, slope as int, tokens_sold as int) as u64),
        linear_price(initial_price as int, slope as int, tokens_sold as int) > u64::MAX ==> r
            == Err::<u64, ErrorCode>(ErrorCode::Overflow),
{
    proof {
        assert(slope * tokens_sold <= u64::MAX * u64::MAX) by (nonlinear_arith)
            requires
                slope <= u64::MAX,
                tokens_sold <= u64::MAX,
        ;
    }
    let increase = safe_mul_u128(slope as u128, tokens_sold as u128)?;
    let price = safe_add_u128(initial_price as u128, increase)?;
    if price > u64::MAX as u128 {
        return Err(ErrorCode::Overflow);
    }
    Ok(price as u64)
}

/// `floor(sol_amount * 10^9 / current_price)`: base units of a nine-decimal token
/// bought at `current_price` lamports per whole token.
pub fn calculate_tokens_to_mint(sol_amount: u64, current_price: u64) -> (r: Result<u64, ErrorCode>)
    ensures
        current_price == 0 ==> r == Err::<u64, ErrorCode>(ErrorCode::DivisionByZero),
        current_price > 0 && tokens_for(sol_amount as int, current_price as int) <= u64::MAX ==> r
            == Ok::<u64, ErrorCode>(tokens_for(sol_amount as int, current_price as int) as u64),
        current_price > 0 && tokens_for(sol_amount as int, current_price as int) > u64::MAX ==> r
            == Err::<u64, ErrorCode>(ErrorCode::Overflow),
{
    proof {
        assert(sol_amount * 1_000_000_000 <= u64::MAX * 1_000_000_000) by (nonlinear_arith)
            requires
                sol_amount <= u64::MAX,
        ;
    }
    let scaled = safe_mul_u128(sol_amount as u128, ORACLE_PRICE_PRECISION as u128)?;
    let tokens = safe_div_u128(scaled, current_price as u128)?;
    if tokens > u64::MAX as u128 {
        return Err(ErrorCode::Overflow);
    }
    Ok(tokens as u64)
}

/// Whether a price last updated at `last_update` is older than `max_age_seconds` at
/// `current_time`; `InvalidTimestamp` when the age does not fit in an `i64`.
pub fn is_oracle_stale(last_update: i64, max_age_seconds: i64, current_time: i64) -> (r: Result<
    bool,
    ErrorCode,
>)
    ensures
        i64::MIN <= current_time - last_update <= i64::MAX ==> r == Ok::<bool, ErrorCode>(
            current_time - last_update > max_age_seconds,
        ),
        !(i64::MIN <= current_time - last_update <= i64::MAX) ==> r == Err::<bool, ErrorCode>(
            ErrorCode::InvalidTimestamp,
        ),
{
    match current_time.checked_sub(last_update) {
        Some(age) => Ok(age > max_age_seconds),
        None => Err(ErrorCode::InvalidTimestamp),
    }
}

/// Whether a vesting period of `duration_seconds` begun at `start_time` has ended at
/// `current_time`; `InvalidTimestamp` when the end does not fit in an `i64`.
pub fn is_vesting_complete(start_time: i64, duration_seconds: i64, current_time: i64) -> (r: Result<
    bool,
    ErrorCode,
>)
    ensures
        i64::MIN <= start_time + duration_seconds <= i64::MAX ==> r == Ok::<bool, ErrorCode>(
            current_time >= start_time + duration_seconds,
        ),
        !(i64::MIN <= start_time + duration_seconds <= i64::MAX) ==> r == Err::<bool, ErrorCode>(
            ErrorCode::InvalidTimestamp,
        ),
{
    match start_time.checked_add(duration_seconds) {
        Some(end) => Ok(current_time >= end),
        None => Err(ErrorCode::InvalidTimestamp),
    }
}

} // verus!
