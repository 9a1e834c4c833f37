use anchor_lang::prelude::Pubkey;
use genesis_launchpad::address::{
    derive_affiliate_info_address, derive_launch_state_address, derive_liquidity_pool_address,
    derive_sol_vault_address, Address,
};
use genesis_launchpad::advisor::{default_provider, needs_rate_update, Provider};
use genesis_launchpad::utils::{
    calculate_bonding_curve_price, calculate_tokens_to_mint, is_oracle_stale, is_vesting_complete,
    safe_add_u128, safe_div_u128, safe_mul_u128, safe_sub_u128, ErrorCode,
};

fn addr(b: u8) -> Address {
    Address::new_from_array([b; 32])
}

fn expected(seeds: &[&[u8]], program: u8) -> (Address, u8) {
    let (p, bump) = Pubkey::find_program_address(seeds, &Pubkey::new_from_array([program; 32]));
    (Address::new_from_array(p.to_bytes()), bump)
}

#[test]
fn derived_addresses_match_the_solana_derivation() {
    let (a, m, prog) = (addr(1), addr(2), addr(3));
    let launch = derive_launch_state_address(&a, &m, &prog).unwrap();
    assert_eq!(launch, expected(&[b"launch_state", &[1; 32], &[2; 32]], 3));
    assert_ne!(launch.0, a);
    assert_ne!(launch.0, prog);
    assert_eq!(derive_launch_state_address(&a, &m, &prog).unwrap(), launch);
    let vault = derive_sol_vault_address(&a, &m, &prog).unwrap();
    assert_eq!(vault, expected(&[b"sol_vault", &[1; 32], &[2; 32]], 3));
    assert_ne!(vault.0, launch.0);
    assert_eq!(derive_affiliate_info_address(&a, &prog).unwrap(), expected(&[b"affiliate_info", &[1; 32]], 3));
    assert_eq!(
        derive_liquidity_pool_address(&a, &m, &prog).unwrap(),
        expected(&[b"liquidity_pool", &[1; 32], &[2; 32]], 3)
    );
}

#[test]
fn safe_arithmetic() {
    assert_eq!(safe_mul_u128(3, 4), Ok(12));
    assert_eq!(safe_mul_u128(u128::MAX, 2), Err(ErrorCode::Overflow));
    assert_eq!(safe_div_u128(7, 2), Ok(3));
    assert_eq!(safe_div_u128(7, 0), Err(ErrorCode::DivisionByZero));
    assert_eq!(safe_add_u128(u128::MAX, 1), Err(ErrorCode::Overflow));
    assert_eq!(safe_add_u128(1, 2), Ok(3));
    assert_eq!(safe_sub_u128(1, 2), Err(ErrorCode::Underflow));
    assert_eq!(safe_sub_u128(5, 2), Ok(3));
}

#[test]
fn curve_and_mint_formulas() {
    assert_eq!(calculate_bonding_curve_price(100_000_000, 10_000_000, 0), Ok(100_000_000));
    assert_eq!(calculate_bonding_curve_price(100, 7, 3), Ok(121));
    assert_eq!(calculate_bonding_curve_price(1, u64::MAX, 1), Err(ErrorCode::Overflow));
    assert_eq!(calculate_tokens_to_mint(1_000_000_000, 100_000_000), Ok(10_000_000_000));
    assert_eq!(calculate_tokens_to_mint(1, 0), Err(ErrorCode::DivisionByZero));
    assert_eq!(calculate_tokens_to_mint(u64::MAX, 1), Err(ErrorCode::Overflow));
    assert_eq!(calculate_tokens_to_mint(1, 3_000_000_000), Ok(0));
}

#[test]
fn time_checks() {
    assert_eq!(is_oracle_stale(100, 300, 400), Ok(false));
    assert_eq!(is_oracle_stale(100, 300, 401), Ok(true));
    assert_eq!(is_oracle_stale(i64::MIN, 300, i64::MAX), Err(ErrorCode::InvalidTimestamp));
    assert_eq!(is_vesting_complete(100, 50, 149), Ok(false));
    assert_eq!(is_vesting_complete(100, 50, 150), Ok(true));
    assert_eq!(is_vesting_complete(i64::MAX, 1, 0), Err(ErrorCode::InvalidTimestamp));
}

#[test]
fn advisory_defaults() {
    assert_eq!(default_provider(), Provider::OpenRouter);
    assert!(needs_rate_update(1000, 1100));
    assert!(!needs_rate_update(1000, 1000));
}
