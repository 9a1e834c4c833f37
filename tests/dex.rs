use genesis_launchpad::address::Address;
use genesis_launchpad::basic_pool;
use genesis_launchpad::dex::{
    add_liquidity, create_pool, emergency_pause, swap, update_oracle_price, update_pool_config,
    AddLiquidity, BarterError, CreatePoolArgs, LiquidityPool, OracleProvider, UpdatePriceArgs,
};

const NOW: i64 = 1_700_000_000;

fn addr(b: u8) -> Address {
    Address::new_from_array([b; 32])
}

fn pool(fee_bps: u16, dynamic: bool, threshold: u64) -> LiquidityPool {
    create_pool(
        addr(1),
        addr(2),
        CreatePoolArgs {
            oracle_authority: addr(5),
            oracle_provider: OracleProvider::Hybrid,
            pyth_price_feed_a: None,
            pyth_price_feed_b: None,
            switchboard_feed: None,
            ai_oracle_program: None,
            fee_bps,
            dynamic_fee_enabled: dynamic,
            volatility_threshold: threshold,
        },
        1,
        2,
        NOW,
    )
}

fn prices(pyth: Option<u64>, sb: Option<u64>, ai: Option<u64>) -> UpdatePriceArgs {
    UpdatePriceArgs { pyth_price: pyth, switchboard_price: sb, ai_price: ai, price_confidence: None }
}

#[test]
fn new_pool_defaults() {
    let p = pool(30, false, 0);
    assert_eq!(p.oracle_price, 1_000_000_000);
    assert!(p.price_history.iter().all(|&x| x == 1_000_000_000));
    assert_eq!(p.history_index, 0);
    assert_eq!(p.calculate_weighted_price(), Ok(1_000_000_000));
    assert_eq!(p.calculate_volatility(), Ok(0));
}

#[test]
fn weighted_price_of_pyth_and_switchboard() {
    let mut p = pool(30, false, 0);
    let e = update_oracle_price(&mut p, addr(9), addr(5), prices(Some(1_100_000_000), Some(1_200_000_000), None), NOW + 1)
        .unwrap();
    assert_eq!(e.weighted_price, 1_146_666_666);
    assert_eq!(p.oracle_price, 1_146_666_666);
    assert_eq!(p.last_oracle_update, NOW + 1);
    assert_eq!(p.price_history[0], 1_146_666_666);
    assert_eq!(p.history_index, 1);
    assert_eq!(e.pool, addr(9));
    assert_eq!(
        update_oracle_price(&mut p, addr(9), addr(6), prices(Some(1), None, None), NOW).err(),
        Some(BarterError::InvalidOracleAuthority)
    );
    assert_eq!(p.oracle_price, 1_146_666_666);
    let e = update_oracle_price(&mut p, addr(9), addr(5), prices(None, None, Some(1_000_000_000)), NOW + 2).unwrap();
    assert_eq!(e.weighted_price, (1_100_000_000u64 * 40 + 1_200_000_000 * 35 + 1_000_000_000 * 25) / 100);
}

#[test]
fn volatility_and_dynamic_fee() {
    let mut p = pool(30, true, 500_000_000);
    p.price_history[0] = 100;
    p.price_history[1] = 102;
    p.price_history[2] = 104;
    p.history_index = 3;
    assert_eq!(p.calculate_volatility(), Ok(1_414_213_562));
    assert_eq!(p.calculate_dynamic_fee(), Ok(60));
    p.volatility_threshold = 100_000_000;
    assert_eq!(p.calculate_dynamic_fee(), Ok(150));
    p.fee_bps = 300;
    assert_eq!(p.calculate_dynamic_fee(), Ok(1000));
    p.volatility_threshold = 2_000_000_000;
    assert_eq!(p.calculate_dynamic_fee(), Ok(300));
    p.fee_bps = 1500;
    assert_eq!(p.calculate_dynamic_fee(), Ok(1000));
    p.dynamic_fee_enabled = false;
    assert_eq!(p.calculate_dynamic_fee(), Ok(1500));
    p.dynamic_fee_enabled = true;
    p.volatility_threshold = 0;
    assert_eq!(p.calculate_dynamic_fee(), Err(BarterError::DynamicFeeCalculationFailed));
    p.price_history[0] = 0;
    p.price_history[1] = u64::MAX;
    p.history_index = 2;
    assert_eq!(p.calculate_volatility(), Ok(u64::MAX));
}

#[test]
fn swap_a_for_b_with_fee() {
    let mut p = pool(30, false, 0);
    update_oracle_price(&mut p, addr(9), addr(5), prices(Some(2_000_000_000), None, None), NOW).unwrap();
    p.total_liquidity_b = 5_000;
    let o = swap(&mut p, addr(1), 1_000, 1_994, 10_000, 10_000, NOW + 300).unwrap();
    assert!(o.a_to_b);
    assert_eq!(o.amount_out_before_fee, 2_000);
    assert_eq!(o.fee_amount, 6);
    assert_eq!(o.amount_out, 1_994);
    assert_eq!(p.total_liquidity_a, 1_000);
    assert_eq!(p.total_liquidity_b, 5_000 - 1_994);
    assert_eq!(p.history_index, 2);
    assert_eq!(p.price_history[1], 2_000_000_000);
}

#[test]
fn swap_b_for_a_and_monotone_output() {
    let mut p = pool(30, false, 0);
    update_oracle_price(&mut p, addr(9), addr(5), prices(Some(2_000_000_000), None, None), NOW).unwrap();
    p.total_liquidity_a = 1_000_000;
    let mut last = 0;
    for amount in [0u64, 1, 2, 3, 10, 99, 1_000, 4_001] {
        let mut q = p;
        let o = swap(&mut q, addr(2), amount, 0, 1_000_000, 1_000_000, NOW).unwrap();
        assert!(!o.a_to_b);
        assert!(o.amount_out >= last);
        last = o.amount_out;
    }
    let mut q = p;
    let o = swap(&mut q, addr(2), 1_000, 0, 1_000_000, 1_000_000, NOW).unwrap();
    assert_eq!(o.amount_out_before_fee, 500);
    assert_eq!(o.amount_out, 499);
}

#[test]
fn swap_rejections() {
    let mut p = pool(30, false, 0);
    update_oracle_price(&mut p, addr(9), addr(5), prices(Some(2_000_000_000), None, None), NOW).unwrap();
    let snapshot = p;
    assert_eq!(swap(&mut p, addr(1), 1_000, 0, 0, 10_000, NOW + 301), Err(BarterError::OraclePriceStale));
    assert_eq!(swap(&mut p, addr(1), 1_000, 1_995, 0, 10_000, NOW), Err(BarterError::SlippageExceeded));
    assert_eq!(swap(&mut p, addr(1), 1_000, 0, 0, 1_993, NOW), Err(BarterError::InsufficientLiquidity));
    assert_eq!(swap(&mut p, addr(1), 1_000, 0, 0, 10_000, NOW), Err(BarterError::Underflow));
    assert_eq!(swap(&mut p, addr(1), u64::MAX, 0, 0, u64::MAX, NOW), Err(BarterError::Overflow));
    assert_eq!(p.history_index, snapshot.history_index);
    assert_eq!(p.total_liquidity_a, 0);
    let mut z = pool(30, false, 0);
    z.oracle_price = 0;
    assert_eq!(swap(&mut z, addr(1), 1_000, 0, 0, 10_000, NOW), Err(BarterError::NoValidPriceSources));
}

#[test]
fn pool_administration() {
    let mut p = pool(30, false, 0);
    assert_eq!(update_pool_config(&mut p, addr(6), 50, true, 7, NOW), Err(BarterError::InvalidOracleAuthority));
    assert_eq!(update_pool_config(&mut p, addr(5), 50, true, 7, NOW + 3), Ok(()));
    assert_eq!((p.fee_bps, p.dynamic_fee_enabled, p.volatility_threshold), (50, true, 7));
    assert_eq!(p.last_volatility_update, NOW + 3);
    assert_eq!(emergency_pause(&p, addr(6), true), Err(BarterError::InvalidOracleAuthority));
    assert_eq!(emergency_pause(&p, addr(5), true), Ok(()));
    let ctx = AddLiquidity {
        vault_a: addr(10),
        vault_b: addr(11),
        user_token_account_a: addr(12),
        user_token_account_b: addr(13),
        user: addr(14),
    };
    let (ta, tb) = add_liquidity(&ctx, 100, 200).unwrap();
    assert_eq!((ta.from, ta.to, ta.authority, ta.amount), (addr(12), addr(10), addr(14), 100));
    assert_eq!((tb.from, tb.to, tb.authority, tb.amount), (addr(13), addr(11), addr(14), 200));
    assert_eq!(p.is_oracle_stale(NOW + 300), Ok(false));
    assert_eq!(p.is_oracle_stale(NOW + 301), Ok(true));
}

#[test]
fn single_price_update() {
    let mut p = basic_pool::LiquidityPool {
        mint_a: addr(1),
        mint_b: addr(2),
        oracle_authority: addr(5),
        oracle_price: 1_000_000_000,
        last_oracle_update: NOW,
        vault_a_bump: 0,
        vault_b_bump: 0,
    };
    assert_eq!(basic_pool::update_oracle_price(&mut p, addr(6), 7, NOW + 1), Err(BarterError::InvalidOracleAuthority));
    assert_eq!(basic_pool::update_oracle_price(&mut p, addr(5), 1_200_000_000, NOW + 1), Ok(()));
    assert_eq!((p.oracle_price, p.last_oracle_update), (1_200_000_000, NOW + 1));
}

#[test]
fn price_history_wraps_after_twenty_four_updates() {
    let mut p = pool(30, true, 1);
    for i in 0..23u64 {
        update_oracle_price(&mut p, addr(9), addr(5), prices(Some(1_000_000_000 + i), None, None), NOW).unwrap();
    }
    assert_eq!(p.history_index, 23);
    assert!(p.calculate_volatility().unwrap() > 0);
    update_oracle_price(&mut p, addr(9), addr(5), prices(Some(5), None, None), NOW).unwrap();
    assert_eq!(p.history_index, 0);
    assert_eq!(p.price_history[23], 5);
    assert_eq!(p.calculate_volatility(), Ok(0));
    assert_eq!(p.calculate_dynamic_fee(), Ok(30));
}
