use genesis_launchpad::address::Address;
use genesis_launchpad::affiliate::{register_affiliate, AffiliateInfo, RegisterAffiliateArgs};
use genesis_launchpad::launch::{
    buy_tokens, claim_vested_tokens, create_launch, update_launch, withdraw_sol, AntiBotLevel,
    BuyTokens, ClaimVestedTokensArgs, CreateLaunchArgs, FactoryError, LaunchState, PricingModel,
    UpdateLaunchArgs, VestingSchedule,
};

const NOW: i64 = 1_700_000_000;

fn addr(b: u8) -> Address {
    Address::new_from_array([b; 32])
}

fn args() -> CreateLaunchArgs {
    CreateLaunchArgs {
        initial_price: 100_000_000,
        slope: 10_000_000,
        pricing_model: PricingModel::LinearBondingCurve,
        max_tokens: 1_000_000_000_000_000,
        launch_start_time: NOW,
        launch_end_time: NOW + 86_400,
        vesting_enabled: false,
        vesting_duration_seconds: 0,
        vesting_cliff_seconds: 0,
        anti_bot_level: AntiBotLevel::Disabled,
        min_purchase_amount: 0,
        max_purchase_amount: u64::MAX,
        purchase_cooldown_seconds: 0,
        affiliate_fee_bps: 0,
        platform_fee_bps: 0,
        platform_fee_recipient: addr(9),
    }
}

fn launch(a: CreateLaunchArgs) -> LaunchState {
    create_launch(addr(1), addr(2), 254, a, NOW).unwrap()
}

fn affiliate() -> AffiliateInfo {
    register_affiliate(
        addr(3),
        RegisterAffiliateArgs {
            parent_affiliate: None,
            referral_level: 1,
            rate_caps_enabled: false,
            max_commission_rate_bps: 0,
            min_commission_rate_bps: 0,
        },
        NOW,
    )
    .unwrap()
}

fn empty_vesting() -> VestingSchedule {
    VestingSchedule {
        launch_state: addr(0),
        beneficiary: addr(0),
        total_amount: 0,
        claimed_amount: 0,
        start_time: 0,
        duration_seconds: 0,
        cliff_seconds: 0,
        last_claim_time: 0,
    }
}

fn ctx() -> BuyTokens {
    BuyTokens { launch_state: addr(7), buyer: addr(4) }
}

fn full_flow() {
    let mut state = launch(args());
    let mut info = affiliate();
    let mut vesting = empty_vesting();
    let sol_to_spend = 1_000_000_000;
    let p = buy_tokens(
        &mut state,
        &mut vesting,
        &mut info,
        ctx(),
        sol_to_spend,
        Some(addr(3)),
        false,
        NOW,
    )
    .unwrap();
    assert_eq!(p.tokens_to_mint, 1_000_000_000 * 10, "Buyer should receive 10 tokens");
    assert_eq!(p.commission_amount, 1_000_000_000 * 1, "Affiliate should receive 1 token commission");
    assert_eq!(p.net_sol_amount, sol_to_spend, "SOL vault should contain the 1 SOL spent by the buyer");
    assert_eq!(state.tokens_sold, 10_000_000_000);
    assert_eq!(state.total_sol_collected, sol_to_spend);
    assert_eq!(state.purchase_count, 1);
    assert_eq!(info.total_referred_volume, 10_000_000_000);
    assert_eq!(info.successful_referrals, 1);
}

#[test]
fn test_full_flow_with_affiliate() {
    full_flow();
}

#[test]
fn smoke_full_flow_with_affiliate() {
    full_flow();
}

#[test]
fn linear_curve_first_purchase_mints_ten_tokens() {
    let state = launch(args());
    assert_eq!(state.calculate_current_price(NOW), Ok(100_000_000));
    let mut state = state;
    let mut info = affiliate();
    let mut vesting = empty_vesting();
    let p = buy_tokens(&mut state, &mut vesting, &mut info, ctx(), 1_000_000_000, None, false, NOW)
        .unwrap();
    assert_eq!(p.tokens_to_mint, 10_000_000_000);
    assert_eq!(p.commission_amount, 0);
    assert_eq!(info.total_referred_volume, 0);
}

#[test]
fn exponential_and_dutch_prices() {
    let mut s = launch(args());
    s.pricing_model = PricingModel::ExponentialBondingCurve;
    s.initial_price = 100;
    s.slope = 1;
    s.tokens_sold = 3;
    assert_eq!(s.calculate_current_price(NOW), Ok(800));
    s.tokens_sold = 200;
    assert_eq!(s.calculate_current_price(NOW), Err(FactoryError::Overflow));
    s.slope = 0;
    assert_eq!(s.calculate_current_price(NOW), Ok(100));

    let mut d = launch(args());
    d.pricing_model = PricingModel::DutchAuction;
    d.initial_price = 1000;
    d.slope = 100;
    d.launch_start_time = 0;
    d.launch_end_time = 100;
    assert_eq!(d.calculate_current_price(50), Ok(500));
    assert_eq!(d.calculate_current_price(95), Ok(100));
    assert_eq!(d.calculate_current_price(0), Ok(1000));

    let mut f = launch(args());
    f.pricing_model = PricingModel::FixedPrice;
    f.tokens_sold = 77;
    assert_eq!(f.calculate_current_price(NOW), Ok(100_000_000));
}

#[test]
fn fees_are_split_from_the_payment() {
    let mut a = args();
    a.platform_fee_bps = 500;
    a.affiliate_fee_bps = 1000;
    let mut state = launch(a);
    let mut info = affiliate();
    let mut vesting = empty_vesting();
    let p = buy_tokens(&mut state, &mut vesting, &mut info, ctx(), 1_000_000_000, Some(addr(3)), false, NOW)
        .unwrap();
    assert_eq!(p.platform_fee, 50_000_000);
    assert_eq!(p.affiliate_fee, 100_000_000);
    assert_eq!(p.net_sol_amount, 850_000_000);
    assert_eq!(state.total_fees_collected, 50_000_000);
    assert_eq!(state.total_sol_collected, 850_000_000);
}

#[test]
fn purchase_rejections_leave_state_unchanged() {
    let mut state = launch(args());
    let mut info = affiliate();
    let mut vesting = empty_vesting();
    let before = state.tokens_sold;
    assert_eq!(
        buy_tokens(&mut state, &mut vesting, &mut info, ctx(), 0, None, false, NOW),
        Err(FactoryError::InvalidAmount)
    );
    assert_eq!(
        buy_tokens(&mut state, &mut vesting, &mut info, ctx(), 1_000, None, false, NOW - 1),
        Err(FactoryError::LaunchNotActive)
    );
    let mut dear = args();
    dear.initial_price = 2_000_000_000;
    let mut s1 = launch(dear);
    assert_eq!(
        buy_tokens(&mut s1, &mut vesting, &mut info, ctx(), 1, None, false, NOW),
        Err(FactoryError::InsufficientFunds)
    );
    assert_eq!(
        buy_tokens(&mut state, &mut vesting, &mut info, ctx(), 1_000_000_000, Some(addr(8)), false, NOW),
        Err(FactoryError::AffiliateMismatch)
    );
    assert_eq!(state.tokens_sold, before);
    assert_eq!(info.successful_referrals, 0);
    assert_eq!(state.purchase_count, 0);

    let mut small = args();
    small.max_tokens = 5_000_000_000;
    let mut s2 = launch(small);
    assert_eq!(
        buy_tokens(&mut s2, &mut vesting, &mut info, ctx(), 1_000_000_000, None, false, NOW),
        Err(FactoryError::MaxSupplyReached)
    );
    s2.tokens_sold = 5_000_000_000;
    assert_eq!(
        buy_tokens(&mut s2, &mut vesting, &mut info, ctx(), 1_000, None, false, NOW),
        Err(FactoryError::MaxSupplyReached)
    );
}

#[test]
fn anti_bot_rules() {
    let mut a = args();
    a.anti_bot_level = AntiBotLevel::Advanced;
    a.min_purchase_amount = 100;
    a.max_purchase_amount = 2_000_000_000;
    a.purchase_cooldown_seconds = 60;
    let s = launch(a);
    assert_eq!(s.validate_purchase_amount(99, NOW + 100), Err(FactoryError::PurchaseAmountTooLow));
    assert_eq!(
        s.validate_purchase_amount(2_000_000_001, NOW + 100),
        Err(FactoryError::PurchaseAmountTooHigh)
    );
    assert_eq!(s.validate_purchase_amount(1_000, NOW + 10), Err(FactoryError::PurchaseCooldownActive));
    assert_eq!(s.validate_purchase_amount(1_000, NOW + 60), Ok(()));
    let mut basic = s;
    basic.anti_bot_level = AntiBotLevel::Basic;
    assert_eq!(basic.validate_purchase_amount(1_000, NOW + 10), Ok(()));
    let mut off = s;
    off.anti_bot_level = AntiBotLevel::Disabled;
    assert_eq!(off.validate_purchase_amount(1, NOW), Ok(()));
}

#[test]
fn create_launch_validation() {
    let mut a = args();
    a.launch_start_time = NOW - 1;
    assert_eq!(create_launch(addr(1), addr(2), 0, a, NOW).err(), Some(FactoryError::InvalidLaunchTime));
    let mut a = args();
    a.launch_end_time = a.launch_start_time;
    assert_eq!(create_launch(addr(1), addr(2), 0, a, NOW).err(), Some(FactoryError::InvalidLaunchTime));
    let mut a = args();
    a.platform_fee_bps = 2001;
    assert_eq!(create_launch(addr(1), addr(2), 0, a, NOW).err(), Some(FactoryError::InvalidFeeConfig));
    let mut a = args();
    a.vesting_enabled = true;
    a.vesting_duration_seconds = 86_399;
    assert_eq!(create_launch(addr(1), addr(2), 0, a, NOW).err(), Some(FactoryError::InvalidVestingParams));
    a.vesting_duration_seconds = 31_557_601;
    assert_eq!(create_launch(addr(1), addr(2), 0, a, NOW).err(), Some(FactoryError::InvalidVestingParams));
    a.vesting_duration_seconds = 86_400;
    a.vesting_cliff_seconds = 86_401;
    assert_eq!(create_launch(addr(1), addr(2), 0, a, NOW).err(), Some(FactoryError::InvalidVestingParams));
    a.vesting_cliff_seconds = 86_400;
    let s = create_launch(addr(1), addr(2), 7, a, NOW).unwrap();
    assert_eq!(s.tokens_sold, 0);
    assert_eq!(s.sol_vault_bump, 7);
    assert_eq!(s.last_purchase_timestamp, NOW);
}

#[test]
fn update_and_withdraw_are_authority_only() {
    let mut s = launch(args());
    s.tokens_sold = 500;
    let upd = UpdateLaunchArgs {
        new_end_time: Some(NOW + 10),
        new_max_tokens: Some(600),
        new_min_purchase_amount: Some(5),
        new_max_purchase_amount: None,
    };
    assert_eq!(update_launch(&mut s, addr(5), upd, NOW), Err(FactoryError::AuthorityMismatch));
    let bad_end = UpdateLaunchArgs { new_end_time: Some(NOW), ..upd };
    assert_eq!(update_launch(&mut s, addr(1), bad_end, NOW), Err(FactoryError::InvalidLaunchTime));
    let bad_max = UpdateLaunchArgs { new_max_tokens: Some(499), ..upd };
    assert_eq!(update_launch(&mut s, addr(1), bad_max, NOW), Err(FactoryError::InvalidAmount));
    assert_eq!(s.max_tokens, 1_000_000_000_000_000);
    assert_eq!(update_launch(&mut s, addr(1), upd, NOW), Ok(()));
    assert_eq!((s.launch_end_time, s.max_tokens, s.min_purchase_amount), (NOW + 10, 600, 5));
    assert_eq!(s.max_purchase_amount, u64::MAX);

    assert_eq!(withdraw_sol(&s, addr(5), 10), Err(FactoryError::AuthorityMismatch));
    assert_eq!(withdraw_sol(&s, addr(1), 0), Err(FactoryError::InvalidAmount));
    assert_eq!(withdraw_sol(&s, addr(1), 10), Ok(10));
}

fn schedule(total: u64, cliff: i64) -> VestingSchedule {
    VestingSchedule {
        launch_state: addr(7),
        beneficiary: addr(4),
        total_amount: total,
        claimed_amount: 0,
        start_time: 1_000,
        duration_seconds: 100,
        cliff_seconds: cliff,
        last_claim_time: 1_000,
    }
}

#[test]
fn vesting_curve() {
    let v = schedule(1_000, 0);
    assert_eq!(v.calculate_vested_amount(999), Ok(0));
    assert_eq!(v.calculate_vested_amount(1_050), Ok(500));
    assert_eq!(v.calculate_vested_amount(1_100), Ok(1_000));
    assert_eq!(v.calculate_vested_amount(5_000), Ok(1_000));
    let mut prev = 0;
    for t in 990..1_110 {
        let a = v.calculate_vested_amount(t).unwrap();
        assert!(a >= prev && a <= 1_000);
        prev = a;
    }
    let c = schedule(1_000, 20);
    assert_eq!(c.calculate_vested_amount(1_010), Ok(0));
    assert_eq!(c.calculate_vested_amount(1_040), Ok(500));
    // the linear part counts from the start but divides by the time after the cliff
    assert_eq!(c.calculate_vested_amount(1_090), Ok(1_125));
    let n = schedule(1_000, -10);
    assert_eq!(n.calculate_vested_amount(995), Err(FactoryError::Underflow));
}

#[test]
fn claims_release_vested_tokens_once() {
    let mut v = schedule(1_000, 0);
    let none = ClaimVestedTokensArgs { amount: 0 };
    assert_eq!(claim_vested_tokens(&mut v, addr(5), none, 1_050), Err(FactoryError::AuthorityMismatch));
    assert_eq!(claim_vested_tokens(&mut v, addr(4), none, 990), Err(FactoryError::NoTokensToClaim));
    assert_eq!(claim_vested_tokens(&mut v, addr(4), none, 1_050), Ok(500));
    assert_eq!(v.claimed_amount, 500);
    assert_eq!(v.last_claim_time, 1_050);
    assert_eq!(claim_vested_tokens(&mut v, addr(4), none, 1_050), Err(FactoryError::NoTokensToClaim));
    assert_eq!(v.calculate_claimable_amount(1_200), Ok(500));
    assert_eq!(claim_vested_tokens(&mut v, addr(4), none, 1_200), Ok(500));
    assert_eq!(v.claimed_amount, 1_000);
}

#[test]
fn vested_purchase_writes_schedule() {
    let mut a = args();
    a.vesting_enabled = true;
    a.vesting_duration_seconds = 86_400;
    a.vesting_cliff_seconds = 3_600;
    let mut state = launch(a);
    let mut info = affiliate();
    let mut vesting = empty_vesting();
    let p = buy_tokens(&mut state, &mut vesting, &mut info, ctx(), 1_000_000_000, None, true, NOW + 5)
        .unwrap();
    assert!(p.vested);
    assert_eq!(vesting.total_amount, p.tokens_to_mint);
    assert_eq!(vesting.beneficiary, addr(4));
    assert_eq!(vesting.launch_state, addr(7));
    assert_eq!((vesting.start_time, vesting.duration_seconds, vesting.cliff_seconds), (NOW + 5, 86_400, 3_600));
    assert_eq!(state.last_purchase_timestamp, NOW + 5);
}

#[test]
fn sold_never_exceeds_supply_over_purchases() {
    let mut a = args();
    a.max_tokens = 35_000_000_000;
    let mut state = launch(a);
    let mut info = affiliate();
    let mut vesting = empty_vesting();
    for _ in 0..10 {
        let _ = buy_tokens(&mut state, &mut vesting, &mut info, ctx(), 1_000_000_000, None, false, NOW);
        assert!(state.tokens_sold <= state.max_tokens);
    }
    assert_eq!(state.is_max_supply_reached(), false);
    assert!(state.is_launch_active(NOW));
    assert!(!state.is_launch_active(NOW + 86_401));
}

#[test]
fn prices_positive_within_window() {
    let models = [
        PricingModel::LinearBondingCurve,
        PricingModel::ExponentialBondingCurve,
        PricingModel::FixedPrice,
        PricingModel::DutchAuction,
    ];
    for model in models {
        let mut s = launch(args());
        s.pricing_model = model;
        s.slope = 0;
        s.tokens_sold = 5;
        for now in [NOW, NOW + 1, NOW + 43_200, NOW + 86_399] {
            let p = s.calculate_current_price(now).unwrap();
            assert!(p > 0);
        }
    }
    let mut d = launch(args());
    d.pricing_model = PricingModel::DutchAuction;
    d.slope = 0;
    assert_eq!(d.calculate_current_price(NOW + 86_400), Ok(0));
}
