use genesis_launchpad::address::Address;
use genesis_launchpad::affiliate::{
    get_ai_suggested_rate, process_commission, register_affiliate, set_commission_rate,
    update_analytics, update_commission_rate_ai, AffiliateAnalytics, AffiliateError, AffiliateInfo,
    PerformanceTier, RegisterAffiliateArgs, UpdateAnalyticsArgs, UpdateCommissionRateArgs,
};
use genesis_launchpad::utils::{calculate_commission_amount, ErrorCode};

const NOW: i64 = 1_700_000_000;

fn addr(b: u8) -> Address {
    Address::new_from_array([b; 32])
}

fn reg(level: u8) -> RegisterAffiliateArgs {
    RegisterAffiliateArgs {
        parent_affiliate: None,
        referral_level: level,
        rate_caps_enabled: false,
        max_commission_rate_bps: 0,
        min_commission_rate_bps: 0,
    }
}

fn affiliate() -> AffiliateInfo {
    register_affiliate(addr(3), reg(1), NOW).unwrap()
}

#[test]
fn registration_rejects_levels_outside_one_to_five() {
    assert_eq!(register_affiliate(addr(3), reg(0), NOW).err(), Some(AffiliateError::InvalidReferralLevel));
    assert_eq!(register_affiliate(addr(3), reg(6), NOW).err(), Some(AffiliateError::InvalidReferralLevel));
    assert!(register_affiliate(addr(3), reg(5), NOW).is_ok());
    let self_parent = RegisterAffiliateArgs { parent_affiliate: Some(addr(3)), ..reg(2) };
    assert_eq!(register_affiliate(addr(3), self_parent, NOW).err(), Some(AffiliateError::CircularReferral));
    let other_parent = RegisterAffiliateArgs { parent_affiliate: Some(addr(4)), ..reg(2) };
    let info = register_affiliate(addr(3), other_parent, NOW).unwrap();
    assert_eq!(info.parent_affiliate, Some(addr(4)));
}

#[test]
fn registration_defaults() {
    let info = affiliate();
    assert_eq!(info.commission_rate_bps, 1000);
    assert_eq!(info.performance_tier, PerformanceTier::Bronze);
    assert_eq!((info.min_commission_rate_bps, info.max_commission_rate_bps), (50, 2000));
    assert_eq!(info.last_rate_update_time, NOW);
    let capped = RegisterAffiliateArgs {
        rate_caps_enabled: true,
        max_commission_rate_bps: 1500,
        min_commission_rate_bps: 100,
        ..reg(1)
    };
    let info = register_affiliate(addr(3), capped, NOW).unwrap();
    assert_eq!((info.min_commission_rate_bps, info.max_commission_rate_bps), (100, 1500));
}

#[test]
fn default_rate_commission_on_ten_tokens_is_one_token() {
    let mut info = affiliate();
    assert_eq!(process_commission(&mut info, 10_000_000_000, NOW + 1), Ok(1_000_000_000));
    assert_eq!(info.total_referred_volume, 10_000_000_000);
    assert_eq!(info.monthly_referred_volume, 10_000_000_000);
    assert_eq!(info.successful_referrals, 1);
    assert_eq!(info.last_activity_time, NOW + 1);
    assert_eq!(info.performance_tier, PerformanceTier::Platinum);
    assert_eq!(info.performance_score, (10_000 + 0 + 0) * 5);
}

#[test]
fn commission_formula_edges() {
    let mut info = affiliate();
    info.commission_rate_bps = 0;
    assert_eq!(process_commission(&mut info, 12_345, NOW), Ok(0));
    info.commission_rate_bps = 10_000;
    assert_eq!(process_commission(&mut info, 12_345, NOW), Ok(12_345));
    info.commission_rate_bps = 333;
    assert_eq!(process_commission(&mut info, 10_001, NOW), Ok(333));
    assert_eq!(calculate_commission_amount(10_001, 333), Ok(333));
    assert_eq!(calculate_commission_amount(u64::MAX, 65_535), Err(ErrorCode::Overflow));
    let before = info;
    info.total_referred_volume = u64::MAX;
    let saved = info;
    assert_eq!(process_commission(&mut info, 1, NOW), Err(AffiliateError::Overflow));
    assert_eq!(info.total_referred_volume, saved.total_referred_volume);
    assert_eq!(info.successful_referrals, before.successful_referrals);
}

#[test]
fn direct_rate_setting() {
    let mut info = affiliate();
    assert_eq!(set_commission_rate(&mut info, addr(9), 10), Err(AffiliateError::AuthorityMismatch));
    assert_eq!(set_commission_rate(&mut info, addr(3), 10_001), Err(AffiliateError::InvalidRate));
    assert_eq!(info.commission_rate_bps, 1000);
    assert_eq!(set_commission_rate(&mut info, addr(3), 10_000), Ok(()));
    assert_eq!(info.commission_rate_bps, 10_000);
}

#[test]
fn gated_rate_updates() {
    let mut info = affiliate();
    let to = |r: u16| UpdateCommissionRateArgs { new_rate_bps: r, ai_suggested: true };
    let later = NOW + 86_400;
    assert_eq!(update_commission_rate_ai(&mut info, addr(9), to(800), later), Err(AffiliateError::AuthorityMismatch));
    assert_eq!(update_commission_rate_ai(&mut info, addr(3), to(49), later), Err(AffiliateError::InvalidRate));
    assert_eq!(update_commission_rate_ai(&mut info, addr(3), to(2001), later), Err(AffiliateError::InvalidRate));
    assert_eq!(
        update_commission_rate_ai(&mut info, addr(3), to(800), NOW + 86_399),
        Err(AffiliateError::RateUpdateNotAllowed)
    );
    assert_eq!(update_commission_rate_ai(&mut info, addr(3), to(800), later), Ok(()));
    assert_eq!((info.commission_rate_bps, info.last_rate_update_time), (800, later));
    assert_eq!(info.can_update_rate(900, later + 10), Ok(false));
    assert_eq!(info.can_update_rate(900, later + 86_400), Ok(true));

    let capped = RegisterAffiliateArgs {
        rate_caps_enabled: true,
        max_commission_rate_bps: 1500,
        min_commission_rate_bps: 100,
        ..reg(1)
    };
    let mut c = register_affiliate(addr(3), capped, NOW).unwrap();
    assert_eq!(update_commission_rate_ai(&mut c, addr(3), to(99), later), Err(AffiliateError::RateBelowMinCap));
    assert_eq!(update_commission_rate_ai(&mut c, addr(3), to(1501), later), Err(AffiliateError::RateExceedsMaxCap));
    assert_eq!(c.commission_rate_bps, 1000);
}

#[test]
fn analytics_update_conversion_tier_and_ring() {
    let mut info = affiliate();
    info.successful_referrals = 30;
    let mut analytics = AffiliateAnalytics::new(addr(3));
    let report = UpdateAnalyticsArgs { volume: 150_000_000, clicks: 500 };
    assert_eq!(
        update_analytics(&mut info, &mut analytics, addr(9), report, NOW),
        Err(AffiliateError::AuthorityMismatch)
    );
    assert_eq!(update_analytics(&mut info, &mut analytics, addr(3), report, NOW), Ok(()));
    assert_eq!(info.total_clicks, 500);
    assert_eq!(info.conversion_rate_bps, 600);
    assert_eq!(info.performance_tier, PerformanceTier::Gold);
    assert_eq!(info.performance_score, (150 + 60 + 3) * 3);
    assert_eq!(analytics.daily_volume[0], 150_000_000);
    assert_eq!(analytics.daily_clicks[0], 500);
    assert_eq!(analytics.current_day_index, 1);
    assert_eq!(analytics.last_update, NOW);
    for _ in 0..29 {
        update_analytics(&mut info, &mut analytics, addr(3), UpdateAnalyticsArgs { volume: 0, clicks: 0 }, NOW)
            .unwrap();
    }
    assert_eq!(analytics.current_day_index, 0);
    assert_eq!(analytics.get_30_day_avg_volume(), 5_000_000);

    let mut big = affiliate();
    big.successful_referrals = 100;
    let mut a2 = AffiliateAnalytics::new(addr(3));
    assert_eq!(
        update_analytics(&mut big, &mut a2, addr(3), UpdateAnalyticsArgs { volume: 0, clicks: 1 }, NOW),
        Err(AffiliateError::Overflow)
    );
    assert_eq!(a2.current_day_index, 0);
    assert_eq!(big.total_clicks, 0);
}

#[test]
fn tiers_scores_and_suggestions() {
    let mut info = affiliate();
    info.total_referred_volume = 10_000_000;
    info.conversion_rate_bps = 200;
    info.calculate_performance_tier().unwrap();
    assert_eq!(info.performance_tier, PerformanceTier::Silver);
    assert_eq!(info.get_suggested_rate(), 750);
    info.conversion_rate_bps = 100;
    info.calculate_performance_tier().unwrap();
    assert_eq!(info.performance_tier, PerformanceTier::Bronze);
    assert_eq!(info.get_suggested_rate(), 450);
    info.total_referred_volume = 1_000_000_000;
    info.conversion_rate_bps = 500;
    info.calculate_performance_tier().unwrap();
    assert_eq!(info.get_suggested_rate(), 1350);
    info.update_performance_score().unwrap();
    assert_eq!(info.performance_score, (1000 + 50) * 5);
    info.total_referred_volume = u64::MAX;
    assert_eq!(info.update_performance_score(), Err(AffiliateError::Overflow));

    let event = get_ai_suggested_rate(&info, addr(3), NOW).unwrap();
    assert_eq!(event.suggested_rate_bps, 1350);
    assert_eq!(event.current_rate_bps, 1000);
    assert_eq!(event.timestamp, NOW);
    assert_eq!(get_ai_suggested_rate(&info, addr(4), NOW).err(), Some(AffiliateError::AuthorityMismatch));
}
