use vstd::prelude::*;

use crate::address::{lemma_address_ext, Address};
use crate::constants::{
    BPS_PRECISION, MAX_RATE_BPS, MIN_RATE_BPS, RATE_UPDATE_INTERVAL_SECONDS,
};
use crate::utils::bps_share;

verus! {

/// Errors of the commission ledger.
#[derive(Debug, Clone, Copy, PartialEq, Eq, Structural)]
pub enum AffiliateError {
    InvalidRate,
    Overflow,
    Underflow,
    AuthorityMismatch,
    RateExceedsMaxCap,
    RateBelowMinCap,
    RateUpdateNotAllowed,
    AnalyticsNotFound,
    TierUpgradeNotAllowed,
    InvalidPerformanceMetrics,
    InvalidReferralLevel,
    ParentAffiliateNotFound,
    CircularReferral,
    InvalidTimestamp,
    OutsideTimeWindow,
    AccountNotInitialized,
    AccountAlreadyExists,
}

/// Performance tier of an affiliate, from lowest to highest.
#[derive(Debug, Clone, Copy, PartialEq, Eq, Structural)]
pub enum PerformanceTier {
    Bronze,
    Silver,
    Gold,
    Platinum,
}

/// Record of one affiliate: referred volume, commission rate and its bounds, tier and
/// score, referral position and activity times.
#[derive(Debug, Clone, Copy)]
pub struct AffiliateInfo {
    pub affiliate_key: Address,
    pub total_referred_volume: u64,
    pub commission_rate_bps: u16,
    pub performance_tier: PerformanceTier,
    pub monthly_referred_volume: u64,
    pub quarterly_referred_volume: u64,
    pub yearly_referred_volume: u64,
    pub successful_referrals: u32,
    pub total_clicks: u32,
    pub conversion_rate_bps: u16,
    pub rate_caps_enabled: bool,
    pub max_commission_rate_bps: u16,
    pub min_commission_rate_bps: u16,
    pub ai_optimization_enabled: bool,
    pub referral_level: u8,
    pub parent_affiliate: Option<Address>,
    pub total_descendants: u32,
    pub active_descendants: u32,
    pub registration_time: i64,
    pub last_activity_time: i64,
    pub last_rate_update_time: i64,
    pub tier_upgrade_time: i64,
    pub monthly_volume_history: [u64; 12],
    pub performance_score: u32,
}

/// Tier earned by a referred volume and a conversion rate.
pub open spec fn tier_for(volume: u64, conversion_bps: u16) -> PerformanceTier {
    if volume >= 1_000_000_000 {
        PerformanceTier::Platinum
    } else if volume >= 100_000_000 && conversion_bps >= 500 {
        PerformanceTier::Gold
    } else if volume >= 10_000_000 && conversion_bps >= 200 {
        PerformanceTier::Silver
    } else {
        PerformanceTier::Bronze
    }
}

/// Score multiplier of a tier.
pub open spec fn tier_multiplier(tier: PerformanceTier) -> int {
    match tier {
        PerformanceTier::Bronze => 1,
        PerformanceTier::Silver => 2,
        PerformanceTier::Gold => 3,
        PerformanceTier::Platinum => 5,
    }
}

/// Performance score: one point per million of volume, per ten basis points of
/// conversion and per ten referrals, times the tier multiplier.
pub open spec fn score_for(volume: u64, conversion_bps: u16, referrals: u32, tier: PerformanceTier) -> int {
    (volume / 1_000_000 + conversion_bps / 10 + referrals / 10) * tier_multiplier(tier)
}

/// The record with its tier and score recomputed from its metrics, or `None` when the
/// score does not fit in a `u32`.
pub open spec fn rescored(info: AffiliateInfo) -> Option<AffiliateInfo> {
    let tier = tier_for(info.total_referred_volume, info.conversion_rate_bps);
    let score = score_for(
        info.total_referred_volume,
        info.conversion_rate_bps,
        info.successful_referrals,
        tier,
    );
    if score > u32::MAX {
        None
    } else {
        Some(AffiliateInfo { performance_tier: tier, performance_score: score as u32, ..info })
    }
}

/// Commission and updated record after a referred purchase of `purchased_tokens` at time
/// `now`, or `None` when a counter or the score would overflow.
pub open spec fn commission_outcome(info: AffiliateInfo, purchased_tokens: u64, now: i64) -> Option<
    (u64, AffiliateInfo),
> {
    let commission = bps_share(purchased_tokens as int, info.commission_rate_bps as int);
    if commission > u64::MAX || info.total_referred_volume + purchased_tokens > u64::MAX
        || info.monthly_referred_volume + purchased_tokens > u64::MAX
        || info.successful_referrals + 1 > u32::MAX {
        None
    } else {
        let counted = AffiliateInfo {
            total_referred_volume: (info.total_referred_volume + purchased_tokens) as u64,
            monthly_referred_volume: (info.monthly_referred_volume + purchased_tokens) as u64,
            successful_referrals: (info.successful_referrals + 1) as u32,
            last_activity_time: now,
            ..info
        };
        match rescored(counted) {
            Some(updated) => Some((commission as u64, updated)),
            None => None,
        }
    }
}

/// Rate suggested for a tier and conversion rate: the tier's base rate, raised by 100 bps
/// for a conversion of at least 500 bps or lowered by 50 bps for one of at most 100 bps,
/// kept within the global bounds.
pub open spec fn suggested_rate_for(tier: PerformanceTier, conversion_bps: u16) -> int {
    let base: int = match tier {
        PerformanceTier::Bronze => 500,
        PerformanceTier::Silver => 750,
        PerformanceTier::Gold => 1000,
        PerformanceTier::Platinum => 1250,
    };
    let adjustment: int = if conversion_bps >= 500 {
        100
    } else if conversion_bps <= 100 {
        -50
    } else {
        0
    };
    let raw = base + adjustment;
    if raw < MIN_RATE_BPS {
        MIN_RATE_BPS as int
    } else if raw > MAX_RATE_BPS {
        MAX_RATE_BPS as int
    } else {
        raw
    }
}

/// Whether the caps and the once-a-day rule admit `new_rate` at `now`.
pub open spec fn rate_update_allowed(info: AffiliateInfo, new_rate: u16, now: i64) -> bool {
    (!info.rate_caps_enabled || (info.min_commission_rate_bps <= new_rate
        && new_rate <= info.max_commission_rate_bps)) && now - info.last_rate_update_time
        >= RATE_UPDATE_INTERVAL_SECONDS
}

impl AffiliateInfo {
    /// Sets the tier from the referred volume and the conversion rate.
    pub fn calculate_performance_tier(&mut self) -> (r: Result<(), AffiliateError>)
        ensures
            r is Ok,
            *final(self) == (AffiliateInfo {
                performance_tier: tier_for(old(self).total_referred_volume, old(self).conversion_rate_bps),
                ..*old(self)
            }),
    {
        let volume = self.total_referred_volume;
        let conversion = self.conversion_rate_bps;
        self.performance_tier = if volume >= 1_000_000_000 {
            PerformanceTier::Platinum
        } else if volume >= 100_000_000 && conversion >= 500 {
            PerformanceTier::Gold
        } else if volume >= 10_000_000 && conversion >= 200 {
            PerformanceTier::Silver
        } else {
            PerformanceTier::Bronze
        };
        Ok(())
    }

    /// Sets the score from the metrics and the current tier; `Overflow`, with the record
    /// unchanged, when it does not fit in a `u32`.
    pub fn update_performance_score(&mut self) -> (r: Result<(), AffiliateError>)
        ensures
            ({
                let score = score_for(
                    old(self).total_referred_volume,
                    old(self).conversion_rate_bps,
                    old(self).successful_referrals,
                    old(self).performance_tier,
                );
                &&& score <= u32::MAX ==> r is Ok && *final(self) == (AffiliateInfo {
                    performance_score: score as u32,
                    ..*old(self)
                })
                &&& score > u32::MAX ==> r == Err::<(), AffiliateError>(AffiliateError::Overflow)
                    && *final(self) == *old(self)
            }),
    {
        let volume_score: u64 = self.total_referred_volume / 1_000_000;
        let conversion_score: u64 = (self.conversion_rate_bps / 10) as u64;
        let referral_score: u64 = (self.successful_referrals / 10) as u64;
        let multiplier: u64 = match self.performance_tier {
            PerformanceTier::Bronze => 1,
            PerformanceTier::Silver => 2,
            PerformanceTier::Gold => 3,
            PerformanceTier::Platinum => 5,
        };
        let sum: u64 = volume_score + conversion_score + referral_score;
        proof {
            assert(sum * multiplier <= 5 * (u64::MAX as int)) by (nonlinear_arith)
                requires
                    multiplier <= 5,
                    sum <= u64::MAX,
            ;
        }
        let score: u128 = sum as u128 * multiplier as u128;
        if score > u32::MAX as u128 {
            return Err(AffiliateError::Overflow);
        }
        self.performance_score = score as u32;
        Ok(())
    }

    /// Whether `new_rate` respects the record's caps (when enabled) and at least a day has
    /// passed since the last gated rate change.
    pub fn can_update_rate(&self, new_rate: u16, current_time: i64) -> (r: Result<bool, AffiliateError>)
        ensures
            r == Ok::<bool, AffiliateError>(rate_update_allowed(*self, new_rate, current_time)),
    {
        if self.rate_caps_enabled {
            if new_rate < self.min_commission_rate_bps || new_rate > self.max_commission_rate_bps {
                return Ok(false);
            }
        }
        let since: i128 = current_time as i128 - self.last_rate_update_time as i128;
        Ok(since >= RATE_UPDATE_INTERVAL_SECONDS as i128)
    }

    /// Commission rate suggested for the record's tier and conversion rate.
    pub fn get_suggested_rate(&self) -> (r: u16)
        ensures
            r == suggested_rate_for(self.performance_tier, self.conversion_rate_bps),
            MIN_RATE_BPS <= r <= MAX_RATE_BPS,
    {
        let base_rate: i32 = match self.performance_tier {
            PerformanceTier::Bronze => 500,
            PerformanceTier::Silver => 750,
            PerformanceTier::Gold => 1000,
            PerformanceTier::Platinum => 1250,
        };
        let adjustment: i32 = if self.conversion_rate_bps >= 500 {
            100
        } else if self.conversion_rate_bps <= 100 {
            -50
        } else {
            0
        };
        let raw = base_rate + adjustment;
        if raw < MIN_RATE_BPS as i32 {
            MIN_RATE_BPS
        } else if raw > MAX_RATE_BPS as i32 {
            MAX_RATE_BPS
        } else {
            raw as u16
        }
    }
}

/// Daily activity of one affiliate over the last thirty days, in ring buffers.
#[derive(Debug, Clone, Copy)]
pub struct AffiliateAnalytics {
    pub affiliate_key: Address,
    pub daily_volume: [u64; 30],
    pub daily_clicks: [u32; 30],
    pub last_update: i64,
    pub current_day_index: u8,
}

/// Sum of the first `n` entries of `s`.
pub open spec fn sum_prefix(s: Seq<u64>, n: int) -> int
    decreases n,
{
    if n <= 0 {
        0
    } else {
        sum_prefix(s, n - 1) + s[n - 1]
    }
}

impl AffiliateAnalytics {
    /// The ring buffers' cursor points into them.
    pub open spec fn wf(&self) -> bool {
        self.current_day_index < 30
    }

    /// An empty analytics record for `affiliate_key`.
    pub fn new(affiliate_key: Address) -> (r: AffiliateAnalytics)
        ensures
            r.wf(),
            r.affiliate_key == affiliate_key,
            r.current_day_index == 0,
            r.last_update == 0,
            forall|i: int| 0 <= i < 30 ==> r.daily_volume[i] == 0 && r.daily_clicks[i] == 0,
    {
        AffiliateAnalytics {
            affiliate_key,
            daily_volume: [0u64; 30],
            daily_clicks: [0u32; 30],
            last_update: 0,
            current_day_index: 0,
        }
    }

    /// Stores a day's volume and clicks at the cursor and advances it, wrapping at thirty.
    pub fn add_daily_stats(&mut self, volume: u64, clicks: u32)
        requires
            old(self).wf(),
        ensures
            final(self).wf(),
            final(self).daily_volume@ == old(self).daily_volume@.update(
                old(self).current_day_index as int,
                volume,
            ),
            final(self).daily_clicks@ == old(self).daily_clicks@.update(
                old(self).current_day_index as int,
                clicks,
            ),
            final(self).current_day_index == (old(self).current_day_index + 1) % 30,
            final(self).affiliate_key == old(self).affiliate_key,
            final(self).last_update == old(self).last_update,
    {
        let i = self.current_day_index as usize;
        self.daily_volume[i] = volume;
        self.daily_clicks[i] = clicks;
        self.current_day_index = ((i + 1) % 30) as u8;
    }

    /// Mean daily volume over the thirty slots, rounded down.
    pub fn get_30_day_avg_volume(&self) -> (r: u64)
        ensures
            r == sum_prefix(self.daily_volume@, 30) / 30,
    {
        let mut sum: u128 = 0;
        let mut i: usize = 0;
        while i < 30
            invariant
                0 <= i <= 30,
                sum == sum_prefix(self.daily_volume@, i as int),
                sum <= i * (u64::MAX as int),
            decreases 30 - i,
        {
            sum = sum + self.daily_volume[i] as u128;
            i = i + 1;
        }
        (sum / 30) as u64
    }
}

/// Options of a new affiliate registration.
#[derive(Debug, Clone, Copy)]
pub struct RegisterAffiliateArgs {
    pub parent_affiliate: Option<Address>,
    pub referral_level: u8,
    pub rate_caps_enabled: bool,
    pub max_commission_rate_bps: u16,
    pub min_commission_rate_bps: u16,
}

/// A gated commission-rate change.
#[derive(Debug, Clone, Copy)]
pub struct UpdateCommissionRateArgs {
    pub new_rate_bps: u16,
    pub ai_suggested: bool,
}

/// A day's activity report.
#[derive(Debug, Clone, Copy)]
pub struct UpdateAnalyticsArgs {
    pub volume: u64,
    pub clicks: u32,
}

/// Advisory event carrying the suggested commission rate of an affiliate.
#[derive(Debug, Clone, Copy)]
pub struct AISuggestedRateEvent {
    pub affiliate_key: Address,
    pub current_rate_bps: u16,
    pub suggested_rate_bps: u16,
    pub performance_tier: PerformanceTier,
    pub timestamp: i64,
}

/// `info` is the record that registering `affiliate` with `args` at `now` creates.
pub open spec fn is_registered(info: AffiliateInfo, affiliate: Address, args: RegisterAffiliateArgs, now: i64) -> bool {
    &&& info.affiliate_key == affiliate
    &&& info.total_referred_volume == 0
    &&& info.commission_rate_bps == 1000
    &&& info.performance_tier == PerformanceTier::Bronze
    &&& info.monthly_referred_volume == 0
    &&& info.quarterly_referred_volume == 0
    &&& info.yearly_referred_volume == 0
    &&& info.successful_referrals == 0
    &&& info.total_clicks == 0
    &&& info.conversion_rate_bps == 0
    &&& info.rate_caps_enabled == args.rate_caps_enabled
    &&& info.max_commission_rate_bps == if args.rate_caps_enabled {
        args.max_commission_rate_bps
    } else {
        MAX_RATE_BPS
    }
    &&& info.min_commission_rate_bps == if args.rate_caps_enabled {
        args.min_commission_rate_bps
    } else {
        MIN_RATE_BPS
    }
    &&& info.ai_optimization_enabled
    &&& info.referral_level == args.referral_level
    &&& info.parent_affiliate == args.parent_affiliate
    &&& info.total_descendants == 0
    &&& info.active_descendants == 0
    &&& info.registration_time == now
    &&& info.last_activity_time == now
    &&& info.last_rate_update_time == now
    &&& info.tier_upgrade_time == now
    &&& forall|i: int| 0 <= i < 12 ==> info.monthly_volume_history[i] == 0
    &&& info.performance_score == 0
}

/// Registers `affiliate`: `InvalidReferralLevel` unless the level is in 1..=5,
/// `CircularReferral` when the parent is the affiliate itself; otherwise a fresh record at
/// rate 1000 bps, tier Bronze, with the global bounds as caps when caps are disabled.
pub fn register_affiliate(affiliate: Address, args: RegisterAffiliateArgs, now: i64) -> (r: Result<
    AffiliateInfo,
    AffiliateError,
>)
    ensures
        !(1 <= args.referral_level <= 5) ==> r == Err::<AffiliateInfo, AffiliateError>(
            AffiliateError::InvalidReferralLevel,
        ),
        1 <= args.referral_level <= 5 && args.parent_affiliate == Some(affiliate) ==> r == Err::<
            AffiliateInfo,
            AffiliateError,
        >(AffiliateError::CircularReferral),
        1 <= args.referral_level <= 5 && args.parent_affiliate != Some(affiliate) ==> (r matches Ok(
            info,
        ) && is_registered(info, affiliate, args, now)),
{
    if args.referral_level == 0 || args.referral_level > 5 {
        return Err(AffiliateError::InvalidReferralLevel);
    }
    if let Some(parent) = args.parent_affiliate {
        if parent == affiliate {
            proof {
                lemma_address_ext(parent, affiliate);
            }
            return Err(AffiliateError::CircularReferral);
        }
    }
    let info = AffiliateInfo {
        affiliate_key: affiliate,
        total_referred_volume: 0,
        commission_rate_bps: 1000,
        performance_tier: PerformanceTier::Bronze,
        monthly_referred_volume: 0,
        quarterly_referred_volume: 0,
        yearly_referred_volume: 0,
        successful_referrals: 0,
        total_clicks: 0,
        conversion_rate_bps: 0,
        rate_caps_enabled: args.rate_caps_enabled,
        max_commission_rate_bps: if args.rate_caps_enabled {
            args.max_commission_rate_bps
        } else {
            MAX_RATE_BPS
        },
        min_commission_rate_bps: if args.rate_caps_enabled {
            args.min_commission_rate_bps
        } else {
            MIN_RATE_BPS
        },
        ai_optimization_enabled: true,
        referral_level: args.referral_level,
        parent_affiliate: args.parent_affiliate,
        total_descendants: 0,
        active_descendants: 0,
        registration_time: now,
        last_activity_time: now,
        last_rate_update_time: now,
        tier_upgrade_time: now,
        monthly_volume_history: [0u64; 12],
        performance_score: 0,
    };
    Ok(info)
}

/// Sets the commission rate directly, bypassing caps and timing: `AuthorityMismatch`
/// unless `signer` is the affiliate, `InvalidRate` above 10000 bps.
pub fn set_commission_rate(info: &mut AffiliateInfo, signer: Address, new_rate_bps: u16) -> (r: Result<
    (),
    AffiliateError,
>)
    ensures
        signer != old(info).affiliate_key ==> r == Err::<(), AffiliateError>(
            AffiliateError::AuthorityMismatch,
        ),
        signer == old(info).affiliate_key && new_rate_bps > BPS_PRECISION ==> r == Err::<
            (),
            AffiliateError,
        >(AffiliateError::InvalidRate),
        r is Err ==> *final(info) == *old(info),
        signer == old(info).affiliate_key && new_rate_bps <= BPS_PRECISION ==> r is Ok && *final(info)
            == (AffiliateInfo { commission_rate_bps: new_rate_bps, ..*old(info) }),
{
    if signer != info.affiliate_key {
        return Err(AffiliateError::AuthorityMismatch);
    }
    proof {
        lemma_address_ext(signer, info.affiliate_key);
    }
    if new_rate_bps as u64 > BPS_PRECISION {
        return Err(AffiliateError::InvalidRate);
    }
    info.commission_rate_bps = new_rate_bps;
    Ok(())
}

/// Pays the commission on a referred purchase of `purchased_tokens` at time `now`:
/// returns `floor(purchased_tokens * rate / 10000)`, the amount to mint to the affiliate,
/// and adds the purchase to the referred volumes and referral count, then recomputes tier
/// and score. `Overflow`, with the record unchanged, when a counter or the score would
/// overflow.
pub fn process_commission(info: &mut AffiliateInfo, purchased_tokens: u64, now: i64) -> (r: Result<
    u64,
    AffiliateError,
>)
    ensures
        match commission_outcome(*old(info), purchased_tokens, now) {
            Some((commission, updated)) => r == Ok::<u64, AffiliateError>(commission) && *final(info)
                == updated,
            None => r == Err::<u64, AffiliateError>(AffiliateError::Overflow) && *final(info) == *old(
                info,
            ),
        },
{
    proof {
        assert(purchased_tokens * info.commission_rate_bps <= u64::MAX * 65535) by (nonlinear_arith)
            requires
                purchased_tokens <= u64::MAX,
                info.commission_rate_bps <= 65535,
        ;
    }
    let commission: u128 = (purchased_tokens as u128) * (info.commission_rate_bps as u128)
        / BPS_PRECISION as u128;
    if commission > u64::MAX as u128 {
        return Err(AffiliateError::Overflow);
    }
    let mut updated = *info;
    updated.total_referred_volume = match updated.total_referred_volume.checked_add(purchased_tokens) {
        Some(v) => v,
        None => return Err(AffiliateError::Overflow),
    };
    updated.monthly_referred_volume = match updated.monthly_referred_volume.checked_add(
        purchased_tokens,
    ) {
        Some(v) => v,
        None => return Err(AffiliateError::Overflow),
    };
    updated.successful_referrals = match updated.successful_referrals.checked_add(1) {
        Some(v) => v,
        None => return Err(AffiliateError::Overflow),
    };
    updated.last_activity_time = now;
    updated.calculate_performance_tier()?;
    updated.update_performance_score()?;
    *info = updated;
    Ok(commission as u64)
}

/// Gated commission-rate change: `AuthorityMismatch` unless `signer` is the affiliate,
/// `InvalidRate` outside [50, 2000] bps, `RateBelowMinCap` / `RateExceedsMaxCap` outside
/// the record's own caps when enabled, `RateUpdateNotAllowed` within a day of the last
/// gated change. On success the rate and the time of the change are recorded.
pub fn update_commission_rate_ai(
    info: &mut AffiliateInfo,
    signer: Address,
    args: UpdateCommissionRateArgs,
    now: i64,
) -> (r: Result<(), AffiliateError>)
    ensures
        r == update_rate_check(*old(info), signer, args.new_rate_bps, now),
        r is Err ==> *final(info) == *old(info),
        r is Ok ==> *final(info) == (AffiliateInfo {
            commission_rate_bps: args.new_rate_bps,
            last_rate_update_time: now,
            ..*old(info)
        }),
{
    if signer != info.affiliate_key {
        return Err(AffiliateError::AuthorityMismatch);
    }
    proof {
        lemma_address_ext(signer, info.affiliate_key);
    }
    let rate = args.new_rate_bps;
    if rate < MIN_RATE_BPS || rate > MAX_RATE_BPS {
        return Err(AffiliateError::InvalidRate);
    }
    if info.rate_caps_enabled {
        if rate < info.min_commission_rate_bps {
            return Err(AffiliateError::RateBelowMinCap);
        }
        if rate > info.max_commission_rate_bps {
            return Err(AffiliateError::RateExceedsMaxCap);
        }
    }
    let allowed = info.can_update_rate(rate, now)?;
    if !allowed {
        return Err(AffiliateError::RateUpdateNotAllowed);
    }
    info.commission_rate_bps = rate;
    info.last_rate_update_time = now;
    Ok(())
}

/// Outcome of a gated rate change to `new_rate` by `signer` at `now`.
pub open spec fn update_rate_check(info: AffiliateInfo, signer: Address, new_rate: u16, now: i64) -> Result<
    (),
    AffiliateError,
> {
    if signer != info.affiliate_key {
        Err(AffiliateError::AuthorityMismatch)
    } else if new_rate < MIN_RATE_BPS || new_rate > MAX_RATE_BPS {
        Err(AffiliateError::InvalidRate)
    } else if info.rate_caps_enabled && new_rate < info.min_commission_rate_bps {
        Err(AffiliateError::RateBelowMinCap)
    } else if info.rate_caps_enabled && new_rate > info.max_commission_rate_bps {
        Err(AffiliateError::RateExceedsMaxCap)
    } else if !rate_update_allowed(info, new_rate, now) {
        Err(AffiliateError::RateUpdateNotAllowed)
    } else {
        Ok(())
    }
}

/// Record after a day's report of `volume` and `clicks`: volumes and clicks added, the
/// conversion rate recomputed as `floor(referrals * 10000 / clicks)` when there are
/// clicks, then tier and score; `None` when a value would overflow its field.
pub open spec fn analytics_outcome(info: AffiliateInfo, volume: u64, clicks: u32) -> Option<AffiliateInfo> {
    let total_volume = info.total_referred_volume + volume;
    let total_clicks = info.total_clicks + clicks;
    if total_volume > u64::MAX || total_clicks > u32::MAX {
        None
    } else {
        let conversion = if total_clicks > 0 {
            info.successful_referrals * (BPS_PRECISION as int) / total_clicks
        } else {
            info.conversion_rate_bps as int
        };
        if conversion > u16::MAX {
            None
        } else {
            rescored(
                AffiliateInfo {
                    total_referred_volume: total_volume as u64,
                    total_clicks: total_clicks as u32,
                    conversion_rate_bps: conversion as u16,
                    ..info
                },
            )
        }
    }
}

/// Records a day's activity: `AuthorityMismatch` unless `signer` is the affiliate;
/// otherwise stores volume and clicks in the daily ring buffers and updates the record as
/// `analytics_outcome` says, or fails with `Overflow` and changes nothing.
pub fn update_analytics(
    info: &mut AffiliateInfo,
    analytics: &mut AffiliateAnalytics,
    signer: Address,
    args: UpdateAnalyticsArgs,
    now: i64,
) -> (r: Result<(), AffiliateError>)
    requires
        old(analytics).wf(),
    ensures
        final(analytics).wf(),
        signer != old(info).affiliate_key ==> r == Err::<(), AffiliateError>(
            AffiliateError::AuthorityMismatch,
        ),
        signer == old(info).affiliate_key ==> match analytics_outcome(
            *old(info),
            args.volume,
            args.clicks,
        ) {
            Some(updated) => r is Ok && *final(info) == updated,
            None => r == Err::<(), AffiliateError>(AffiliateError::Overflow),
        },
        r is Err ==> *final(info) == *old(info) && *final(analytics) == *old(analytics),
        r is Ok ==> final(analytics).daily_volume@ == old(analytics).daily_volume@.update(
            old(analytics).current_day_index as int,
            args.volume,
        ) && final(analytics).daily_clicks@ == old(analytics).daily_clicks@.update(
            old(analytics).current_day_index as int,
            args.clicks,
        ) && final(analytics).current_day_index == (old(analytics).current_day_index + 1) % 30
            && final(analytics).last_update == now && final(analytics).affiliate_key == old(
            analytics,
        ).affiliate_key,
{
    if signer != info.affiliate_key {
        return Err(AffiliateError::AuthorityMismatch);
    }
    proof {
        lemma_address_ext(signer, info.affiliate_key);
    }
    let mut updated = *info;
    updated.total_referred_volume = match updated.total_referred_volume.checked_add(args.volume) {
        Some(v) => v,
        None => return Err(AffiliateError::Overflow),
    };
    updated.total_clicks = match updated.total_clicks.checked_add(args.clicks) {
        Some(v) => v,
        None => return Err(AffiliateError::Overflow),
    };
    if updated.total_clicks > 0 {
        proof {
            assert(updated.successful_referrals * 10000 <= u32::MAX * 10000) by (nonlinear_arith)
                requires
                    updated.successful_referrals <= u32::MAX,
            ;
        }
        let conversion: u64 = (updated.successful_referrals as u64 * BPS_PRECISION)
            / updated.total_clicks as u64;
        if conversion > u16::MAX as u64 {
            return Err(AffiliateError::Overflow);
        }
        updated.conversion_rate_bps = conversion as u16;
    }
    updated.calculate_performance_tier()?;
    updated.update_performance_score()?;
    analytics.add_daily_stats(args.volume, args.clicks);
    analytics.last_update = now;
    *info = updated;
    Ok(())
}

/// Advisory event with the rate suggested for the affiliate's tier and conversion rate:
/// `AuthorityMismatch` unless `signer` is the affiliate. Changes nothing.
pub fn get_ai_suggested_rate(info: &AffiliateInfo, signer: Address, now: i64) -> (r: Result<
    AISuggestedRateEvent,
    AffiliateError,
>)
    ensures
        signer != info.affiliate_key ==> r == Err::<AISuggestedRateEvent, AffiliateError>(
            AffiliateError::AuthorityMismatch,
        ),
        signer == info.affiliate_key ==> r == Ok::<AISuggestedRateEvent, AffiliateError>(
            AISuggestedRateEvent {
                affiliate_key: info.affiliate_key,
                current_rate_bps: info.commission_rate_bps,
                suggested_rate_bps: suggested_rate_for(info.performance_tier, info.conversion_rate_bps) as u16,
                performance_tier: info.performance_tier,
                timestamp: now,
            },
        ),
{
    if signer != info.affiliate_key {
        return Err(AffiliateError::AuthorityMismatch);
    }
    proof {
        lemma_address_ext(signer, info.affiliate_key);
    }
    let suggested_rate = info.get_suggested_rate();
    Ok(
        AISuggestedRateEvent {
            affiliate_key: info.affiliate_key,
            current_rate_bps: info.commission_rate_bps,
            suggested_rate_bps: suggested_rate,
            performance_tier: info.performance_tier,
            timestamp: now,
        },
    )
}

/// The commission paid on a referred purchase is `floor(purchased * rate / 10000)`: zero
/// at rate zero, the whole purchase at rate 10000, and never more than the purchase at
/// rates up to 10000 (so it cannot overflow there).
pub proof fn lemma_commission_formula(info: AffiliateInfo, purchased_tokens: u64, now: i64)
    ensures
        commission_outcome(info, purchased_tokens, now) matches Some((c, _)) ==> c == purchased_tokens
            * info.commission_rate_bps / 10000,
        info.commission_rate_bps == 0 ==> bps_share(purchased_tokens as int, 0) == 0,
        info.commission_rate_bps == 10000 ==> bps_share(purchased_tokens as int, 10000)
            == purchased_tokens,
        info.commission_rate_bps <= 10000 ==> bps_share(
            purchased_tokens as int,
            info.commission_rate_bps as int,
        ) <= purchased_tokens,
{
    let (p, r) = (purchased_tokens as int, info.commission_rate_bps as int);
    assert(p * 0 / 10000 == 0) by (nonlinear_arith);
    assert(p * 10000 / 10000 == p) by (nonlinear_arith);
    if r <= 10000 {
        assert(p * r / 10000 <= p) by (nonlinear_arith)
            requires
                0 <= p,
                0 <= r <= 10000,
        ;
    }
}

} // verus!
