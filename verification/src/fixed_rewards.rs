//! Fixed-rate reward schedules: up to four reward tiers plus a rate-slowing
//! denominator, validated once at farm configuration time.

use vstd::prelude::*;

use crate::errors::ErrorCode;

verus! {

/// Names one of the four tier slots of a schedule.
#[derive(Clone, Copy, Debug, PartialEq, Eq, Structural)]
pub enum FixedRateRewardTier {
    Tier0,
    Tier1,
    Tier2,
    Tier3,
}

/// One reward tier: a payout rate and the lock duration that earns it.
///
/// `reward_rate` is scaled by the schedule-wide `denominator` before use:
/// tokens per unit time = `reward_rate / denominator`. `required_tenure` is
/// in seconds; a tenure of `0` is reserved for tier 0 ("no lock, always
/// claimable").
#[derive(Clone, Copy, Debug, PartialEq, Eq, Structural)]
pub struct TierConfig {
    pub reward_rate: u64,
    /// lock duration, in seconds, to earn the above reward rate
    pub required_tenure: u64,
}

impl Default for TierConfig {
    fn default() -> (r: Self)
        ensures
            r.reward_rate == 0,
            r.required_tenure == 0,
    {
        Self { reward_rate: 0, required_tenure: 0 }
    }
}

/// An immutable, farm-level table of up to 4 reward tiers plus a rate
/// denominator.
#[derive(Clone, Copy, Debug)]
pub struct FixedRateSchedule {
    /// always present; its tenure is 0, so gems on this tier can stake and
    /// unstake anytime
    pub tier0: TierConfig,

    pub tier1: Option<TierConfig>,

    pub tier2: Option<TierConfig>,

    pub tier3: Option<TierConfig>,

    /// slows down the payout rate: tokens per second = rate / denominator;
    /// never zero
    pub denominator: u64,
}

/// The default denominator is 1, not 0, so that a farm left with the default
/// schedule never divides by zero.
impl Default for FixedRateSchedule {
    fn default() -> (r: Self)
        ensures
            r.tier0.reward_rate == 0,
            r.tier0.required_tenure == 0,
            r.tier1 is None,
            r.tier2 is None,
            r.tier3 is None,
            r.denominator == 1,
            r.spec_valid(),
    {
        Self {
            tier0: TierConfig { reward_rate: 0, required_tenure: 0 },
            tier1: None,
            tier2: None,
            tier3: None,
            denominator: 1,
        }
    }
}

impl FixedRateSchedule {
    /// The four schedule-shape invariants checked at configuration time:
    /// tier 0 has no lock, the denominator is non-zero, present tiers form a
    /// contiguous prefix, and tenures do not decrease with tier index.
    pub open spec fn spec_valid(self) -> bool {
        &&& self.tier0.required_tenure == 0
        &&& self.denominator != 0
        &&& (self.tier2 is Some ==> self.tier1 is Some)
        &&& (self.tier3 is Some ==> self.tier2 is Some && self.tier1 is Some)
        &&& (self.tier2 is Some && self.tier1 is Some
            ==> self.tier2->0.required_tenure >= self.tier1->0.required_tenure)
        &&& (self.tier3 is Some && self.tier2 is Some
            ==> self.tier3->0.required_tenure >= self.tier2->0.required_tenure)
    }

    /// True iff `tier` is a byte-for-byte match (both `reward_rate` and
    /// `required_tenure` equal) of one of the configured tiers 1 to 3.
    pub open spec fn spec_has_matching_tier(self, tier: TierConfig) -> bool {
        ||| (self.tier1 is Some && self.tier1->0.reward_rate == tier.reward_rate
            && self.tier1->0.required_tenure == tier.required_tenure)
        ||| (self.tier2 is Some && self.tier2->0.reward_rate == tier.reward_rate
            && self.tier2->0.required_tenure == tier.required_tenure)
        ||| (self.tier3 is Some && self.tier3->0.reward_rate == tier.reward_rate
            && self.tier3->0.required_tenure == tier.required_tenure)
    }

    /// Checks the schedule-shape invariants. Failing any one rejects the
    /// farm configuration outright (fatal, not retryable).
    pub fn verify_schedule_invariants(&self) -> (r: Result<(), ErrorCode>)
        ensures
            r is Ok <==> self.spec_valid(),
            r is Err ==> r == Err::<(), ErrorCode>(ErrorCode::InvalidSchedule),
    {
        if let Some(t3) = self.tier3 {
            // later tiers require earlier tiers to be present (no gaps)
            if self.tier2.is_none() || self.tier1.is_none() {
                return Err(ErrorCode::InvalidSchedule);
            }

            // later tenures must reach at least as far as earlier tenures
            let t2_tenure = self.tier2.unwrap().required_tenure;
            if t3.required_tenure < t2_tenure {
                return Err(ErrorCode::InvalidSchedule);
            }
        }

        if let Some(t2) = self.tier2 {
            if self.tier1.is_none() {
                return Err(ErrorCode::InvalidSchedule);
            }

            let t1_tenure = self.tier1.unwrap().required_tenure;
            if t2.required_tenure < t1_tenure {
                return Err(ErrorCode::InvalidSchedule);
            }
        }

        if self.tier0.required_tenure != 0 {
            return Err(ErrorCode::InvalidSchedule);
        }

        // denominator can't be 0
        if self.denominator == 0 {
            return Err(ErrorCode::InvalidSchedule);
        }

        Ok(())
    }

    /// Accepts a caller-supplied tier only if it exactly matches one of the
    /// configured tiers 1 to 3; an exact match prevents a caller from
    /// fabricating an arbitrary rate.
    pub fn assert_valid_tier_config(&self, tier: TierConfig) -> (r: Result<(), ErrorCode>)
        ensures
            r is Ok <==> self.spec_has_matching_tier(tier),
            r is Err ==> r == Err::<(), ErrorCode>(ErrorCode::InvalidTierConfig),
    {
        if self.tier1.is_some() {
            let tier1 = self.tier1.unwrap();

            if tier1.reward_rate == tier.reward_rate
                && tier1.required_tenure == tier.required_tenure {
                return Ok(());
            }
        }

        if self.tier2.is_some() {
            let tier2 = self.tier2.unwrap();

            if tier2.reward_rate == tier.reward_rate
                && tier2.required_tenure == tier.required_tenure {
                return Ok(());
            }
        }

        if self.tier3.is_some() {
            let tier3 = self.tier3.unwrap();

            if tier3.reward_rate == tier.reward_rate
                && tier3.required_tenure == tier.required_tenure {
                return Ok(());
            }
        }

        Err(ErrorCode::InvalidTierConfig)
    }

    /// Chooses the tier a vault stakes under: tier 0 when no tier is
    /// requested, otherwise the requested tier provided it exactly matches
    /// one of the configured tiers 1 to 3.
    pub fn select_tier(&self, requested: Option<TierConfig>) -> (r: Result<
        TierConfig,
        ErrorCode,
    >)
        ensures
            requested is None ==> r == Ok::<TierConfig, ErrorCode>(self.tier0),
            requested is Some && self.spec_has_matching_tier(requested->0) ==> r == Ok::<
                TierConfig,
                ErrorCode,
            >(requested->0),
            requested is Some && !self.spec_has_matching_tier(requested->0) ==> r == Err::<
                TierConfig,
                ErrorCode,
            >(ErrorCode::InvalidTierConfig),
    {
        match requested {
            None => Ok(self.tier0),
            Some(tier) => {
                self.assert_valid_tier_config(tier)?;
                Ok(tier)
            },
        }
    }
}

/// Farm-side configuration payload carrying a fixed-rate schedule.
#[derive(Clone, Copy, Debug)]
pub struct FixedRateConfig {
    pub schedule: FixedRateSchedule,
}

/// The fixed-rate reward state of a farm: the schedule configured on
/// funding, plus the amount promised to existing stakers.
#[derive(Clone, Copy, Debug)]
pub struct FixedRateReward {
    /// configured on funding
    pub schedule: FixedRateSchedule,

    /// amount that has been promised to existing stakers and hence can't be
    /// withdrawn
    pub reserved_amount: u64,
}

impl FixedRateReward {
    /// All farms start with zero funded, so nothing is reserved yet.
    pub fn new(schedule: FixedRateSchedule) -> (r: Self)
        ensures
            r.schedule == schedule,
            r.reserved_amount == 0,
    {
        Self { schedule, reserved_amount: 0 }
    }
}

} // verus!
