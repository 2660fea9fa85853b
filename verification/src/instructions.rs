//! The operations exposed to callers: configure a farm, stake a gem into a
//! vault, claim rewards, and exit.
//!
//! Each operation is processed as a single atomic transaction against one
//! vault and its owning farm: on any error nothing is mutated, and every
//! timestamp is passed in per call, never cached across calls. The host
//! performs custody (token transfers, account closing) and access control
//! around these; it hands in plain values and the current pot balance, and
//! receives the computed, authorized amounts back.

use vstd::prelude::*;

use crate::errors::ErrorCode;
use crate::farm::{Farm, FarmConfig, FarmReward, FundsTracker, RewardType, TimeTracker,
    LATEST_FARM_VERSION};
use crate::fixed_rewards::{FixedRateReward, FixedRateSchedule, TierConfig};
use crate::try_math::try_add_u32;
use crate::vault::{Vault, VaultReward};

verus! {

/// The farm a fresh configuration produces: everything zeroed except the
/// version stamp, the farm configuration, and the reward schedule.
pub open spec fn spec_initialized_farm(
    reward_type: RewardType,
    schedule: FixedRateSchedule,
    farm_config: FarmConfig,
) -> Farm {
    Farm {
        version: LATEST_FARM_VERSION,
        config: farm_config,
        authorized_funder_count: 0,
        reward_a: FarmReward {
            reward_type,
            fixed_rate: FixedRateReward { schedule, reserved_amount: 0 },
            funds: FundsTracker {
                total_funded: 0,
                total_refunded: 0,
                total_accrued_to_stakers: 0,
            },
            times: TimeTracker { duration_sec: 0, reward_end_ts: 0, lock_end_ts: 0 },
        },
        whitelisted_creators: 0,
        vault_count: 0,
    }
}

/// Configures a new farm: the variable reward mode is rejected outright, the
/// schedule's shape invariants are checked once here, and the farm starts
/// with zero funded, zero reserved and zero vaults.
pub fn init_farm(
    reward_type_a: RewardType,
    reward_a_fixed_reward_schedule: Option<FixedRateSchedule>,
    farm_config: FarmConfig,
) -> (r: Result<Farm, ErrorCode>)
    requires
        reward_type_a is Fixed ==> reward_a_fixed_reward_schedule is Some,
    ensures
        r == Err::<Farm, ErrorCode>(ErrorCode::InvalidRewardType) <==> reward_type_a is Variable,
        r is Ok <==> reward_type_a is Fixed && reward_a_fixed_reward_schedule->0.spec_valid(),
        r is Ok ==> r == Ok::<Farm, ErrorCode>(
            spec_initialized_farm(
                reward_type_a,
                reward_a_fixed_reward_schedule->0,
                farm_config,
            ),
        ),
        r is Err ==> r == Err::<Farm, ErrorCode>(ErrorCode::InvalidRewardType) || r == Err::<
            Farm,
            ErrorCode,
        >(ErrorCode::InvalidSchedule),
{
    // the variable reward mode is present in the data model only
    if reward_type_a == RewardType::Variable {
        return Err(ErrorCode::InvalidRewardType);
    }

    let schedule: FixedRateSchedule = reward_a_fixed_reward_schedule.unwrap();

    // failing any shape invariant rejects the configuration outright
    schedule.verify_schedule_invariants()?;

    Ok(
        Farm {
            version: LATEST_FARM_VERSION,
            config: farm_config,
            authorized_funder_count: 0,
            reward_a: FarmReward {
                reward_type: reward_type_a,
                fixed_rate: FixedRateReward::new(schedule),
                funds: FundsTracker {
                    total_funded: 0,
                    total_refunded: 0,
                    total_accrued_to_stakers: 0,
                },
                times: TimeTracker { duration_sec: 0, reward_end_ts: 0, lock_end_ts: 0 },
            },
            whitelisted_creators: 0,
            vault_count: 0,
        },
    )
}

/// Records one more whitelisted creator on the farm. The proof account that
/// names the whitelisted address lives with the access-control collaborator;
/// the farm only keeps the count.
pub fn whitelist_creator(farm: &mut Farm) -> (r: Result<(), ErrorCode>)
    ensures
        r is Ok <==> old(farm).whitelisted_creators + 1 <= u32::MAX,
        r is Ok ==> *final(farm) == (Farm {
            whitelisted_creators: (old(farm).whitelisted_creators + 1) as u32,
            ..*old(farm)
        }),
        r is Err ==> r == Err::<(), ErrorCode>(ErrorCode::ArithmeticError) && *final(farm)
            == *old(farm),
{
    let new_count: u32 = try_add_u32(farm.whitelisted_creators, 1)?;

    farm.whitelisted_creators = new_count;

    Ok(())
}

/// Creates a fresh vault: unlocked, with a zeroed reward account, ready for
/// its one deposit. Deriving and storing the vault's signing authority is
/// the custody collaborator's job.
pub fn init_vault() -> (r: Vault)
    ensures
        !r.locked,
        r.reward_a.paid_out_reward == 0,
        r.reward_a.staked_at == 0,
        r.reward_a.reserved_amount == 0,
        r.reward_a.reward_tier.reward_rate == 0,
        r.reward_a.reward_tier.required_tenure == 0,
        r.reward_a.last_rewards_claimed_at == 0,
{
    Vault {
        locked: false,
        reward_a: VaultReward {
            paid_out_reward: 0,
            staked_at: 0,
            reserved_amount: 0,
            reward_tier: TierConfig { reward_rate: 0, required_tenure: 0 },
            last_rewards_claimed_at: 0,
        },
    }
}

/// Exactly when a deposit proceeds past its gate checks: the vault must not
/// already be locked, and a tier requested against a fixed-rate farm must
/// exactly match a configured tier.
pub open spec fn spec_deposit_admitted(
    farm: Farm,
    vault: Vault,
    requested: Option<TierConfig>,
) -> bool {
    &&& !vault.locked
    &&& (farm.reward_a.reward_type is Fixed && requested is Some
        ==> farm.spec_schedule().spec_has_matching_tier(requested->0))
}

/// Stakes a gem: validates the requested tier against the farm's schedule,
/// reserves the full promise of the selected tier against the farm's
/// pending funds, records stake time and tier on the vault, and locks the
/// vault. One gem, one vault: a locked vault takes no further deposit.
/// Nothing is mutated on any error.
pub fn deposit_gem(
    farm: &mut Farm,
    vault: &mut Vault,
    now: u64,
    reward_a_tier_config: Option<TierConfig>,
) -> (r: Result<(), ErrorCode>)
    ensures
        r == Err::<(), ErrorCode>(ErrorCode::VaultAccessSuspended) <==> old(vault).locked,
        r == Err::<(), ErrorCode>(ErrorCode::InvalidTierConfig) <==> !old(vault).locked && !(
        spec_deposit_admitted(*old(farm), *old(vault), reward_a_tier_config)),
        r is Ok <==> spec_deposit_admitted(*old(farm), *old(vault), reward_a_tier_config) && old(
            farm,
        ).spec_reserve_ok(reward_a_tier_config),
        r == Err::<(), ErrorCode>(ErrorCode::InsufficientFunding) <==> spec_deposit_admitted(
            *old(farm),
            *old(vault),
            reward_a_tier_config,
        ) && old(farm).spec_reserve_arith_ok(reward_a_tier_config) && old(
            farm,
        ).spec_reserve_amount(reward_a_tier_config) > old(farm).reward_a.funds.spec_pending(),
        r is Err ==> *final(farm) == *old(farm) && *final(vault) == *old(vault),
        r is Ok ==> *final(farm) == old(farm).spec_after_reserve(reward_a_tier_config),
        r is Ok ==> *final(vault) == (Vault {
            locked: true,
            ..old(farm).spec_reserved_vault(*old(vault), now, reward_a_tier_config)
        }),
        r is Ok ==> final(farm).reward_a.funds.spec_inv(),
        r is Ok && old(vault).reward_a.paid_out_reward == 0 ==> final(vault).reward_a.spec_wf(
            old(farm).spec_denominator(),
        ),
{
    let suspended: bool = vault.access_suspended()?;
    if suspended {
        return Err(ErrorCode::VaultAccessSuspended);
    }

    // a tier supplied by the caller must match the farm's schedule exactly;
    // with no tier supplied, the reservation falls back to tier 0
    if farm.reward_a.reward_type == RewardType::Fixed && reward_a_tier_config.is_some() {
        farm.reward_a.fixed_rate.schedule.assert_valid_tier_config(
            reward_a_tier_config.unwrap(),
        )?;
    }

    // reserve the full promise and populate the vault's reward account
    farm.reserve_rewards(vault, now, reward_a_tier_config)?;

    // record the gem on the vault by locking it
    vault.locked = true;

    Ok(())
}

/// Pays the outstanding reward of a vault, capped by the pot: computes the
/// amount, checks the pot can cover it, and advances the vault's claim
/// state. The returned amount is what the custody collaborator must
/// actually transfer out of the pot.
pub fn claim_rewards(farm: &Farm, vault: &mut Vault, pot_balance: u64, now: u64) -> (r: Result<
    u64,
    ErrorCode,
>)
    ensures
        r is Ok <==> (old(vault).reward_a.spec_outstanding_ok(now, farm.spec_denominator()) && old(
            vault,
        ).reward_a.spec_outstanding(now, farm.spec_denominator()) <= pot_balance && old(
            vault,
        ).reward_a.paid_out_reward + old(vault).reward_a.spec_outstanding(
            now,
            farm.spec_denominator(),
        ) <= u64::MAX),
        r is Ok ==> r == Ok::<u64, ErrorCode>(
            old(vault).reward_a.spec_outstanding(now, farm.spec_denominator()) as u64,
        ) && *final(vault) == (Vault {
            reward_a: old(vault).reward_a.spec_after_claim(now, farm.spec_denominator()),
            ..*old(vault)
        }),
        r == Err::<u64, ErrorCode>(ErrorCode::InsufficientFunding) <==> (old(
            vault,
        ).reward_a.spec_outstanding_ok(now, farm.spec_denominator()) && old(
            vault,
        ).reward_a.spec_outstanding(now, farm.spec_denominator()) > pot_balance),
        r is Err ==> *final(vault) == *old(vault) && (r == Err::<u64, ErrorCode>(
            ErrorCode::InsufficientFunding,
        ) || r == Err::<u64, ErrorCode>(ErrorCode::ArithmeticError)),
        final(vault).reward_a.paid_out_reward >= old(vault).reward_a.paid_out_reward,
{
    vault.reward_a.claim_rewards(pot_balance, now, farm.reward_a.fixed_rate.schedule.denominator)
}

/// True iff at `now` the exit happens at or before the committed tenure
/// completes, so the exit is an early one.
pub open spec fn spec_exit_is_early(vault: Vault, now: u64) -> bool {
    now <= vault.reward_a.spec_tenure_expiry()
}

/// Exactly when an exit succeeds. The expiry computation must fit; an early
/// exit needs a configured penalty, and releases the vault's settled promise
/// (paid plus outstanding) from the accrued total; and the final claim must
/// be computable and covered by the pot.
pub open spec fn spec_withdraw_ok(farm: Farm, vault: Vault, pot_balance: u64, now: u64) -> bool {
    let denom = farm.spec_denominator();
    let v = vault.reward_a;
    &&& v.spec_tenure_expiry() <= u64::MAX
    &&& !(spec_exit_is_early(vault, now) && farm.config.paper_hands_tax_lamp == 0)
    &&& v.spec_outstanding_ok(now, denom)
    &&& v.spec_outstanding(now, denom) <= pot_balance
    &&& v.paid_out_reward + v.spec_outstanding(now, denom) <= u64::MAX
    &&& (spec_exit_is_early(vault, now) ==> v.paid_out_reward + v.spec_outstanding(now, denom)
        <= farm.reward_a.funds.total_accrued_to_stakers && farm.vault_count >= 1)
}

/// The farm state a successful exit leaves behind: on an early exit the
/// vault's settled promise leaves the accrued total and the vault leaves
/// the count; on a mature exit the farm is untouched.
pub open spec fn spec_withdraw_farm_after(farm: Farm, vault: Vault, now: u64) -> Farm {
    let denom = farm.spec_denominator();
    let v = vault.reward_a;
    if spec_exit_is_early(vault, now) {
        Farm {
            vault_count: (farm.vault_count - 1) as u64,
            ..farm.spec_with_funds(
                farm.reward_a.funds.spec_with_accrued(
                    (farm.reward_a.funds.total_accrued_to_stakers - v.paid_out_reward
                        - v.spec_outstanding(now, denom)) as u64,
                ),
            )
        }
    } else {
        farm
    }
}

/// Exits a vault: decides early versus mature exit, releases the settled
/// promise on an early exit (rejecting it outright when no penalty is
/// configured), performs one final capped claim, and unlocks the vault so
/// the custody collaborator can close it. Returns the final claim amount
/// and whether the early-exit penalty applies. Nothing is mutated on any
/// error.
pub fn withdraw_gem(farm: &mut Farm, vault: &mut Vault, pot_balance: u64, now: u64) -> (r: Result<
    (u64, bool),
    ErrorCode,
>)
    ensures
        r is Ok <==> spec_withdraw_ok(*old(farm), *old(vault), pot_balance, now),
        r is Ok ==> r == Ok::<(u64, bool), ErrorCode>(
            (
                old(vault).reward_a.spec_outstanding(now, old(farm).spec_denominator()) as u64,
                spec_exit_is_early(*old(vault), now),
            ),
        ),
        r is Ok ==> *final(farm) == spec_withdraw_farm_after(*old(farm), *old(vault), now),
        r is Ok ==> *final(vault) == (Vault {
            locked: false,
            reward_a: old(vault).reward_a.spec_after_claim(now, old(farm).spec_denominator()),
        }),
        r == Err::<(u64, bool), ErrorCode>(ErrorCode::TooEarlyToWithdraw) <==> (old(
            vault,
        ).reward_a.spec_tenure_expiry() <= u64::MAX && spec_exit_is_early(*old(vault), now) && old(
            farm,
        ).config.paper_hands_tax_lamp == 0),
        r == Err::<(u64, bool), ErrorCode>(ErrorCode::InsufficientFunding) <==> (old(
            vault,
        ).reward_a.spec_tenure_expiry() <= u64::MAX && !(spec_exit_is_early(*old(vault), now)
            && old(farm).config.paper_hands_tax_lamp == 0) && old(
            vault,
        ).reward_a.spec_outstanding_ok(now, old(farm).spec_denominator()) && old(
            vault,
        ).reward_a.spec_outstanding(now, old(farm).spec_denominator()) > pot_balance),
        r is Err ==> *final(farm) == *old(farm) && *final(vault) == *old(vault) && (r == Err::<
            (u64, bool),
            ErrorCode,
        >(ErrorCode::TooEarlyToWithdraw) || r == Err::<(u64, bool), ErrorCode>(
            ErrorCode::InsufficientFunding,
        ) || r == Err::<(u64, bool), ErrorCode>(ErrorCode::ArithmeticError)),
        final(vault).reward_a.paid_out_reward >= old(vault).reward_a.paid_out_reward,
        old(farm).reward_a.funds.spec_inv() ==> final(farm).reward_a.funds.spec_inv(),
{
    let breaking: bool = vault.attempting_to_break_bank(now)?;

    // an early exit is only allowed where the farm configures a penalty for
    // it; the penalty itself is collected by the custody collaborator
    if breaking && farm.config.paper_hands_tax_lamp == 0 {
        return Err(ErrorCode::TooEarlyToWithdraw);
    }

    // check up front that the pot covers the final claim, so the unreserve
    // below never commits ahead of a failing claim
    let outstanding: u64 = vault.reward_a.outstanding_reward(
        now,
        farm.reward_a.fixed_rate.schedule.denominator,
    )?;
    if outstanding > pot_balance {
        return Err(ErrorCode::InsufficientFunding);
    }

    if breaking {
        // breaking the bank: release the settled promise (paid plus
        // outstanding) back into the farm's available pool
        farm.unreserve_rewards(vault, now)?;
    }

    // one final capped claim. On an early exit the unreserve above already
    // ruled out every failure condition of this claim; on a mature exit a
    // failing claim has mutated nothing yet
    let to_claim: u64 = match vault.reward_a.claim_rewards(
        pot_balance,
        now,
        farm.reward_a.fixed_rate.schedule.denominator,
    ) {
        Ok(amount) => amount,
        Err(e) => { return Err(e) },
    };

    // the vault is done: unlock it so the custody collaborator can return
    // the gem and close the account
    vault.locked = false;

    Ok((to_claim, breaking))
}

} // verus!
