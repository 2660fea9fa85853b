//! Farm state: the reward configuration, the aggregate funds ledger, and the
//! reserve/unreserve operations that back every stake with funding.

use vstd::prelude::*;

use crate::errors::ErrorCode;
use crate::fixed_rewards::{FixedRateReward, FixedRateSchedule, TierConfig};
use crate::try_math::{try_add, try_div, try_mul, try_sub};
use crate::vault::Vault;
use crate::vault::VaultReward;

verus! {

pub const LATEST_FARM_VERSION: u16 = 0;

/// Farm-level configuration parameters.
#[derive(Clone, Copy, Debug, PartialEq, Eq, Structural)]
pub struct FarmConfig {
    /// early-exit penalty, paid to the farm treasury; an early exit is
    /// rejected outright when this is zero
    pub paper_hands_tax_lamp: u64,
}

/// Which reward mode a farm runs. Only the fixed mode is exercised; the
/// variable mode is present in the data model only.
#[derive(Clone, Copy, Debug, PartialEq, Eq, Structural)]
pub enum RewardType {
    Variable,
    Fixed,
}

/// The aggregate funds ledger of one farm reward.
///
/// All three counters are cumulative and only ever go up, except
/// `total_accrued_to_stakers`, which an unreserve decrements when a vault
/// exits early.
#[derive(Clone, Copy, Debug, PartialEq, Eq, Structural)]
pub struct FundsTracker {
    pub total_funded: u64,

    pub total_refunded: u64,

    pub total_accrued_to_stakers: u64,
}

impl FundsTracker {
    /// The funding invariant: the farm never promises or refunds more than
    /// it was funded, so the pending amount never goes negative.
    pub open spec fn spec_inv(self) -> bool {
        self.total_refunded + self.total_accrued_to_stakers <= self.total_funded
    }

    /// Funds not yet refunded nor promised to stakers: the headroom that new
    /// reservations may draw on.
    pub open spec fn spec_pending(self) -> int {
        self.total_funded - self.total_refunded - self.total_accrued_to_stakers
    }

    /// This ledger with `total_funded` replaced.
    pub open spec fn spec_with_funded(self, total_funded: u64) -> FundsTracker {
        FundsTracker { total_funded, ..self }
    }

    /// This ledger with `total_accrued_to_stakers` replaced.
    pub open spec fn spec_with_accrued(self, total_accrued_to_stakers: u64) -> FundsTracker {
        FundsTracker { total_accrued_to_stakers, ..self }
    }

    /// Computes the pending amount with checked subtractions; it succeeds
    /// exactly when the funding invariant holds.
    pub fn pending_amount(&self) -> (r: Result<u64, ErrorCode>)
        ensures
            r is Ok <==> self.spec_inv(),
            r is Ok ==> r == Ok::<u64, ErrorCode>(self.spec_pending() as u64),
            r is Err ==> r == Err::<u64, ErrorCode>(ErrorCode::ArithmeticError),
    {
        let after_refunds: u64 = try_sub(self.total_funded, self.total_refunded)?;

        try_sub(after_refunds, self.total_accrued_to_stakers)
    }
}

/// The farm never over-promises: whenever the funding invariant holds — and
/// `fund_reward`, `reserve_rewards` and `unreserve_rewards` each preserve
/// it, while a successful reservation establishes it outright — the pending
/// amount `total_funded - total_refunded - total_accrued_to_stakers` is not
/// negative.
pub proof fn lemma_pending_never_negative(funds: FundsTracker)
    requires
        funds.spec_inv(),
    ensures
        funds.spec_pending() >= 0,
{
}

/// Funding window bookkeeping of one farm reward. Data model only: nothing
/// in the fixed-rate paths reads it.
#[derive(Clone, Copy, Debug, PartialEq, Eq, Structural)]
pub struct TimeTracker {
    /// total duration for which the reward has been funded, updated with
    /// each new funding round
    pub duration_sec: u64,

    pub reward_end_ts: u64,

    /// set equal to `reward_end_ts` if the farm manager locks up the
    /// reward, giving stakers the certainty it won't be withdrawn
    pub lock_end_ts: u64,
}

/// One reward of a farm: its mode, its fixed-rate configuration, and its
/// funds and time ledgers.
///
/// The mint of the reward token and the pot it is stored in are custody
/// accounts, held by the custody collaborator and not modelled here.
#[derive(Clone, Copy, Debug)]
pub struct FarmReward {
    pub reward_type: RewardType,

    /// only used when `reward_type` is `Fixed`
    pub fixed_rate: FixedRateReward,

    pub funds: FundsTracker,

    pub times: TimeTracker,
}

/// A farm: configuration, aggregate reward state, and vault count.
///
/// The manager, treasury and authority identities belong to the
/// access-control and custody collaborators and are not modelled here.
#[derive(Clone, Copy, Debug)]
pub struct Farm {
    pub version: u16,

    pub config: FarmConfig,

    /// how many accounts can create funding schedules
    pub authorized_funder_count: u64,

    pub reward_a: FarmReward,

    pub whitelisted_creators: u32,

    /// total vault count registered with this farm
    pub vault_count: u64,
}

impl Farm {
    pub open spec fn spec_schedule(self) -> FixedRateSchedule {
        self.reward_a.fixed_rate.schedule
    }

    pub open spec fn spec_denominator(self) -> u64 {
        self.reward_a.fixed_rate.schedule.denominator
    }

    /// This farm with its funds ledger replaced.
    pub open spec fn spec_with_funds(self, funds: FundsTracker) -> Farm {
        Farm { reward_a: FarmReward { funds, ..self.reward_a }, ..self }
    }

    /// The tier a new stake falls under: the requested tier if one was
    /// passed, tier 0 of the schedule otherwise.
    pub open spec fn spec_selected_tier(self, requested: Option<TierConfig>) -> TierConfig {
        if requested is Some {
            requested->0
        } else {
            self.spec_schedule().tier0
        }
    }

    /// The total promise of a stake under the selected tier: the full amount
    /// that tier can draw over its complete tenure, at the
    /// denominator-scaled rate.
    pub open spec fn spec_reserve_amount(self, requested: Option<TierConfig>) -> int {
        let tier = self.spec_selected_tier(requested);
        (tier.reward_rate as int / self.spec_denominator() as int) * tier.required_tenure
    }

    /// The arithmetic side-conditions of a reservation: the vault counter
    /// and the promised amount must fit, the denominator must be non-zero,
    /// and the funding invariant must hold so the pending amount exists.
    pub open spec fn spec_reserve_arith_ok(self, requested: Option<TierConfig>) -> bool {
        &&& self.vault_count + 1 <= u64::MAX
        &&& self.spec_denominator() != 0
        &&& self.spec_reserve_amount(requested) <= u64::MAX
        &&& self.reward_a.funds.spec_inv()
    }

    /// Exactly when a reservation succeeds: the arithmetic side-conditions
    /// hold and the farm's pending funds cover the full promise.
    pub open spec fn spec_reserve_ok(self, requested: Option<TierConfig>) -> bool {
        &&& self.spec_reserve_arith_ok(requested)
        &&& self.spec_reserve_amount(requested) <= self.reward_a.funds.spec_pending()
    }

    /// The vault state a successful reservation leaves behind: both
    /// timestamps at `now`, the selected tier copied in, the full promise
    /// recorded, and the cumulative paid-out total untouched.
    pub open spec fn spec_reserved_vault(
        self,
        vault: Vault,
        now: u64,
        requested: Option<TierConfig>,
    ) -> Vault {
        Vault {
            reward_a: VaultReward {
                staked_at: now,
                last_rewards_claimed_at: now,
                reward_tier: self.spec_selected_tier(requested),
                reserved_amount: self.spec_reserve_amount(requested) as u64,
                paid_out_reward: vault.reward_a.paid_out_reward,
            },
            ..vault
        }
    }

    /// The farm state a successful reservation leaves behind: one more
    /// vault, and the full promise added to the accrued total.
    pub open spec fn spec_after_reserve(self, requested: Option<TierConfig>) -> Farm {
        Farm {
            vault_count: (self.vault_count + 1) as u64,
            ..self.spec_with_funds(
                self.reward_a.funds.spec_with_accrued(
                    (self.reward_a.funds.total_accrued_to_stakers + self.spec_reserve_amount(
                        requested,
                    )) as u64,
                ),
            )
        }
    }

    /// Records a new funding round: `total_funded` grows, unconditionally.
    pub fn fund_reward(&mut self, amount: u64) -> (r: Result<(), ErrorCode>)
        ensures
            r is Ok <==> old(self).reward_a.funds.total_funded + amount <= u64::MAX,
            r is Ok ==> *final(self) == old(self).spec_with_funds(
                old(self).reward_a.funds.spec_with_funded(
                    (old(self).reward_a.funds.total_funded + amount) as u64,
                ),
            ),
            r is Err ==> r == Err::<(), ErrorCode>(ErrorCode::ArithmeticError) && *final(self)
                == *old(self),
            old(self).reward_a.funds.spec_inv() ==> final(self).reward_a.funds.spec_inv(),
            final(self).reward_a.funds.total_funded >= old(self).reward_a.funds.total_funded,
    {
        let new_funded: u64 = try_add(self.reward_a.funds.total_funded, amount)?;

        self.reward_a.funds.total_funded = new_funded;

        Ok(())
    }

    /// Reserves the full promise of a new stake against the farm's pending
    /// funds, then populates the vault's reward account: stake and claim
    /// timestamps set to `now`, the selected tier copied in, and the
    /// reserved amount recorded. Nothing is mutated on any error, so a
    /// funding shortfall can be retried after the next funding round.
    ///
    /// Reserving the full promise up front guarantees every staked vault can
    /// always be paid its complete promised amount regardless of other farm
    /// activity.
    pub fn reserve_rewards(
        &mut self,
        vault: &mut Vault,
        now: u64,
        reward_a_tier_config: Option<TierConfig>,
    ) -> (r: Result<(), ErrorCode>)
        ensures
            r is Ok <==> old(self).spec_reserve_ok(reward_a_tier_config),
            r == Err::<(), ErrorCode>(ErrorCode::InsufficientFunding) <==> (old(
                self,
            ).spec_reserve_arith_ok(reward_a_tier_config) && old(self).spec_reserve_amount(
                reward_a_tier_config,
            ) > old(self).reward_a.funds.spec_pending()),
            r is Err ==> *final(self) == *old(self) && *final(vault) == *old(vault) && (r == Err::<
                (),
                ErrorCode,
            >(ErrorCode::InsufficientFunding) || r == Err::<(), ErrorCode>(
                ErrorCode::ArithmeticError,
            )),
            r is Ok ==> *final(vault) == old(self).spec_reserved_vault(
                *old(vault),
                now,
                reward_a_tier_config,
            ),
            r is Ok ==> *final(self) == old(self).spec_after_reserve(reward_a_tier_config),
            r is Ok ==> final(self).reward_a.funds.spec_inv(),
            r is Ok && old(vault).reward_a.paid_out_reward == 0
                ==> final(vault).reward_a.spec_wf(old(self).spec_denominator()),
            final(self).reward_a.funds.total_accrued_to_stakers
                >= old(self).reward_a.funds.total_accrued_to_stakers,
    {
        let new_vault_count: u64 = try_add(self.vault_count, 1)?;

        let tier: TierConfig = match reward_a_tier_config {
            Some(t) => t,
            None => self.reward_a.fixed_rate.schedule.tier0,
        };

        // the full promise of this tier: divide the rate by the denominator
        // first, then scale by the tenure — the same truncation order the
        // claim paths use
        let rate: u64 = try_div(tier.reward_rate, self.reward_a.fixed_rate.schedule.denominator)?;
        let reserved_amount: u64 = try_mul(rate, tier.required_tenure)?;

        // the farm must hold the entire promise before the stake is accepted
        let pending: u64 = self.reward_a.funds.pending_amount()?;
        if reserved_amount > pending {
            return Err(ErrorCode::InsufficientFunding);
        }

        // fits in the pending headroom, so this add cannot overflow
        let new_accrued: u64 = try_add(
            self.reward_a.funds.total_accrued_to_stakers,
            reserved_amount,
        )?;

        self.vault_count = new_vault_count;
        self.reward_a.funds.total_accrued_to_stakers = new_accrued;

        vault.reward_a.staked_at = now;
        vault.reward_a.last_rewards_claimed_at = now;
        vault.reward_a.reward_tier = tier;
        vault.reward_a.reserved_amount = reserved_amount;

        proof {
            // a freshly staked vault has paid nothing yet: its claim
            // frontier sits at the stake instant, so the paid-out clause of
            // well-formedness reduces to multiplying the rate by zero
            let denom = old(self).spec_denominator();
            let v2 = vault.reward_a;
            assert(v2.spec_rate(denom) == rate);
            assert(v2.spec_rate(denom) * (v2.last_rewards_claimed_at - v2.staked_at) == 0)
                by (nonlinear_arith)
                requires
                    v2.last_rewards_claimed_at == v2.staked_at,
            ;
        }

        Ok(())
    }

    /// Records one more vault on the farm.
    pub fn update_staked_count(&mut self) -> (r: Result<(), ErrorCode>)
        ensures
            r is Ok <==> old(self).vault_count + 1 <= u64::MAX,
            r is Ok ==> *final(self) == (Farm {
                vault_count: (old(self).vault_count + 1) as u64,
                ..*old(self)
            }),
            r is Err ==> r == Err::<(), ErrorCode>(ErrorCode::ArithmeticError) && *final(self)
                == *old(self),
    {
        let new_vault_count: u64 = try_add(self.vault_count, 1)?;

        self.vault_count = new_vault_count;

        Ok(())
    }

    /// Releases the total promise tied to an early-exiting vault — what was
    /// already paid plus what remains outstanding at `now` — back into the
    /// farm's available pool, and drops the vault from the farm's count. An
    /// underflow means the ledger never promised what is being released: a
    /// bookkeeping corruption, reported as fatal with nothing mutated.
    pub fn unreserve_rewards(&mut self, vault: &mut Vault, now: u64) -> (r: Result<
        (),
        ErrorCode,
    >)
        ensures
            r is Ok <==> (old(vault).reward_a.spec_outstanding_ok(now, old(self).spec_denominator())
                && old(vault).reward_a.paid_out_reward + old(vault).reward_a.spec_outstanding(
                now,
                old(self).spec_denominator(),
            ) <= u64::MAX && old(vault).reward_a.paid_out_reward + old(
                vault,
            ).reward_a.spec_outstanding(now, old(self).spec_denominator()) <= old(
                self,
            ).reward_a.funds.total_accrued_to_stakers && old(self).vault_count >= 1),
            r is Ok ==> *final(self) == (Farm {
                vault_count: (old(self).vault_count - 1) as u64,
                ..old(self).spec_with_funds(
                    old(self).reward_a.funds.spec_with_accrued(
                        (old(self).reward_a.funds.total_accrued_to_stakers - old(
                            vault,
                        ).reward_a.paid_out_reward - old(vault).reward_a.spec_outstanding(
                            now,
                            old(self).spec_denominator(),
                        )) as u64,
                    ),
                )
            }),
            r is Err ==> r == Err::<(), ErrorCode>(ErrorCode::ArithmeticError) && *final(self)
                == *old(self),
            *final(vault) == *old(vault),
            old(self).reward_a.funds.spec_inv() ==> final(self).reward_a.funds.spec_inv(),
    {
        // amount to unreserve: total already paid out plus any reward still
        // outstanding at this instant
        let outstanding: u64 = vault.reward_a.outstanding_reward(
            now,
            self.reward_a.fixed_rate.schedule.denominator,
        )?;
        let unreserve_amount: u64 = try_add(vault.reward_a.paid_out_reward, outstanding)?;

        let new_accrued: u64 = try_sub(
            self.reward_a.funds.total_accrued_to_stakers,
            unreserve_amount,
        )?;

        // the exiting vault leaves the farm's count
        let new_vault_count: u64 = try_sub(self.vault_count, 1)?;

        self.reward_a.funds.total_accrued_to_stakers = new_accrued;
        self.vault_count = new_vault_count;

        Ok(())
    }
}

} // verus!
