//! Per-vault reward accounts: stake and claim timestamps, the tier snapshot
//! copied at stake time, and the outstanding-reward / capped-claim state
//! machine.

use vstd::prelude::*;

use crate::errors::ErrorCode;
use crate::fixed_rewards::TierConfig;
use crate::try_math::{try_add, try_mul, try_sub};

verus! {

/// The reward state of one vault.
///
/// The tier is copied at stake time, not referenced, so later farm
/// reconfiguration cannot retroactively change a staked vault's terms.
#[derive(Clone, Copy, Debug)]
pub struct VaultReward {
    /// cumulative amount this vault has been paid; never decreases
    pub paid_out_reward: u64,

    pub staked_at: u64,

    /// the total promise reserved against the farm when this vault staked
    pub reserved_amount: u64,

    /// copied at stake time, not a reference
    pub reward_tier: TierConfig,

    pub last_rewards_claimed_at: u64,
}

impl VaultReward {
    /// The instant the committed tenure expires.
    pub open spec fn spec_tenure_expiry(self) -> int {
        self.staked_at + self.reward_tier.required_tenure
    }

    /// Tokens per second under this vault's tier: the tier rate divided by
    /// the schedule denominator, truncated.
    ///
    /// Division is applied to the rate before any multiplication by elapsed
    /// time; the same order is used for reservations, within-tenure claims
    /// and the final claim at tenure expiry, so the total ever claimable
    /// never exceeds the amount reserved at stake time.
    pub open spec fn spec_rate(self, denominator: u64) -> int {
        self.reward_tier.reward_rate as int / denominator as int
    }

    /// The reward accrued between `last_rewards_claimed_at` and the lesser
    /// of `now` and tenure expiry: what one successful claim at `now` pays.
    ///
    /// Three phases:
    /// - within tenure (or tier 0, whose tenure is 0): pay for the time
    ///   since the last claim;
    /// - terminal (a prior claim already consumed everything up to and past
    ///   expiry): zero, until the vault is re-staked;
    /// - at or past expiry with claims still short of it: pay exactly up to
    ///   expiry, never beyond.
    pub open spec fn spec_outstanding(self, now: u64, denominator: u64) -> int {
        if now < self.spec_tenure_expiry() || self.reward_tier.required_tenure == 0 {
            (now - self.last_rewards_claimed_at) * self.spec_rate(denominator)
        } else if self.last_rewards_claimed_at > self.spec_tenure_expiry() {
            0
        } else {
            (self.spec_tenure_expiry() - self.last_rewards_claimed_at) * self.spec_rate(
                denominator,
            )
        }
    }

    /// Exactly when `outstanding_reward` succeeds: the expiry computation
    /// must fit, the clock/claim ordering must be respected, the denominator
    /// must be non-zero where a rate is needed, and the product must fit.
    pub open spec fn spec_outstanding_ok(self, now: u64, denominator: u64) -> bool {
        &&& self.spec_tenure_expiry() <= u64::MAX
        &&& if now < self.spec_tenure_expiry() || self.reward_tier.required_tenure == 0 {
            &&& self.last_rewards_claimed_at <= now
            &&& denominator != 0
            &&& self.spec_outstanding(now, denominator) <= u64::MAX
        } else if self.last_rewards_claimed_at > self.spec_tenure_expiry() {
            true
        } else {
            &&& denominator != 0
            &&& self.spec_outstanding(now, denominator) <= u64::MAX
        }
    }

    /// The state after a successful claim at `now`: the claim timestamp
    /// advances and the outstanding amount is added to the cumulative total.
    pub open spec fn spec_after_claim(self, now: u64, denominator: u64) -> VaultReward {
        VaultReward {
            last_rewards_claimed_at: now,
            paid_out_reward: (self.paid_out_reward + self.spec_outstanding(now, denominator))
                as u64,
            ..self
        }
    }

    /// Well-formedness of a staked vault's reward account, relative to the
    /// schedule denominator it staked under.
    ///
    /// Claims never run backwards past the stake instant; and for a vault
    /// with a real lock, the reservation is the full promise of its tier
    /// while the amount paid out so far accounts exactly for the time from
    /// staking up to the claim frontier (the last claim, capped at expiry).
    /// Constructors establish this and claims preserve it.
    pub open spec fn spec_wf(self, denominator: u64) -> bool {
        &&& self.staked_at <= self.last_rewards_claimed_at
        &&& (self.reward_tier.required_tenure > 0 ==> {
            let frontier: int = if self.last_rewards_claimed_at <= self.spec_tenure_expiry() {
                self.last_rewards_claimed_at as int
            } else {
                self.spec_tenure_expiry()
            };
            &&& self.reserved_amount == self.spec_rate(denominator)
                * self.reward_tier.required_tenure
            &&& self.paid_out_reward == self.spec_rate(denominator) * (frontier - self.staked_at)
        })
    }

    /// The tier rate scaled down by the schedule denominator.
    pub fn computed_reward_rate(&self, denominator: u64) -> (r: Result<u64, ErrorCode>)
        ensures
            r is Ok <==> denominator != 0,
            denominator != 0 ==> r == Ok::<u64, ErrorCode>(self.spec_rate(denominator) as u64),
            r is Err ==> r == Err::<u64, ErrorCode>(ErrorCode::ArithmeticError),
    {
        crate::try_math::try_div(self.reward_tier.reward_rate, denominator)
    }

    /// Computes the reward accrued between the last claim and the lesser of
    /// `now` and tenure expiry, without mutating anything.
    pub fn outstanding_reward(&self, now: u64, denominator: u64) -> (r: Result<u64, ErrorCode>)
        ensures
            r is Ok <==> self.spec_outstanding_ok(now, denominator),
            r is Ok ==> r == Ok::<u64, ErrorCode>(self.spec_outstanding(now, denominator) as u64),
            r is Err ==> r == Err::<u64, ErrorCode>(ErrorCode::ArithmeticError),
    {
        let tenure_expiry: u64 = try_add(self.staked_at, self.reward_tier.required_tenure)?;

        // staking period not over, or tier 0: pay for the time since the
        // last claim
        if now < tenure_expiry || self.reward_tier.required_tenure == 0 {
            let unclaimed_rewards_time: u64 = try_sub(now, self.last_rewards_claimed_at)?;

            let rate: u64 = self.computed_reward_rate(denominator)?;
            let outstanding_rewards: u64 = try_mul(unclaimed_rewards_time, rate)?;

            return Ok(outstanding_rewards);
        }

        // a prior claim, made at or past expiry, already consumed everything
        // up to expiry: this vault is in its terminal state and accrues
        // nothing more until re-staked
        if self.last_rewards_claimed_at > tenure_expiry {
            return Ok(0);
        }

        // at or past expiry, with the last claim still short of it: pay the
        // remaining stretch up to expiry exactly, never beyond
        let unclaimed_rewards_time: u64 = try_sub(tenure_expiry, self.last_rewards_claimed_at)?;

        let rate: u64 = self.computed_reward_rate(denominator)?;
        let outstanding_reward: u64 = try_mul(unclaimed_rewards_time, rate)?;

        Ok(outstanding_reward)
    }

    /// Computes the outstanding reward and, if the pot can cover it, records
    /// it as paid and advances the claim timestamp. On any error nothing is
    /// mutated: a pot shortfall is a retryable funding problem, not a
    /// protocol violation. Token movement itself is the custody
    /// collaborator's job; this only computes and authorizes the amount.
    pub fn claim_rewards(&mut self, pot_balance: u64, now: u64, denominator: u64) -> (r: Result<
        u64,
        ErrorCode,
    >)
        ensures
            r is Ok <==> (old(self).spec_outstanding_ok(now, denominator)
                && old(self).spec_outstanding(now, denominator) <= pot_balance && old(
                self,
            ).paid_out_reward + old(self).spec_outstanding(now, denominator) <= u64::MAX),
            r is Ok ==> r == Ok::<u64, ErrorCode>(
                old(self).spec_outstanding(now, denominator) as u64,
            ) && *final(self) == old(self).spec_after_claim(now, denominator),
            r == Err::<u64, ErrorCode>(ErrorCode::InsufficientFunding) <==> (old(
                self,
            ).spec_outstanding_ok(now, denominator) && old(self).spec_outstanding(now, denominator)
                > pot_balance),
            r is Err ==> *final(self) == *old(self) && (r == Err::<u64, ErrorCode>(
                ErrorCode::InsufficientFunding,
            ) || r == Err::<u64, ErrorCode>(ErrorCode::ArithmeticError)),
            final(self).paid_out_reward >= old(self).paid_out_reward,
    {
        let outstanding: u64 = self.outstanding_reward(now, denominator)?;

        // if the pot currently can't cover the promise, fail without
        // touching any state; the caller may retry once funding increases
        if outstanding > pot_balance {
            return Err(ErrorCode::InsufficientFunding);
        }

        let new_paid_out: u64 = try_add(self.paid_out_reward, outstanding)?;

        self.last_rewards_claimed_at = now;
        self.paid_out_reward = new_paid_out;

        Ok(outstanding)
    }
}

/// A per-user vault registered against a farm. One gem, one vault: after
/// one deposit the vault is locked and can take no further deposit.
///
/// The vault's owner, the authority that signs transfers out of it, and the
/// mint of the held gem live with the custody collaborator and are not
/// modelled here.
#[derive(Clone, Copy, Debug)]
pub struct Vault {
    /// set on deposit; a locked vault can no longer be used to deposit gems
    pub locked: bool,

    pub reward_a: VaultReward,
}

impl Vault {
    /// True iff at `now` the vault would exit at or before its committed
    /// tenure completes ("breaking the bank"), in which case reserved
    /// rewards must be unreserved and an early-exit penalty applies.
    pub fn attempting_to_break_bank(&self, now: u64) -> (r: Result<bool, ErrorCode>)
        ensures
            r is Ok <==> self.reward_a.spec_tenure_expiry() <= u64::MAX,
            r is Ok ==> r == Ok::<bool, ErrorCode>(now <= self.reward_a.spec_tenure_expiry()),
            r is Err ==> r == Err::<bool, ErrorCode>(ErrorCode::ArithmeticError),
    {
        // add tier required tenure to time staking started
        let tenure_expiry: u64 = try_add(
            self.reward_a.reward_tier.required_tenure,
            self.reward_a.staked_at,
        )?;

        if now > tenure_expiry {
            return Ok(false);
        }

        Ok(true)
    }

    /// Whether deposits into this vault are suspended: true once the vault
    /// is locked.
    pub fn access_suspended(&self) -> (r: Result<bool, ErrorCode>)
        ensures
            r == Ok::<bool, ErrorCode>(self.locked),
    {
        if self.locked {
            return Ok(true);
        }

        Ok(false)
    }
}

/// A vault never receives more than it was promised: under well-formedness,
/// the cumulative paid-out reward of a vault with a real lock stays within
/// the amount reserved for it at stake time.
pub proof fn lemma_paid_out_capped_by_reservation(v: VaultReward, denominator: u64)
    requires
        denominator != 0,
        v.spec_wf(denominator),
        v.reward_tier.required_tenure > 0,
    ensures
        v.paid_out_reward <= v.reserved_amount,
{
    let rate: int = v.spec_rate(denominator);
    let tenure: int = v.reward_tier.required_tenure as int;
    let frontier: int = if v.last_rewards_claimed_at <= v.spec_tenure_expiry() {
        v.last_rewards_claimed_at as int
    } else {
        v.spec_tenure_expiry()
    };
    assert(0 <= rate) by (nonlinear_arith)
        requires
            denominator != 0,
            rate == v.reward_tier.reward_rate as int / denominator as int,
            v.reward_tier.reward_rate >= 0,
            denominator > 0,
    ;
    assert(frontier - v.staked_at <= tenure);
    assert(rate * (frontier - v.staked_at) <= rate * tenure) by (nonlinear_arith)
        requires
            0 <= rate,
            frontier - v.staked_at <= tenure,
    ;
}

/// Claiming twice with no elapsed time pays nothing the second time: right
/// after a claim at `now`, the outstanding reward at the same `now` is zero,
/// so a second claim returns zero and leaves the cumulative total unchanged.
pub proof fn lemma_claim_idempotent(v: VaultReward, now: u64, denominator: u64)
    ensures
        v.spec_after_claim(now, denominator).spec_outstanding(now, denominator) == 0,
        v.spec_after_claim(now, denominator).spec_after_claim(now, denominator).paid_out_reward
            == v.spec_after_claim(now, denominator).paid_out_reward,
{
    let claimed = v.spec_after_claim(now, denominator);
    assert(claimed.spec_tenure_expiry() == v.spec_tenure_expiry());
    if now < claimed.spec_tenure_expiry() || claimed.reward_tier.required_tenure == 0 {
        assert((now - now) * claimed.spec_rate(denominator) == 0);
    }
}

/// A successful claim preserves well-formedness: the claim frontier moves
/// forward and the paid-out total keeps accounting exactly for the time from
/// staking up to that frontier.
pub proof fn lemma_claim_preserves_wf(v: VaultReward, now: u64, denominator: u64)
    requires
        denominator != 0,
        v.spec_wf(denominator),
        v.spec_outstanding_ok(now, denominator),
        v.paid_out_reward + v.spec_outstanding(now, denominator) <= u64::MAX,
    ensures
        v.spec_after_claim(now, denominator).spec_wf(denominator),
{
    let rate: int = v.spec_rate(denominator);
    let staked: int = v.staked_at as int;
    let last: int = v.last_rewards_claimed_at as int;
    let expiry: int = v.spec_tenure_expiry();
    let claimed = v.spec_after_claim(now, denominator);
    if v.reward_tier.required_tenure > 0 {
        if now < expiry {
            // within tenure: the frontier advances from the last claim to
            // `now`
            assert(rate * (last - staked) + (now - last) * rate == rate * (now - staked))
                by (nonlinear_arith);
            assert(claimed.paid_out_reward == rate * (now - staked));
        } else if last > expiry {
            // terminal: nothing is added and the frontier stays at expiry
            assert((claimed.paid_out_reward as int) == rate * (expiry - staked));
        } else {
            // final stretch: the frontier advances from the last claim to
            // expiry and stays capped there
            assert(rate * (last - staked) + (expiry - last) * rate == rate * (expiry - staked))
                by (nonlinear_arith);
            assert(claimed.paid_out_reward == rate * (expiry - staked));
        }
    }
}

} // verus!
