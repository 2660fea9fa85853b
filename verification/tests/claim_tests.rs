use gem_farm::errors::ErrorCode;
use gem_farm::fixed_rewards::TierConfig;
use gem_farm::vault::VaultReward;

fn staked_vault_reward(rate: u64, tenure: u64, staked_at: u64, reserved: u64) -> VaultReward {
    VaultReward {
        paid_out_reward: 0,
        staked_at,
        reserved_amount: reserved,
        reward_tier: TierConfig { reward_rate: rate, required_tenure: tenure },
        last_rewards_claimed_at: staked_at,
    }
}

#[test]
fn outstanding_within_tenure_is_elapsed_times_rate() {
    // schedule {tier1: {rate: 100, tenure: 60}, denom: 1}, staked at t=0
    let v = staked_vault_reward(100, 60, 0, 6000);
    assert_eq!(v.outstanding_reward(30, 1), Ok(3000));
}

#[test]
fn claim_within_tenure_pays_and_advances() {
    let mut v = staked_vault_reward(100, 60, 0, 6000);
    assert_eq!(v.claim_rewards(6000, 30, 1), Ok(3000));
    assert_eq!(v.last_rewards_claimed_at, 30);
    assert_eq!(v.paid_out_reward, 3000);
}

#[test]
fn outstanding_past_tenure_caps_at_expiry() {
    // past tenure with last claim at t=30 < expiry 60: exactly the stretch
    // from 30 to 60 remains
    let mut v = staked_vault_reward(100, 60, 0, 6000);
    assert_eq!(v.claim_rewards(6000, 30, 1), Ok(3000));
    assert_eq!(v.outstanding_reward(90, 1), Ok(3000));
}

#[test]
fn claim_after_expiry_settles_the_full_promise() {
    let mut v = staked_vault_reward(100, 60, 0, 6000);
    assert_eq!(v.claim_rewards(6000, 30, 1), Ok(3000));
    assert_eq!(v.claim_rewards(6000, 90, 1), Ok(3000));
    assert_eq!(v.paid_out_reward, 6000);
    // the full promise equals the reserved amount, never more
    assert_eq!(v.paid_out_reward, v.reserved_amount);
}

#[test]
fn claim_with_frontier_at_expiry_pays_zero() {
    // last claim landed exactly on expiry: nothing further to pay
    let mut v = staked_vault_reward(100, 60, 0, 6000);
    v.last_rewards_claimed_at = 60;
    assert_eq!(v.claim_rewards(6000, 120, 1), Ok(0));
}

#[test]
fn claim_in_terminal_state_pays_zero() {
    // a prior claim past expiry moved the frontier beyond it
    let mut v = staked_vault_reward(100, 60, 0, 6000);
    v.last_rewards_claimed_at = 70;
    v.paid_out_reward = 6000;
    assert_eq!(v.claim_rewards(6000, 80, 1), Ok(0));
    assert_eq!(v.paid_out_reward, 6000);
}

#[test]
fn second_claim_with_no_elapsed_time_pays_zero() {
    let mut v = staked_vault_reward(100, 60, 0, 6000);
    assert_eq!(v.claim_rewards(6000, 30, 1), Ok(3000));
    assert_eq!(v.claim_rewards(6000, 30, 1), Ok(0));
    assert_eq!(v.paid_out_reward, 3000);
}

#[test]
fn claim_exactly_at_expiry_takes_the_boundary_branch() {
    // at now == tenure_expiry the boundary branch pays the remaining
    // partial-period reward up to expiry
    let mut v = staked_vault_reward(100, 60, 0, 6000);
    assert_eq!(v.claim_rewards(6000, 30, 1), Ok(3000));
    assert_eq!(v.outstanding_reward(60, 1), Ok(3000));
    assert_eq!(v.claim_rewards(6000, 60, 1), Ok(3000));
    assert_eq!(v.paid_out_reward, 6000);
}

#[test]
fn claim_just_past_expiry_does_not_accrue_beyond_it() {
    // one second past expiry the within-tenure formula would pay 3100; the
    // boundary branch caps the stretch at expiry
    let mut v = staked_vault_reward(100, 60, 0, 6000);
    assert_eq!(v.claim_rewards(6000, 30, 1), Ok(3000));
    assert_eq!(v.outstanding_reward(61, 1), Ok(3000));
}

#[test]
fn rate_is_divided_by_denominator_before_time_scaling() {
    // rate 3, denominator 2, tenure 10: the promised total is
    // (3 / 2) * 10 = 10, and the claim at expiry pays exactly that — the
    // rate is truncated by the denominator before multiplying by elapsed
    // time, in the claim paths just as in the reservation
    let mut v = staked_vault_reward(3, 10, 0, 10);
    assert_eq!(v.outstanding_reward(10, 2), Ok(10));
    assert_eq!(v.claim_rewards(100, 10, 2), Ok(10));
    assert_eq!(v.paid_out_reward, v.reserved_amount);
}

#[test]
fn tier0_accrues_without_bound() {
    // tenure 0: always within tenure, claimable at any time
    let mut v = staked_vault_reward(5, 0, 0, 0);
    assert_eq!(v.claim_rewards(1000, 10, 1), Ok(50));
    assert_eq!(v.claim_rewards(1000, 100, 1), Ok(450));
    assert_eq!(v.paid_out_reward, 500);
}

#[test]
fn claim_before_last_claim_fails() {
    // the clock must not run backwards past the last claim
    let mut v = staked_vault_reward(100, 60, 0, 6000);
    v.last_rewards_claimed_at = 50;
    assert_eq!(v.claim_rewards(6000, 40, 1), Err(ErrorCode::ArithmeticError));
    assert_eq!(v.last_rewards_claimed_at, 50);
    assert_eq!(v.paid_out_reward, 0);
}

#[test]
fn claim_with_zero_denominator_fails() {
    let mut v = staked_vault_reward(100, 60, 0, 6000);
    assert_eq!(v.claim_rewards(6000, 30, 0), Err(ErrorCode::ArithmeticError));
}

#[test]
fn claim_beyond_pot_fails_without_mutation() {
    let mut v = staked_vault_reward(100, 60, 0, 6000);
    assert_eq!(
        v.claim_rewards(2999, 30, 1),
        Err(ErrorCode::InsufficientFunding)
    );
    assert_eq!(v.last_rewards_claimed_at, 0);
    assert_eq!(v.paid_out_reward, 0);
}

#[test]
fn computed_reward_rate_truncates() {
    let v = staked_vault_reward(10, 60, 0, 0);
    assert_eq!(v.computed_reward_rate(86400), Ok(0));
    assert_eq!(v.computed_reward_rate(3), Ok(3));
    assert_eq!(v.computed_reward_rate(0), Err(ErrorCode::ArithmeticError));
}

#[test]
fn expiry_overflow_fails() {
    let v = staked_vault_reward(1, u64::MAX, 5, 0);
    assert_eq!(v.outstanding_reward(10, 1), Err(ErrorCode::ArithmeticError));
}
