use gem_farm::errors::ErrorCode;
use gem_farm::farm::{Farm, FarmConfig, FundsTracker, RewardType, LATEST_FARM_VERSION};
use gem_farm::fixed_rewards::{FixedRateSchedule, TierConfig};
use gem_farm::instructions::{deposit_gem, init_farm, init_vault, whitelist_creator};
use gem_farm::vault::Vault;

fn tier(rate: u64, tenure: u64) -> TierConfig {
    TierConfig { reward_rate: rate, required_tenure: tenure }
}

fn test_schedule() -> FixedRateSchedule {
    FixedRateSchedule {
        tier0: tier(0, 0),
        tier1: Some(tier(100, 60)),
        tier2: None,
        tier3: None,
        denominator: 1,
    }
}

fn test_farm(tax: u64) -> Farm {
    init_farm(
        RewardType::Fixed,
        Some(test_schedule()),
        FarmConfig { paper_hands_tax_lamp: tax },
    )
    .unwrap()
}

fn fresh_vault() -> Vault {
    let vault = init_vault();
    assert!(!vault.locked);
    assert_eq!(vault.reward_a.paid_out_reward, 0);
    vault
}

#[test]
fn init_farm_rejects_variable_rewards() {
    let r = init_farm(
        RewardType::Variable,
        Some(test_schedule()),
        FarmConfig { paper_hands_tax_lamp: 0 },
    );
    assert!(matches!(r, Err(ErrorCode::InvalidRewardType)));
}

#[test]
fn init_farm_rejects_invalid_schedule() {
    let bad = FixedRateSchedule {
        tier0: tier(0, 0),
        tier1: None,
        tier2: Some(tier(10, 50)),
        tier3: None,
        denominator: 1,
    };
    let r = init_farm(
        RewardType::Fixed,
        Some(bad),
        FarmConfig { paper_hands_tax_lamp: 0 },
    );
    assert!(matches!(r, Err(ErrorCode::InvalidSchedule)));
}

#[test]
fn init_farm_starts_zeroed() {
    let farm = test_farm(0);
    assert_eq!(farm.version, LATEST_FARM_VERSION);
    assert_eq!(farm.reward_a.funds.total_funded, 0);
    assert_eq!(farm.reward_a.funds.total_refunded, 0);
    assert_eq!(farm.reward_a.funds.total_accrued_to_stakers, 0);
    assert_eq!(farm.reward_a.fixed_rate.reserved_amount, 0);
    assert_eq!(farm.vault_count, 0);
    assert_eq!(farm.reward_a.fixed_rate.schedule.tier1, Some(tier(100, 60)));
}

#[test]
fn pending_amount_is_funded_minus_refunded_minus_accrued() {
    let funds = FundsTracker {
        total_funded: 100,
        total_refunded: 30,
        total_accrued_to_stakers: 50,
    };
    assert_eq!(funds.pending_amount(), Ok(20));
}

#[test]
fn pending_amount_underflow_fails() {
    let funds = FundsTracker {
        total_funded: 100,
        total_refunded: 30,
        total_accrued_to_stakers: 80,
    };
    assert_eq!(funds.pending_amount(), Err(ErrorCode::ArithmeticError));
}

#[test]
fn fund_reward_accumulates() {
    let mut farm = test_farm(0);
    assert_eq!(farm.fund_reward(4000), Ok(()));
    assert_eq!(farm.fund_reward(2000), Ok(()));
    assert_eq!(farm.reward_a.funds.total_funded, 6000);
    assert_eq!(farm.reward_a.funds.pending_amount(), Ok(6000));
}

#[test]
fn fund_reward_overflow_fails() {
    let mut farm = test_farm(0);
    assert_eq!(farm.fund_reward(u64::MAX), Ok(()));
    assert_eq!(farm.fund_reward(1), Err(ErrorCode::ArithmeticError));
    assert_eq!(farm.reward_a.funds.total_funded, u64::MAX);
}

#[test]
fn deposit_reserves_the_full_promise() {
    let mut farm = test_farm(0);
    farm.fund_reward(6000).unwrap();
    let mut vault = fresh_vault();

    assert_eq!(deposit_gem(&mut farm, &mut vault, 0, Some(tier(100, 60))), Ok(()));

    // stake at t=0 under tier1 reserves 100 * 60 = 6000
    assert!(vault.locked);
    assert_eq!(vault.reward_a.reserved_amount, 6000);
    assert_eq!(vault.reward_a.staked_at, 0);
    assert_eq!(vault.reward_a.last_rewards_claimed_at, 0);
    assert_eq!(vault.reward_a.reward_tier, tier(100, 60));
    assert_eq!(farm.reward_a.funds.total_accrued_to_stakers, 6000);
    assert_eq!(farm.reward_a.funds.pending_amount(), Ok(0));
    assert_eq!(farm.vault_count, 1);
}

#[test]
fn deposit_without_tier_falls_back_to_tier0() {
    let mut farm = test_farm(0);
    farm.fund_reward(100).unwrap();
    let mut vault = fresh_vault();

    assert_eq!(deposit_gem(&mut farm, &mut vault, 5, None), Ok(()));
    assert_eq!(vault.reward_a.reward_tier, tier(0, 0));
    assert_eq!(vault.reward_a.reserved_amount, 0);
    assert_eq!(farm.reward_a.funds.total_accrued_to_stakers, 0);
}

#[test]
fn deposit_into_locked_vault_fails() {
    let mut farm = test_farm(0);
    farm.fund_reward(6000).unwrap();
    let mut vault = fresh_vault();
    vault.locked = true;

    assert_eq!(
        deposit_gem(&mut farm, &mut vault, 0, None),
        Err(ErrorCode::VaultAccessSuspended)
    );
    assert_eq!(farm.vault_count, 0);
}

#[test]
fn deposit_with_unknown_tier_fails() {
    let mut farm = test_farm(0);
    farm.fund_reward(6000).unwrap();
    let mut vault = fresh_vault();

    assert_eq!(
        deposit_gem(&mut farm, &mut vault, 0, Some(tier(100, 61))),
        Err(ErrorCode::InvalidTierConfig)
    );
    assert!(!vault.locked);
    assert_eq!(farm.reward_a.funds.total_accrued_to_stakers, 0);
}

#[test]
fn deposit_beyond_pending_funds_fails() {
    let mut farm = test_farm(0);
    farm.fund_reward(5999).unwrap();
    let mut vault = fresh_vault();

    assert_eq!(
        deposit_gem(&mut farm, &mut vault, 0, Some(tier(100, 60))),
        Err(ErrorCode::InsufficientFunding)
    );
    assert!(!vault.locked);
    assert_eq!(vault.reward_a.reserved_amount, 0);
    assert_eq!(farm.reward_a.funds.total_accrued_to_stakers, 0);
    assert_eq!(farm.vault_count, 0);
}

#[test]
fn second_stake_cannot_draw_on_promised_funds() {
    let mut farm = test_farm(0);
    farm.fund_reward(6000).unwrap();
    let mut first = fresh_vault();
    assert_eq!(deposit_gem(&mut farm, &mut first, 0, Some(tier(100, 60))), Ok(()));

    let mut second = fresh_vault();
    assert_eq!(
        deposit_gem(&mut farm, &mut second, 0, Some(tier(100, 60))),
        Err(ErrorCode::InsufficientFunding)
    );
    assert_eq!(farm.vault_count, 1);
}

#[test]
fn accrued_and_funded_totals_never_decrease_absent_unreserve() {
    let mut farm = test_farm(0);
    let mut funded_floor: u64 = 0;
    let mut accrued_floor: u64 = 0;

    farm.fund_reward(10000).unwrap();
    assert!(farm.reward_a.funds.total_funded >= funded_floor);
    assert!(farm.reward_a.funds.total_accrued_to_stakers >= accrued_floor);
    funded_floor = farm.reward_a.funds.total_funded;
    accrued_floor = farm.reward_a.funds.total_accrued_to_stakers;

    let mut vault = fresh_vault();
    deposit_gem(&mut farm, &mut vault, 0, Some(tier(100, 60))).unwrap();
    assert!(farm.reward_a.funds.total_funded >= funded_floor);
    assert!(farm.reward_a.funds.total_accrued_to_stakers >= accrued_floor);
    funded_floor = farm.reward_a.funds.total_funded;
    accrued_floor = farm.reward_a.funds.total_accrued_to_stakers;

    farm.fund_reward(500).unwrap();
    assert!(farm.reward_a.funds.total_funded >= funded_floor);
    assert!(farm.reward_a.funds.total_accrued_to_stakers >= accrued_floor);
}

#[test]
fn pending_amount_stays_nonnegative_through_the_lifecycle() {
    let mut farm = test_farm(5);
    farm.fund_reward(6000).unwrap();
    assert!(farm.reward_a.funds.pending_amount().unwrap() <= 6000);

    let mut vault = fresh_vault();
    deposit_gem(&mut farm, &mut vault, 0, Some(tier(100, 60))).unwrap();
    // pending_amount computes with checked subtraction: Ok proves it is
    // not negative
    assert_eq!(farm.reward_a.funds.pending_amount(), Ok(0));

    let claimed = gem_farm::instructions::claim_rewards(&farm, &mut vault, 6000, 30).unwrap();
    assert_eq!(claimed, 3000);
    assert_eq!(farm.reward_a.funds.pending_amount(), Ok(0));
}

#[test]
fn whitelist_creator_increments_the_count() {
    let mut farm = test_farm(0);
    assert_eq!(whitelist_creator(&mut farm), Ok(()));
    assert_eq!(whitelist_creator(&mut farm), Ok(()));
    assert_eq!(farm.whitelisted_creators, 2);
}

#[test]
fn update_staked_count_increments() {
    let mut farm = test_farm(0);
    assert_eq!(farm.update_staked_count(), Ok(()));
    assert_eq!(farm.vault_count, 1);
}
