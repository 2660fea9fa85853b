//! Staking-reward accrual engine for a gem farm.
//!
//! Users lock a non-fungible asset ("gem") into a per-user vault registered
//! against a farm; the farm promises a reward payout rate for a minimum
//! tenure. The library tracks, reserves, accrues, caps and releases token
//! rewards over time with exact checked integer arithmetic, so that no vault
//! is ever paid more than it was promised and the farm never promises more
//! than it has been funded.
//!
//! Asset custody (token transfers, account creation and closing), signature
//! and ownership checks, and whitelist gating are external collaborators: the
//! library only computes and authorizes amounts, it never moves tokens.

pub mod errors;
pub mod try_math;
pub mod fixed_rewards;
pub mod vault;
pub mod farm;
pub mod variable_rewards;
pub mod instructions;
