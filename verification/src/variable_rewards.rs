//! Variable-rate reward mode: present in the data model, but not exercised —
//! farms configured with it are rejected at initialization.

use vstd::prelude::*;

verus! {

/// Configuration of a variable-rate reward round.
#[derive(Clone, Copy, Debug, PartialEq, Eq, Structural)]
pub struct VariableRateConfig {
    /// total amount of reward
    pub amount: u64,

    /// over which period it's active
    pub duration_sec: u64,
}

/// The variable-rate reward state of a farm. The two rate fields are
/// fixed-point numbers kept as their raw 128-bit values; nothing in the
/// fixed-rate paths reads them.
#[derive(Clone, Copy, Debug, PartialEq, Eq, Structural)]
pub struct VariableRateReward {
    /// in tokens/s, calculated as total reward pot at initialization /
    /// reward duration
    pub reward_rate: u128,

    /// set to the upper bound of the funded window, not just the current
    /// instant (except on funding, when there is no upper bound)
    pub reward_last_updated_ts: u64,

    /// a "flag in the ground" that moves forward as rewards accrue to the
    /// pool; a staker is due the distance between their own record of the
    /// flag and its actual position, times their staked rarity points
    pub accrued_reward_per_rarity_point: u128,
}

} // verus!
