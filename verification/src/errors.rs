//! Typed errors returned by every fallible operation of the engine.

use vstd::prelude::*;

verus! {

/// Error taxonomy of the engine.
///
/// - `ArithmeticError` marks a checked add/sub/mul/div that overflowed,
///   underflowed or divided by zero. It is fatal: it indicates either a real
///   violation of call-ordering preconditions (such as claiming before
///   staking) or ledger corruption, and is never retried.
/// - `InsufficientFunding` means a pot or farm reserve cannot cover a
///   promised or outstanding amount. The caller may retry once funding
///   increases; no state is mutated.
/// - `InvalidSchedule` and `InvalidTierConfig` reject a configured schedule
///   or a caller-supplied tier before any reservation takes place.
/// - `VaultAccessSuspended` rejects an operation on a locked vault.
/// - `TooEarlyToWithdraw` rejects an early exit when the farm configures no
///   early-exit penalty.
/// - `InvalidRewardType` rejects farm configurations using the unsupported
///   variable reward mode.
#[derive(Clone, Copy, Debug, PartialEq, Eq, Structural)]
pub enum ErrorCode {
    ArithmeticError,
    InvalidRewardType,
    InvalidSchedule,
    InvalidTierConfig,
    InsufficientFunding,
    TooEarlyToWithdraw,
    VaultAccessSuspended,
}

} // verus!
