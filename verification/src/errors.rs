use vstd::prelude::*;

verus! {

/// Every way in which an instruction of the staking program can be refused.
#[derive(Debug, Clone, Copy, PartialEq, Eq, Structural)]
pub enum StakingError {
    /// Only the contract owner can perform this action.
    Unauthorized,
    /// The user does not have enough tokens to stake or unstake.
    InsufficientFunds,
    /// The user's staking account is not initialized.
    AccountNotInitialized,
    /// The provided token is not valid for this staking pool.
    InvalidToken,
    /// The staking lock period has not been completed yet.
    StakingPeriodNotReached,
    /// The amount provided for staking or unstaking is invalid.
    InvalidAmount,
    /// The provided APR or locktime values are not valid.
    InvalidPoolParameters,
    /// The user has no rewards to claim.
    NoRewards,
    /// The price feed data is invalid or unavailable.
    InvalidPriceFeed,
    /// The provided pool name is not valid.
    InvalidPoolName,
    /// The provided pool name is too long.
    PoolNameTooLong,
    /// The provided APR value is not valid (must be between 1 and 100).
    InvalidAPR,
    /// The provided locktime value is not valid (must be greater than 0).
    InvalidLocktime,
    /// An arithmetic operation caused an overflow or underflow condition.
    MathOverflow,
    /// The provided token account is not valid for this staking pool.
    InvalidTokenAccount,
    /// Invalid price feed account.
    InvalidPriceAccount,
    /// Invalid price data.
    InvalidPrice,
    /// Reward amount too small.
    RewardTooSmall,
    /// Invalid calculation.
    InvalidCalculation,
    /// No stake.
    NoStake,
    /// Insufficient contract balance.
    InsufficientContractBalance,
    /// The pool still holds stakes and deletion was not forced.
    ActiveStakes,
}

} // verus!

verus! {

/// Why an instruction that reads the cluster's clock failed: the pool's own
/// rules refused it, or the runtime could not give the clock.
#[derive(Debug, PartialEq, Eq)]
pub enum InstructionError {
    Staking(StakingError),
    Program(anchor_lang::prelude::ProgramError),
}

/// A refusal by the pool's rules, as the failure of an instruction.
pub open spec fn lift_refusal<T>(r: Result<T, StakingError>) -> Result<T, InstructionError> {
    match r {
        Ok(v) => Ok(v),
        Err(e) => Err(InstructionError::Staking(e)),
    }
}

} // verus!
