use vstd::prelude::*;
use crate::errors::StakingError;
use crate::state::keys::{Pubkey, TokenAccount};
use crate::state::staking_contract::StakingContract;

verus! {

/// What staking reads: the staking user, the pool, the user's token account
/// and the pool's vault token account.
#[derive(Debug, Clone, PartialEq, Eq)]
pub struct Stake {
    pub user: Pubkey,
    pub staking_contract: StakingContract,
    pub user_token_account: TokenAccount,
    pub staking_token_account: TokenAccount,
}

/// The checks on the accounts of a stake: both token accounts hold the pool's
/// token, and the user owns the source account.
pub open spec fn stake_accounts_check(ctx: Stake) -> Result<(), StakingError> {
    if ctx.user_token_account.mint != ctx.staking_contract.token_mint {
        Err(StakingError::InvalidToken)
    } else if ctx.user_token_account.owner != ctx.user {
        Err(StakingError::InvalidTokenAccount)
    } else if ctx.staking_token_account.mint != ctx.staking_contract.token_mint {
        Err(StakingError::InvalidToken)
    } else {
        Ok(())
    }
}

/// The state after staking `amount`, or why the stake is refused. The pool's
/// total grows by exactly the amount.
pub open spec fn stake_spec(pre: Stake, amount: u64) -> Result<Stake, StakingError> {
    match stake_accounts_check(pre) {
        Err(e) => Err(e),
        Ok(_) => {
            if amount == 0 {
                Err(StakingError::InvalidAmount)
            } else if pre.user_token_account.amount < amount {
                Err(StakingError::InsufficientFunds)
            } else if pre.staking_contract.total_staked + amount > u64::MAX {
                Err(StakingError::MathOverflow)
            } else {
                Ok(
                    Stake {
                        staking_contract: StakingContract {
                            total_staked: (pre.staking_contract.total_staked + amount) as u64,
                            ..pre.staking_contract
                        },
                        ..pre
                    },
                )
            }
        },
    }
}

impl Stake {
    /// Checks that both token accounts hold the pool's token and that the
    /// user owns the source account.
    pub fn validate_accounts(&self) -> (r: Result<(), StakingError>)
        ensures
            r == stake_accounts_check(*self),
    {
        if !self.user_token_account.mint.same_as(&self.staking_contract.token_mint) {
            return Err(StakingError::InvalidToken);
        }
        if !self.user_token_account.owner.same_as(&self.user) {
            return Err(StakingError::InvalidTokenAccount);
        }
        if !self.staking_token_account.mint.same_as(&self.staking_contract.token_mint) {
            return Err(StakingError::InvalidToken);
        }
        Ok(())
    }
}

/// Stakes `amount` tokens in the pool. On success the returned amount is what
/// moves from the user's token account to the pool's vault.
pub fn stake(ctx: &mut Stake, amount: u64) -> (r: Result<u64, StakingError>)
    ensures
        match stake_spec(*old(ctx), amount) {
            Ok(post) => r == Ok::<u64, StakingError>(amount) && *final(ctx) == post,
            Err(e) => r == Err::<u64, StakingError>(e) && *final(ctx) == *old(ctx),
        },
{
    match ctx.validate_accounts() {
        Ok(()) => {},
        Err(e) => return Err(e),
    }
    if !(amount > 0) {
        return Err(StakingError::InvalidAmount);
    }
    if !(ctx.user_token_account.amount >= amount) {
        return Err(StakingError::InsufficientFunds);
    }
    let new_total: u64 = match ctx.staking_contract.total_staked.checked_add(amount) {
        Some(v) => v,
        None => return Err(StakingError::MathOverflow),
    };
    ctx.staking_contract.total_staked = new_total;
    Ok(amount)
}

} // verus!
