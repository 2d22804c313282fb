use vstd::prelude::*;
use crate::clock::read_current_slot;
use crate::errors::{InstructionError, StakingError};
use crate::state::keys::{Pubkey, TokenAccount};
use crate::state::staking_contract::{slots_since, StakingContract};

verus! {

/// What unstaking reads: the unstaking user, the pool, the user's token
/// account and the pool's vault token account.
#[derive(Debug, Clone, PartialEq, Eq)]
pub struct Unstake {
    pub user: Pubkey,
    pub staking_contract: StakingContract,
    pub user_token_account: TokenAccount,
    pub staking_token_account: TokenAccount,
}

/// The token movements out of the vault that an unstake asks for: tokens sent
/// to the user, and tokens burnt as the early-withdrawal penalty.
#[derive(Debug, Clone, Copy, PartialEq, Eq)]
pub struct UnstakePayout {
    pub withdraw_amount: u64,
    pub burn_amount: u64,
}

/// The checks on the accounts of an unstake: both token accounts hold the
/// pool's token, and the user owns the destination account.
pub open spec fn unstake_accounts_check(ctx: Unstake) -> Result<(), StakingError> {
    if ctx.user_token_account.mint != ctx.staking_contract.token_mint {
        Err(StakingError::InvalidToken)
    } else if ctx.user_token_account.owner != ctx.user {
        Err(StakingError::InvalidTokenAccount)
    } else if ctx.staking_token_account.mint != ctx.staking_contract.token_mint {
        Err(StakingError::InvalidToken)
    } else {
        Ok(())
    }
}

/// A withdrawal is early when fewer than `locktime` slots have passed since
/// the pool's last claim.
pub open spec fn is_early_withdrawal(pool: StakingContract, current_slot: u64) -> bool {
    slots_since(current_slot, pool.last_claim_slot) < pool.locktime
}

/// How an unstaked amount is paid out: all of it to the user, or on an early
/// withdrawal half (rounded down) to the user and as much burnt.
pub open spec fn payout_of(amount: u64, early: bool) -> UnstakePayout {
    if early {
        UnstakePayout { withdraw_amount: amount / 2, burn_amount: amount / 2 }
    } else {
        UnstakePayout { withdraw_amount: amount, burn_amount: 0 }
    }
}

/// The state after unstaking `amount` at `current_slot` and the payout, or why
/// the unstake is refused. The pool's total shrinks by exactly the amount.
pub open spec fn unstake_spec(pre: Unstake, amount: u64, current_slot: u64) -> Result<
    (Unstake, UnstakePayout),
    StakingError,
> {
    match unstake_accounts_check(pre) {
        Err(e) => Err(e),
        Ok(_) => {
            if amount == 0 {
                Err(StakingError::InvalidAmount)
            } else if pre.staking_token_account.amount < amount {
                Err(StakingError::InsufficientContractBalance)
            } else if pre.staking_contract.total_staked < amount {
                Err(StakingError::MathOverflow)
            } else {
                Ok(
                    (
                        Unstake {
                            staking_contract: StakingContract {
                                total_staked: (pre.staking_contract.total_staked - amount) as u64,
                                ..pre.staking_contract
                            },
                            ..pre
                        },
                        payout_of(amount, is_early_withdrawal(pre.staking_contract, current_slot)),
                    ),
                )
            }
        },
    }
}

impl Unstake {
    /// Checks that both token accounts hold the pool's token and that the
    /// user owns the destination account.
    pub fn validate_accounts(&self) -> (r: Result<(), StakingError>)
        ensures
            r == unstake_accounts_check(*self),
    {
        if !self.user_token_account.mint.same_as(&self.staking_contract.token_mint) {
            return Err(StakingError::InvalidToken);
        }
        if !self.user_token_account.owner.same_as(&self.user) {
            return Err(StakingError::InvalidTokenAccount);
        }
        if !self.staking_token_account.mint.same_as(&self.staking_contract.token_mint) {
            return Err(StakingError::InvalidToken);
        }
        Ok(())
    }
}

/// Unstakes `amount` tokens at `current_slot`. Before the lock time has passed
/// since the last claim, half of the amount is paid out and as much is burnt.
pub fn unstake_at(ctx: &mut Unstake, amount: u64, current_slot: u64) -> (r: Result<
    UnstakePayout,
    StakingError,
>)
    ensures
        match unstake_spec(*old(ctx), amount, current_slot) {
            Ok((post, payout)) => r == Ok::<UnstakePayout, StakingError>(payout) && *final(ctx)
                == post,
            Err(e) => r == Err::<UnstakePayout, StakingError>(e) && *final(ctx) == *old(ctx),
        },
{
    match ctx.validate_accounts() {
        Ok(()) => {},
        Err(e) => return Err(e),
    }
    if !(amount > 0) {
        return Err(StakingError::InvalidAmount);
    }
    let locktime: u64 = ctx.staking_contract.locktime;
    let last_claim_slot: u64 = ctx.staking_contract.last_claim_slot;
    let is_early: bool = current_slot.saturating_sub(last_claim_slot) < locktime;
    let payout = if is_early {
        let penalty: u64 = match amount.checked_div(2) {
            Some(v) => v,
            None => return Err(StakingError::MathOverflow),
        };
        UnstakePayout { withdraw_amount: penalty, burn_amount: penalty }
    } else {
        UnstakePayout { withdraw_amount: amount, burn_amount: 0 }
    };
    if !(ctx.staking_token_account.amount >= amount) {
        return Err(StakingError::InsufficientContractBalance);
    }
    let new_total: u64 = match ctx.staking_contract.total_staked.checked_sub(amount) {
        Some(v) => v,
        None => return Err(StakingError::MathOverflow),
    };
    ctx.staking_contract.total_staked = new_total;
    Ok(payout)
}

/// Whether `r` and `post` are what unstaking `amount` at `slot` from `pre`
/// gives.
pub open spec fn unstake_outcome(
    pre: Unstake,
    amount: u64,
    slot: u64,
    r: Result<UnstakePayout, InstructionError>,
    post: Unstake,
) -> bool {
    match unstake_spec(pre, amount, slot) {
        Ok((p, payout)) => r == Ok::<UnstakePayout, InstructionError>(payout) && post == p,
        Err(e) => r == Err::<UnstakePayout, InstructionError>(InstructionError::Staking(e))
            && post == pre,
    }
}

/// Unstakes `amount` tokens at the cluster's current slot. The accounts and
/// the amount are checked before the clock is read; otherwise the unstake is
/// the one at whatever slot the clock gives, unless the clock cannot be read.
pub fn unstake(ctx: &mut Unstake, amount: u64) -> (r: Result<UnstakePayout, InstructionError>)
    ensures
        unstake_accounts_check(*old(ctx)) matches Err(e) ==> r == Err::<
            UnstakePayout,
            InstructionError,
        >(InstructionError::Staking(e)) && *final(ctx) == *old(ctx),
        unstake_accounts_check(*old(ctx)) is Ok && amount == 0 ==> r == Err::<
            UnstakePayout,
            InstructionError,
        >(InstructionError::Staking(StakingError::InvalidAmount)) && *final(ctx) == *old(ctx),
        r matches Err(InstructionError::Program(_)) ==> unstake_accounts_check(*old(ctx)) is Ok
            && amount > 0 && *final(ctx) == *old(ctx),
        !(r matches Err(InstructionError::Program(_))) ==> exists|slot: u64|
            #[trigger] unstake_outcome(*old(ctx), amount, slot, r, *final(ctx)),
{
    match ctx.validate_accounts() {
        Ok(()) => {},
        Err(e) => {
            let r = Err(InstructionError::Staking(e));
            assert(unstake_outcome(*ctx, amount, 0, r, *ctx));
            return r;
        },
    }
    if !(amount > 0) {
        let r = Err(InstructionError::Staking(StakingError::InvalidAmount));
        assert(unstake_outcome(*ctx, amount, 0, r, *ctx));
        return r;
    }
    let slot: u64 = match read_current_slot() {
        Ok(s) => s,
        Err(e) => return Err(InstructionError::Program(e)),
    };
    let ghost pre = *ctx;
    let r = match unstake_at(ctx, amount, slot) {
        Ok(payout) => Ok(payout),
        Err(e) => Err(InstructionError::Staking(e)),
    };
    assert(unstake_outcome(pre, amount, slot, r, *ctx));
    r
}

} // verus!
