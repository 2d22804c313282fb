use vstd::prelude::*;
use crate::errors::StakingError;
use crate::state::keys::Pubkey;
use crate::state::staking_contract::StakingContract;

verus! {

/// What deleting a pool reads: the pool and the signer.
#[derive(Debug, Clone, PartialEq, Eq)]
pub struct DeleteStakingPool {
    pub staking_contract: StakingContract,
    pub owner: Pubkey,
}

/// What deleting the pool answers: refused unless the signer owns the pool,
/// and, without `force`, unless nothing is staked. On success, the amount of
/// staked tokens to send back from the vault to the owner before the vault and
/// the pool are closed, if there is any to send.
pub open spec fn delete_staking_pool_spec(ctx: DeleteStakingPool, force: bool) -> Result<
    Option<u64>,
    StakingError,
> {
    let total = ctx.staking_contract.total_staked;
    if ctx.staking_contract.owner != ctx.owner {
        Err(StakingError::Unauthorized)
    } else if !force && total != 0 {
        Err(StakingError::ActiveStakes)
    } else if force && total > 0 {
        Ok(Some(total))
    } else {
        Ok(None)
    }
}

/// Decides whether the pool may be deleted, and which staked tokens go back to
/// the owner first. The vault and the pool are closed to the owner afterwards.
pub fn delete_staking_pool(ctx: &DeleteStakingPool, force: bool) -> (r: Result<
    Option<u64>,
    StakingError,
>)
    ensures
        r == delete_staking_pool_spec(*ctx, force),
{
    if !ctx.staking_contract.owner.same_as(&ctx.owner) {
        return Err(StakingError::Unauthorized);
    }
    if !force {
        if !(ctx.staking_contract.total_staked == 0) {
            return Err(StakingError::ActiveStakes);
        }
        Ok(None)
    } else {
        if ctx.staking_contract.total_staked > 0 {
            Ok(Some(ctx.staking_contract.total_staked))
        } else {
            Ok(None)
        }
    }
}

} // verus!
