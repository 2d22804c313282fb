use vstd::prelude::*;
use crate::errors::StakingError;
use crate::state::keys::Pubkey;
use crate::state::staking_contract::{pool_parameters_check, StakingContract};

verus! {

/// What changing a pool's parameters reads: the pool and the signer.
#[derive(Debug, Clone, PartialEq, Eq)]
pub struct ModifyPoolParameters {
    pub staking_contract: StakingContract,
    pub owner: Pubkey,
}

/// The state after setting the pool's APR and lock time, or why the change is
/// refused: the new parameters are checked first, then that the signer owns
/// the pool.
pub open spec fn modify_pool_parameters_spec(
    pre: ModifyPoolParameters,
    new_apr: u64,
    new_locktime: u64,
) -> Result<ModifyPoolParameters, StakingError> {
    match pool_parameters_check(new_apr, new_locktime) {
        Err(e) => Err(e),
        Ok(_) => {
            if pre.staking_contract.owner != pre.owner {
                Err(StakingError::Unauthorized)
            } else {
                Ok(
                    ModifyPoolParameters {
                        staking_contract: StakingContract {
                            apr: new_apr,
                            locktime: new_locktime,
                            ..pre.staking_contract
                        },
                        ..pre
                    },
                )
            }
        },
    }
}

/// Sets the pool's APR and lock time; only the pool's owner may.
pub fn modify_pool_parameters(ctx: &mut ModifyPoolParameters, new_apr: u64, new_locktime: u64) -> (r:
    Result<(), StakingError>)
    ensures
        match modify_pool_parameters_spec(*old(ctx), new_apr, new_locktime) {
            Ok(post) => r is Ok && *final(ctx) == post,
            Err(e) => r == Err::<(), StakingError>(e) && *final(ctx) == *old(ctx),
        },
{
    match StakingContract::validate_pool_parameters(new_apr, new_locktime) {
        Ok(()) => {},
        Err(e) => return Err(e),
    }
    if !ctx.staking_contract.owner.same_as(&ctx.owner) {
        return Err(StakingError::Unauthorized);
    }
    ctx.staking_contract.apr = new_apr;
    ctx.staking_contract.locktime = new_locktime;
    Ok(())
}

} // verus!
