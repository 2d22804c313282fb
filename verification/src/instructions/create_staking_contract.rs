use vstd::prelude::*;
use crate::clock::read_current_slot;
use crate::errors::{InstructionError, StakingError};
use crate::state::keys::Pubkey;
use crate::state::master_contract::MasterContract;
use crate::state::staking_contract::{pool_name_check, pool_parameters_check, StakingContract};

verus! {

/// What creating a pool reads: the master account, the creating owner, and
/// the freshly created pool account.
#[derive(Debug, Clone, PartialEq, Eq)]
pub struct CreateStakingContract {
    pub master_contract: MasterContract,
    pub owner: Pubkey,
    pub staking_contract: StakingContract,
}

/// The checks on a new pool: its parameters first, then its name.
pub open spec fn create_check(pool_name: Seq<char>, apr: u64, locktime: u64) -> Result<
    (),
    StakingError,
> {
    match pool_parameters_check(apr, locktime) {
        Err(e) => Err(e),
        Ok(_) => pool_name_check(pool_name),
    }
}

/// Creates a pool owned by the signer, with nothing staked and the reward
/// accrual starting at `current_slot`, and counts it in the master account.
pub fn create_staking_contract_at(
    ctx: &mut CreateStakingContract,
    pool_name: String,
    token_mint: Pubkey,
    apr: u64,
    locktime: u64,
    current_slot: u64,
) -> (r: Result<(), StakingError>)
    requires
        create_check(pool_name@, apr, locktime) is Ok ==> old(ctx).master_contract.pool_count
            < u64::MAX,
    ensures
        r == create_check(pool_name@, apr, locktime),
        r is Err ==> *final(ctx) == *old(ctx),
        r is Ok ==> {
            &&& final(ctx).staking_contract == (StakingContract {
                owner: old(ctx).owner,
                pool_name,
                total_staked: 0,
                apr,
                locktime,
                token_mint,
                last_claim_slot: current_slot,
            })
            &&& final(ctx).master_contract == (MasterContract {
                owner: old(ctx).master_contract.owner,
                pool_count: (old(ctx).master_contract.pool_count + 1) as u64,
            })
            &&& final(ctx).owner == old(ctx).owner
        },
{
    match StakingContract::validate_pool_parameters(apr, locktime) {
        Ok(()) => {},
        Err(e) => return Err(e),
    }
    match StakingContract::validate_pool_name(pool_name.as_str()) {
        Ok(()) => {},
        Err(e) => return Err(e),
    }
    ctx.staking_contract.owner = ctx.owner;
    ctx.staking_contract.pool_name = pool_name;
    ctx.staking_contract.total_staked = 0;
    ctx.staking_contract.apr = apr;
    ctx.staking_contract.locktime = locktime;
    ctx.staking_contract.token_mint = token_mint;
    ctx.staking_contract.last_claim_slot = current_slot;
    ctx.master_contract.pool_count = ctx.master_contract.pool_count + 1;
    Ok(())
}

/// Creates a pool as `create_staking_contract_at` does, with the reward
/// accrual starting at the cluster's current slot. The parameters and the
/// name are checked before the clock is read.
pub fn create_staking_contract(
    ctx: &mut CreateStakingContract,
    pool_name: String,
    token_mint: Pubkey,
    apr: u64,
    locktime: u64,
) -> (r: Result<(), InstructionError>)
    requires
        create_check(pool_name@, apr, locktime) is Ok ==> old(ctx).master_contract.pool_count
            < u64::MAX,
    ensures
        create_check(pool_name@, apr, locktime) matches Err(e) ==> r == Err::<
            (),
            InstructionError,
        >(InstructionError::Staking(e)),
        create_check(pool_name@, apr, locktime) is Ok ==> r is Ok || r matches Err(
            InstructionError::Program(_),
        ),
        r is Err ==> *final(ctx) == *old(ctx),
        r is Ok ==> {
            &&& final(ctx).staking_contract == (StakingContract {
                owner: old(ctx).owner,
                pool_name,
                total_staked: 0,
                apr,
                locktime,
                token_mint,
                last_claim_slot: final(ctx).staking_contract.last_claim_slot,
            })
            &&& final(ctx).master_contract == (MasterContract {
                owner: old(ctx).master_contract.owner,
                pool_count: (old(ctx).master_contract.pool_count + 1) as u64,
            })
            &&& final(ctx).owner == old(ctx).owner
        },
{
    match StakingContract::validate_pool_parameters(apr, locktime) {
        Ok(()) => {},
        Err(e) => return Err(InstructionError::Staking(e)),
    }
    match StakingContract::validate_pool_name(pool_name.as_str()) {
        Ok(()) => {},
        Err(e) => return Err(InstructionError::Staking(e)),
    }
    let slot: u64 = match read_current_slot() {
        Ok(s) => s,
        Err(e) => return Err(InstructionError::Program(e)),
    };
    match create_staking_contract_at(ctx, pool_name, token_mint, apr, locktime, slot) {
        Ok(()) => Ok(()),
        Err(e) => Err(InstructionError::Staking(e)),
    }
}

} // verus!
