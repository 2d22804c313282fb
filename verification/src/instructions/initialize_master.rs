use vstd::prelude::*;
use crate::errors::StakingError;
use crate::state::keys::Pubkey;
use crate::state::master_contract::MasterContract;

verus! {

/// What setting up the master account reads: the payer and the freshly
/// created master account.
#[derive(Debug, Clone, Copy, PartialEq, Eq)]
pub struct InitializeMaster {
    pub payer: Pubkey,
    pub master_contract: MasterContract,
}

/// Sets up the master account for `owner`, with no pool created yet.
pub fn initialize_master(ctx: &mut InitializeMaster, owner: Pubkey) -> (r: Result<(), StakingError>)
    ensures
        r is Ok,
        final(ctx).master_contract == (MasterContract { owner, pool_count: 0 }),
        final(ctx).payer == old(ctx).payer,
{
    ctx.master_contract.owner = owner;
    ctx.master_contract.pool_count = 0;
    Ok(())
}

} // verus!
