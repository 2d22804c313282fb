use vstd::prelude::*;
use crate::errors::StakingError;
use crate::state::keys::Pubkey;

verus! {

/// A staking pool.
#[derive(Debug, Clone, PartialEq, Eq)]
pub struct StakingContract {
    pub owner: Pubkey,
    pub pool_name: String,
    pub total_staked: u64,
    pub apr: u64,
    pub locktime: u64,
    pub token_mint: Pubkey,
    pub last_claim_slot: u64,
}

/// The longest pool name accepted, in bytes.
pub const MAX_POOL_NAME_LEN: usize = 32;

/// Pool parameters are valid when the APR is a percentage from 1 to 100
/// and the lock time is at least one slot.
pub open spec fn valid_pool_parameters(apr: u64, locktime: u64) -> bool {
    1 <= apr <= 100 && locktime > 0
}

/// What checking pool parameters answers: the APR is checked first.
pub open spec fn pool_parameters_check(apr: u64, locktime: u64) -> Result<(), StakingError> {
    if !(1 <= apr <= 100) {
        Err(StakingError::InvalidAPR)
    } else if locktime == 0 {
        Err(StakingError::InvalidLocktime)
    } else {
        Ok(())
    }
}

/// The length in bytes of a name, as UTF-8.
pub open spec fn name_byte_len(name: Seq<char>) -> nat {
    vstd::utf8::encode_utf8(name).len()
}

/// What checking a pool name answers: it must be non-empty and at most
/// `MAX_POOL_NAME_LEN` bytes long.
pub open spec fn pool_name_check(name: Seq<char>) -> Result<(), StakingError> {
    if name.len() == 0 {
        Err(StakingError::InvalidPoolName)
    } else if name_byte_len(name) > MAX_POOL_NAME_LEN {
        Err(StakingError::PoolNameTooLong)
    } else {
        Ok(())
    }
}

/// Slots elapsed from `last_claim_slot` to `current_slot`, or 0 when the
/// current slot is earlier.
pub open spec fn slots_since(current_slot: u64, last_claim_slot: u64) -> u64 {
    if current_slot >= last_claim_slot {
        (current_slot - last_claim_slot) as u64
    } else {
        0
    }
}

impl StakingContract {
    /// Bytes the account occupies apart from the name's bytes: discriminator,
    /// owner, name length prefix, total staked, APR, lock time, token mint,
    /// last claim slot.
    pub const BASE_LEN: usize = 8 + 32 + 4 + 8 + 8 + 8 + 32 + 8;

    /// Bytes the account occupies with a name of `pool_name_len` bytes.
    pub fn space(pool_name_len: usize) -> (len: usize)
        requires
            pool_name_len + Self::BASE_LEN <= usize::MAX,
        ensures
            len == Self::BASE_LEN + pool_name_len,
    {
        Self::BASE_LEN + pool_name_len
    }

    /// Checks an APR and a lock time for a pool.
    pub fn validate_pool_parameters(apr: u64, locktime: u64) -> (r: Result<(), StakingError>)
        ensures
            r == pool_parameters_check(apr, locktime),
            r is Ok <==> valid_pool_parameters(apr, locktime),
    {
        if !(apr > 0 && apr <= 100) {
            return Err(StakingError::InvalidAPR);
        }
        if !(locktime > 0) {
            return Err(StakingError::InvalidLocktime);
        }
        Ok(())
    }

    /// Checks a pool name.
    pub fn validate_pool_name(pool_name: &str) -> (r: Result<(), StakingError>)
        ensures
            r == pool_name_check(pool_name@),
    {
        if pool_name.is_empty() {
            return Err(StakingError::InvalidPoolName);
        }
        if pool_name.as_bytes().len() > MAX_POOL_NAME_LEN {
            return Err(StakingError::PoolNameTooLong);
        }
        Ok(())
    }
}

} // verus!
