use vstd::prelude::*;
use crate::state::keys::Pubkey;

verus! {

/// The program-wide account: who set it up and how many pools were created.
#[derive(Debug, Clone, Copy, PartialEq, Eq)]
pub struct MasterContract {
    pub owner: Pubkey,
    pub pool_count: u64,
}

impl MasterContract {
    /// Bytes the account occupies: discriminator, owner, pool count.
    pub const LEN: usize = 8 + 32 + 8;
}

} // verus!
