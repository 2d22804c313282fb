pub mod keys;
pub mod master_contract;
pub mod staking_contract;

pub use keys::{Pubkey, TokenAccount};
pub use master_contract::MasterContract;
pub use staking_contract::StakingContract;
