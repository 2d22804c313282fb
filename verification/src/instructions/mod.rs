pub mod claim_reward;
pub mod create_staking_contract;
pub mod delete_staking_pool;
pub mod initialize_master;
pub mod modify_pool_parameters;
pub mod stake;
pub mod unstake;

pub use claim_reward::{
    calculate_reward, claim_reward, claim_reward_at, view_unclaimed_rewards,
    view_unclaimed_rewards_at, ClaimReward, ViewRewards,
};
pub use create_staking_contract::{
    create_staking_contract, create_staking_contract_at, CreateStakingContract,
};
pub use delete_staking_pool::{delete_staking_pool, DeleteStakingPool};
pub use initialize_master::{initialize_master, InitializeMaster};
pub use modify_pool_parameters::{modify_pool_parameters, ModifyPoolParameters};
pub use stake::{stake, Stake};
pub use unstake::{unstake, unstake_at, Unstake, UnstakePayout};
