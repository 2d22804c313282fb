use solstaking::errors::StakingError;
use solstaking::instructions::{
    calculate_reward, claim_reward_at, create_staking_contract_at, delete_staking_pool,
    initialize_master, modify_pool_parameters, stake, unstake_at, view_unclaimed_rewards_at,
    ClaimReward, CreateStakingContract, DeleteStakingPool, InitializeMaster,
    ModifyPoolParameters, Stake, Unstake, UnstakePayout, ViewRewards,
};
use solstaking::state::{MasterContract, Pubkey, StakingContract, TokenAccount};

fn key(b: u8) -> Pubkey {
    Pubkey::new_from_array([b; 32])
}

const OWNER: u8 = 1;
const USER: u8 = 2;
const MINT: u8 = 3;
const OTHER: u8 = 9;

fn pool(total_staked: u64, apr: u64, locktime: u64, last_claim_slot: u64) -> StakingContract {
    StakingContract {
        owner: key(OWNER),
        pool_name: String::from("pool"),
        total_staked,
        apr,
        locktime,
        token_mint: key(MINT),
        last_claim_slot,
    }
}

fn token_account(mint: u8, owner: u8, amount: u64) -> TokenAccount {
    TokenAccount { mint: key(mint), owner: key(owner), amount }
}

fn stake_ctx(total: u64, user_balance: u64) -> Stake {
    Stake {
        user: key(USER),
        staking_contract: pool(total, 10, 100, 0),
        user_token_account: token_account(MINT, USER, user_balance),
        staking_token_account: token_account(MINT, OTHER, total),
    }
}

fn unstake_ctx(total: u64, vault: u64, locktime: u64, last_claim_slot: u64) -> Unstake {
    Unstake {
        user: key(USER),
        staking_contract: pool(total, 10, locktime, last_claim_slot),
        user_token_account: token_account(MINT, USER, 0),
        staking_token_account: token_account(MINT, OTHER, vault),
    }
}

fn claim_ctx(total: u64, apr: u64, locktime: u64, last: u64, user: u64, vault: u64) -> ClaimReward {
    ClaimReward {
        user: key(USER),
        user_lamports: user,
        staking_contract: pool(total, apr, locktime, last),
        reward_vault_lamports: vault,
    }
}

// ---------- initialize_master ----------

#[test]
fn initialize_master_sets_owner_and_zero_pools() {
    let mut ctx = InitializeMaster {
        payer: key(USER),
        master_contract: MasterContract { owner: key(OTHER), pool_count: 7 },
    };
    assert_eq!(initialize_master(&mut ctx, key(OWNER)), Ok(()));
    assert_eq!(ctx.master_contract, MasterContract { owner: key(OWNER), pool_count: 0 });
    assert_eq!(ctx.payer, key(USER));
}

// ---------- create_staking_contract ----------

fn create_ctx(pool_count: u64) -> CreateStakingContract {
    CreateStakingContract {
        master_contract: MasterContract { owner: key(OWNER), pool_count },
        owner: key(USER),
        staking_contract: StakingContract {
            owner: Pubkey::new_from_array([0; 32]),
            pool_name: String::new(),
            total_staked: 0,
            apr: 0,
            locktime: 0,
            token_mint: Pubkey::new_from_array([0; 32]),
            last_claim_slot: 0,
        },
    }
}

#[test]
fn create_staking_contract_fills_pool_and_counts_it() {
    let mut ctx = create_ctx(4);
    let r = create_staking_contract_at(&mut ctx, String::from("gold"), key(MINT), 12, 500, 777);
    assert_eq!(r, Ok(()));
    assert_eq!(
        ctx.staking_contract,
        StakingContract {
            owner: key(USER),
            pool_name: String::from("gold"),
            total_staked: 0,
            apr: 12,
            locktime: 500,
            token_mint: key(MINT),
            last_claim_slot: 777,
        }
    );
    assert_eq!(ctx.master_contract.pool_count, 5);
    assert_eq!(ctx.master_contract.owner, key(OWNER));
}

#[test]
fn create_staking_contract_refusals_leave_state_unchanged() {
    let cases: Vec<(&str, u64, u64, StakingError)> = vec![
        ("gold", 0, 500, StakingError::InvalidAPR),
        ("gold", 101, 500, StakingError::InvalidAPR),
        ("gold", 10, 0, StakingError::InvalidLocktime),
        ("", 10, 500, StakingError::InvalidPoolName),
        ("", 0, 500, StakingError::InvalidAPR),
        ("abcdefghijklmnopqrstuvwxyz0123456", 10, 500, StakingError::PoolNameTooLong),
    ];
    for (name, apr, locktime, err) in cases {
        let mut ctx = create_ctx(4);
        let before = ctx.clone();
        let r = create_staking_contract_at(&mut ctx, String::from(name), key(MINT), apr, locktime, 1);
        assert_eq!(r, Err(err));
        assert_eq!(ctx, before);
    }
}

#[test]
fn create_staking_contract_with_full_counter_still_refuses_bad_parameters() {
    let mut ctx = create_ctx(u64::MAX);
    let r = create_staking_contract_at(&mut ctx, String::from("gold"), key(MINT), 0, 1, 1);
    assert_eq!(r, Err(StakingError::InvalidAPR));
}

// ---------- modify_pool_parameters ----------

#[test]
fn modify_pool_parameters_by_owner() {
    let mut ctx = ModifyPoolParameters { staking_contract: pool(50, 10, 100, 3), owner: key(OWNER) };
    assert_eq!(modify_pool_parameters(&mut ctx, 20, 200), Ok(()));
    assert_eq!(ctx.staking_contract, StakingContract { apr: 20, locktime: 200, ..pool(50, 10, 100, 3) });
}

#[test]
fn modify_pool_parameters_refusals() {
    let mut ctx = ModifyPoolParameters { staking_contract: pool(50, 10, 100, 3), owner: key(OTHER) };
    assert_eq!(modify_pool_parameters(&mut ctx, 20, 200), Err(StakingError::Unauthorized));
    assert_eq!(modify_pool_parameters(&mut ctx, 0, 200), Err(StakingError::InvalidAPR));
    assert_eq!(modify_pool_parameters(&mut ctx, 20, 0), Err(StakingError::InvalidLocktime));
    assert_eq!(ctx.staking_contract, pool(50, 10, 100, 3));
    let mut owned = ModifyPoolParameters { staking_contract: pool(50, 10, 100, 3), owner: key(OWNER) };
    assert_eq!(modify_pool_parameters(&mut owned, 101, 5), Err(StakingError::InvalidAPR));
    assert_eq!(owned.staking_contract, pool(50, 10, 100, 3));
}

// ---------- delete_staking_pool ----------

#[test]
fn delete_staking_pool_decisions() {
    let by_owner = |total| DeleteStakingPool { staking_contract: pool(total, 10, 100, 0), owner: key(OWNER) };
    assert_eq!(delete_staking_pool(&by_owner(0), false), Ok(None));
    assert_eq!(delete_staking_pool(&by_owner(0), true), Ok(None));
    assert_eq!(delete_staking_pool(&by_owner(40), false), Err(StakingError::ActiveStakes));
    assert_eq!(delete_staking_pool(&by_owner(40), true), Ok(Some(40)));
    let stranger = DeleteStakingPool { staking_contract: pool(0, 10, 100, 0), owner: key(OTHER) };
    assert_eq!(delete_staking_pool(&stranger, true), Err(StakingError::Unauthorized));
    assert_eq!(delete_staking_pool(&stranger, false), Err(StakingError::Unauthorized));
}

// ---------- stake ----------

#[test]
fn stake_adds_to_total() {
    let mut ctx = stake_ctx(100, 500);
    assert_eq!(stake(&mut ctx, 250), Ok(250));
    assert_eq!(ctx.staking_contract.total_staked, 350);
    assert_eq!(ctx.user_token_account.amount, 500);
    assert_eq!(stake(&mut ctx, 500), Ok(500));
    assert_eq!(ctx.staking_contract.total_staked, 850);
}

#[test]
fn stake_refusals() {
    let mut ctx = stake_ctx(100, 500);
    ctx.user_token_account.mint = key(OTHER);
    assert_eq!(stake(&mut ctx, 10), Err(StakingError::InvalidToken));

    let mut ctx = stake_ctx(100, 500);
    ctx.user_token_account.owner = key(OTHER);
    assert_eq!(stake(&mut ctx, 10), Err(StakingError::InvalidTokenAccount));

    let mut ctx = stake_ctx(100, 500);
    ctx.staking_token_account.mint = key(OTHER);
    assert_eq!(stake(&mut ctx, 10), Err(StakingError::InvalidToken));

    let mut ctx = stake_ctx(100, 500);
    assert_eq!(stake(&mut ctx, 0), Err(StakingError::InvalidAmount));
    assert_eq!(stake(&mut ctx, 501), Err(StakingError::InsufficientFunds));
    assert_eq!(ctx.staking_contract.total_staked, 100);

    let mut full = stake_ctx(u64::MAX - 5, 500);
    assert_eq!(stake(&mut full, 6), Err(StakingError::MathOverflow));
    assert_eq!(full.staking_contract.total_staked, u64::MAX - 5);
    assert_eq!(stake(&mut full, 5), Ok(5));
    assert_eq!(full.staking_contract.total_staked, u64::MAX);
}

// ---------- unstake ----------

#[test]
fn unstake_after_lock_time_pays_everything() {
    let mut ctx = unstake_ctx(1000, 1000, 100, 50);
    let r = unstake_at(&mut ctx, 300, 150);
    assert_eq!(r, Ok(UnstakePayout { withdraw_amount: 300, burn_amount: 0 }));
    assert_eq!(ctx.staking_contract.total_staked, 700);
}

#[test]
fn early_unstake_burns_half() {
    let mut ctx = unstake_ctx(1000, 1000, 100, 50);
    let r = unstake_at(&mut ctx, 300, 149);
    assert_eq!(r, Ok(UnstakePayout { withdraw_amount: 150, burn_amount: 150 }));
    assert_eq!(ctx.staking_contract.total_staked, 700);

    // An odd amount: the odd token is neither paid nor burnt.
    let mut odd = unstake_ctx(1000, 1000, 100, 50);
    assert_eq!(unstake_at(&mut odd, 7, 60), Ok(UnstakePayout { withdraw_amount: 3, burn_amount: 3 }));
    assert_eq!(odd.staking_contract.total_staked, 993);

    // A clock earlier than the last claim counts as no time elapsed.
    let mut before = unstake_ctx(1000, 1000, 100, 500);
    assert_eq!(unstake_at(&mut before, 10, 20), Ok(UnstakePayout { withdraw_amount: 5, burn_amount: 5 }));

    // Unstaking a single token early pays and burns nothing.
    let mut one = unstake_ctx(1000, 1000, 100, 50);
    assert_eq!(unstake_at(&mut one, 1, 60), Ok(UnstakePayout { withdraw_amount: 0, burn_amount: 0 }));
    assert_eq!(one.staking_contract.total_staked, 999);
}

#[test]
fn unstake_refusals() {
    let mut ctx = unstake_ctx(1000, 1000, 100, 50);
    assert_eq!(unstake_at(&mut ctx, 0, 500), Err(StakingError::InvalidAmount));
    assert_eq!(unstake_at(&mut ctx, 1001, 500), Err(StakingError::InsufficientContractBalance));

    let mut short = unstake_ctx(10, 1000, 100, 50);
    assert_eq!(unstake_at(&mut short, 11, 500), Err(StakingError::MathOverflow));
    assert_eq!(short.staking_contract.total_staked, 10);

    let mut bad = unstake_ctx(1000, 1000, 100, 50);
    bad.user_token_account.mint = key(OTHER);
    assert_eq!(unstake_at(&mut bad, 5, 500), Err(StakingError::InvalidToken));
    let mut bad = unstake_ctx(1000, 1000, 100, 50);
    bad.user_token_account.owner = key(OTHER);
    assert_eq!(unstake_at(&mut bad, 5, 500), Err(StakingError::InvalidTokenAccount));
    let mut bad = unstake_ctx(1000, 1000, 100, 50);
    bad.staking_token_account.mint = key(OTHER);
    assert_eq!(unstake_at(&mut bad, 5, 500), Err(StakingError::InvalidToken));
    assert_eq!(bad.staking_contract.total_staked, 1000);
}

// ---------- rewards ----------

#[test]
fn reward_formula_exact_values() {
    // One year of slots at 10% on 1e9 tokens.
    assert_eq!(calculate_reward(1_000_000_000, 10, 63_072_000), Ok(100_000_000));
    // Half a year at 100%.
    assert_eq!(calculate_reward(2_000, 100, 31_536_000), Ok(1_000));
    // Rounded down.
    assert_eq!(calculate_reward(100, 10, 1), Ok(0));
    assert_eq!(calculate_reward(1_000, 100, 63_071_999), Ok(999));
    assert_eq!(calculate_reward(0, 100, 1_000_000), Ok(0));
    assert_eq!(calculate_reward(1_000, 100, 0), Ok(0));
}

#[test]
fn reward_formula_overflow_and_truncation() {
    assert_eq!(calculate_reward(u64::MAX, u64::MAX, 2), Err(StakingError::MathOverflow));
    assert_eq!(calculate_reward(u64::MAX, u64::MAX, 1), Ok(14_302_870_474_047_190_625)); // low 64 bits of a wider quotient
    // The reward is kept to its low 64 bits: 2 * (2^64 - 1) becomes 2^64 - 2.
    assert_eq!(calculate_reward(u64::MAX, 100, 2 * 63_072_000), Ok(u64::MAX - 1));
}

#[test]
fn claim_reward_pays_from_vault() {
    let mut ctx = claim_ctx(1_000_000_000, 10, 100, 0, 5, 1_000_000_000);
    let r = claim_reward_at(&mut ctx, 63_072_000);
    assert_eq!(r, Ok(100_000_000));
    assert_eq!(ctx.user_lamports, 100_000_005);
    assert_eq!(ctx.reward_vault_lamports, 900_000_000);
    assert_eq!(ctx.staking_contract.last_claim_slot, 63_072_000);
    assert_eq!(ctx.staking_contract.total_staked, 1_000_000_000);
    // Claiming again in the same slot is refused.
    assert_eq!(claim_reward_at(&mut ctx, 63_072_000), Err(StakingError::StakingPeriodNotReached));
    assert_eq!(claim_reward_at(&mut ctx, 63_072_099), Err(StakingError::StakingPeriodNotReached));
}

#[test]
fn claim_reward_refusals() {
    let mut c = claim_ctx(0, 10, 100, 0, 5, 1_000);
    assert_eq!(claim_reward_at(&mut c, 1_000_000), Err(StakingError::NoStake));

    let mut c = claim_ctx(1_000, 10, 100, 50, 5, 1_000);
    assert_eq!(claim_reward_at(&mut c, 149), Err(StakingError::StakingPeriodNotReached));
    assert_eq!(claim_reward_at(&mut c, 10), Err(StakingError::StakingPeriodNotReached));

    let mut c = claim_ctx(1_000, 10, 100, 50, 5, 1_000);
    assert_eq!(claim_reward_at(&mut c, 150), Err(StakingError::RewardTooSmall));

    let mut c = claim_ctx(u64::MAX, 100, 1, 0, 5, 1_000);
    assert_eq!(claim_reward_at(&mut c, u64::MAX), Err(StakingError::MathOverflow));

    let mut c = claim_ctx(1_000_000_000, 10, 100, 0, 5, 99_999_999);
    assert_eq!(claim_reward_at(&mut c, 63_072_000), Err(StakingError::InsufficientContractBalance));
    assert_eq!(c.reward_vault_lamports, 99_999_999);

    let mut c = claim_ctx(1_000_000_000, 10, 100, 0, u64::MAX - 99_999_999, 100_000_000);
    assert_eq!(claim_reward_at(&mut c, 63_072_000), Err(StakingError::MathOverflow));
    assert_eq!(c.user_lamports, u64::MAX - 99_999_999);
    assert_eq!(c.staking_contract.last_claim_slot, 0);
}

#[test]
fn view_unclaimed_rewards_values() {
    let view = |total, last| ViewRewards { user: key(USER), staking_contract: pool(total, 10, 100, last) };
    assert_eq!(view_unclaimed_rewards_at(&view(0, 0), 1_000), Err(StakingError::NoStake));
    assert_eq!(view_unclaimed_rewards_at(&view(1_000_000_000, 0), 99), Ok(0));
    assert_eq!(view_unclaimed_rewards_at(&view(1_000_000_000, 0), 63_072_000), Ok(100_000_000));
    assert_eq!(view_unclaimed_rewards_at(&view(1_000, 0), 100), Ok(0));
}
