use vstd::prelude::*;
use crate::errors::{lift_refusal, InstructionError, StakingError};
use crate::state::master_contract::MasterContract;
use crate::instructions::claim_reward::{
    claim_reward_outcome, claim_reward_spec, reward_numerator, reward_result, view_unclaimed_rewards_spec, ClaimReward,
    ViewRewards, SLOTS_PER_YEAR,
};
use crate::instructions::create_staking_contract::create_check;
use crate::instructions::delete_staking_pool::{delete_staking_pool_spec, DeleteStakingPool};
use crate::instructions::modify_pool_parameters::{
    modify_pool_parameters_spec, ModifyPoolParameters,
};
use crate::instructions::stake::{stake_spec, Stake};
use crate::instructions::unstake::{
    is_early_withdrawal, unstake_accounts_check, unstake_outcome, unstake_spec, Unstake,
    UnstakePayout,
};
use crate::state::staking_contract::{
    name_byte_len, pool_name_check, pool_parameters_check, slots_since, valid_pool_parameters,
    StakingContract, MAX_POOL_NAME_LEN,
};

verus! {

/// A pool's configuration: everything but what staking and claiming move.
pub open spec fn same_pool_config(pre: StakingContract, post: StakingContract) -> bool {
    &&& post.owner == pre.owner
    &&& post.pool_name == pre.pool_name
    &&& post.apr == pre.apr
    &&& post.locktime == pre.locktime
    &&& post.token_mint == pre.token_mint
}

/// A pool is only created with valid parameters and a name of 1 to 32 bytes.
pub proof fn lemma_created_pool_is_valid(pool_name: Seq<char>, apr: u64, locktime: u64)
    requires
        create_check(pool_name, apr, locktime) is Ok,
    ensures
        valid_pool_parameters(apr, locktime),
        pool_name.len() > 0,
        name_byte_len(pool_name) <= MAX_POOL_NAME_LEN,
{
}

/// Changing a pool's parameters leaves them valid and touches nothing else.
pub proof fn lemma_modified_pool_is_valid(pre: ModifyPoolParameters, new_apr: u64, new_locktime: u64)
    requires
        modify_pool_parameters_spec(pre, new_apr, new_locktime) is Ok,
    ensures
        ({
            let post = modify_pool_parameters_spec(pre, new_apr, new_locktime)->Ok_0;
            &&& valid_pool_parameters(post.staking_contract.apr, post.staking_contract.locktime)
            &&& post.staking_contract.apr == new_apr
            &&& post.staking_contract.locktime == new_locktime
            &&& post.staking_contract.owner == pre.staking_contract.owner
            &&& post.staking_contract.pool_name == pre.staking_contract.pool_name
            &&& post.staking_contract.token_mint == pre.staking_contract.token_mint
            &&& post.staking_contract.total_staked == pre.staking_contract.total_staked
            &&& post.staking_contract.last_claim_slot == pre.staking_contract.last_claim_slot
        }),
{
}

/// Staking, unstaking and claiming never change a pool's owner, name, token,
/// APR or lock time.
pub proof fn lemma_pool_config_kept(
    s: Stake,
    stake_amount: u64,
    u: Unstake,
    unstake_amount: u64,
    unstake_slot: u64,
    c: ClaimReward,
    claim_slot: u64,
)
    ensures
        stake_spec(s, stake_amount) is Ok ==> same_pool_config(
            s.staking_contract,
            stake_spec(s, stake_amount)->Ok_0.staking_contract,
        ),
        unstake_spec(u, unstake_amount, unstake_slot) is Ok ==> same_pool_config(
            u.staking_contract,
            unstake_spec(u, unstake_amount, unstake_slot)->Ok_0.0.staking_contract,
        ),
        claim_reward_spec(c, claim_slot) is Ok ==> same_pool_config(
            c.staking_contract,
            claim_reward_spec(c, claim_slot)->Ok_0.0.staking_contract,
        ),
{
}

/// Only the owner of a pool can change its parameters or delete it.
pub proof fn lemma_only_owner_manages_pool(
    m: ModifyPoolParameters,
    new_apr: u64,
    new_locktime: u64,
    d: DeleteStakingPool,
    force: bool,
)
    requires
        m.owner != m.staking_contract.owner,
        d.owner != d.staking_contract.owner,
    ensures
        modify_pool_parameters_spec(m, new_apr, new_locktime) is Err,
        valid_pool_parameters(new_apr, new_locktime) ==> modify_pool_parameters_spec(
            m,
            new_apr,
            new_locktime,
        ) == Err::<ModifyPoolParameters, StakingError>(StakingError::Unauthorized),
        delete_staking_pool_spec(d, force) == Err::<Option<u64>, StakingError>(
            StakingError::Unauthorized,
        ),
{
}

/// A pool that holds stakes is only deleted when forced, and then all of its
/// stakes are sent back to the owner.
pub proof fn lemma_delete_returns_all_stakes(d: DeleteStakingPool, force: bool)
    requires
        delete_staking_pool_spec(d, force) is Ok,
    ensures
        d.staking_contract.total_staked > 0 ==> force && delete_staking_pool_spec(d, force)
            == Ok::<Option<u64>, StakingError>(Some(d.staking_contract.total_staked)),
        d.staking_contract.total_staked == 0 ==> delete_staking_pool_spec(d, force) == Ok::<
            Option<u64>,
            StakingError,
        >(None),
{
}

/// Staking an amount and then unstaking the same amount once the lock time has
/// passed gives the whole amount back, without penalty, and leaves the pool as
/// it was.
pub proof fn lemma_stake_then_unstake_restores_pool(
    s: Stake,
    amount: u64,
    u: Unstake,
    current_slot: u64,
)
    requires
        stake_spec(s, amount) is Ok,
        u.staking_contract == stake_spec(s, amount)->Ok_0.staking_contract,
        unstake_accounts_check(u) is Ok,
        u.staking_token_account.amount >= amount,
        !is_early_withdrawal(u.staking_contract, current_slot),
    ensures
        unstake_spec(u, amount, current_slot) is Ok,
        unstake_spec(u, amount, current_slot)->Ok_0.0.staking_contract == s.staking_contract,
        unstake_spec(u, amount, current_slot)->Ok_0.1 == (UnstakePayout {
            withdraw_amount: amount,
            burn_amount: 0,
        }),
{
    let post = unstake_spec(u, amount, current_slot)->Ok_0.0.staking_contract;
    assert(post == s.staking_contract);
}

/// An unstake lowers the pool's total by exactly the amount and never pays out
/// more than it: all of it after the lock time, otherwise half to the user and
/// half burnt, with the odd token of an odd amount neither paid nor burnt.
pub proof fn lemma_unstake_payout(pre: Unstake, amount: u64, current_slot: u64)
    requires
        unstake_spec(pre, amount, current_slot) is Ok,
    ensures
        ({
            let (post, payout) = unstake_spec(pre, amount, current_slot)->Ok_0;
            &&& post.staking_contract.total_staked == pre.staking_contract.total_staked - amount
            &&& payout.withdraw_amount + payout.burn_amount <= amount
            &&& is_early_withdrawal(pre.staking_contract, current_slot) ==> {
                &&& payout.withdraw_amount == payout.burn_amount
                &&& payout.withdraw_amount + payout.burn_amount + amount % 2 == amount
            }
            &&& !is_early_withdrawal(pre.staking_contract, current_slot) ==> {
                &&& payout.withdraw_amount == amount
                &&& payout.burn_amount == 0
            }
        }),
{
}

/// A claim moves lamports from the reward vault to the user: the vault loses
/// exactly what the user gains, and the pool's stake is untouched.
pub proof fn lemma_claim_conserves_lamports(pre: ClaimReward, current_slot: u64)
    requires
        claim_reward_spec(pre, current_slot) is Ok,
    ensures
        ({
            let (post, reward) = claim_reward_spec(pre, current_slot)->Ok_0;
            &&& reward > 0
            &&& post.reward_vault_lamports == pre.reward_vault_lamports - reward
            &&& post.user_lamports == pre.user_lamports + reward
            &&& post.user_lamports + post.reward_vault_lamports == pre.user_lamports
                + pre.reward_vault_lamports
            &&& post.staking_contract.total_staked == pre.staking_contract.total_staked
            &&& post.staking_contract.last_claim_slot == current_slot
        }),
{
}

/// After a claim, no further claim succeeds until the lock time has passed
/// again.
pub proof fn lemma_no_claim_within_lock_time(pre: ClaimReward, claim_slot: u64, later_slot: u64)
    requires
        claim_reward_spec(pre, claim_slot) is Ok,
        claim_slot <= later_slot,
        later_slot - claim_slot < pre.staking_contract.locktime,
    ensures
        claim_reward_spec(claim_reward_spec(pre, claim_slot)->Ok_0.0, later_slot) == Err::<
            (ClaimReward, u64),
            StakingError,
        >(StakingError::StakingPeriodNotReached),
{
}

/// Viewing the unclaimed reward of a pool announces what a claim in the same
/// slot pays.
pub proof fn lemma_view_matches_claim(c: ClaimReward, v: ViewRewards, current_slot: u64)
    requires
        v.staking_contract == c.staking_contract,
        claim_reward_spec(c, current_slot) is Ok,
    ensures
        view_unclaimed_rewards_spec(v, current_slot) == Ok::<u64, StakingError>(
            claim_reward_spec(c, current_slot)->Ok_0.1,
        ),
{
}

/// Viewing the unclaimed reward of a staked pool before the lock time has
/// passed shows nothing, and a claim then is refused.
pub proof fn lemma_nothing_to_claim_within_lock_time(
    c: ClaimReward,
    v: ViewRewards,
    current_slot: u64,
)
    requires
        v.staking_contract == c.staking_contract,
        c.staking_contract.total_staked > 0,
        slots_since(current_slot, c.staking_contract.last_claim_slot)
            < c.staking_contract.locktime,
    ensures
        view_unclaimed_rewards_spec(v, current_slot) == Ok::<u64, StakingError>(0),
        claim_reward_spec(c, current_slot) == Err::<(ClaimReward, u64), StakingError>(
            StakingError::StakingPeriodNotReached,
        ),
{
}

/// A longer wait never gives a smaller reward, as long as the reward fits in
/// 64 bits.
pub proof fn lemma_reward_grows_with_time(
    total_staked: u64,
    apr: u64,
    slots_short: u64,
    slots_long: u64,
)
    requires
        slots_short <= slots_long,
        reward_numerator(total_staked, apr, slots_long) <= u128::MAX,
        reward_numerator(total_staked, apr, slots_long) / (SLOTS_PER_YEAR as int) / 100
            <= u64::MAX,
    ensures
        reward_result(total_staked, apr, slots_short) is Ok,
        reward_result(total_staked, apr, slots_short)->Ok_0 <= reward_result(
            total_staked,
            apr,
            slots_long,
        )->Ok_0,
{
    let ta: int = total_staked as int * apr as int;
    let n1: int = reward_numerator(total_staked, apr, slots_short);
    let n2: int = reward_numerator(total_staked, apr, slots_long);
    assert(n1 <= n2) by (nonlinear_arith)
        requires
            n1 == ta * slots_short,
            n2 == ta * slots_long,
            ta >= 0,
            slots_short <= slots_long,
    ;
    assert(n1 >= 0) by (nonlinear_arith)
        requires
            n1 == ta * slots_short,
            ta >= 0,
            slots_short >= 0,
    ;
    vstd::arithmetic::div_mod::lemma_div_is_ordered(n1, n2, SLOTS_PER_YEAR as int);
    vstd::arithmetic::div_mod::lemma_div_is_ordered(
        n1 / (SLOTS_PER_YEAR as int),
        n2 / (SLOTS_PER_YEAR as int),
        100,
    );
}

/// Rewards are paid for every slot elapsed since the last claim: a claim at
/// `current_slot` succeeds exactly when something is staked, the lock time has
/// passed, stake times APR times the elapsed slots fits in 128 bits, the reward
/// (that product over 63,072,000 slots a year and 100 percent, rounded down and
/// kept to 64 bits) is positive, the vault holds it and the user's balance can
/// take it; the user then gains the reward, the vault loses it, and the accrual
/// restarts at `current_slot`, with nothing else changed.
pub proof fn lemma_claim_pays_every_elapsed_slot(pre: ClaimReward, current_slot: u64)
    ensures
        ({
            let pool = pre.staking_contract;
            let elapsed: int = if current_slot >= pool.last_claim_slot {
                current_slot - pool.last_claim_slot
            } else {
                0
            };
            let n: int = pool.total_staked as int * pool.apr as int * elapsed;
            let reward: u64 = (n / 63_072_000 / 100) as u64;
            &&& claim_reward_spec(pre, current_slot) is Ok <==> {
                &&& pool.total_staked > 0
                &&& elapsed >= pool.locktime
                &&& n <= u128::MAX
                &&& reward > 0
                &&& pre.reward_vault_lamports >= reward
                &&& pre.user_lamports + reward <= u64::MAX
            }
            &&& claim_reward_spec(pre, current_slot) is Ok ==> claim_reward_spec(pre, current_slot)
                == Ok::<(ClaimReward, u64), StakingError>(
                (
                    ClaimReward {
                        user: pre.user,
                        user_lamports: (pre.user_lamports + reward) as u64,
                        staking_contract: StakingContract {
                            owner: pool.owner,
                            pool_name: pool.pool_name,
                            total_staked: pool.total_staked,
                            apr: pool.apr,
                            locktime: pool.locktime,
                            token_mint: pool.token_mint,
                            last_claim_slot: current_slot,
                        },
                        reward_vault_lamports: (pre.reward_vault_lamports - reward) as u64,
                    },
                    reward,
                ),
            )
            &&& pool.total_staked == 0 ==> claim_reward_spec(pre, current_slot) == Err::<
                (ClaimReward, u64),
                StakingError,
            >(StakingError::NoStake)
            &&& pool.total_staked > 0 && elapsed < pool.locktime ==> claim_reward_spec(
                pre,
                current_slot,
            ) == Err::<(ClaimReward, u64), StakingError>(StakingError::StakingPeriodNotReached)
        }),
{
    let pool = pre.staking_contract;
    let s: u64 = slots_since(current_slot, pool.last_claim_slot);
    assert(reward_numerator(pool.total_staked, pool.apr, s) == pool.total_staked as int
        * pool.apr as int * (s as int));
}

/// The unclaimed reward shown for a staked pool is nothing before the lock
/// time has passed, and afterwards the reward for every slot elapsed since the
/// last claim, refused only when stake times APR times slots overflows 128
/// bits.
pub proof fn lemma_view_counts_every_elapsed_slot(ctx: ViewRewards, current_slot: u64)
    ensures
        ({
            let pool = ctx.staking_contract;
            let elapsed: int = if current_slot >= pool.last_claim_slot {
                current_slot - pool.last_claim_slot
            } else {
                0
            };
            let n: int = pool.total_staked as int * pool.apr as int * elapsed;
            &&& pool.total_staked == 0 ==> view_unclaimed_rewards_spec(ctx, current_slot) == Err::<
                u64,
                StakingError,
            >(StakingError::NoStake)
            &&& pool.total_staked > 0 && elapsed < pool.locktime ==> view_unclaimed_rewards_spec(
                ctx,
                current_slot,
            ) == Ok::<u64, StakingError>(0)
            &&& pool.total_staked > 0 && elapsed >= pool.locktime && n <= u128::MAX
                ==> view_unclaimed_rewards_spec(ctx, current_slot) == Ok::<u64, StakingError>(
                (n / 63_072_000 / 100) as u64,
            )
            &&& pool.total_staked > 0 && elapsed >= pool.locktime && n > u128::MAX
                ==> view_unclaimed_rewards_spec(ctx, current_slot) == Err::<u64, StakingError>(
                StakingError::MathOverflow,
            )
        }),
{
}

/// The reward formula: stake times APR percent times slots, over 63,072,000
/// slots a year and 100 percent, rounded down and kept to 64 bits; refused
/// exactly when the product does not fit in 128 bits.
pub proof fn lemma_reward_formula(total_staked: u64, apr: u64, slots_elapsed: u64)
    ensures
        ({
            let n: int = total_staked as int * apr as int * slots_elapsed as int;
            &&& n > u128::MAX ==> reward_result(total_staked, apr, slots_elapsed) == Err::<
                u64,
                StakingError,
            >(StakingError::MathOverflow)
            &&& n <= u128::MAX ==> reward_result(total_staked, apr, slots_elapsed) == Ok::<
                u64,
                StakingError,
            >((n / 63_072_000 / 100) as u64)
        }),
{
}

/// Staking succeeds exactly when both token accounts hold the pool's token,
/// the user owns the source account, the amount is positive and within the
/// user's balance, and the new total fits in 64 bits, whatever the pool holds
/// already; it then adds the amount to the pool's total and changes nothing
/// else.
pub proof fn lemma_stake_succeeds_exactly_when_allowed(pre: Stake, amount: u64)
    ensures
        stake_spec(pre, amount) is Ok <==> {
            &&& pre.user_token_account.mint == pre.staking_contract.token_mint
            &&& pre.user_token_account.owner == pre.user
            &&& pre.staking_token_account.mint == pre.staking_contract.token_mint
            &&& 0 < amount <= pre.user_token_account.amount
            &&& pre.staking_contract.total_staked + amount <= u64::MAX
        },
        stake_spec(pre, amount) is Ok ==> stake_spec(pre, amount) == Ok::<Stake, StakingError>(
            Stake {
                user: pre.user,
                staking_contract: StakingContract {
                    owner: pre.staking_contract.owner,
                    pool_name: pre.staking_contract.pool_name,
                    total_staked: (pre.staking_contract.total_staked + amount) as u64,
                    apr: pre.staking_contract.apr,
                    locktime: pre.staking_contract.locktime,
                    token_mint: pre.staking_contract.token_mint,
                    last_claim_slot: pre.staking_contract.last_claim_slot,
                },
                user_token_account: pre.user_token_account,
                staking_token_account: pre.staking_token_account,
            },
        ),
{
}

/// Unstaking succeeds exactly when both token accounts hold the pool's token,
/// the user owns the destination account, the amount is positive, and both
/// the vault's balance and the pool's total cover it; it then lowers the total
/// by the amount and pays all of it out once the lock time has passed since
/// the last claim, or before that half of it (rounded down) with as much burnt.
pub proof fn lemma_unstake_succeeds_exactly_when_allowed(
    pre: Unstake,
    amount: u64,
    current_slot: u64,
)
    ensures
        ({
            let pool = pre.staking_contract;
            let elapsed: int = if current_slot >= pool.last_claim_slot {
                current_slot - pool.last_claim_slot
            } else {
                0
            };
            let payout = if elapsed < pool.locktime {
                UnstakePayout { withdraw_amount: amount / 2, burn_amount: amount / 2 }
            } else {
                UnstakePayout { withdraw_amount: amount, burn_amount: 0 }
            };
            &&& unstake_spec(pre, amount, current_slot) is Ok <==> {
                &&& pre.user_token_account.mint == pool.token_mint
                &&& pre.user_token_account.owner == pre.user
                &&& pre.staking_token_account.mint == pool.token_mint
                &&& amount > 0
                &&& pre.staking_token_account.amount >= amount
                &&& pool.total_staked >= amount
            }
            &&& unstake_spec(pre, amount, current_slot) is Ok ==> unstake_spec(
                pre,
                amount,
                current_slot,
            ) == Ok::<(Unstake, UnstakePayout), StakingError>(
                (
                    Unstake {
                        user: pre.user,
                        staking_contract: StakingContract {
                            owner: pool.owner,
                            pool_name: pool.pool_name,
                            total_staked: (pool.total_staked - amount) as u64,
                            apr: pool.apr,
                            locktime: pool.locktime,
                            token_mint: pool.token_mint,
                            last_claim_slot: pool.last_claim_slot,
                        },
                        user_token_account: pre.user_token_account,
                        staking_token_account: pre.staking_token_account,
                    },
                    payout,
                ),
            )
        }),
{
}

/// Pool parameters are accepted exactly when the APR is from 1 to 100 and the
/// lock time is at least one slot, and a pool is created exactly when its
/// parameters are accepted and its name is non-empty and at most 32 bytes of
/// UTF-8, with no other condition on the name's characters.
pub proof fn lemma_create_accepts_exactly_valid_input(pool_name: Seq<char>, apr: u64, locktime: u64)
    ensures
        pool_parameters_check(apr, locktime) is Ok <==> (1 <= apr <= 100 && locktime > 0),
        pool_name_check(pool_name) is Ok <==> (pool_name.len() > 0
            && vstd::utf8::encode_utf8(pool_name).len() <= 32),
        create_check(pool_name, apr, locktime) is Ok <==> {
            &&& 1 <= apr <= 100
            &&& locktime > 0
            &&& pool_name.len() > 0
            &&& vstd::utf8::encode_utf8(pool_name).len() <= 32
        },
{
}

/// The pool's owner can set any valid APR and lock time, whatever the current
/// ones are: a change succeeds exactly when the signer owns the pool and the
/// new APR is from 1 to 100 and the new lock time at least one slot, and then
/// only the APR and the lock time change.
pub proof fn lemma_owner_sets_any_valid_parameters(
    pre: ModifyPoolParameters,
    new_apr: u64,
    new_locktime: u64,
)
    ensures
        modify_pool_parameters_spec(pre, new_apr, new_locktime) is Ok <==> {
            &&& pre.staking_contract.owner == pre.owner
            &&& 1 <= new_apr <= 100
            &&& new_locktime > 0
        },
        modify_pool_parameters_spec(pre, new_apr, new_locktime) is Ok
            ==> modify_pool_parameters_spec(pre, new_apr, new_locktime) == Ok::<
            ModifyPoolParameters,
            StakingError,
        >(
            ModifyPoolParameters {
                staking_contract: StakingContract {
                    owner: pre.staking_contract.owner,
                    pool_name: pre.staking_contract.pool_name,
                    total_staked: pre.staking_contract.total_staked,
                    apr: new_apr,
                    locktime: new_locktime,
                    token_mint: pre.staking_contract.token_mint,
                    last_claim_slot: pre.staking_contract.last_claim_slot,
                },
                owner: pre.owner,
            },
        ),
{
}

/// The owner deletes a pool exactly when nothing is staked or deletion is
/// forced, whatever the pool's other fields: an empty pool is deleted with
/// nothing to send back, and a forced deletion of a staked pool sends the whole
/// total back.
pub proof fn lemma_owner_deletes_empty_or_forced(d: DeleteStakingPool, force: bool)
    ensures
        delete_staking_pool_spec(d, force) is Ok <==> (d.staking_contract.owner == d.owner && (force
            || d.staking_contract.total_staked == 0)),
        d.staking_contract.owner == d.owner && d.staking_contract.total_staked == 0
            ==> delete_staking_pool_spec(d, force) == Ok::<Option<u64>, StakingError>(None),
        d.staking_contract.owner == d.owner && force && d.staking_contract.total_staked > 0
            ==> delete_staking_pool_spec(d, force) == Ok::<Option<u64>, StakingError>(
            Some(d.staking_contract.total_staked),
        ),
{
}

/// Which refusal a stake gives, in the order of the checks: the user's token
/// account must hold the pool's token and belong to the user, the vault must
/// hold the pool's token, then the amount must be positive, within the user's
/// balance, and keep the total within 64 bits.
pub proof fn lemma_stake_refusals(pre: Stake, amount: u64)
    ensures
        ({
            let pool = pre.staking_contract;
            let r = stake_spec(pre, amount);
            let accounts_ok = pre.user_token_account.mint == pool.token_mint
                && pre.user_token_account.owner == pre.user && pre.staking_token_account.mint
                == pool.token_mint;
            &&& pre.user_token_account.mint != pool.token_mint ==> r == Err::<Stake, StakingError>(
                StakingError::InvalidToken,
            )
            &&& pre.user_token_account.mint == pool.token_mint && pre.user_token_account.owner
                != pre.user ==> r == Err::<Stake, StakingError>(StakingError::InvalidTokenAccount)
            &&& pre.user_token_account.mint == pool.token_mint && pre.user_token_account.owner
                == pre.user && pre.staking_token_account.mint != pool.token_mint ==> r == Err::<
                Stake,
                StakingError,
            >(StakingError::InvalidToken)
            &&& accounts_ok && amount == 0 ==> r == Err::<Stake, StakingError>(
                StakingError::InvalidAmount,
            )
            &&& accounts_ok && amount > 0 && pre.user_token_account.amount < amount ==> r == Err::<
                Stake,
                StakingError,
            >(StakingError::InsufficientFunds)
            &&& accounts_ok && 0 < amount <= pre.user_token_account.amount && pool.total_staked
                + amount > u64::MAX ==> r == Err::<Stake, StakingError>(StakingError::MathOverflow)
        }),
{
}

/// Which refusal an unstake gives, in the order of the checks: the accounts as
/// for a stake, then a positive amount, then a vault balance that covers it,
/// then a pool total that covers it.
pub proof fn lemma_unstake_refusals(pre: Unstake, amount: u64, current_slot: u64)
    ensures
        ({
            let pool = pre.staking_contract;
            let r = unstake_spec(pre, amount, current_slot);
            let accounts_ok = pre.user_token_account.mint == pool.token_mint
                && pre.user_token_account.owner == pre.user && pre.staking_token_account.mint
                == pool.token_mint;
            &&& pre.user_token_account.mint != pool.token_mint ==> r == Err::<
                (Unstake, UnstakePayout),
                StakingError,
            >(StakingError::InvalidToken)
            &&& pre.user_token_account.mint == pool.token_mint && pre.user_token_account.owner
                != pre.user ==> r == Err::<(Unstake, UnstakePayout), StakingError>(
                StakingError::InvalidTokenAccount,
            )
            &&& pre.user_token_account.mint == pool.token_mint && pre.user_token_account.owner
                == pre.user && pre.staking_token_account.mint != pool.token_mint ==> r == Err::<
                (Unstake, UnstakePayout),
                StakingError,
            >(StakingError::InvalidToken)
            &&& accounts_ok && amount == 0 ==> r == Err::<(Unstake, UnstakePayout), StakingError>(
                StakingError::InvalidAmount,
            )
            &&& accounts_ok && amount > 0 && pre.staking_token_account.amount < amount ==> r
                == Err::<(Unstake, UnstakePayout), StakingError>(
                StakingError::InsufficientContractBalance,
            )
            &&& accounts_ok && amount > 0 && pre.staking_token_account.amount >= amount
                && pool.total_staked < amount ==> r == Err::<(Unstake, UnstakePayout), StakingError>(
                StakingError::MathOverflow,
            )
        }),
{
}

/// Which refusal a claim gives once something is staked and the lock time
/// has passed: an overflowing product, then a zero reward, then a vault that
/// cannot pay, then a user balance that cannot take the reward.
pub proof fn lemma_claim_refusals(pre: ClaimReward, current_slot: u64)
    ensures
        ({
            let pool = pre.staking_contract;
            let elapsed: int = if current_slot >= pool.last_claim_slot {
                current_slot - pool.last_claim_slot
            } else {
                0
            };
            let n: int = pool.total_staked as int * pool.apr as int * elapsed;
            let reward: u64 = (n / 63_072_000 / 100) as u64;
            let r = claim_reward_spec(pre, current_slot);
            let due = pool.total_staked > 0 && elapsed >= pool.locktime;
            &&& due && n > u128::MAX ==> r == Err::<(ClaimReward, u64), StakingError>(
                StakingError::MathOverflow,
            )
            &&& due && n <= u128::MAX && reward == 0 ==> r == Err::<(ClaimReward, u64), StakingError>(
                StakingError::RewardTooSmall,
            )
            &&& due && n <= u128::MAX && reward > 0 && pre.reward_vault_lamports < reward ==> r
                == Err::<(ClaimReward, u64), StakingError>(StakingError::InsufficientContractBalance)
            &&& due && n <= u128::MAX && reward > 0 && pre.reward_vault_lamports >= reward
                && pre.user_lamports + reward > u64::MAX ==> r == Err::<(ClaimReward, u64), StakingError>(
                StakingError::MathOverflow,
            )
        }),
{
    let pool = pre.staking_contract;
    let s: u64 = slots_since(current_slot, pool.last_claim_slot);
    assert(reward_numerator(pool.total_staked, pool.apr, s) == pool.total_staked as int
        * pool.apr as int * (s as int));
}

/// Which refusal creating a pool gives, in the order of the checks: the APR,
/// the lock time, an empty name, a name over 32 bytes.
pub proof fn lemma_create_refusals(pool_name: Seq<char>, apr: u64, locktime: u64)
    ensures
        !(1 <= apr <= 100) ==> create_check(pool_name, apr, locktime) == Err::<(), StakingError>(
            StakingError::InvalidAPR,
        ),
        1 <= apr <= 100 && locktime == 0 ==> create_check(pool_name, apr, locktime) == Err::<
            (),
            StakingError,
        >(StakingError::InvalidLocktime),
        1 <= apr <= 100 && locktime > 0 && pool_name.len() == 0 ==> create_check(
            pool_name,
            apr,
            locktime,
        ) == Err::<(), StakingError>(StakingError::InvalidPoolName),
        1 <= apr <= 100 && locktime > 0 && pool_name.len() > 0 && vstd::utf8::encode_utf8(
            pool_name,
        ).len() > 32 ==> create_check(pool_name, apr, locktime) == Err::<(), StakingError>(
            StakingError::PoolNameTooLong,
        ),
{
}

/// Which refusal changing a pool's parameters gives: the new APR, then the
/// new lock time, then a signer who does not own the pool.
pub proof fn lemma_modify_refusals(pre: ModifyPoolParameters, new_apr: u64, new_locktime: u64)
    ensures
        !(1 <= new_apr <= 100) ==> modify_pool_parameters_spec(pre, new_apr, new_locktime)
            == Err::<ModifyPoolParameters, StakingError>(StakingError::InvalidAPR),
        1 <= new_apr <= 100 && new_locktime == 0 ==> modify_pool_parameters_spec(
            pre,
            new_apr,
            new_locktime,
        ) == Err::<ModifyPoolParameters, StakingError>(StakingError::InvalidLocktime),
        1 <= new_apr <= 100 && new_locktime > 0 && pre.staking_contract.owner != pre.owner
            ==> modify_pool_parameters_spec(pre, new_apr, new_locktime) == Err::<
            ModifyPoolParameters,
            StakingError,
        >(StakingError::Unauthorized),
{
}

/// Which refusal deleting a pool gives: a signer who does not own it, then,
/// without force, stakes still in it.
pub proof fn lemma_delete_refusals(d: DeleteStakingPool, force: bool)
    ensures
        d.staking_contract.owner != d.owner ==> delete_staking_pool_spec(d, force) == Err::<
            Option<u64>,
            StakingError,
        >(StakingError::Unauthorized),
        d.staking_contract.owner == d.owner && !force && d.staking_contract.total_staked > 0
            ==> delete_staking_pool_spec(d, force) == Err::<Option<u64>, StakingError>(
            StakingError::ActiveStakes,
        ),
{
}

/// The account sizes: 48 bytes for the master account, and 108 bytes plus the
/// name's bytes for a pool.
pub proof fn lemma_account_sizes()
    ensures
        MasterContract::LEN == 48,
        StakingContract::BASE_LEN == 108,
{
}

/// A claim that read the clock at `slot` answers and leaves the state as a
/// claim at that slot does.
pub proof fn lemma_claim_outcome_is_claim_at_slot(
    pre: ClaimReward,
    slot: u64,
    r: Result<u64, InstructionError>,
    post: ClaimReward,
)
    requires
        claim_reward_outcome(pre, slot, r, post),
    ensures
        claim_reward_spec(pre, slot) is Ok ==> r == Ok::<u64, InstructionError>(
            claim_reward_spec(pre, slot)->Ok_0.1,
        ) && post == claim_reward_spec(pre, slot)->Ok_0.0,
        claim_reward_spec(pre, slot) is Err ==> r == Err::<u64, InstructionError>(
            InstructionError::Staking(claim_reward_spec(pre, slot)->Err_0),
        ) && post == pre,
{
}

/// An unstake that read the clock at `slot` answers and leaves the state as an
/// unstake at that slot does.
pub proof fn lemma_unstake_outcome_is_unstake_at_slot(
    pre: Unstake,
    amount: u64,
    slot: u64,
    r: Result<UnstakePayout, InstructionError>,
    post: Unstake,
)
    requires
        unstake_outcome(pre, amount, slot, r, post),
    ensures
        unstake_spec(pre, amount, slot) is Ok ==> r == Ok::<UnstakePayout, InstructionError>(
            unstake_spec(pre, amount, slot)->Ok_0.1,
        ) && post == unstake_spec(pre, amount, slot)->Ok_0.0,
        unstake_spec(pre, amount, slot) is Err ==> r == Err::<UnstakePayout, InstructionError>(
            InstructionError::Staking(unstake_spec(pre, amount, slot)->Err_0),
        ) && post == pre,
{
}

/// A refusal of the pool's rules keeps its reason as an instruction failure,
/// and an answer is passed on unchanged.
pub proof fn lemma_refusal_kept(r: Result<u64, StakingError>)
    ensures
        r is Ok ==> lift_refusal(r) == Ok::<u64, InstructionError>(r->Ok_0),
        r is Err ==> lift_refusal(r) == Err::<u64, InstructionError>(
            InstructionError::Staking(r->Err_0),
        ),
{
}

} // verus!
