use vstd::prelude::*;
use crate::clock::read_current_slot;
use crate::errors::{lift_refusal, InstructionError, StakingError};
use crate::state::keys::Pubkey;
use crate::state::staking_contract::{slots_since, StakingContract};

verus! {

/// Slots in a year, at the rate at which the reward accrues.
pub const SLOTS_PER_YEAR: u128 = 63_072_000;

/// What claiming a reward reads: the claiming user and its lamport balance,
/// the pool, and the lamport balance of the pool's reward vault.
#[derive(Debug, Clone, PartialEq, Eq)]
pub struct ClaimReward {
    pub user: Pubkey,
    pub user_lamports: u64,
    pub staking_contract: StakingContract,
    pub reward_vault_lamports: u64,
}

/// What viewing the unclaimed reward reads: the asking user and the pool.
#[derive(Debug, Clone, PartialEq, Eq)]
pub struct ViewRewards {
    pub user: Pubkey,
    pub staking_contract: StakingContract,
}

/// The product of stake, APR and elapsed slots, before scaling.
pub open spec fn reward_numerator(total_staked: u64, apr: u64, slots_elapsed: u64) -> int {
    total_staked as int * apr as int * slots_elapsed as int
}

/// The reward for `total_staked` tokens at `apr` percent a year over
/// `slots_elapsed` slots: refused when the product does not fit in 128 bits,
/// otherwise rounded down and kept to its low 64 bits.
pub open spec fn reward_result(total_staked: u64, apr: u64, slots_elapsed: u64) -> Result<
    u64,
    StakingError,
> {
    let n: int = reward_numerator(total_staked, apr, slots_elapsed);
    if n > u128::MAX {
        Err(StakingError::MathOverflow)
    } else {
        Ok((n / (SLOTS_PER_YEAR as int) / 100) as u64)
    }
}

/// The state after claiming at `current_slot` and the reward paid, or why the
/// claim is refused.
pub open spec fn claim_reward_spec(pre: ClaimReward, current_slot: u64) -> Result<
    (ClaimReward, u64),
    StakingError,
> {
    let pool = pre.staking_contract;
    let elapsed: u64 = slots_since(current_slot, pool.last_claim_slot);
    if pool.total_staked == 0 {
        Err(StakingError::NoStake)
    } else if elapsed < pool.locktime {
        Err(StakingError::StakingPeriodNotReached)
    } else {
        match reward_result(pool.total_staked, pool.apr, elapsed) {
            Err(e) => Err(e),
            Ok(reward) => {
                if reward == 0 {
                    Err(StakingError::RewardTooSmall)
                } else if pre.reward_vault_lamports < reward {
                    Err(StakingError::InsufficientContractBalance)
                } else if pre.user_lamports + reward > u64::MAX {
                    Err(StakingError::MathOverflow)
                } else {
                    Ok(
                        (
                            ClaimReward {
                                user_lamports: (pre.user_lamports + reward) as u64,
                                reward_vault_lamports: (pre.reward_vault_lamports - reward) as u64,
                                staking_contract: StakingContract {
                                    last_claim_slot: current_slot,
                                    ..pool
                                },
                                ..pre
                            },
                            reward,
                        ),
                    )
                }
            },
        }
    }
}

/// The unclaimed reward at `current_slot`: nothing before the lock time has
/// passed since the last claim, otherwise the reward that a claim would compute.
pub open spec fn view_unclaimed_rewards_spec(ctx: ViewRewards, current_slot: u64) -> Result<
    u64,
    StakingError,
> {
    let pool = ctx.staking_contract;
    let elapsed: u64 = slots_since(current_slot, pool.last_claim_slot);
    if pool.total_staked == 0 {
        Err(StakingError::NoStake)
    } else if elapsed < pool.locktime {
        Ok(0)
    } else {
        reward_result(pool.total_staked, pool.apr, elapsed)
    }
}

/// Computes the reward for `total_staked` tokens at `apr` percent a year over
/// `slots_elapsed` slots.
pub fn calculate_reward(total_staked: u64, apr: u64, slots_elapsed: u64) -> (r: Result<
    u64,
    StakingError,
>)
    ensures
        r == reward_result(total_staked, apr, slots_elapsed),
{
    let slots_per_year: u128 = SLOTS_PER_YEAR;
    let t: u128 = total_staked as u128;
    let a: u128 = apr as u128;
    let s: u128 = slots_elapsed as u128;
    assert(t * a <= u128::MAX) by (nonlinear_arith)
        requires
            t <= u64::MAX,
            a <= u64::MAX,
    ;
    let ta: u128 = match t.checked_mul(a) {
        Some(v) => v,
        None => return Err(StakingError::MathOverflow),
    };
    let tas: u128 = match ta.checked_mul(s) {
        Some(v) => v,
        None => return Err(StakingError::MathOverflow),
    };
    let per_slot_year: u128 = match tas.checked_div(slots_per_year) {
        Some(v) => v,
        None => return Err(StakingError::MathOverflow),
    };
    let reward: u128 = match per_slot_year.checked_div(100) {
        Some(v) => v,
        None => return Err(StakingError::MathOverflow),
    };
    Ok(reward as u64)
}

/// Pays the reward accrued since the last claim from the reward vault to the
/// user, once the lock time has passed, and restarts the accrual at
/// `current_slot`.
pub fn claim_reward_at(ctx: &mut ClaimReward, current_slot: u64) -> (r: Result<u64, StakingError>)
    ensures
        match claim_reward_spec(*old(ctx), current_slot) {
            Ok((post, reward)) => r == Ok::<u64, StakingError>(reward) && *final(ctx) == post,
            Err(e) => r == Err::<u64, StakingError>(e) && *final(ctx) == *old(ctx),
        },
{
    if !(ctx.staking_contract.total_staked > 0) {
        return Err(StakingError::NoStake);
    }
    let slots_elapsed: u64 = current_slot.saturating_sub(ctx.staking_contract.last_claim_slot);
    if !(slots_elapsed >= ctx.staking_contract.locktime) {
        return Err(StakingError::StakingPeriodNotReached);
    }
    let reward: u64 = match calculate_reward(
        ctx.staking_contract.total_staked,
        ctx.staking_contract.apr,
        slots_elapsed,
    ) {
        Ok(v) => v,
        Err(e) => return Err(e),
    };
    if !(reward > 0) {
        return Err(StakingError::RewardTooSmall);
    }
    if !(ctx.reward_vault_lamports >= reward) {
        return Err(StakingError::InsufficientContractBalance);
    }
    let new_vault: u64 = match ctx.reward_vault_lamports.checked_sub(reward) {
        Some(v) => v,
        None => return Err(StakingError::MathOverflow),
    };
    let new_user: u64 = match ctx.user_lamports.checked_add(reward) {
        Some(v) => v,
        None => return Err(StakingError::MathOverflow),
    };
    ctx.reward_vault_lamports = new_vault;
    ctx.user_lamports = new_user;
    ctx.staking_contract.last_claim_slot = current_slot;
    Ok(reward)
}

/// The reward that a claim at `current_slot` would pay, or 0 while the lock
/// time since the last claim has not passed.
pub fn view_unclaimed_rewards_at(ctx: &ViewRewards, current_slot: u64) -> (r: Result<
    u64,
    StakingError,
>)
    ensures
        r == view_unclaimed_rewards_spec(*ctx, current_slot),
{
    if !(ctx.staking_contract.total_staked > 0) {
        return Err(StakingError::NoStake);
    }
    let slots_elapsed: u64 = current_slot.saturating_sub(ctx.staking_contract.last_claim_slot);
    if slots_elapsed < ctx.staking_contract.locktime {
        return Ok(0);
    }
    calculate_reward(ctx.staking_contract.total_staked, ctx.staking_contract.apr, slots_elapsed)
}

/// Whether `r` and `post` are what claiming at `slot` from `pre` gives.
pub open spec fn claim_reward_outcome(
    pre: ClaimReward,
    slot: u64,
    r: Result<u64, InstructionError>,
    post: ClaimReward,
) -> bool {
    match claim_reward_spec(pre, slot) {
        Ok((p, reward)) => r == Ok::<u64, InstructionError>(reward) && post == p,
        Err(e) => r == Err::<u64, InstructionError>(InstructionError::Staking(e)) && post == pre,
    }
}

/// Claims the reward at the cluster's current slot. A pool with nothing
/// staked is refused before the clock is read; otherwise the claim is the one
/// at whatever slot the clock gives, unless the clock cannot be read.
pub fn claim_reward(ctx: &mut ClaimReward) -> (r: Result<u64, InstructionError>)
    ensures
        old(ctx).staking_contract.total_staked == 0 ==> r == Err::<u64, InstructionError>(
            InstructionError::Staking(StakingError::NoStake),
        ) && *final(ctx) == *old(ctx),
        r matches Err(InstructionError::Program(_)) ==> old(ctx).staking_contract.total_staked
            > 0 && *final(ctx) == *old(ctx),
        !(r matches Err(InstructionError::Program(_))) ==> exists|slot: u64|
            #[trigger] claim_reward_outcome(*old(ctx), slot, r, *final(ctx)),
{
    if !(ctx.staking_contract.total_staked > 0) {
        let r = Err(InstructionError::Staking(StakingError::NoStake));
        assert(claim_reward_outcome(*ctx, 0, r, *ctx));
        return r;
    }
    let slot: u64 = match read_current_slot() {
        Ok(s) => s,
        Err(e) => return Err(InstructionError::Program(e)),
    };
    let ghost pre = *ctx;
    let r = match claim_reward_at(ctx, slot) {
        Ok(reward) => Ok(reward),
        Err(e) => Err(InstructionError::Staking(e)),
    };
    assert(claim_reward_outcome(pre, slot, r, *ctx));
    r
}

/// The unclaimed reward at the cluster's current slot. A pool with nothing
/// staked is refused before the clock is read; otherwise the answer is the one
/// at whatever slot the clock gives, unless the clock cannot be read.
pub fn view_unclaimed_rewards(ctx: &ViewRewards) -> (r: Result<u64, InstructionError>)
    ensures
        ctx.staking_contract.total_staked == 0 ==> r == Err::<u64, InstructionError>(
            InstructionError::Staking(StakingError::NoStake),
        ),
        r matches Err(InstructionError::Program(_)) ==> ctx.staking_contract.total_staked > 0,
        !(r matches Err(InstructionError::Program(_))) ==> exists|slot: u64|
            r == lift_refusal(#[trigger] view_unclaimed_rewards_spec(*ctx, slot)),
{
    if !(ctx.staking_contract.total_staked > 0) {
        let r = Err(InstructionError::Staking(StakingError::NoStake));
        assert(r == lift_refusal(view_unclaimed_rewards_spec(*ctx, 0)));
        return r;
    }
    let slot: u64 = match read_current_slot() {
        Ok(s) => s,
        Err(e) => return Err(InstructionError::Program(e)),
    };
    let r = match view_unclaimed_rewards_at(ctx, slot) {
        Ok(reward) => Ok(reward),
        Err(e) => Err(InstructionError::Staking(e)),
    };
    assert(r == lift_refusal(view_unclaimed_rewards_spec(*ctx, slot)));
    r
}

} // verus!
