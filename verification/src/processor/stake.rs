use vstd::prelude::*;

use crate::constants::{REWARD_SCALE, REWARD_SCALE_U64};
use crate::error::StakePoolError;
use crate::processor::helpers::spec_validate_current_timestamp;
use crate::processor::helpers::validate_current_timestamp;
use crate::pubkey::Pubkey;
use crate::state::{
    full_reward, lemma_u64_mul_fits_u128, spec_calculate_rewards, Key, StakeAccount, StakePool,
};

verus! {

/// What `stake` does, as one transition from the old pool record and the
/// call's inputs to the new pool record and the fresh deposit record.
///
/// `received_amount` is what the token gateway reports actually arrived in
/// the stake vault for the requested `amount` (fees may reduce it); the
/// ledger books only that. `reward_vault_balance` is the live balance of the
/// reward vault.
pub open spec fn spec_stake(
    pool: StakePool,
    owner: Pubkey,
    pool_key: Pubkey,
    amount: u64,
    index: u64,
    expected_reward_rate: Option<u64>,
    expected_lockup_period: Option<i64>,
    now: i64,
    reward_vault_balance: u64,
    received_amount: u64,
) -> Result<(StakePool, StakeAccount), StakePoolError> {
    if amount == 0 {
        Err(StakePoolError::InvalidParameters)
    } else if expected_reward_rate is Some && expected_reward_rate->Some_0 != pool.reward_rate {
        Err(StakePoolError::PoolParametersChanged)
    } else if expected_lockup_period is Some && expected_lockup_period->Some_0
        != pool.lockup_period {
        Err(StakePoolError::PoolParametersChanged)
    } else if pool.is_paused {
        Err(StakePoolError::PoolPaused)
    } else if spec_validate_current_timestamp(now) is Err {
        Err(StakePoolError::InvalidTimestamp)
    } else if pool.pool_end_date is Some && now >= pool.pool_end_date->Some_0 {
        Err(StakePoolError::PoolEnded)
    } else if amount < pool.min_stake_amount {
        Err(StakePoolError::AmountBelowMinimum)
    } else if full_reward(amount, pool.reward_rate) > u64::MAX as int {
        Err(StakePoolError::NumericalOverflow)
    } else if pool.total_rewards_owed as int + full_reward(amount, pool.reward_rate)
        > u64::MAX as int {
        Err(StakePoolError::NumericalOverflow)
    } else if (reward_vault_balance as int) < pool.total_rewards_owed as int + full_reward(
        amount,
        pool.reward_rate,
    ) {
        Err(StakePoolError::InsufficientRewards)
    } else if pool.total_staked as int + received_amount as int > u64::MAX as int {
        Err(StakePoolError::NumericalOverflow)
    } else {
        Ok(
            (
                StakePool {
                    total_staked: (pool.total_staked + received_amount) as u64,
                    total_rewards_owed: (pool.total_rewards_owed as int + full_reward(
                        amount,
                        pool.reward_rate,
                    )) as u64,
                    ..pool
                },
                StakeAccount {
                    key: Key::StakeAccount,
                    pool: pool_key,
                    owner: owner,
                    index: index,
                    amount_staked: received_amount,
                    stake_timestamp: now,
                    claimed_rewards: 0u64,
                },
            ),
        )
    }
}

/// Deposit into a pool: validate the request, commit the prospective reward
/// liability, and create the deposit record.
///
/// All validation precedes any state change: the amount must be positive and
/// at least the pool minimum; supplied expected-parameter hints must match
/// the live pool exactly (frontrunning guard); the pool must be unpaused and
/// not past its end date; and the reward vault must already hold enough to
/// cover every committed reward plus this deposit's liability — a deposit
/// the pool could not later pay is refused up front.
///
/// The caller performs the actual token movement and passes the
/// gateway-reported `received_amount`; the new deposit and the pool's
/// `total_staked` book that amount, while `total_rewards_owed` grows by the
/// liability computed from the requested `amount`.
pub fn stake(
    pool: &StakePool,
    owner: Pubkey,
    pool_key: Pubkey,
    amount: u64,
    index: u64,
    expected_reward_rate: Option<u64>,
    expected_lockup_period: Option<i64>,
    now: i64,
    reward_vault_balance: u64,
    received_amount: u64,
) -> (r: Result<(StakePool, StakeAccount), StakePoolError>)
    ensures
        r == spec_stake(
            *pool,
            owner,
            pool_key,
            amount,
            index,
            expected_reward_rate,
            expected_lockup_period,
            now,
            reward_vault_balance,
            received_amount,
        ),
{
    if amount == 0 {
        return Err(StakePoolError::InvalidParameters);
    }
    if let Some(expected_rate) = expected_reward_rate {
        if pool.reward_rate != expected_rate {
            return Err(StakePoolError::PoolParametersChanged);
        }
    }
    if let Some(expected_lockup) = expected_lockup_period {
        if pool.lockup_period != expected_lockup {
            return Err(StakePoolError::PoolParametersChanged);
        }
    }
    if pool.is_paused {
        return Err(StakePoolError::PoolPaused);
    }
    if let Err(e) = validate_current_timestamp(now) {
        return Err(e);
    }
    if let Some(end_date) = pool.pool_end_date {
        if now >= end_date {
            return Err(StakePoolError::PoolEnded);
        }
    }
    if amount < pool.min_stake_amount {
        return Err(StakePoolError::AmountBelowMinimum);
    }
    proof {
        lemma_u64_mul_fits_u128(amount, pool.reward_rate);
    }
    let expected_rewards_wide: u128 = (amount as u128) * (pool.reward_rate as u128) / REWARD_SCALE;
    if expected_rewards_wide > u64::MAX as u128 {
        return Err(StakePoolError::NumericalOverflow);
    }
    let expected_rewards: u64 = expected_rewards_wide as u64;
    let total_required: u64 = match pool.total_rewards_owed.checked_add(expected_rewards) {
        Some(t) => t,
        None => {
            return Err(StakePoolError::NumericalOverflow);
        },
    };
    if reward_vault_balance < total_required {
        return Err(StakePoolError::InsufficientRewards);
    }
    let new_total_staked: u64 = match pool.total_staked.checked_add(received_amount) {
        Some(t) => t,
        None => {
            return Err(StakePoolError::NumericalOverflow);
        },
    };
    let new_pool = StakePool {
        total_staked: new_total_staked,
        total_rewards_owed: total_required,
        ..*pool
    };
    let stake_account = StakeAccount {
        key: Key::StakeAccount,
        pool: pool_key,
        owner,
        index,
        amount_staked: received_amount,
        stake_timestamp: now,
        claimed_rewards: 0,
    };
    Ok((new_pool, stake_account))
}

/// What `unstake` does, as one transition.
///
/// `actual_amount` is what the token gateway reports actually left the stake
/// vault for the requested `amount`; the deposit and the pool's totals are
/// debited by that. The forfeited reward is computed from the requested
/// `amount`.
pub open spec fn spec_unstake(
    pool: StakePool,
    stake_account: StakeAccount,
    owner: Pubkey,
    pool_key: Pubkey,
    amount: u64,
    expected_reward_rate: Option<u64>,
    now: i64,
    actual_amount: u64,
) -> Result<(StakePool, StakeAccount), StakePoolError> {
    if amount == 0 {
        Err(StakePoolError::InvalidParameters)
    } else if expected_reward_rate is Some && expected_reward_rate->Some_0 != pool.reward_rate {
        Err(StakePoolError::PoolParametersChanged)
    } else if owner != stake_account.owner {
        Err(StakePoolError::AccountMismatch)
    } else if pool_key != stake_account.pool {
        Err(StakePoolError::AccountMismatch)
    } else if stake_account.amount_staked < amount {
        Err(StakePoolError::InsufficientStakedBalance)
    } else {
        match now.checked_sub(stake_account.stake_timestamp) {
            None => Err(StakePoolError::NumericalOverflow),
            Some(time_staked) => {
                let lockup_complete = time_staked >= pool.lockup_period;
                if pool.enforce_lockup && !lockup_complete {
                    Err(StakePoolError::LockupNotExpired)
                } else {
                    let remaining_stake = stake_account.amount_staked - amount;
                    let potential = if lockup_complete {
                        spec_calculate_rewards(
                            pool,
                            stake_account.amount_staked,
                            stake_account.stake_timestamp,
                            now,
                        )
                    } else {
                        Ok(0u64)
                    };
                    match potential {
                        Err(e) => Err(e),
                        Ok(total_potential) => {
                            match spec_forfeited(
                                total_potential,
                                stake_account.claimed_rewards,
                                amount,
                                stake_account.amount_staked,
                                remaining_stake as u64,
                            ) {
                                Err(e) => Err(e),
                                Ok(forfeited) => spec_unstake_commit(
                                    pool,
                                    stake_account,
                                    actual_amount,
                                    forfeited,
                                ),
                            }
                        },
                    }
                }
            },
        }
    }
}

/// The reward forfeited by a withdrawal: all of the unclaimed potential on a
/// full exit, the withdrawn fraction of it (in 1e9 fixed point, floored) on
/// a partial one.
pub open spec fn spec_forfeited(
    total_potential: u64,
    claimed: u64,
    amount: u64,
    staked_before: u64,
    remaining: u64,
) -> Result<u64, StakePoolError> {
    if remaining == 0 {
        if total_potential < claimed {
            Err(StakePoolError::NumericalOverflow)
        } else {
            Ok((total_potential - claimed) as u64)
        }
    } else {
        let fraction = (amount as int) * (REWARD_SCALE as int) / (staked_before as int);
        if fraction > u64::MAX as int {
            Err(StakePoolError::NumericalOverflow)
        } else if total_potential < claimed {
            Err(StakePoolError::NumericalOverflow)
        } else {
            let unclaimed = total_potential - claimed;
            let forfeited = unclaimed * fraction / (REWARD_SCALE as int);
            if forfeited > u64::MAX as int {
                Err(StakePoolError::NumericalOverflow)
            } else {
                Ok(forfeited as u64)
            }
        }
    }
}

/// The bookkeeping at the end of a withdrawal: debit the delivered amount
/// from the deposit and the pool, release the forfeited reward from the
/// committed total, and reset a fully emptied deposit's clock and claims.
pub open spec fn spec_unstake_commit(
    pool: StakePool,
    stake_account: StakeAccount,
    actual_amount: u64,
    forfeited: u64,
) -> Result<(StakePool, StakeAccount), StakePoolError> {
    if stake_account.amount_staked < actual_amount {
        Err(StakePoolError::NumericalOverflow)
    } else if pool.total_staked < actual_amount {
        Err(StakePoolError::NumericalOverflow)
    } else if pool.total_rewards_owed < forfeited {
        Err(StakePoolError::NumericalOverflow)
    } else {
        let new_amount_staked = (stake_account.amount_staked - actual_amount) as u64;
        Ok(
            (
                StakePool {
                    total_staked: (pool.total_staked - actual_amount) as u64,
                    total_rewards_owed: (pool.total_rewards_owed - forfeited) as u64,
                    ..pool
                },
                if new_amount_staked == 0 {
                    StakeAccount {
                        amount_staked: 0u64,
                        claimed_rewards: 0u64,
                        stake_timestamp: 0i64,
                        ..stake_account
                    }
                } else {
                    StakeAccount { amount_staked: new_amount_staked, ..stake_account }
                },
            ),
        )
    }
}

/// Withdraw from a deposit.
///
/// The caller must own the deposit and may not withdraw more than it holds.
/// If the pool enforces its lockup and the lockup is incomplete the call
/// fails `LockupNotExpired`; otherwise an early exit is allowed but forfeits
/// rewards: all unclaimed potential on a full exit, a proportional share on
/// a partial one (before the lockup completes the potential is zero, so
/// nothing is owed and nothing to forfeit). The caller performs the token
/// movement and passes the gateway-reported `actual_amount`, which is what
/// the books are debited by; a fully emptied deposit has its claimed
/// rewards and stake clock reset to zero.
pub fn unstake(
    pool: &StakePool,
    stake_account: &StakeAccount,
    owner: Pubkey,
    pool_key: Pubkey,
    amount: u64,
    expected_reward_rate: Option<u64>,
    now: i64,
    actual_amount: u64,
) -> (r: Result<(StakePool, StakeAccount), StakePoolError>)
    ensures
        r == spec_unstake(
            *pool,
            *stake_account,
            owner,
            pool_key,
            amount,
            expected_reward_rate,
            now,
            actual_amount,
        ),
{
    if amount == 0 {
        return Err(StakePoolError::InvalidParameters);
    }
    if let Some(expected_rate) = expected_reward_rate {
        if pool.reward_rate != expected_rate {
            return Err(StakePoolError::PoolParametersChanged);
        }
    }
    if owner != stake_account.owner {
        return Err(StakePoolError::AccountMismatch);
    }
    if pool_key != stake_account.pool {
        return Err(StakePoolError::AccountMismatch);
    }
    if stake_account.amount_staked < amount {
        return Err(StakePoolError::InsufficientStakedBalance);
    }
    let time_staked: i64 = match now.checked_sub(stake_account.stake_timestamp) {
        Some(t) => t,
        None => {
            return Err(StakePoolError::NumericalOverflow);
        },
    };
    let lockup_complete = time_staked >= pool.lockup_period;
    if pool.enforce_lockup && !lockup_complete {
        return Err(StakePoolError::LockupNotExpired);
    }
    let total_staked_before = stake_account.amount_staked;
    let remaining_stake: u64 = total_staked_before - amount;
    let total_potential_rewards: u64 = if lockup_complete {
        match pool.calculate_rewards(total_staked_before, stake_account.stake_timestamp, now) {
            Ok(p) => p,
            Err(e) => {
                return Err(e);
            },
        }
    } else {
        0
    };
    let forfeited_rewards: u64 = if remaining_stake == 0 {
        match total_potential_rewards.checked_sub(stake_account.claimed_rewards) {
            Some(f) => f,
            None => {
                return Err(StakePoolError::NumericalOverflow);
            },
        }
    } else {
        proof {
            lemma_u64_mul_fits_u128(amount, REWARD_SCALE_U64);
        }
        let unstake_fraction_wide: u128 = (amount as u128) * REWARD_SCALE / (
        total_staked_before as u128);
        if unstake_fraction_wide > u64::MAX as u128 {
            return Err(StakePoolError::NumericalOverflow);
        }
        let unstake_fraction: u64 = unstake_fraction_wide as u64;
        let unclaimed_rewards: u64 = match total_potential_rewards.checked_sub(
            stake_account.claimed_rewards,
        ) {
            Some(u) => u,
            None => {
                return Err(StakePoolError::NumericalOverflow);
            },
        };
        proof {
            lemma_u64_mul_fits_u128(unclaimed_rewards, unstake_fraction);
        }
        let forfeited_wide: u128 = (unclaimed_rewards as u128) * (unstake_fraction as u128)
            / REWARD_SCALE;
        if forfeited_wide > u64::MAX as u128 {
            return Err(StakePoolError::NumericalOverflow);
        }
        forfeited_wide as u64
    };
    let new_amount_staked: u64 = match stake_account.amount_staked.checked_sub(actual_amount) {
        Some(a) => a,
        None => {
            return Err(StakePoolError::NumericalOverflow);
        },
    };
    let new_total_staked: u64 = match pool.total_staked.checked_sub(actual_amount) {
        Some(t) => t,
        None => {
            return Err(StakePoolError::NumericalOverflow);
        },
    };
    let new_rewards_owed: u64 = match pool.total_rewards_owed.checked_sub(forfeited_rewards) {
        Some(t) => t,
        None => {
            return Err(StakePoolError::NumericalOverflow);
        },
    };
    let new_pool = StakePool {
        total_staked: new_total_staked,
        total_rewards_owed: new_rewards_owed,
        ..*pool
    };
    let new_account = if new_amount_staked == 0 {
        StakeAccount { amount_staked: 0, claimed_rewards: 0, stake_timestamp: 0, ..*stake_account }
    } else {
        StakeAccount { amount_staked: new_amount_staked, ..*stake_account }
    };
    Ok((new_pool, new_account))
}

} // verus!
