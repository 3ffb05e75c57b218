use vstd::prelude::*;

use crate::error::StakePoolError;
use crate::pubkey::Pubkey;
use crate::state::{spec_calculate_rewards, StakeAccount, StakePool};

verus! {

/// What `claim_amount` returns: the unclaimed reward the deposit is owed
/// right now, after every validation a claim performs.
pub open spec fn spec_claim_amount(
    pool: StakePool,
    stake_account: StakeAccount,
    owner: Pubkey,
    pool_key: Pubkey,
    now: i64,
    reward_vault_balance: u64,
) -> Result<u64, StakePoolError> {
    if owner != stake_account.owner {
        Err(StakePoolError::AccountMismatch)
    } else if pool_key != stake_account.pool {
        Err(StakePoolError::AccountMismatch)
    } else {
        match spec_calculate_rewards(
            pool,
            stake_account.amount_staked,
            stake_account.stake_timestamp,
            now,
        ) {
            Err(e) => Err(e),
            Ok(total_rewards) => {
                if total_rewards < stake_account.claimed_rewards {
                    Err(StakePoolError::NumericalOverflow)
                } else {
                    let unclaimed = (total_rewards - stake_account.claimed_rewards) as u64;
                    if unclaimed == 0 {
                        Ok(0u64)
                    } else if reward_vault_balance < unclaimed {
                        Err(StakePoolError::InsufficientRewards)
                    } else {
                        Ok(unclaimed)
                    }
                }
            },
        }
    }
}

/// How much a claim would pay out right now: zero means the claim is a
/// successful no-op (lockup incomplete, nothing staked, or everything
/// already claimed). A positive result is also a check that the reward
/// vault can cover it (`InsufficientRewards` otherwise).
///
/// The caller transfers this amount through the token gateway and then
/// books the delivered value with `claim_rewards`.
pub fn claim_amount(
    pool: &StakePool,
    stake_account: &StakeAccount,
    owner: Pubkey,
    pool_key: Pubkey,
    now: i64,
    reward_vault_balance: u64,
) -> (r: Result<u64, StakePoolError>)
    ensures
        r == spec_claim_amount(*pool, *stake_account, owner, pool_key, now, reward_vault_balance),
{
    if owner != stake_account.owner {
        return Err(StakePoolError::AccountMismatch);
    }
    if pool_key != stake_account.pool {
        return Err(StakePoolError::AccountMismatch);
    }
    let total_rewards: u64 = match pool.calculate_rewards(
        stake_account.amount_staked,
        stake_account.stake_timestamp,
        now,
    ) {
        Ok(t) => t,
        Err(e) => {
            return Err(e);
        },
    };
    let unclaimed: u64 = match total_rewards.checked_sub(stake_account.claimed_rewards) {
        Some(u) => u,
        None => {
            return Err(StakePoolError::NumericalOverflow);
        },
    };
    if unclaimed == 0 {
        return Ok(0);
    }
    if reward_vault_balance < unclaimed {
        return Err(StakePoolError::InsufficientRewards);
    }
    Ok(unclaimed)
}

/// What `claim_rewards` does, as one transition. `delivered_amount` is what
/// the token gateway reports actually reached the owner for the requested
/// unclaimed amount; only it is booked. When nothing is claimable the call
/// succeeds and changes nothing (`delivered_amount` is ignored: no transfer
/// happened).
pub open spec fn spec_claim_rewards(
    pool: StakePool,
    stake_account: StakeAccount,
    owner: Pubkey,
    pool_key: Pubkey,
    now: i64,
    reward_vault_balance: u64,
    delivered_amount: u64,
) -> Result<(StakePool, StakeAccount), StakePoolError> {
    match spec_claim_amount(pool, stake_account, owner, pool_key, now, reward_vault_balance) {
        Err(e) => Err(e),
        Ok(unclaimed) => {
            if unclaimed == 0 {
                Ok((pool, stake_account))
            } else if stake_account.claimed_rewards as int + delivered_amount as int
                > u64::MAX as int {
                Err(StakePoolError::NumericalOverflow)
            } else if pool.total_rewards_owed < delivered_amount {
                Err(StakePoolError::NumericalOverflow)
            } else {
                Ok(
                    (
                        StakePool {
                            total_rewards_owed: (pool.total_rewards_owed - delivered_amount) as u64,
                            ..pool
                        },
                        StakeAccount {
                            claimed_rewards: (stake_account.claimed_rewards
                                + delivered_amount) as u64,
                            ..stake_account
                        },
                    ),
                )
            }
        },
    }
}

/// Pay out a deposit's unclaimed reward.
///
/// Runs the same validation as `claim_amount`; a zero unclaimed amount is a
/// successful no-op that changes nothing. Otherwise the deposit's
/// `claimed_rewards` grows by the gateway-reported `delivered_amount` (not
/// the requested one) and the pool's committed total shrinks by the same.
pub fn claim_rewards(
    pool: &StakePool,
    stake_account: &StakeAccount,
    owner: Pubkey,
    pool_key: Pubkey,
    now: i64,
    reward_vault_balance: u64,
    delivered_amount: u64,
) -> (r: Result<(StakePool, StakeAccount), StakePoolError>)
    ensures
        r == spec_claim_rewards(
            *pool,
            *stake_account,
            owner,
            pool_key,
            now,
            reward_vault_balance,
            delivered_amount,
        ),
{
    let unclaimed: u64 = match claim_amount(
        pool,
        stake_account,
        owner,
        pool_key,
        now,
        reward_vault_balance,
    ) {
        Ok(u) => u,
        Err(e) => {
            return Err(e);
        },
    };
    if unclaimed == 0 {
        return Ok((*pool, *stake_account));
    }
    let new_claimed: u64 = match stake_account.claimed_rewards.checked_add(delivered_amount) {
        Some(c) => c,
        None => {
            return Err(StakePoolError::NumericalOverflow);
        },
    };
    let new_rewards_owed: u64 = match pool.total_rewards_owed.checked_sub(delivered_amount) {
        Some(t) => t,
        None => {
            return Err(StakePoolError::NumericalOverflow);
        },
    };
    let new_pool = StakePool { total_rewards_owed: new_rewards_owed, ..*pool };
    let new_account = StakeAccount { claimed_rewards: new_claimed, ..*stake_account };
    Ok((new_pool, new_account))
}

/// Validate a reward-vault top-up: only a positive amount is accepted.
///
/// Funding deliberately never touches `total_rewards_owed`: committed
/// liability and available balance are orthogonal, and solvency is always
/// re-checked against the live vault balance, never inferred from
/// cumulative funding. The transfer itself is the caller's token gateway
/// call; no record changes.
pub fn fund_rewards(amount: u64) -> (r: Result<(), StakePoolError>)
    ensures
        r == if amount == 0 {
            Err::<(), StakePoolError>(StakePoolError::InvalidParameters)
        } else {
            Ok::<(), StakePoolError>(())
        },
{
    if amount == 0 {
        return Err(StakePoolError::InvalidParameters);
    }
    Ok(())
}

} // verus!
