use vstd::prelude::*;

use crate::constants::MAX_REWARD_RATE;
use crate::error::StakePoolError;
use crate::processor::helpers::{
    spec_validate_current_timestamp, spec_validate_no_freeze_authority,
    spec_verify_token_account, spec_verify_vault_ownership, validate_current_timestamp,
    validate_no_freeze_authority, verify_token_account, verify_vault_ownership,
};
use crate::pubkey::Pubkey;
use crate::state::{spec_is_authorized, AuthorityView, Key, ProgramAuthority, StakePool};

verus! {

/// Minimum lockup period enforced at pool creation (1 day). A trivially
/// short lockup would let anyone stake, wait a moment, claim the full
/// reward and drain the vault; pairing the binary reward model with a
/// mandatory minimum closes that vector.
pub const MIN_LOCKUP_PERIOD: i64 = 86400;

/// What `initialize_pool` does, as one transition from the creation request
/// and the raw mint and vault records to the fresh pool record.
pub open spec fn spec_initialize_pool(
    a: AuthorityView,
    creator: Pubkey,
    pool_key: Pubkey,
    stake_mint_key: Pubkey,
    reward_mint_key: Pubkey,
    stake_vault_key: Pubkey,
    reward_vault_key: Pubkey,
    stake_mint_data: Seq<u8>,
    reward_mint_data: Seq<u8>,
    stake_vault_data: Seq<u8>,
    reward_vault_data: Seq<u8>,
    pool_id: u64,
    reward_rate: u64,
    min_stake_amount: u64,
    lockup_period: i64,
    enforce_lockup: bool,
    pool_end_date: Option<i64>,
    now: i64,
) -> Result<StakePool, StakePoolError> {
    if reward_rate > MAX_REWARD_RATE {
        Err(StakePoolError::InvalidParameters)
    } else if lockup_period < MIN_LOCKUP_PERIOD {
        Err(StakePoolError::InvalidParameters)
    } else if pool_end_date is Some && spec_validate_current_timestamp(now) is Err {
        Err(StakePoolError::InvalidTimestamp)
    } else if pool_end_date is Some && pool_end_date->Some_0 <= now {
        Err(StakePoolError::InvalidParameters)
    } else if !spec_is_authorized(a, creator) {
        Err(StakePoolError::UnauthorizedPoolCreator)
    } else if spec_validate_no_freeze_authority(stake_mint_data) is Err {
        Err(spec_validate_no_freeze_authority(stake_mint_data)->Err_0)
    } else if spec_validate_no_freeze_authority(reward_mint_data) is Err {
        Err(spec_validate_no_freeze_authority(reward_mint_data)->Err_0)
    } else if spec_verify_token_account(stake_vault_data, stake_mint_key, Some(stake_mint_data))
        is Err {
        Err(spec_verify_token_account(stake_vault_data, stake_mint_key, Some(stake_mint_data))->Err_0)
    } else if spec_verify_token_account(reward_vault_data, reward_mint_key, Some(reward_mint_data))
        is Err {
        Err(
            spec_verify_token_account(
                reward_vault_data,
                reward_mint_key,
                Some(reward_mint_data),
            )->Err_0,
        )
    } else if spec_verify_vault_ownership(stake_vault_data, pool_key) is Err {
        Err(spec_verify_vault_ownership(stake_vault_data, pool_key)->Err_0)
    } else if spec_verify_vault_ownership(reward_vault_data, pool_key) is Err {
        Err(spec_verify_vault_ownership(reward_vault_data, pool_key)->Err_0)
    } else {
        Ok(
            StakePool {
                key: Key::StakePool,
                stake_mint: stake_mint_key,
                reward_mint: reward_mint_key,
                pool_id: pool_id,
                stake_vault: stake_vault_key,
                reward_vault: reward_vault_key,
                total_staked: 0u64,
                total_rewards_owed: 0u64,
                reward_rate: reward_rate,
                min_stake_amount: min_stake_amount,
                lockup_period: lockup_period,
                is_paused: false,
                enforce_lockup: enforce_lockup,
                pool_end_date: pool_end_date,
                pending_reward_rate: None::<u64>,
                reward_rate_change_timestamp: None::<i64>,
                last_rate_change: None::<i64>,
            },
        )
    }
}

/// Create a staking pool.
///
/// Requires an authorized creator; a reward rate within bounds; a lockup of
/// at least the mandatory minimum; an end date, if any, strictly in the
/// future. The underlying assets must be safe: neither mint may have a
/// freeze authority or any denylisted capability (transfer hook, permanent
/// delegate, closable mint, forced-frozen default state), each vault must
/// hold the right asset, and both vaults must be owned by the pool's own
/// controlling identity (`pool_key`), never an arbitrary party. The fresh
/// pool starts with zeroed totals, unpaused, and no pending governance
/// state.
pub fn initialize_pool(
    program_authority: &ProgramAuthority,
    creator: Pubkey,
    pool_key: Pubkey,
    stake_mint_key: Pubkey,
    reward_mint_key: Pubkey,
    stake_vault_key: Pubkey,
    reward_vault_key: Pubkey,
    stake_mint_data: &[u8],
    reward_mint_data: &[u8],
    stake_vault_data: &[u8],
    reward_vault_data: &[u8],
    pool_id: u64,
    reward_rate: u64,
    min_stake_amount: u64,
    lockup_period: i64,
    enforce_lockup: bool,
    pool_end_date: Option<i64>,
    now: i64,
) -> (r: Result<StakePool, StakePoolError>)
    ensures
        r == spec_initialize_pool(
            program_authority@,
            creator,
            pool_key,
            stake_mint_key,
            reward_mint_key,
            stake_vault_key,
            reward_vault_key,
            stake_mint_data@,
            reward_mint_data@,
            stake_vault_data@,
            reward_vault_data@,
            pool_id,
            reward_rate,
            min_stake_amount,
            lockup_period,
            enforce_lockup,
            pool_end_date,
            now,
        ),
{
    if reward_rate > MAX_REWARD_RATE {
        return Err(StakePoolError::InvalidParameters);
    }
    if lockup_period < MIN_LOCKUP_PERIOD {
        return Err(StakePoolError::InvalidParameters);
    }
    if let Some(end_date) = pool_end_date {
        if let Err(e) = validate_current_timestamp(now) {
            return Err(e);
        }
        if end_date <= now {
            return Err(StakePoolError::InvalidParameters);
        }
    }
    if !program_authority.is_authorized(&creator) {
        return Err(StakePoolError::UnauthorizedPoolCreator);
    }
    if let Err(e) = validate_no_freeze_authority(stake_mint_data) {
        return Err(e);
    }
    if let Err(e) = validate_no_freeze_authority(reward_mint_data) {
        return Err(e);
    }
    if let Err(e) = verify_token_account(stake_vault_data, &stake_mint_key, Some(stake_mint_data)) {
        return Err(e);
    }
    if let Err(e) = verify_token_account(reward_vault_data, &reward_mint_key, Some(reward_mint_data)) {
        return Err(e);
    }
    if let Err(e) = verify_vault_ownership(stake_vault_data, &pool_key) {
        return Err(e);
    }
    if let Err(e) = verify_vault_ownership(reward_vault_data, &pool_key) {
        return Err(e);
    }
    Ok(
        StakePool {
            key: Key::StakePool,
            stake_mint: stake_mint_key,
            reward_mint: reward_mint_key,
            pool_id,
            stake_vault: stake_vault_key,
            reward_vault: reward_vault_key,
            total_staked: 0,
            total_rewards_owed: 0,
            reward_rate,
            min_stake_amount,
            lockup_period,
            is_paused: false,
            enforce_lockup,
            pool_end_date,
            pending_reward_rate: None,
            reward_rate_change_timestamp: None,
            last_rate_change: None,
        },
    )
}

} // verus!
