//! End-to-end scenarios over the economic operations: staking, claiming,
//! unstaking with forfeiture, pool lifecycle guards, funding, closing, and
//! the two-step authority transfer.

use your_wallet_stake_pool::error::StakePoolError;
use your_wallet_stake_pool::processor::admin::{
    accept_program_authority, cancel_authority_transfer, close_program_authority,
    initialize_program_authority, manage_authorized_creators, transfer_program_authority,
    update_pool,
};
use your_wallet_stake_pool::processor::close::close_stake_account;
use your_wallet_stake_pool::processor::initialize::initialize_pool;
use your_wallet_stake_pool::processor::rewards::{claim_amount, claim_rewards, fund_rewards};
use your_wallet_stake_pool::processor::stake::{stake, unstake};
use your_wallet_stake_pool::pubkey::Pubkey;
use your_wallet_stake_pool::state::{Key, ProgramAuthority, StakeAccount, StakePool, MAX_CREATORS};

fn pk(n: u8) -> Pubkey {
    let mut bytes = [0u8; 32];
    bytes[0] = n;
    bytes[3] = 0xEF;
    Pubkey::new(bytes)
}

const T0: i64 = 1_700_000_000;

fn scenario_pool() -> StakePool {
    // rate 1e8 = 10%, lockup one day, minimum stake 1e6
    StakePool {
        key: Key::StakePool,
        stake_mint: pk(1),
        reward_mint: pk(2),
        pool_id: 0,
        stake_vault: pk(3),
        reward_vault: pk(4),
        total_staked: 0,
        total_rewards_owed: 0,
        reward_rate: 100_000_000,
        min_stake_amount: 1_000_000,
        lockup_period: 86400,
        is_paused: false,
        enforce_lockup: false,
        pool_end_date: None,
        pending_reward_rate: None,
        reward_rate_change_timestamp: None,
        last_rate_change: None,
    }
}

#[test]
fn test_stake_then_claim_at_lockup() {
    let pool = scenario_pool();
    let owner = pk(7);
    let pool_key = pk(8);
    let vault_balance = 100_000u64;

    // Stake 1e6 at T0; the prospective liability is 1e5 and the vault covers it
    let (pool, acct) = stake(
        &pool, owner, pool_key, 1_000_000, 0, None, None, T0, vault_balance, 1_000_000,
    )
    .unwrap();
    assert_eq!(pool.total_staked, 1_000_000);
    assert_eq!(pool.total_rewards_owed, 100_000);
    assert_eq!(acct.amount_staked, 1_000_000);
    assert_eq!(acct.stake_timestamp, T0);
    assert_eq!(acct.claimed_rewards, 0);

    // One second before the lockup completes a claim is a successful no-op
    let unclaimed = claim_amount(&pool, &acct, owner, pool_key, T0 + 86399, vault_balance).unwrap();
    assert_eq!(unclaimed, 0);
    let (pool_after, acct_after) =
        claim_rewards(&pool, &acct, owner, pool_key, T0 + 86399, vault_balance, 0).unwrap();
    assert_eq!(pool_after, pool);
    assert_eq!(acct_after, acct);

    // At exactly the lockup the full 1e5 is claimable
    let unclaimed = claim_amount(&pool, &acct, owner, pool_key, T0 + 86400, vault_balance).unwrap();
    assert_eq!(unclaimed, 100_000);
    let (pool, acct) =
        claim_rewards(&pool, &acct, owner, pool_key, T0 + 86400, vault_balance, unclaimed)
            .unwrap();
    assert_eq!(acct.claimed_rewards, 100_000);
    assert_eq!(pool.total_rewards_owed, 0); // dropped by 1e5

    // A second claim finds nothing left
    let unclaimed = claim_amount(&pool, &acct, owner, pool_key, T0 + 90000, vault_balance).unwrap();
    assert_eq!(unclaimed, 0);
}

#[test]
fn test_partial_unstake_before_lockup() {
    let pool = scenario_pool();
    let owner = pk(7);
    let pool_key = pk(8);

    let (pool, acct) =
        stake(&pool, owner, pool_key, 1_000_000, 0, None, None, T0, 100_000, 1_000_000).unwrap();

    // Half out at T0+43200 with the lockup not enforced: the potential is
    // zero before lockup, so nothing is forfeited
    let (pool, acct) =
        unstake(&pool, &acct, owner, pool_key, 500_000, None, T0 + 43200, 500_000).unwrap();

    assert_eq!(acct.amount_staked, 500_000);
    assert_eq!(acct.stake_timestamp, T0); // the clock keeps running
    assert_eq!(pool.total_staked, 500_000);
    assert_eq!(pool.total_rewards_owed, 100_000); // nothing forfeited, nothing released
}

#[test]
fn test_unstake_enforced_lockup_rejected() {
    let pool = StakePool { enforce_lockup: true, ..scenario_pool() };
    let owner = pk(7);
    let pool_key = pk(8);

    let (pool, acct) =
        stake(&pool, owner, pool_key, 1_000_000, 0, None, None, T0, 100_000, 1_000_000).unwrap();

    let result = unstake(&pool, &acct, owner, pool_key, 500_000, None, T0 + 43200, 500_000);
    assert_eq!(result, Err(StakePoolError::LockupNotExpired));

    // Once the lockup completes the withdrawal goes through
    let result = unstake(&pool, &acct, owner, pool_key, 500_000, None, T0 + 86400, 500_000);
    assert!(result.is_ok());
}

#[test]
fn test_full_unstake_after_lockup_forfeits_unclaimed() {
    let pool = scenario_pool();
    let owner = pk(7);
    let pool_key = pk(8);

    let (pool, acct) =
        stake(&pool, owner, pool_key, 1_000_000, 0, None, None, T0, 100_000, 1_000_000).unwrap();

    // Fully out right at the lockup boundary, nothing claimed yet: the whole
    // 1e5 potential is forfeited and released from the committed total
    let (pool, acct) =
        unstake(&pool, &acct, owner, pool_key, 1_000_000, None, T0 + 86400, 1_000_000).unwrap();

    assert_eq!(acct.amount_staked, 0);
    assert_eq!(acct.claimed_rewards, 0);
    assert_eq!(acct.stake_timestamp, 0);
    assert_eq!(pool.total_staked, 0);
    assert_eq!(pool.total_rewards_owed, 0);
}

#[test]
fn test_partial_unstake_after_lockup_forfeits_proportionally() {
    let pool = scenario_pool();
    let owner = pk(7);
    let pool_key = pk(8);

    let (pool, acct) =
        stake(&pool, owner, pool_key, 1_000_000, 0, None, None, T0, 100_000, 1_000_000).unwrap();

    // A quarter out after lockup: a quarter of the unclaimed 1e5 is forfeited
    let (pool, acct) =
        unstake(&pool, &acct, owner, pool_key, 250_000, None, T0 + 86400, 250_000).unwrap();

    assert_eq!(acct.amount_staked, 750_000);
    assert_eq!(pool.total_staked, 750_000);
    assert_eq!(pool.total_rewards_owed, 75_000);
}

#[test]
fn test_stake_immediately_unstaked_restores_totals() {
    // With a lockup that completes instantly the committed liability equals
    // the potential, so an immediate full exit forfeits all of it and the
    // pool's totals return to their pre-stake values (fee-free transfers).
    let pool = StakePool {
        lockup_period: 0,
        total_staked: 42,
        total_rewards_owed: 7,
        min_stake_amount: 0,
        ..scenario_pool()
    };
    let owner = pk(7);
    let pool_key = pk(8);

    let (pool_after, acct) =
        stake(&pool, owner, pool_key, 1_000_000, 0, None, None, T0, 200_000, 1_000_000).unwrap();
    assert_eq!(pool_after.total_rewards_owed, 7 + 100_000);

    let (pool_back, acct_back) =
        unstake(&pool_after, &acct, owner, pool_key, 1_000_000, None, T0, 1_000_000).unwrap();

    assert_eq!(pool_back.total_staked, pool.total_staked);
    assert_eq!(pool_back.total_rewards_owed, pool.total_rewards_owed);
    assert_eq!(acct_back.amount_staked, 0);
    assert_eq!(acct_back.claimed_rewards, 0);
    assert_eq!(acct_back.stake_timestamp, 0);
}

#[test]
fn test_stake_guards() {
    let pool = scenario_pool();
    let owner = pk(7);
    let pool_key = pk(8);

    // Zero amount
    let r = stake(&pool, owner, pool_key, 0, 0, None, None, T0, 100_000, 0);
    assert_eq!(r.unwrap_err(), StakePoolError::InvalidParameters);

    // Below the pool minimum
    let r = stake(&pool, owner, pool_key, 999_999, 0, None, None, T0, 100_000, 999_999);
    assert_eq!(r.unwrap_err(), StakePoolError::AmountBelowMinimum);

    // Frontrunning guard: stale expected reward rate
    let r = stake(&pool, owner, pool_key, 1_000_000, 0, Some(1), None, T0, 100_000, 1_000_000);
    assert_eq!(r.unwrap_err(), StakePoolError::PoolParametersChanged);

    // Frontrunning guard: stale expected lockup
    let r = stake(&pool, owner, pool_key, 1_000_000, 0, None, Some(1), T0, 100_000, 1_000_000);
    assert_eq!(r.unwrap_err(), StakePoolError::PoolParametersChanged);

    // Paused pool
    let paused = StakePool { is_paused: true, ..pool };
    let r = stake(&paused, owner, pool_key, 1_000_000, 0, None, None, T0, 100_000, 1_000_000);
    assert_eq!(r.unwrap_err(), StakePoolError::PoolPaused);

    // Ended pool
    let ended = StakePool { pool_end_date: Some(T0), ..pool };
    let r = stake(&ended, owner, pool_key, 1_000_000, 0, None, None, T0, 100_000, 1_000_000);
    assert_eq!(r.unwrap_err(), StakePoolError::PoolEnded);

    // A clock before the epoch sentinel
    let r = stake(&pool, owner, pool_key, 1_000_000, 0, None, None, 10, 100_000, 1_000_000);
    assert_eq!(r.unwrap_err(), StakePoolError::InvalidTimestamp);

    // A vault that cannot cover the new liability: the deposit is refused
    let r = stake(&pool, owner, pool_key, 1_000_000, 0, None, None, T0, 99_999, 1_000_000);
    assert_eq!(r.unwrap_err(), StakePoolError::InsufficientRewards);
}

#[test]
fn test_unstake_guards() {
    let pool = scenario_pool();
    let owner = pk(7);
    let pool_key = pk(8);
    let (pool, acct) =
        stake(&pool, owner, pool_key, 1_000_000, 0, None, None, T0, 100_000, 1_000_000).unwrap();

    // More than the deposit holds
    let r = unstake(&pool, &acct, owner, pool_key, 1_000_001, None, T0 + 86400, 1_000_001);
    assert_eq!(r.unwrap_err(), StakePoolError::InsufficientStakedBalance);

    // Not the owner
    let r = unstake(&pool, &acct, pk(99), pool_key, 500_000, None, T0 + 86400, 500_000);
    assert_eq!(r.unwrap_err(), StakePoolError::AccountMismatch);

    // Frontrunning guard
    let r = unstake(&pool, &acct, owner, pool_key, 500_000, Some(1), T0 + 86400, 500_000);
    assert_eq!(r.unwrap_err(), StakePoolError::PoolParametersChanged);
}

#[test]
fn test_claim_insufficient_vault() {
    let pool = scenario_pool();
    let owner = pk(7);
    let pool_key = pk(8);
    let (pool, acct) =
        stake(&pool, owner, pool_key, 1_000_000, 0, None, None, T0, 100_000, 1_000_000).unwrap();

    // The vault was drained below the unclaimed amount in the meantime
    let r = claim_amount(&pool, &acct, owner, pool_key, T0 + 86400, 99_999);
    assert_eq!(r.unwrap_err(), StakePoolError::InsufficientRewards);
}

#[test]
fn test_fund_rewards_validates_amount() {
    assert_eq!(fund_rewards(0), Err(StakePoolError::InvalidParameters));
    assert_eq!(fund_rewards(1), Ok(()));
}

#[test]
fn test_close_stake_account_rules() {
    let owner = pk(7);
    let acct = StakeAccount {
        key: Key::StakeAccount,
        pool: pk(8),
        owner,
        index: 0,
        amount_staked: 5,
        stake_timestamp: T0,
        claimed_rewards: 0,
    };

    // A deposit still holding funds cannot be closed
    assert_eq!(close_stake_account(&acct, owner), Err(StakePoolError::ExpectedEmptyAccount));

    // Only the owner may close
    let empty = StakeAccount { amount_staked: 0, stake_timestamp: 0, ..acct };
    assert_eq!(close_stake_account(&empty, pk(9)), Err(StakePoolError::AccountMismatch));

    assert_eq!(close_stake_account(&empty, owner), Ok(()));
}

#[test]
fn test_create_pool_rejects_short_lockup() {
    let admin = pk(9);
    let authority = initialize_program_authority(admin);

    // lockup 3600 is below the one-day minimum; the request is refused
    // before any asset data is even inspected
    let result = initialize_pool(
        &authority,
        admin,
        pk(8),
        pk(1),
        pk(2),
        pk(3),
        pk(4),
        &[],
        &[],
        &[],
        &[],
        0,
        100_000_000,
        1_000_000,
        3600,
        false,
        None,
        T0,
    );
    assert_eq!(result, Err(StakePoolError::InvalidParameters));
}

#[test]
fn test_create_pool_rejects_unauthorized_creator() {
    let admin = pk(9);
    let authority = initialize_program_authority(admin);

    let result = initialize_pool(
        &authority,
        pk(10), // never whitelisted
        pk(8),
        pk(1),
        pk(2),
        pk(3),
        pk(4),
        &[],
        &[],
        &[],
        &[],
        0,
        100_000_000,
        1_000_000,
        86400,
        false,
        None,
        T0,
    );
    assert_eq!(result, Err(StakePoolError::UnauthorizedPoolCreator));
}

#[test]
fn test_create_pool_rejects_past_end_date() {
    let admin = pk(9);
    let authority = initialize_program_authority(admin);

    let result = initialize_pool(
        &authority,
        admin,
        pk(8),
        pk(1),
        pk(2),
        pk(3),
        pk(4),
        &[],
        &[],
        &[],
        &[],
        0,
        100_000_000,
        1_000_000,
        86400,
        false,
        Some(T0), // not strictly in the future
        T0,
    );
    assert_eq!(result, Err(StakePoolError::InvalidParameters));
}

#[test]
fn test_manage_creators_capacity_and_admin_rules() {
    let admin = pk(9);
    let authority = initialize_program_authority(admin);

    // Ten distinct creators fit
    let ten: Vec<Pubkey> = (0..MAX_CREATORS).map(|i| pk(20 + i as u8)).collect();
    let authority = manage_authorized_creators(authority, admin, &ten, &vec![]).unwrap();
    assert_eq!(authority.creator_count as usize, MAX_CREATORS);

    // An eleventh distinct creator is refused
    let result =
        manage_authorized_creators(authority.clone(), admin, &vec![pk(99)], &vec![]);
    assert_eq!(result, Err(StakePoolError::MaxAuthorizedCreatorsReached));

    // Removing the admin itself is refused
    let result = manage_authorized_creators(authority.clone(), admin, &vec![], &vec![admin]);
    assert_eq!(result, Err(StakePoolError::CannotRemoveMainAuthority));

    // Only the admin may manage the list
    let result = manage_authorized_creators(authority.clone(), pk(20), &vec![pk(99)], &vec![]);
    assert_eq!(result, Err(StakePoolError::Unauthorized));

    // Oversized batches are refused outright
    let eleven: Vec<Pubkey> = (0..MAX_CREATORS + 1).map(|i| pk(40 + i as u8)).collect();
    let result = manage_authorized_creators(authority, admin, &eleven, &vec![]);
    assert_eq!(result, Err(StakePoolError::InvalidParameters));
}

#[test]
fn test_manage_creators_corrupt_count_is_fatal() {
    let admin = pk(9);
    let mut authority = initialize_program_authority(admin);
    authority.add_creator(pk(2)).unwrap();
    authority.creator_count = 9; // stored cardinality out of sync

    let result = manage_authorized_creators(authority, admin, &vec![pk(3)], &vec![]);
    assert_eq!(result, Err(StakePoolError::DataCorruption));
}

#[test]
fn test_authority_transfer_two_step() {
    let admin = pk(9);
    let nominee = pk(10);
    let authority = initialize_program_authority(admin);

    // Nominating yourself is refused
    let result = transfer_program_authority(authority.clone(), admin, admin);
    assert_eq!(result, Err(StakePoolError::InvalidParameters));

    // Only the current authority can nominate
    let result = transfer_program_authority(authority.clone(), nominee, pk(11));
    assert_eq!(result, Err(StakePoolError::AccountMismatch));

    // Accepting with nothing pending is refused
    let result = accept_program_authority(authority.clone(), nominee);
    assert_eq!(result, Err(StakePoolError::NoPendingAuthority));

    // Nominate, then the wrong principal tries to accept
    let pending = transfer_program_authority(authority, admin, nominee).unwrap();
    assert_eq!(pending.pending_authority, Some(nominee));
    let result = accept_program_authority(pending.clone(), pk(11));
    assert_eq!(result, Err(StakePoolError::InvalidPendingAuthority));

    // The nominee accepts and becomes the authority
    let accepted = accept_program_authority(pending, nominee).unwrap();
    assert_eq!(accepted.authority, nominee);
    assert_eq!(accepted.pending_authority, None);
}

#[test]
fn test_authority_transfer_cancel() {
    let admin = pk(9);
    let nominee = pk(10);
    let authority = initialize_program_authority(admin);

    // Cancelling with nothing pending is refused
    let result = cancel_authority_transfer(authority.clone(), admin);
    assert_eq!(result, Err(StakePoolError::NoPendingAuthority));

    let pending = transfer_program_authority(authority, admin, nominee).unwrap();

    // Only the current authority can cancel
    let result = cancel_authority_transfer(pending.clone(), nominee);
    assert_eq!(result, Err(StakePoolError::Unauthorized));

    let cancelled = cancel_authority_transfer(pending, admin).unwrap();
    assert_eq!(cancelled.pending_authority, None);
    assert_eq!(cancelled.authority, admin);
}

#[test]
fn test_update_pool_parameters() {
    let admin = pk(9);
    let authority = initialize_program_authority(admin);
    let pool = scenario_pool();

    let updated = update_pool(
        &pool,
        &authority,
        admin,
        None,
        Some(5_000),
        Some(172800),
        Some(true),
        Some(true),
        Some(Some(T0 + 1_000_000)),
        T0,
    )
    .unwrap();

    assert_eq!(updated.min_stake_amount, 5_000);
    assert_eq!(updated.lockup_period, 172800);
    assert!(updated.is_paused);
    assert!(updated.enforce_lockup);
    assert_eq!(updated.pool_end_date, Some(T0 + 1_000_000));
    // The live reward rate never changes through a plain update
    assert_eq!(updated.reward_rate, pool.reward_rate);

    // A negative lockup is refused
    let result = update_pool(&pool, &authority, admin, None, None, Some(-1), None, None, None, T0);
    assert_eq!(result, Err(StakePoolError::InvalidParameters));

    // An ended pool's date cannot be extended
    let ended = StakePool { pool_end_date: Some(T0 - 100), ..pool };
    let result = update_pool(&ended, &authority, admin, None, None, None, None, None,
        Some(Some(T0 + 100)), T0);
    assert_eq!(result, Err(StakePoolError::PoolEnded));

    // But it can be shortened
    let result = update_pool(&ended, &authority, admin, None, None, None, None, None,
        Some(Some(T0 - 200)), T0);
    assert!(result.is_ok());
}

#[test]
fn test_numerical_overflow_is_reported() {
    // A stake whose liability does not fit in 64 bits is refused as overflow
    let pool = StakePool {
        reward_rate: 1_000_000_000_000, // 1000%
        min_stake_amount: 0,
        ..scenario_pool()
    };
    let r = stake(&pool, pk(7), pk(8), u64::MAX, 0, None, None, T0, u64::MAX, u64::MAX);
    assert_eq!(r.unwrap_err(), StakePoolError::NumericalOverflow);
}

#[test]
fn test_claim_books_delivered_amount_only() {
    // A fee-bearing reward asset delivers less than requested; the ledger
    // books only what arrived, leaving the rest still claimable
    let pool = scenario_pool();
    let owner = pk(7);
    let pool_key = pk(8);
    let (pool, acct) =
        stake(&pool, owner, pool_key, 1_000_000, 0, None, None, T0, 100_000, 1_000_000).unwrap();

    let requested = claim_amount(&pool, &acct, owner, pool_key, T0 + 86400, 100_000).unwrap();
    assert_eq!(requested, 100_000);
    let delivered = 99_000u64; // 1% fee taken in flight
    let (pool, acct) =
        claim_rewards(&pool, &acct, owner, pool_key, T0 + 86400, 100_000, delivered).unwrap();

    assert_eq!(acct.claimed_rewards, 99_000);
    assert_eq!(pool.total_rewards_owed, 1_000);
}

#[test]
fn test_close_program_authority_rules() {
    let admin = pk(9);
    let authority = initialize_program_authority(admin);

    // Only the current authority may close the record
    assert_eq!(close_program_authority(&authority, pk(10)), Err(StakePoolError::Unauthorized));

    // Never while a transfer is pending
    let pending = transfer_program_authority(authority.clone(), admin, pk(10)).unwrap();
    assert_eq!(close_program_authority(&pending, admin), Err(StakePoolError::InvalidParameters));

    assert_eq!(close_program_authority(&authority, admin), Ok(()));
}

#[test]
fn test_verify_solvency() {
    let pool = StakePool { total_rewards_owed: 1_000, ..scenario_pool() };

    assert_eq!(pool.verify_solvency(1_000), Ok(()));
    assert_eq!(pool.verify_solvency(999), Err(StakePoolError::InsufficientRewards));
}
