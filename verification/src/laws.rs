use vstd::prelude::*;

use crate::error::StakePoolError;
use crate::processor::admin::{spec_finalize_reward_rate_change, spec_update_pool};
use crate::processor::initialize::spec_initialize_pool;
use crate::processor::rewards::{spec_claim_amount, spec_claim_rewards};
use crate::processor::stake::{spec_stake, spec_unstake};
use crate::pubkey::Pubkey;
use crate::state::{full_reward, spec_calculate_rewards, AuthorityView, StakeAccount, StakePool};

verus! {

/// The per-deposit bookkeeping invariant: a fully withdrawn deposit has no
/// recorded claims and no running lockup clock.
pub open spec fn stake_account_inv(a: StakeAccount) -> bool {
    a.amount_staked == 0 ==> a.claimed_rewards == 0 && a.stake_timestamp == 0
}

/// The governor's structural invariant: a pending rate and its proposal
/// timestamp are set together or not at all.
pub open spec fn pool_pending_inv(p: StakePool) -> bool {
    (p.pending_reward_rate is Some) == (p.reward_rate_change_timestamp is Some)
}

/// Solvency after a successful stake: the pool's committed rewards never
/// exceed the live reward vault balance — the deposit was refused up front
/// otherwise, and the stake itself does not move reward tokens.
pub proof fn lemma_stake_solvent(
    pool: StakePool,
    owner: Pubkey,
    pool_key: Pubkey,
    amount: u64,
    index: u64,
    expected_reward_rate: Option<u64>,
    expected_lockup_period: Option<i64>,
    now: i64,
    reward_vault_balance: u64,
    received_amount: u64,
)
    requires
        spec_stake(
            pool,
            owner,
            pool_key,
            amount,
            index,
            expected_reward_rate,
            expected_lockup_period,
            now,
            reward_vault_balance,
            received_amount,
        ) is Ok,
    ensures
        spec_stake(
            pool,
            owner,
            pool_key,
            amount,
            index,
            expected_reward_rate,
            expected_lockup_period,
            now,
            reward_vault_balance,
            received_amount,
        )->Ok_0.0.total_rewards_owed <= reward_vault_balance,
{
}

/// Solvency after a successful unstake: the committed rewards only shrink,
/// and no reward tokens leave the vault, so a solvent pool stays solvent.
pub proof fn lemma_unstake_solvent(
    pool: StakePool,
    stake_account: StakeAccount,
    owner: Pubkey,
    pool_key: Pubkey,
    amount: u64,
    expected_reward_rate: Option<u64>,
    now: i64,
    actual_amount: u64,
    reward_vault_balance: u64,
)
    requires
        pool.total_rewards_owed <= reward_vault_balance,
        spec_unstake(
            pool,
            stake_account,
            owner,
            pool_key,
            amount,
            expected_reward_rate,
            now,
            actual_amount,
        ) is Ok,
    ensures
        spec_unstake(
            pool,
            stake_account,
            owner,
            pool_key,
            amount,
            expected_reward_rate,
            now,
            actual_amount,
        )->Ok_0.0.total_rewards_owed <= reward_vault_balance,
{
}

/// Solvency after a successful claim with full delivery: the payout leaves
/// the reward vault and the committed total together, so a solvent pool
/// stays solvent against the reduced balance. (With a fee-bearing reward
/// asset the vault loses the requested amount while the books release only
/// the delivered part; solvency is then re-checked live on the next
/// operation rather than preserved by this argument.)
pub proof fn lemma_claim_solvent(
    pool: StakePool,
    stake_account: StakeAccount,
    owner: Pubkey,
    pool_key: Pubkey,
    now: i64,
    reward_vault_balance: u64,
    unclaimed: u64,
)
    requires
        pool.total_rewards_owed <= reward_vault_balance,
        spec_claim_amount(pool, stake_account, owner, pool_key, now, reward_vault_balance) == Ok::<
            u64,
            StakePoolError,
        >(unclaimed),
        spec_claim_rewards(
            pool,
            stake_account,
            owner,
            pool_key,
            now,
            reward_vault_balance,
            unclaimed,
        ) is Ok,
    ensures
        spec_claim_rewards(
            pool,
            stake_account,
            owner,
            pool_key,
            now,
            reward_vault_balance,
            unclaimed,
        )->Ok_0.0.total_rewards_owed <= reward_vault_balance - unclaimed,
{
}

/// Solvency is untouched by governance: a successful parameter update or
/// rate finalization changes neither the committed rewards nor the vault.
pub proof fn lemma_governance_keeps_totals(
    pool: StakePool,
    a: AuthorityView,
    admin: Pubkey,
    reward_rate: Option<u64>,
    min_stake_amount: Option<u64>,
    lockup_period: Option<i64>,
    is_paused: Option<bool>,
    enforce_lockup: Option<bool>,
    pool_end_date: Option<Option<i64>>,
    now: i64,
)
    ensures
        spec_update_pool(
            pool,
            a,
            admin,
            reward_rate,
            min_stake_amount,
            lockup_period,
            is_paused,
            enforce_lockup,
            pool_end_date,
            now,
        ) is Ok ==> {
            let p = spec_update_pool(
                pool,
                a,
                admin,
                reward_rate,
                min_stake_amount,
                lockup_period,
                is_paused,
                enforce_lockup,
                pool_end_date,
                now,
            )->Ok_0;
            p.total_rewards_owed == pool.total_rewards_owed && p.total_staked == pool.total_staked
        },
        spec_finalize_reward_rate_change(pool, now) is Ok ==> {
            let p = spec_finalize_reward_rate_change(pool, now)->Ok_0;
            p.total_rewards_owed == pool.total_rewards_owed && p.total_staked == pool.total_staked
        },
{
}

/// A fresh deposit record satisfies the per-deposit invariant whenever the
/// gateway delivered anything at all: its claims start at zero, and its
/// stake is the delivered amount.
pub proof fn lemma_stake_account_inv_after_stake(
    pool: StakePool,
    owner: Pubkey,
    pool_key: Pubkey,
    amount: u64,
    index: u64,
    expected_reward_rate: Option<u64>,
    expected_lockup_period: Option<i64>,
    now: i64,
    reward_vault_balance: u64,
    received_amount: u64,
)
    requires
        received_amount > 0,
        spec_stake(
            pool,
            owner,
            pool_key,
            amount,
            index,
            expected_reward_rate,
            expected_lockup_period,
            now,
            reward_vault_balance,
            received_amount,
        ) is Ok,
    ensures
        stake_account_inv(
            spec_stake(
                pool,
                owner,
                pool_key,
                amount,
                index,
                expected_reward_rate,
                expected_lockup_period,
                now,
                reward_vault_balance,
                received_amount,
            )->Ok_0.1,
        ),
{
}

/// Unstaking preserves the per-deposit invariant: a full withdrawal resets
/// the claims and the clock to zero in the same step.
pub proof fn lemma_stake_account_inv_after_unstake(
    pool: StakePool,
    stake_account: StakeAccount,
    owner: Pubkey,
    pool_key: Pubkey,
    amount: u64,
    expected_reward_rate: Option<u64>,
    now: i64,
    actual_amount: u64,
)
    requires
        spec_unstake(
            pool,
            stake_account,
            owner,
            pool_key,
            amount,
            expected_reward_rate,
            now,
            actual_amount,
        ) is Ok,
    ensures
        stake_account_inv(
            spec_unstake(
                pool,
                stake_account,
                owner,
                pool_key,
                amount,
                expected_reward_rate,
                now,
                actual_amount,
            )->Ok_0.1,
        ),
{
}

/// Claiming preserves the per-deposit invariant: on an empty deposit the
/// claim is a no-op (nothing was owed and nothing had been claimed), and on
/// a non-empty one the invariant asks nothing.
pub proof fn lemma_stake_account_inv_after_claim(
    pool: StakePool,
    stake_account: StakeAccount,
    owner: Pubkey,
    pool_key: Pubkey,
    now: i64,
    reward_vault_balance: u64,
    delivered_amount: u64,
)
    requires
        stake_account_inv(stake_account),
        spec_claim_rewards(
            pool,
            stake_account,
            owner,
            pool_key,
            now,
            reward_vault_balance,
            delivered_amount,
        ) is Ok,
    ensures
        stake_account_inv(
            spec_claim_rewards(
                pool,
                stake_account,
                owner,
                pool_key,
                now,
                reward_vault_balance,
                delivered_amount,
            )->Ok_0.1,
        ),
{
    assert(full_reward(0u64, pool.reward_rate) == 0) by {
        assert((0u64 as int) * (pool.reward_rate as int) == 0);
    }
}

/// A fresh pool satisfies the governor's structural invariant: no pending
/// rate and no proposal timestamp.
pub proof fn lemma_pending_inv_after_initialize(
    a: AuthorityView,
    creator: Pubkey,
    pool_key: Pubkey,
    stake_mint_key: Pubkey,
    reward_mint_key: Pubkey,
    stake_vault_key: Pubkey,
    reward_vault_key: Pubkey,
    stake_mint_data: Seq<u8>,
    reward_mint_data: Seq<u8>,
    stake_vault_data: Seq<u8>,
    reward_vault_data: Seq<u8>,
    pool_id: u64,
    reward_rate: u64,
    min_stake_amount: u64,
    lockup_period: i64,
    enforce_lockup: bool,
    pool_end_date: Option<i64>,
    now: i64,
)
    requires
        spec_initialize_pool(
            a,
            creator,
            pool_key,
            stake_mint_key,
            reward_mint_key,
            stake_vault_key,
            reward_vault_key,
            stake_mint_data,
            reward_mint_data,
            stake_vault_data,
            reward_vault_data,
            pool_id,
            reward_rate,
            min_stake_amount,
            lockup_period,
            enforce_lockup,
            pool_end_date,
            now,
        ) is Ok,
    ensures
        pool_pending_inv(
            spec_initialize_pool(
                a,
                creator,
                pool_key,
                stake_mint_key,
                reward_mint_key,
                stake_vault_key,
                reward_vault_key,
                stake_mint_data,
                reward_mint_data,
                stake_vault_data,
                reward_vault_data,
                pool_id,
                reward_rate,
                min_stake_amount,
                lockup_period,
                enforce_lockup,
                pool_end_date,
                now,
            )->Ok_0,
        ),
{
}

/// Every successful parameter update keeps the governor's structural
/// invariant: a proposal sets the pending rate and its timestamp together,
/// and a cancellation clears them together.
pub proof fn lemma_pending_inv_after_update(
    pool: StakePool,
    a: AuthorityView,
    admin: Pubkey,
    reward_rate: Option<u64>,
    min_stake_amount: Option<u64>,
    lockup_period: Option<i64>,
    is_paused: Option<bool>,
    enforce_lockup: Option<bool>,
    pool_end_date: Option<Option<i64>>,
    now: i64,
)
    requires
        pool_pending_inv(pool),
        spec_update_pool(
            pool,
            a,
            admin,
            reward_rate,
            min_stake_amount,
            lockup_period,
            is_paused,
            enforce_lockup,
            pool_end_date,
            now,
        ) is Ok,
    ensures
        pool_pending_inv(
            spec_update_pool(
                pool,
                a,
                admin,
                reward_rate,
                min_stake_amount,
                lockup_period,
                is_paused,
                enforce_lockup,
                pool_end_date,
                now,
            )->Ok_0,
        ),
{
}

/// A successful finalization clears both pending fields, keeping the
/// governor's structural invariant.
pub proof fn lemma_pending_inv_after_finalize(pool: StakePool, now: i64)
    requires
        spec_finalize_reward_rate_change(pool, now) is Ok,
    ensures
        pool_pending_inv(spec_finalize_reward_rate_change(pool, now)->Ok_0),
{
}

/// Staking, unstaking and claiming never touch the governor's pending
/// fields, so they keep its structural invariant.
pub proof fn lemma_pending_inv_after_balance_ops(
    pool: StakePool,
    stake_account: StakeAccount,
    owner: Pubkey,
    pool_key: Pubkey,
    amount: u64,
    index: u64,
    expected_reward_rate: Option<u64>,
    expected_lockup_period: Option<i64>,
    now: i64,
    reward_vault_balance: u64,
    moved_amount: u64,
)
    requires
        pool_pending_inv(pool),
    ensures
        spec_stake(
            pool,
            owner,
            pool_key,
            amount,
            index,
            expected_reward_rate,
            expected_lockup_period,
            now,
            reward_vault_balance,
            moved_amount,
        ) is Ok ==> pool_pending_inv(
            spec_stake(
                pool,
                owner,
                pool_key,
                amount,
                index,
                expected_reward_rate,
                expected_lockup_period,
                now,
                reward_vault_balance,
                moved_amount,
            )->Ok_0.0,
        ),
        spec_unstake(
            pool,
            stake_account,
            owner,
            pool_key,
            amount,
            expected_reward_rate,
            now,
            moved_amount,
        ) is Ok ==> pool_pending_inv(
            spec_unstake(
                pool,
                stake_account,
                owner,
                pool_key,
                amount,
                expected_reward_rate,
                now,
                moved_amount,
            )->Ok_0.0,
        ),
        spec_claim_rewards(
            pool,
            stake_account,
            owner,
            pool_key,
            now,
            reward_vault_balance,
            moved_amount,
        ) is Ok ==> pool_pending_inv(
            spec_claim_rewards(
                pool,
                stake_account,
                owner,
                pool_key,
                now,
                reward_vault_balance,
                moved_amount,
            )->Ok_0.0,
        ),
{
}

/// Finalization is idempotent in the failing sense: after one success, a
/// second finalization at any later time fails `NoPendingRewardRateChange`,
/// and a failing operation changes no state.
pub proof fn lemma_finalize_idempotent(pool: StakePool, now1: i64, now2: i64)
    requires
        spec_finalize_reward_rate_change(pool, now1) is Ok,
    ensures
        spec_finalize_reward_rate_change(
            spec_finalize_reward_rate_change(pool, now1)->Ok_0,
            now2,
        ) == Err::<StakePool, StakePoolError>(StakePoolError::NoPendingRewardRateChange),
{
}

/// The binary reward schedule: one instant before the lockup completes a
/// deposit has earned nothing; at completion it has earned the full
/// `floor(amount * rate / REWARD_SCALE)`; and any later instant pays that
/// same amount — capped, never compounding.
pub proof fn lemma_rewards_binary(
    pool: StakePool,
    amount: u64,
    stake_timestamp: i64,
    just_before: i64,
    at_lockup: i64,
    later: i64,
)
    requires
        pool.lockup_period >= 0,
        just_before - stake_timestamp == pool.lockup_period - 1,
        at_lockup - stake_timestamp == pool.lockup_period,
        later - stake_timestamp >= pool.lockup_period,
        later - stake_timestamp <= i64::MAX,
        full_reward(amount, pool.reward_rate) <= u64::MAX as int,
    ensures
        spec_calculate_rewards(pool, amount, stake_timestamp, just_before) == Ok::<
            u64,
            StakePoolError,
        >(0u64),
        spec_calculate_rewards(pool, amount, stake_timestamp, at_lockup) == Ok::<
            u64,
            StakePoolError,
        >(full_reward(amount, pool.reward_rate) as u64),
        spec_calculate_rewards(pool, amount, stake_timestamp, later) == spec_calculate_rewards(
            pool,
            amount,
            stake_timestamp,
            at_lockup,
        ),
{
}

/// A deposit immediately and fully withdrawn forfeits its entire reward
/// potential, and the pool's totals return to their values from before the
/// deposit. Stated for a lockup that completes instantly (the potential is
/// then the committed liability itself) and a fee-free asset (the gateway
/// moves the full amounts); with a positive lockup the potential before
/// completion is zero and the committed liability stays reserved instead,
/// and transfer fees shift both totals by the fee.
pub proof fn lemma_stake_then_full_unstake(
    pool: StakePool,
    owner: Pubkey,
    pool_key: Pubkey,
    amount: u64,
    index: u64,
    now: i64,
    reward_vault_balance: u64,
)
    requires
        pool.lockup_period <= 0,
        spec_stake(
            pool,
            owner,
            pool_key,
            amount,
            index,
            None::<u64>,
            None::<i64>,
            now,
            reward_vault_balance,
            amount,
        ) is Ok,
    ensures
        ({
            let (p1, acct) = spec_stake(
                pool,
                owner,
                pool_key,
                amount,
                index,
                None::<u64>,
                None::<i64>,
                now,
                reward_vault_balance,
                amount,
            )->Ok_0;
            let result = spec_unstake(
                p1,
                acct,
                owner,
                pool_key,
                amount,
                None::<u64>,
                now,
                amount,
            );
            &&& result is Ok
            &&& result->Ok_0.0.total_staked == pool.total_staked
            &&& result->Ok_0.0.total_rewards_owed == pool.total_rewards_owed
            &&& result->Ok_0.1.amount_staked == 0
            &&& result->Ok_0.1.claimed_rewards == 0
            &&& result->Ok_0.1.stake_timestamp == 0
        }),
{
    let (p1, acct) = spec_stake(
        pool,
        owner,
        pool_key,
        amount,
        index,
        None::<u64>,
        None::<i64>,
        now,
        reward_vault_balance,
        amount,
    )->Ok_0;
    assert(acct.amount_staked == amount);
    assert(now - now == 0);
}

/// A fresh pool is trivially solvent: it starts with no committed rewards,
/// whatever the reward vault holds.
pub proof fn lemma_initialize_solvent(
    a: AuthorityView,
    creator: Pubkey,
    pool_key: Pubkey,
    stake_mint_key: Pubkey,
    reward_mint_key: Pubkey,
    stake_vault_key: Pubkey,
    reward_vault_key: Pubkey,
    stake_mint_data: Seq<u8>,
    reward_mint_data: Seq<u8>,
    stake_vault_data: Seq<u8>,
    reward_vault_data: Seq<u8>,
    pool_id: u64,
    reward_rate: u64,
    min_stake_amount: u64,
    lockup_period: i64,
    enforce_lockup: bool,
    pool_end_date: Option<i64>,
    now: i64,
)
    requires
        spec_initialize_pool(
            a,
            creator,
            pool_key,
            stake_mint_key,
            reward_mint_key,
            stake_vault_key,
            reward_vault_key,
            stake_mint_data,
            reward_mint_data,
            stake_vault_data,
            reward_vault_data,
            pool_id,
            reward_rate,
            min_stake_amount,
            lockup_period,
            enforce_lockup,
            pool_end_date,
            now,
        ) is Ok,
    ensures
        spec_initialize_pool(
            a,
            creator,
            pool_key,
            stake_mint_key,
            reward_mint_key,
            stake_vault_key,
            reward_vault_key,
            stake_mint_data,
            reward_mint_data,
            stake_vault_data,
            reward_vault_data,
            pool_id,
            reward_rate,
            min_stake_amount,
            lockup_period,
            enforce_lockup,
            pool_end_date,
            now,
        )->Ok_0.total_rewards_owed == 0,
{
}

/// Funding only raises the reward vault's balance and touches no record, so
/// a solvent pool stays solvent with room to spare.
pub proof fn lemma_fund_keeps_solvency(pool: StakePool, reward_vault_balance: u64, received: u64)
    requires
        pool.total_rewards_owed <= reward_vault_balance,
        reward_vault_balance + received <= u64::MAX,
    ensures
        pool.total_rewards_owed <= reward_vault_balance + received,
{
}

} // verus!
