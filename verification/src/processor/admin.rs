use vstd::prelude::*;

use crate::constants::MAX_REWARD_RATE;
use crate::error::StakePoolError;
use crate::processor::helpers::{
    spec_validate_current_timestamp, spec_validate_stored_timestamp, validate_current_timestamp,
    validate_stored_timestamp,
};
use crate::pubkey::Pubkey;
use crate::state::{
    lemma_somes_values_take_step, nones, somes_values, spec_add_creator, spec_is_authorized,
    spec_remove_creator, spec_validate_creator_count, AuthorityView, Key, ProgramAuthority,
    StakePool, MAX_CREATORS,
};

verus! {

/// Time that must pass between proposing a reward rate change and finalizing
/// it (7 days), and equally the cooldown after a finalization before the
/// next proposal. Gives depositors notice to exit if they disagree with the
/// new rate, and prevents chaining rapid changes to bypass the notice.
pub const REWARD_RATE_CHANGE_DELAY: i64 = 604800;

/// A fresh singleton authority record: the given admin, an empty whitelist,
/// no pending transfer. The guard against creating it twice is the storage
/// layer's: the record's address is fixed and creation fails if it exists.
pub fn initialize_program_authority(initial_authority: Pubkey) -> (r: ProgramAuthority)
    ensures
        r@ == (AuthorityView {
            key: Key::ProgramAuthority,
            authority: initial_authority,
            creators: nones(MAX_CREATORS as nat),
            creator_count: 0u8,
            pending_authority: None::<Pubkey>,
        }),
{
    ProgramAuthority::new(initial_authority)
}

/// What removing a list of creators does, first to last; the first failure
/// aborts the whole operation.
pub open spec fn spec_remove_all(a: AuthorityView, l: Seq<Pubkey>) -> Result<
    AuthorityView,
    StakePoolError,
>
    decreases l.len(),
{
    if l.len() == 0 {
        Ok(a)
    } else {
        match spec_remove_creator(a, l[0]) {
            Err(e) => Err(e),
            Ok(b) => spec_remove_all(b, l.drop_first()),
        }
    }
}

/// What adding a list of creators does, first to last; the first failure
/// aborts the whole operation.
pub open spec fn spec_add_all(a: AuthorityView, l: Seq<Pubkey>) -> Result<
    AuthorityView,
    StakePoolError,
>
    decreases l.len(),
{
    if l.len() == 0 {
        Ok(a)
    } else {
        match spec_add_creator(a, l[0]) {
            Err(e) => Err(e),
            Ok(b) => spec_add_all(b, l.drop_first()),
        }
    }
}

pub proof fn lemma_remove_all_push(a: AuthorityView, q: Seq<Pubkey>, x: Pubkey)
    ensures
        spec_remove_all(a, q.push(x)) == match spec_remove_all(a, q) {
            Ok(b) => spec_remove_creator(b, x),
            Err(e) => Err(e),
        },
    decreases q.len(),
{
    reveal_with_fuel(spec_remove_all, 3);
    if q.len() == 0 {
        assert(q.push(x)[0] == x);
        assert(q.push(x).drop_first() =~= Seq::<Pubkey>::empty());
    } else {
        assert(q.push(x)[0] == q[0]);
        assert(q.push(x).drop_first() =~= q.drop_first().push(x));
        match spec_remove_creator(a, q[0]) {
            Err(_) => {},
            Ok(b) => {
                lemma_remove_all_push(b, q.drop_first(), x);
            },
        }
    }
}

pub proof fn lemma_add_all_push(a: AuthorityView, q: Seq<Pubkey>, x: Pubkey)
    ensures
        spec_add_all(a, q.push(x)) == match spec_add_all(a, q) {
            Ok(b) => spec_add_creator(b, x),
            Err(e) => Err(e),
        },
    decreases q.len(),
{
    reveal_with_fuel(spec_add_all, 3);
    if q.len() == 0 {
        assert(q.push(x)[0] == x);
        assert(q.push(x).drop_first() =~= Seq::<Pubkey>::empty());
    } else {
        assert(q.push(x)[0] == q[0]);
        assert(q.push(x).drop_first() =~= q.drop_first().push(x));
        match spec_add_creator(a, q[0]) {
            Err(_) => {},
            Ok(b) => {
                lemma_add_all_push(b, q.drop_first(), x);
            },
        }
    }
}

pub proof fn lemma_remove_all_err_extends(a: AuthorityView, q: Seq<Pubkey>, rest: Seq<Pubkey>)
    requires
        spec_remove_all(a, q) is Err,
    ensures
        spec_remove_all(a, q + rest) == spec_remove_all(a, q),
    decreases q.len(),
{
    assert(q.len() > 0);
    assert((q + rest)[0] == q[0]);
    match spec_remove_creator(a, q[0]) {
        Err(_) => {},
        Ok(b) => {
            assert((q + rest).drop_first() =~= q.drop_first() + rest);
            lemma_remove_all_err_extends(b, q.drop_first(), rest);
        },
    }
}

pub proof fn lemma_add_all_err_extends(a: AuthorityView, q: Seq<Pubkey>, rest: Seq<Pubkey>)
    requires
        spec_add_all(a, q) is Err,
    ensures
        spec_add_all(a, q + rest) == spec_add_all(a, q),
    decreases q.len(),
{
    assert(q.len() > 0);
    assert((q + rest)[0] == q[0]);
    match spec_add_creator(a, q[0]) {
        Err(_) => {},
        Ok(b) => {
            assert((q + rest).drop_first() =~= q.drop_first() + rest);
            lemma_add_all_err_extends(b, q.drop_first(), rest);
        },
    }
}

/// What `manage_authorized_creators` does: bounded batch sizes, the stored
/// cardinality cross-checked, only the main authority may call, removals
/// first, then additions; the first failure aborts everything.
pub open spec fn spec_manage_authorized_creators(
    a: AuthorityView,
    authority: Pubkey,
    add: Seq<Pubkey>,
    remove: Seq<Pubkey>,
) -> Result<AuthorityView, StakePoolError> {
    if add.len() > MAX_CREATORS as int {
        Err(StakePoolError::InvalidParameters)
    } else if remove.len() > MAX_CREATORS as int {
        Err(StakePoolError::InvalidParameters)
    } else if spec_validate_creator_count(a) is Err {
        Err(StakePoolError::DataCorruption)
    } else if authority != a.authority {
        Err(StakePoolError::Unauthorized)
    } else {
        match spec_remove_all(a, remove) {
            Err(e) => Err(e),
            Ok(b) => spec_add_all(b, add),
        }
    }
}

/// Add and remove authorized pool creators, as the main authority.
///
/// Removals are applied before additions, each list first to last; any
/// failure (removing the admin or an absent entry, adding the admin, a
/// duplicate, or an eleventh creator) aborts the whole batch with no change
/// recorded.
#[verifier::loop_isolation(false)]
pub fn manage_authorized_creators(
    program_authority: ProgramAuthority,
    authority: Pubkey,
    add: &Vec<Pubkey>,
    remove: &Vec<Pubkey>,
) -> (r: Result<ProgramAuthority, StakePoolError>)
    ensures
        match spec_manage_authorized_creators(program_authority@, authority, add@, remove@) {
            Ok(v) => r is Ok && r->Ok_0@ == v,
            Err(e) => r == Err::<ProgramAuthority, StakePoolError>(e),
        },
{
    let ghost a0 = program_authority@;
    if add.len() > MAX_CREATORS {
        return Err(StakePoolError::InvalidParameters);
    }
    if remove.len() > MAX_CREATORS {
        return Err(StakePoolError::InvalidParameters);
    }
    if let Err(_) = program_authority.validate_creator_count() {
        return Err(StakePoolError::DataCorruption);
    }
    if authority != program_authority.authority {
        return Err(StakePoolError::Unauthorized);
    }
    let mut auth = program_authority;
    let mut i: usize = 0;
    proof {
        assert(remove@.take(0) =~= Seq::<Pubkey>::empty());
    }
    while i < remove.len()
        invariant
            0 <= i <= remove@.len(),
            add@.len() <= MAX_CREATORS as int,
            remove@.len() <= MAX_CREATORS as int,
            spec_validate_creator_count(a0) is Ok,
            authority == a0.authority,
            spec_remove_all(a0, remove@.take(i as int)) == Ok::<AuthorityView, StakePoolError>(
                auth@,
            ),
        decreases remove@.len() - i,
    {
        let creator = remove[i];
        let ghost before = auth@;
        let step = auth.remove_creator(&creator);
        proof {
            lemma_remove_all_push(a0, remove@.take(i as int), remove@[i as int]);
            assert(remove@.take(i as int).push(remove@[i as int]) =~= remove@.take(i as int + 1));
        }
        if let Err(e) = step {
            proof {
                lemma_remove_all_err_extends(
                    a0,
                    remove@.take(i as int + 1),
                    remove@.skip(i as int + 1),
                );
                assert(remove@.take(i as int + 1) + remove@.skip(i as int + 1) =~= remove@);
            }
            return Err(e);
        }
        i += 1;
    }
    proof {
        assert(remove@.take(remove@.len() as int) =~= remove@);
        assert(add@.take(0) =~= Seq::<Pubkey>::empty());
    }
    let ghost b0 = auth@;
    let mut j: usize = 0;
    while j < add.len()
        invariant
            0 <= j <= add@.len(),
            spec_remove_all(a0, remove@) == Ok::<AuthorityView, StakePoolError>(b0),
            add@.len() <= MAX_CREATORS as int,
            remove@.len() <= MAX_CREATORS as int,
            spec_validate_creator_count(a0) is Ok,
            authority == a0.authority,
            spec_add_all(b0, add@.take(j as int)) == Ok::<AuthorityView, StakePoolError>(auth@),
        decreases add@.len() - j,
    {
        let creator = add[j];
        let step = auth.add_creator(creator);
        proof {
            lemma_add_all_push(b0, add@.take(j as int), add@[j as int]);
            assert(add@.take(j as int).push(add@[j as int]) =~= add@.take(j as int + 1));
        }
        if let Err(e) = step {
            proof {
                lemma_add_all_err_extends(b0, add@.take(j as int + 1), add@.skip(j as int + 1));
                assert(add@.take(j as int + 1) + add@.skip(j as int + 1) =~= add@);
            }
            return Err(e);
        }
        j += 1;
    }
    proof {
        assert(add@.take(add@.len() as int) =~= add@);
    }
    Ok(auth)
}

/// What `update_pool`'s reward-rate section does: proposing the current rate
/// cancels any pending change; proposing a different rate requires no change
/// pending and the post-finalize cooldown elapsed, and sets the pending
/// fields.
pub open spec fn spec_propose_rate(pool: StakePool, rate: u64, now: i64) -> Result<
    StakePool,
    StakePoolError,
> {
    if rate > MAX_REWARD_RATE {
        Err(StakePoolError::InvalidParameters)
    } else if rate == pool.reward_rate {
        if pool.pending_reward_rate is Some {
            Ok(
                StakePool {
                    pending_reward_rate: None::<u64>,
                    reward_rate_change_timestamp: None::<i64>,
                    ..pool
                },
            )
        } else {
            Ok(pool)
        }
    } else if pool.pending_reward_rate is Some {
        Err(StakePoolError::PendingRewardRateChangeExists)
    } else {
        let cooldown = match pool.last_rate_change {
            None => Ok(()),
            Some(last_change) => match now.checked_sub(last_change) {
                None => Err(StakePoolError::NumericalOverflow),
                Some(t) => if t < REWARD_RATE_CHANGE_DELAY {
                    Err(StakePoolError::RewardRateChangeDelayNotElapsed)
                } else {
                    Ok(())
                },
            },
        };
        match cooldown {
            Err(e) => Err(e),
            Ok(_) => {
                if now.checked_add(REWARD_RATE_CHANGE_DELAY) is None {
                    Err(StakePoolError::InvalidParameters)
                } else {
                    Ok(
                        StakePool {
                            pending_reward_rate: Some(rate),
                            reward_rate_change_timestamp: Some(now),
                            ..pool
                        },
                    )
                }
            },
        }
    }
}

/// What `update_pool`'s end-date section does: an already-ended pool's date
/// may be shortened or cleared but never extended.
pub open spec fn spec_apply_end_date(pool: StakePool, end_date: Option<i64>, now: i64) -> Result<
    StakePool,
    StakePoolError,
> {
    let blocked = match pool.pool_end_date {
        Some(existing_end) => now >= existing_end && (match end_date {
            Some(new_end) => new_end > existing_end,
            None => false,
        }),
        None => false,
    };
    if blocked {
        Err(StakePoolError::PoolEnded)
    } else {
        Ok(StakePool { pool_end_date: end_date, ..pool })
    }
}

/// What `update_pool` does, as one transition: global-admin gated, each
/// supplied field applied in order, the reward rate routed through the
/// governor (`spec_propose_rate`), never applied directly.
pub open spec fn spec_update_pool(
    pool: StakePool,
    a: AuthorityView,
    admin: Pubkey,
    reward_rate: Option<u64>,
    min_stake_amount: Option<u64>,
    lockup_period: Option<i64>,
    is_paused: Option<bool>,
    enforce_lockup: Option<bool>,
    pool_end_date: Option<Option<i64>>,
    now: i64,
) -> Result<StakePool, StakePoolError> {
    if !spec_is_authorized(a, admin) {
        Err(StakePoolError::Unauthorized)
    } else if spec_validate_current_timestamp(now) is Err {
        Err(StakePoolError::InvalidTimestamp)
    } else {
        let after_rate = match reward_rate {
            Some(rate) => spec_propose_rate(pool, rate, now),
            None => Ok(pool),
        };
        match after_rate {
            Err(e) => Err(e),
            Ok(p1) => {
                let p2 = match min_stake_amount {
                    Some(m) => StakePool { min_stake_amount: m, ..p1 },
                    None => p1,
                };
                let after_lockup = match lockup_period {
                    Some(l) => if l < 0 {
                        Err(StakePoolError::InvalidParameters)
                    } else {
                        Ok(StakePool { lockup_period: l, ..p2 })
                    },
                    None => Ok(p2),
                };
                match after_lockup {
                    Err(e) => Err(e),
                    Ok(p3) => {
                        let p4 = match is_paused {
                            Some(b) => StakePool { is_paused: b, ..p3 },
                            None => p3,
                        };
                        let p5 = match enforce_lockup {
                            Some(b) => StakePool { enforce_lockup: b, ..p4 },
                            None => p4,
                        };
                        match pool_end_date {
                            Some(ed) => spec_apply_end_date(p5, ed, now),
                            None => Ok(p5),
                        }
                    },
                }
            },
        }
    }
}

/// Update a pool's parameters, as a global admin.
///
/// `min_stake_amount`, `lockup_period` (non-negative), `is_paused`,
/// `enforce_lockup` and `pool_end_date` apply immediately; an already-ended
/// pool's end date can only be shortened, never extended. A `reward_rate`
/// never applies directly: proposing a rate different from the current one
/// only records it as pending, to take effect through
/// `finalize_reward_rate_change` after the notice delay, and proposing the
/// current rate again cancels a pending change.
#[verifier::rlimit(50)]
pub fn update_pool(
    pool: &StakePool,
    program_authority: &ProgramAuthority,
    admin: Pubkey,
    reward_rate: Option<u64>,
    min_stake_amount: Option<u64>,
    lockup_period: Option<i64>,
    is_paused: Option<bool>,
    enforce_lockup: Option<bool>,
    pool_end_date: Option<Option<i64>>,
    now: i64,
) -> (r: Result<StakePool, StakePoolError>)
    ensures
        r == spec_update_pool(
            *pool,
            program_authority@,
            admin,
            reward_rate,
            min_stake_amount,
            lockup_period,
            is_paused,
            enforce_lockup,
            pool_end_date,
            now,
        ),
{
    if !program_authority.is_authorized(&admin) {
        return Err(StakePoolError::Unauthorized);
    }
    if let Err(e) = validate_current_timestamp(now) {
        return Err(e);
    }
    let mut pool_data = *pool;
    if let Some(rate) = reward_rate {
        if rate > MAX_REWARD_RATE {
            return Err(StakePoolError::InvalidParameters);
        }
        if rate == pool_data.reward_rate {
            if pool_data.pending_reward_rate.is_some() {
                pool_data.pending_reward_rate = None;
                pool_data.reward_rate_change_timestamp = None;
            }
        } else {
            if pool_data.pending_reward_rate.is_some() {
                return Err(StakePoolError::PendingRewardRateChangeExists);
            }
            if let Some(last_change) = pool_data.last_rate_change {
                let time_since: i64 = match now.checked_sub(last_change) {
                    Some(t) => t,
                    None => {
                        return Err(StakePoolError::NumericalOverflow);
                    },
                };
                if time_since < REWARD_RATE_CHANGE_DELAY {
                    return Err(StakePoolError::RewardRateChangeDelayNotElapsed);
                }
            }
            if now.checked_add(REWARD_RATE_CHANGE_DELAY).is_none() {
                return Err(StakePoolError::InvalidParameters);
            }
            pool_data.pending_reward_rate = Some(rate);
            pool_data.reward_rate_change_timestamp = Some(now);
        }
    }
    if let Some(min_amount) = min_stake_amount {
        pool_data.min_stake_amount = min_amount;
    }
    if let Some(lockup) = lockup_period {
        if lockup < 0 {
            return Err(StakePoolError::InvalidParameters);
        }
        pool_data.lockup_period = lockup;
    }
    if let Some(paused) = is_paused {
        pool_data.is_paused = paused;
    }
    if let Some(enforce) = enforce_lockup {
        pool_data.enforce_lockup = enforce;
    }
    if let Some(end_date) = pool_end_date {
        if let Some(existing_end) = pool_data.pool_end_date {
            if now >= existing_end {
                if let Some(new_end) = end_date {
                    if new_end > existing_end {
                        return Err(StakePoolError::PoolEnded);
                    }
                }
            }
        }
        pool_data.pool_end_date = end_date;
    }
    Ok(pool_data)
}

/// What `finalize_reward_rate_change` does, as one transition.
pub open spec fn spec_finalize_reward_rate_change(pool: StakePool, now: i64) -> Result<
    StakePool,
    StakePoolError,
> {
    if (pool.pending_reward_rate is Some) != (pool.reward_rate_change_timestamp is Some) {
        Err(StakePoolError::DataCorruption)
    } else if pool.pending_reward_rate is None {
        Err(StakePoolError::NoPendingRewardRateChange)
    } else {
        let pending_rate = pool.pending_reward_rate->Some_0;
        let change_timestamp = pool.reward_rate_change_timestamp->Some_0;
        if spec_validate_current_timestamp(now) is Err {
            Err(StakePoolError::InvalidTimestamp)
        } else if spec_validate_stored_timestamp(change_timestamp, now) is Err {
            Err(StakePoolError::InvalidTimestamp)
        } else {
            match now.checked_sub(change_timestamp) {
                None => Err(StakePoolError::NumericalOverflow),
                Some(elapsed) => {
                    if elapsed < REWARD_RATE_CHANGE_DELAY {
                        Err(StakePoolError::RewardRateChangeDelayNotElapsed)
                    } else if pending_rate > MAX_REWARD_RATE {
                        Err(StakePoolError::InvalidParameters)
                    } else {
                        Ok(
                            StakePool {
                                reward_rate: pending_rate,
                                pending_reward_rate: None::<u64>,
                                reward_rate_change_timestamp: None::<i64>,
                                last_rate_change: Some(now),
                                ..pool
                            },
                        )
                    }
                },
            }
        }
    }
}

/// Apply a pending reward rate change once the notice delay has elapsed.
///
/// Callable by anyone, by design, so the authority cannot stall a change it
/// proposed. Out-of-sync pending fields are fatal (`DataCorruption`);
/// nothing pending is `NoPendingRewardRateChange`, which also makes a second
/// call after success fail cleanly with no state change; too early is
/// `RewardRateChangeDelayNotElapsed`. On success the pending rate becomes
/// live, the pending fields clear, and the cooldown clock restarts at `now`.
pub fn finalize_reward_rate_change(pool: &StakePool, now: i64) -> (r: Result<
    StakePool,
    StakePoolError,
>)
    ensures
        r == spec_finalize_reward_rate_change(*pool, now),
{
    if pool.pending_reward_rate.is_some() != pool.reward_rate_change_timestamp.is_some() {
        return Err(StakePoolError::DataCorruption);
    }
    let pending_rate: u64 = match pool.pending_reward_rate {
        Some(p) => p,
        None => {
            return Err(StakePoolError::NoPendingRewardRateChange);
        },
    };
    let change_timestamp: i64 = match pool.reward_rate_change_timestamp {
        Some(t) => t,
        None => {
            return Err(StakePoolError::NoPendingRewardRateChange);
        },
    };
    if let Err(e) = validate_current_timestamp(now) {
        return Err(e);
    }
    if let Err(e) = validate_stored_timestamp(change_timestamp, now) {
        return Err(e);
    }
    let elapsed: i64 = match now.checked_sub(change_timestamp) {
        Some(t) => t,
        None => {
            return Err(StakePoolError::NumericalOverflow);
        },
    };
    if elapsed < REWARD_RATE_CHANGE_DELAY {
        return Err(StakePoolError::RewardRateChangeDelayNotElapsed);
    }
    if pending_rate > MAX_REWARD_RATE {
        return Err(StakePoolError::InvalidParameters);
    }
    Ok(
        StakePool {
            reward_rate: pending_rate,
            pending_reward_rate: None,
            reward_rate_change_timestamp: None,
            last_rate_change: Some(now),
            ..*pool
        },
    )
}

/// What `transfer_program_authority` does.
pub open spec fn spec_transfer_program_authority(
    a: AuthorityView,
    current_authority: Pubkey,
    new_authority: Pubkey,
) -> Result<AuthorityView, StakePoolError> {
    if current_authority != a.authority {
        Err(StakePoolError::AccountMismatch)
    } else if new_authority == a.authority {
        Err(StakePoolError::InvalidParameters)
    } else {
        Ok(AuthorityView { pending_authority: Some(new_authority), ..a })
    }
}

/// Nominate a new global authority (two-step transfer, step one). Only the
/// current authority may nominate, and not itself; the nomination replaces
/// any earlier one and takes effect only when the nominee accepts.
pub fn transfer_program_authority(
    program_authority: ProgramAuthority,
    current_authority: Pubkey,
    new_authority: Pubkey,
) -> (r: Result<ProgramAuthority, StakePoolError>)
    ensures
        match spec_transfer_program_authority(program_authority@, current_authority,
        new_authority) {
            Ok(v) => r is Ok && r->Ok_0@ == v,
            Err(e) => r == Err::<ProgramAuthority, StakePoolError>(e),
        },
{
    if current_authority != program_authority.authority {
        return Err(StakePoolError::AccountMismatch);
    }
    if new_authority == program_authority.authority {
        return Err(StakePoolError::InvalidParameters);
    }
    let updated = ProgramAuthority { pending_authority: Some(new_authority), ..program_authority };
    Ok(updated)
}

/// What `accept_program_authority` does.
pub open spec fn spec_accept_program_authority(a: AuthorityView, signer: Pubkey) -> Result<
    AuthorityView,
    StakePoolError,
> {
    match a.pending_authority {
        None => Err(StakePoolError::NoPendingAuthority),
        Some(pending) => {
            if signer != pending {
                Err(StakePoolError::InvalidPendingAuthority)
            } else {
                Ok(AuthorityView { authority: pending, pending_authority: None::<Pubkey>, ..a })
            }
        },
    }
}

/// Complete a pending authority transfer (two-step transfer, step two).
/// Only the nominee may accept; with nothing pending the call fails
/// `NoPendingAuthority`, and any other signer fails `InvalidPendingAuthority`.
pub fn accept_program_authority(program_authority: ProgramAuthority, signer: Pubkey) -> (r: Result<
    ProgramAuthority,
    StakePoolError,
>)
    ensures
        match spec_accept_program_authority(program_authority@, signer) {
            Ok(v) => r is Ok && r->Ok_0@ == v,
            Err(e) => r == Err::<ProgramAuthority, StakePoolError>(e),
        },
{
    let pending: Pubkey = match program_authority.pending_authority {
        Some(p) => p,
        None => {
            return Err(StakePoolError::NoPendingAuthority);
        },
    };
    if signer != pending {
        return Err(StakePoolError::InvalidPendingAuthority);
    }
    let updated = ProgramAuthority {
        authority: pending,
        pending_authority: None,
        ..program_authority
    };
    Ok(updated)
}

/// What `cancel_authority_transfer` does.
pub open spec fn spec_cancel_authority_transfer(a: AuthorityView, signer: Pubkey) -> Result<
    AuthorityView,
    StakePoolError,
> {
    if signer != a.authority {
        Err(StakePoolError::Unauthorized)
    } else if a.pending_authority is None {
        Err(StakePoolError::NoPendingAuthority)
    } else {
        Ok(AuthorityView { pending_authority: None::<Pubkey>, ..a })
    }
}

/// Withdraw a pending authority nomination before it is accepted. Only the
/// current authority may cancel; with nothing pending the call fails
/// `NoPendingAuthority`.
pub fn cancel_authority_transfer(program_authority: ProgramAuthority, signer: Pubkey) -> (r:
    Result<ProgramAuthority, StakePoolError>)
    ensures
        match spec_cancel_authority_transfer(program_authority@, signer) {
            Ok(v) => r is Ok && r->Ok_0@ == v,
            Err(e) => r == Err::<ProgramAuthority, StakePoolError>(e),
        },
{
    if signer != program_authority.authority {
        return Err(StakePoolError::Unauthorized);
    }
    if program_authority.pending_authority.is_none() {
        return Err(StakePoolError::NoPendingAuthority);
    }
    let updated = ProgramAuthority { pending_authority: None, ..program_authority };
    Ok(updated)
}

/// What `check_authorization` returns.
pub open spec fn spec_check_authorization(a: AuthorityView, address: Pubkey) -> Result<
    (),
    StakePoolError,
> {
    if spec_validate_creator_count(a) is Err {
        Err(StakePoolError::DataCorruption)
    } else if !spec_is_authorized(a, address) {
        Err(StakePoolError::Unauthorized)
    } else {
        Ok(())
    }
}

/// Read-only query: is `address` allowed to create pools? The stored
/// cardinality is cross-checked first, as on every load.
pub fn check_authorization(program_authority: &ProgramAuthority, address: Pubkey) -> (r: Result<
    (),
    StakePoolError,
>)
    ensures
        r == spec_check_authorization(program_authority@, address),
{
    if let Err(_) = program_authority.validate_creator_count() {
        return Err(StakePoolError::DataCorruption);
    }
    if !program_authority.is_authorized(&address) {
        return Err(StakePoolError::Unauthorized);
    }
    Ok(())
}

/// Read out the whitelist: the occupied slots' values, in slot order. As on
/// every load, the stored cardinality is cross-checked first.
#[verifier::loop_isolation(false)]
pub fn get_authorized_creators(program_authority: &ProgramAuthority) -> (r: Result<
    Vec<Pubkey>,
    StakePoolError,
>)
    ensures
        match r {
            Ok(v) => spec_validate_creator_count(program_authority@) is Ok && v@ == somes_values(
                program_authority@.creators,
            ),
            Err(e) => spec_validate_creator_count(program_authority@) is Err && e
                == StakePoolError::DataCorruption,
        },
{
    if let Err(_) = program_authority.validate_creator_count() {
        return Err(StakePoolError::DataCorruption);
    }
    let ghost s = program_authority.authorized_creators@;
    let n: usize = program_authority.authorized_creators.len();
    let mut out: Vec<Pubkey> = Vec::new();
    let mut i: usize = 0;
    proof {
        assert(s.take(0) =~= Seq::<Option<Pubkey>>::empty());
    }
    while i < n
        invariant
            0 <= i <= n,
            out@ == somes_values(s.take(i as int)),
        decreases n - i,
    {
        proof {
            lemma_somes_values_take_step(s, i as int);
        }
        match program_authority.authorized_creators[i] {
            Some(p) => {
                out.push(p);
            },
            None => {},
        }
        i += 1;
    }
    proof {
        assert(s.take(n as int) =~= s);
    }
    Ok(out)
}

/// What `close_program_authority` returns.
pub open spec fn spec_close_program_authority(a: AuthorityView, signer: Pubkey) -> Result<
    (),
    StakePoolError,
> {
    if a.key != Key::ProgramAuthority {
        Err(StakePoolError::InvalidParameters)
    } else if signer != a.authority {
        Err(StakePoolError::Unauthorized)
    } else if a.pending_authority is Some {
        Err(StakePoolError::InvalidParameters)
    } else {
        Ok(())
    }
}

/// Approve tearing down the singleton authority record: only the current
/// authority may do it, and never while a transfer is pending. On `Ok` the
/// caller deletes the record and reclaims its storage.
pub fn close_program_authority(program_authority: &ProgramAuthority, signer: Pubkey) -> (r: Result<
    (),
    StakePoolError,
>)
    ensures
        r == spec_close_program_authority(program_authority@, signer),
{
    if !matches!(program_authority.key, Key::ProgramAuthority) {
        return Err(StakePoolError::InvalidParameters);
    }
    if signer != program_authority.authority {
        return Err(StakePoolError::Unauthorized);
    }
    if program_authority.pending_authority.is_some() {
        return Err(StakePoolError::InvalidParameters);
    }
    Ok(())
}

} // verus!
