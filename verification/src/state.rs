use vstd::prelude::*;

use crate::constants::REWARD_SCALE;
use crate::error::StakePoolError;
use crate::pubkey::Pubkey;

verus! {

/// Record discriminator: tells the kinds of stored records apart.
/// The variant order is part of the stable storage interface.
#[derive(Clone, Copy, Debug, PartialEq, Eq, Structural)]
pub enum Key {
    Uninitialized,
    StakePool,
    StakeAccount,
    ProgramAuthority,
}

/// The maximum number of entries in the authorized-creator whitelist.
pub const MAX_CREATORS: usize = 10;

/// The main stake pool configuration: the economic parameters of one
/// staking offering, its aggregate counters, and the pending state of the
/// time-locked reward rate governor.
#[derive(Clone, Copy, Debug, PartialEq)]
pub struct StakePool {
    pub key: Key,
    /// The asset being staked.
    pub stake_mint: Pubkey,
    /// The asset rewards are paid in.
    pub reward_mint: Pubkey,
    /// Unique identifier that allows multiple pools for the same stake asset.
    pub pool_id: u64,
    /// The pool's stake token vault.
    pub stake_vault: Pubkey,
    /// The pool's reward token vault.
    pub reward_vault: Pubkey,
    /// Total amount staked in the pool.
    pub total_staked: u64,
    /// Total rewards owed to all stakers (prevents over-allocation).
    pub total_rewards_owed: u64,
    /// Fixed reward rate scaled by 1e9 (100_000_000 means 10% after lockup).
    pub reward_rate: u64,
    /// Minimum stake amount.
    pub min_stake_amount: u64,
    /// Lockup period in seconds before any reward is earned.
    pub lockup_period: i64,
    /// Whether the pool is paused (no new stakes).
    pub is_paused: bool,
    /// Whether to enforce the lockup period (prevent early withdrawals).
    pub enforce_lockup: bool,
    /// Optional pool end date; no new stakes at or after this time.
    pub pool_end_date: Option<i64>,
    /// Pending reward rate change, applied by `finalize_reward_rate_change`
    /// after the notice delay. Always in sync with
    /// `reward_rate_change_timestamp`: both `Some` or both `None`.
    pub pending_reward_rate: Option<u64>,
    /// When the pending reward rate change was proposed.
    pub reward_rate_change_timestamp: Option<i64>,
    /// When the last rate change was finalized; enforces the cooldown before
    /// the next proposal.
    pub last_rate_change: Option<i64>,
}

/// One deposit: an independently timed stake made by an owner into a pool.
#[derive(Clone, Copy, Debug, PartialEq)]
pub struct StakeAccount {
    pub key: Key,
    /// The stake pool this deposit belongs to.
    pub pool: Pubkey,
    /// The owner of this deposit.
    pub owner: Pubkey,
    /// The index of this deposit (0, 1, 2, ...); each index is one record.
    pub index: u64,
    /// Amount currently staked.
    pub amount_staked: u64,
    /// When the deposit was made; starts this deposit's lockup clock.
    pub stake_timestamp: i64,
    /// Rewards already paid out for this deposit.
    pub claimed_rewards: u64,
}

/// The reward a deposit of `amount_staked` has earned once its lockup is
/// complete: `floor(amount_staked * reward_rate / REWARD_SCALE)`, as an
/// unbounded integer.
pub open spec fn full_reward(amount_staked: u64, reward_rate: u64) -> int {
    (amount_staked as int) * (reward_rate as int) / (REWARD_SCALE as int)
}

/// What `StakePool::calculate_rewards` returns.
///
/// Binary reward model: zero before the lockup completes, the full reward
/// after. Negative or rolled-back elapsed time counts as lockup-incomplete.
pub open spec fn spec_calculate_rewards(
    pool: StakePool,
    amount_staked: u64,
    stake_timestamp: i64,
    current_time: i64,
) -> Result<u64, StakePoolError> {
    match current_time.checked_sub(stake_timestamp) {
        None => Err(StakePoolError::NumericalOverflow),
        Some(elapsed) => {
            if elapsed < pool.lockup_period {
                Ok(0u64)
            } else if full_reward(amount_staked, pool.reward_rate) > u64::MAX as int {
                Err(StakePoolError::NumericalOverflow)
            } else {
                Ok(full_reward(amount_staked, pool.reward_rate) as u64)
            }
        },
    }
}

/// What `StakePool::verify_solvency` returns: `Ok` exactly when the live
/// reward vault balance covers every committed reward.
pub open spec fn spec_verify_solvency(pool: StakePool, reward_vault_balance: u64) -> Result<
    (),
    StakePoolError,
> {
    if reward_vault_balance < pool.total_rewards_owed {
        Err(StakePoolError::InsufficientRewards)
    } else {
        Ok(())
    }
}

/// The product of two `u64` values always fits in a `u128`.
pub proof fn lemma_u64_mul_fits_u128(a: u64, b: u64)
    ensures
        0 <= (a as int) * (b as int) <= u128::MAX as int,
{
    assert((a as int) * (b as int) <= (u64::MAX as int) * (u64::MAX as int)) by (nonlinear_arith)
        requires
            0 <= a <= u64::MAX,
            0 <= b <= u64::MAX,
    ;
    assert((a as int) * (b as int) >= 0) by (nonlinear_arith)
        requires
            a >= 0,
            b >= 0,
    ;
}

impl StakePool {
    /// Compute the reward owed for a stake under the binary reward model:
    /// zero if the lockup is incomplete (including negative elapsed time),
    /// otherwise `floor(amount_staked * reward_rate / REWARD_SCALE)`.
    /// A result that does not fit in a `u64` is `NumericalOverflow`.
    pub fn calculate_rewards(
        &self,
        amount_staked: u64,
        stake_timestamp: i64,
        current_time: i64,
    ) -> (r: Result<u64, StakePoolError>)
        ensures
            r == spec_calculate_rewards(*self, amount_staked, stake_timestamp, current_time),
    {
        let elapsed: i64 = match current_time.checked_sub(stake_timestamp) {
            Some(e) => e,
            None => {
                return Err(StakePoolError::NumericalOverflow);
            },
        };
        if elapsed < self.lockup_period {
            return Ok(0);
        }
        proof {
            lemma_u64_mul_fits_u128(amount_staked, self.reward_rate);
        }
        let product: u128 = (amount_staked as u128) * (self.reward_rate as u128);
        let rewards: u128 = product / REWARD_SCALE;
        if rewards > u64::MAX as u128 {
            return Err(StakePoolError::NumericalOverflow);
        }
        Ok(rewards as u64)
    }

    /// Check that the reward vault can cover every committed reward:
    /// `InsufficientRewards` when `reward_vault_balance < total_rewards_owed`.
    pub fn verify_solvency(&self, reward_vault_balance: u64) -> (r: Result<(), StakePoolError>)
        ensures
            r == spec_verify_solvency(*self, reward_vault_balance),
    {
        if reward_vault_balance < self.total_rewards_owed {
            return Err(StakePoolError::InsufficientRewards);
        }
        Ok(())
    }
}

/// The singleton whitelist of principals allowed to create pools, plus the
/// two-step admin-transfer state machine.
///
/// The slot list always has exactly `MAX_CREATORS` entries; `creator_count`
/// is a redundant cardinality that is cross-checked against the slots on
/// every load, and a mismatch is fatal (`DataCorruption`), never repaired.
#[derive(Clone, Debug, PartialEq)]
pub struct ProgramAuthority {
    pub key: Key,
    /// The main authority; always authorized, never itself a listed creator.
    pub authority: Pubkey,
    /// The fixed-capacity creator whitelist; kept compact (all occupied
    /// slots before all empty ones) by `remove_creator`.
    pub authorized_creators: Vec<Option<Pubkey>>,
    /// Redundant count of occupied slots.
    pub creator_count: u8,
    /// Nominee of a pending two-step authority transfer.
    pub pending_authority: Option<Pubkey>,
}

/// The mathematical content of a `ProgramAuthority` record.
#[verifier::ext_equal]
pub ghost struct AuthorityView {
    pub key: Key,
    pub authority: Pubkey,
    pub creators: Seq<Option<Pubkey>>,
    pub creator_count: u8,
    pub pending_authority: Option<Pubkey>,
}

impl View for ProgramAuthority {
    type V = AuthorityView;

    open spec fn view(&self) -> AuthorityView {
        AuthorityView {
            key: self.key,
            authority: self.authority,
            creators: self.authorized_creators@,
            creator_count: self.creator_count,
            pending_authority: self.pending_authority,
        }
    }
}

/// Whether `c` occupies some slot of the whitelist.
pub open spec fn has_creator(s: Seq<Option<Pubkey>>, c: Pubkey) -> bool {
    exists|i: int| 0 <= i < s.len() && s[i] == Some(c)
}

/// The values of the occupied slots, in slot order.
pub open spec fn somes_values(s: Seq<Option<Pubkey>>) -> Seq<Pubkey>
    decreases s.len(),
{
    if s.len() == 0 {
        Seq::empty()
    } else {
        match s.last() {
            Some(p) => somes_values(s.drop_last()).push(p),
            None => somes_values(s.drop_last()),
        }
    }
}

/// A sequence of `n` empty slots.
pub open spec fn nones(n: nat) -> Seq<Option<Pubkey>> {
    Seq::new(n, |i: int| None::<Pubkey>)
}

/// Each value wrapped back into an occupied slot.
pub open spec fn options_of(q: Seq<Pubkey>) -> Seq<Option<Pubkey>> {
    Seq::new(q.len(), |i: int| Some(q[i]))
}

/// The slot list with every occupied slot moved to the front, order kept.
pub open spec fn compact_seq(s: Seq<Option<Pubkey>>) -> Seq<Option<Pubkey>> {
    options_of(somes_values(s)) + nones((s.len() - somes_values(s).len()) as nat)
}

/// The index of the first empty slot, or `s.len()` if every slot is full.
pub open spec fn first_none(s: Seq<Option<Pubkey>>) -> int
    decreases s.len(),
{
    if s.len() == 0 {
        0
    } else if s[0] is None {
        0
    } else {
        1 + first_none(s.drop_first())
    }
}

/// The index of the first slot holding `Some(c)`, or `s.len()` if none does.
pub open spec fn first_match(s: Seq<Option<Pubkey>>, c: Pubkey) -> int
    decreases s.len(),
{
    if s.len() == 0 {
        0
    } else if s[0] == Some(c) {
        0
    } else {
        1 + first_match(s.drop_first(), c)
    }
}

pub proof fn lemma_somes_values_len(s: Seq<Option<Pubkey>>)
    ensures
        somes_values(s).len() <= s.len(),
    decreases s.len(),
{
    if s.len() > 0 {
        lemma_somes_values_len(s.drop_last());
    }
}

/// Extending a prefix by one slot extends its occupied values accordingly.
pub proof fn lemma_somes_values_take_step(s: Seq<Option<Pubkey>>, i: int)
    requires
        0 <= i < s.len(),
    ensures
        somes_values(s.take(i + 1)) == match s[i] {
            Some(p) => somes_values(s.take(i)).push(p),
            None => somes_values(s.take(i)),
        },
{
    let t = s.take(i + 1);
    assert(t.drop_last() =~= s.take(i));
    assert(t.last() == s[i]);
}

pub proof fn lemma_first_none_at(s: Seq<Option<Pubkey>>, i: int)
    requires
        0 <= i <= s.len(),
        forall|j: int| 0 <= j < i ==> s[j] is Some,
        i < s.len() ==> s[i] is None,
    ensures
        first_none(s) == i,
    decreases i,
{
    if s.len() == 0 {
    } else if i == 0 {
    } else {
        assert(forall|j: int| 0 <= j < i - 1 ==> s.drop_first()[j] is Some);
        lemma_first_none_at(s.drop_first(), i - 1);
    }
}

pub proof fn lemma_first_match_at(s: Seq<Option<Pubkey>>, c: Pubkey, i: int)
    requires
        0 <= i <= s.len(),
        forall|j: int| 0 <= j < i ==> s[j] != Some(c),
        i < s.len() ==> s[i] == Some(c),
    ensures
        first_match(s, c) == i,
    decreases i,
{
    if s.len() == 0 {
    } else if i == 0 {
    } else {
        assert(forall|j: int| 0 <= j < i - 1 ==> s.drop_first()[j] != Some(c));
        lemma_first_match_at(s.drop_first(), c, i - 1);
    }
}

/// Whether `p` may create pools: the admin itself, or any listed creator.
pub open spec fn spec_is_authorized(a: AuthorityView, p: Pubkey) -> bool {
    p == a.authority || has_creator(a.creators, p)
}

/// What `validate_creator_count` returns: `Ok` exactly when the stored
/// cardinality equals the number of occupied slots.
pub open spec fn spec_validate_creator_count(a: AuthorityView) -> Result<(), StakePoolError> {
    if somes_values(a.creators).len() == a.creator_count as int {
        Ok(())
    } else {
        Err(StakePoolError::DataCorruption)
    }
}

/// What `add_creator` does: reject the admin itself, duplicates, and
/// additions past capacity; otherwise fill the first empty slot.
pub open spec fn spec_add_creator(a: AuthorityView, c: Pubkey) -> Result<
    AuthorityView,
    StakePoolError,
> {
    if c == a.authority {
        Err(StakePoolError::InvalidParameters)
    } else if has_creator(a.creators, c) {
        Err(StakePoolError::CreatorAlreadyAuthorized)
    } else if first_none(a.creators) < a.creators.len() {
        if a.creator_count == u8::MAX {
            Err(StakePoolError::NumericalOverflow)
        } else {
            Ok(
                AuthorityView {
                    creators: a.creators.update(first_none(a.creators), Some(c)),
                    creator_count: (a.creator_count + 1) as u8,
                    ..a
                },
            )
        }
    } else {
        Err(StakePoolError::MaxAuthorizedCreatorsReached)
    }
}

/// What `remove_creator` does: reject removing the admin or an absent
/// entry; otherwise clear the first matching slot and compact.
pub open spec fn spec_remove_creator(a: AuthorityView, c: Pubkey) -> Result<
    AuthorityView,
    StakePoolError,
> {
    if c == a.authority {
        Err(StakePoolError::CannotRemoveMainAuthority)
    } else if !has_creator(a.creators, c) {
        Err(StakePoolError::CreatorNotFound)
    } else if a.creator_count == 0 {
        Err(StakePoolError::NumericalOverflow)
    } else {
        Ok(
            AuthorityView {
                creators: compact_seq(a.creators.update(first_match(a.creators, c), None)),
                creator_count: (a.creator_count - 1) as u8,
                ..a
            },
        )
    }
}

impl ProgramAuthority {
    /// A fresh authority record: the given admin, an empty whitelist, no
    /// pending transfer.
    pub fn new(authority: Pubkey) -> (r: ProgramAuthority)
        ensures
            r@ == (AuthorityView {
                key: Key::ProgramAuthority,
                authority: authority,
                creators: nones(MAX_CREATORS as nat),
                creator_count: 0u8,
                pending_authority: None::<Pubkey>,
            }),
    {
        let r = ProgramAuthority {
            key: Key::ProgramAuthority,
            authority,
            authorized_creators: vec![None; MAX_CREATORS],
            creator_count: 0,
            pending_authority: None,
        };
        proof {
            assert(r.authorized_creators@ =~= nones(MAX_CREATORS as nat));
            assert(r@ =~= (AuthorityView {
                key: Key::ProgramAuthority,
                authority: authority,
                creators: nones(MAX_CREATORS as nat),
                creator_count: 0u8,
                pending_authority: None::<Pubkey>,
            }));
        }
        r
    }

    /// Whether `pubkey` is authorized to create pools: the main authority
    /// always is, and so is every listed creator.
    pub fn is_authorized(&self, pubkey: &Pubkey) -> (r: bool)
        ensures
            r == spec_is_authorized(self@, *pubkey),
    {
        if *pubkey == self.authority {
            return true;
        }
        let n: usize = self.authorized_creators.len();
        let mut i: usize = 0;
        while i < n
            invariant
                0 <= i <= n,
                n == self.authorized_creators@.len(),
                forall|j: int| 0 <= j < i ==> self.authorized_creators@[j] != Some(*pubkey),
            decreases n - i,
        {
            match self.authorized_creators[i] {
                Some(authorized) => {
                    if authorized == *pubkey {
                        return true;
                    }
                },
                None => {},
            }
            i += 1;
        }
        false
    }

    /// Cross-check the redundant cardinality against the occupied slots.
    /// A mismatch is data corruption and is never auto-repaired.
    pub fn validate_creator_count(&self) -> (r: Result<(), StakePoolError>)
        ensures
            r == spec_validate_creator_count(self@),
    {
        let ghost s = self.authorized_creators@;
        let n: usize = self.authorized_creators.len();
        let mut actual: usize = 0;
        let mut i: usize = 0;
        proof {
            assert(s.take(0) =~= Seq::<Option<Pubkey>>::empty());
        }
        while i < n
            invariant
                0 <= i <= n,
                n == s.len(),
                s == self.authorized_creators@,
                actual as int == somes_values(s.take(i as int)).len(),
                actual <= i,
            decreases n - i,
        {
            proof {
                lemma_somes_values_take_step(s, i as int);
            }
            if self.authorized_creators[i].is_some() {
                actual += 1;
            }
            i += 1;
        }
        proof {
            assert(s.take(n as int) =~= s);
        }
        if actual as u64 != self.creator_count as u64 {
            return Err(StakePoolError::DataCorruption);
        }
        Ok(())
    }

    /// Add a new authorized creator into the first empty slot.
    pub fn add_creator(&mut self, creator: Pubkey) -> (r: Result<(), StakePoolError>)
        ensures
            match spec_add_creator(old(self)@, creator) {
                Ok(v) => r is Ok && final(self)@ == v,
                Err(e) => r == Err::<(), StakePoolError>(e) && final(self)@ == old(self)@,
            },
    {
        if creator == self.authority {
            return Err(StakePoolError::InvalidParameters);
        }
        let ghost s = self.authorized_creators@;
        let n: usize = self.authorized_creators.len();
        let mut i: usize = 0;
        while i < n
            invariant
                0 <= i <= n,
                n == s.len(),
                *self == *old(self),
                s == self.authorized_creators@,
                creator != old(self).authority,
                forall|j: int| 0 <= j < i ==> s[j] != Some(creator),
            decreases n - i,
        {
            match self.authorized_creators[i] {
                Some(authorized) => {
                    if authorized == creator {
                        proof {
                            assert(s[i as int] == Some(creator));
                        }
                        return Err(StakePoolError::CreatorAlreadyAuthorized);
                    }
                },
                None => {},
            }
            i += 1;
        }
        let mut slot: usize = 0;
        while slot < n
            invariant
                0 <= slot <= n,
                n == s.len(),
                *self == *old(self),
                s == self.authorized_creators@,
                creator != old(self).authority,
                forall|j: int| 0 <= j < s.len() ==> s[j] != Some(creator),
                forall|j: int| 0 <= j < slot ==> s[j] is Some,
            decreases n - slot,
        {
            if self.authorized_creators[slot].is_none() {
                proof {
                    lemma_first_none_at(s, slot as int);
                }
                if self.creator_count == u8::MAX {
                    return Err(StakePoolError::NumericalOverflow);
                }
                self.authorized_creators[slot] = Some(creator);
                self.creator_count = self.creator_count + 1;
                return Ok(());
            }
            slot += 1;
        }
        proof {
            lemma_first_none_at(s, n as int);
        }
        Err(StakePoolError::MaxAuthorizedCreatorsReached)
    }

    /// Move every occupied slot to the front, keeping their order, so the
    /// whitelist stays dense after removals.
    fn compact_creators(&mut self)
        ensures
            final(self)@ == (AuthorityView {
                creators: compact_seq(old(self)@.creators),
                ..old(self)@
            }),
    {
        let ghost s = self.authorized_creators@;
        let n: usize = self.authorized_creators.len();
        let mut kept: Vec<Option<Pubkey>> = Vec::new();
        let mut i: usize = 0;
        proof {
            assert(s.take(0) =~= Seq::<Option<Pubkey>>::empty());
            assert(kept@ =~= options_of(somes_values(s.take(0))));
        }
        while i < n
            invariant
                0 <= i <= n,
                n == s.len(),
                *self == *old(self),
                s == self.authorized_creators@,
                kept@ == options_of(somes_values(s.take(i as int))),
                kept@.len() == somes_values(s.take(i as int)).len(),
            decreases n - i,
        {
            proof {
                lemma_somes_values_take_step(s, i as int);
            }
            match self.authorized_creators[i] {
                Some(p) => {
                    kept.push(Some(p));
                    proof {
                        assert(kept@ =~= options_of(somes_values(s.take(i as int + 1))));
                    }
                },
                None => {},
            }
            i += 1;
        }
        proof {
            assert(s.take(n as int) =~= s);
            lemma_somes_values_len(s);
        }
        while kept.len() < n
            invariant
                n == s.len(),
                *self == *old(self),
                s == self.authorized_creators@,
                somes_values(s).len() <= kept@.len() <= n,
                kept@.take(somes_values(s).len() as int) == options_of(somes_values(s)),
                forall|j: int| somes_values(s).len() <= j < kept@.len() ==> kept@[j] is None,
            decreases n - kept.len(),
        {
            kept.push(None);
        }
        proof {
            assert(kept@ =~= compact_seq(s));
        }
        self.authorized_creators = kept;
    }

    /// Remove an authorized creator: clears its slot and compacts the list.
    pub fn remove_creator(&mut self, creator: &Pubkey) -> (r: Result<(), StakePoolError>)
        ensures
            match spec_remove_creator(old(self)@, *creator) {
                Ok(v) => r is Ok && final(self)@ == v,
                Err(e) => r == Err::<(), StakePoolError>(e) && final(self)@ == old(self)@,
            },
    {
        if *creator == self.authority {
            return Err(StakePoolError::CannotRemoveMainAuthority);
        }
        let ghost s = self.authorized_creators@;
        let n: usize = self.authorized_creators.len();
        let mut i: usize = 0;
        while i < n
            invariant
                0 <= i <= n,
                n == s.len(),
                *self == *old(self),
                s == self.authorized_creators@,
                *creator != old(self).authority,
                forall|j: int| 0 <= j < i ==> s[j] != Some(*creator),
            decreases n - i,
        {
            match self.authorized_creators[i] {
                Some(authorized) => {
                    if authorized == *creator {
                        proof {
                            assert(s[i as int] == Some(*creator));
                            lemma_first_match_at(s, *creator, i as int);
                        }
                        if self.creator_count == 0 {
                            return Err(StakePoolError::NumericalOverflow);
                        }
                        self.authorized_creators[i] = None;
                        self.creator_count = self.creator_count - 1;
                        self.compact_creators();
                        return Ok(());
                    }
                },
                None => {},
            }
            i += 1;
        }
        Err(StakePoolError::CreatorNotFound)
    }
}

} // verus!
