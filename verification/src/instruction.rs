use vstd::prelude::*;

use crate::pubkey::Pubkey;

verus! {

/// The stable operation surface of the ledger: one variant per operation a
/// caller can submit. The host decodes a request into this, loads the
/// records the operation names, and calls the matching function under
/// `processor`.
#[derive(Clone, Debug, PartialEq)]
pub enum StakePoolInstruction {
    /// Create a staking pool (authorized creators only).
    InitializePool {
        /// Distinguishes multiple pools for the same stake asset.
        pool_id: u64,
        reward_rate: u64,
        min_stake_amount: u64,
        lockup_period: i64,
        /// Whether early withdrawals are refused rather than penalized.
        enforce_lockup: bool,
        /// No new stakes at or after this time, if set.
        pool_end_date: Option<i64>,
    },
    /// Deposit into a pool; each deposit is its own record with its own
    /// lockup clock, addressed by `index`.
    Stake {
        amount: u64,
        index: u64,
        /// Frontrunning guard: abort if the live rate differs.
        expected_reward_rate: Option<u64>,
        /// Frontrunning guard: abort if the live lockup differs.
        expected_lockup_period: Option<i64>,
    },
    /// Withdraw from a deposit, forfeiting unclaimed rewards pro rata.
    Unstake { amount: u64, expected_reward_rate: Option<u64> },
    /// Pay out a deposit's unclaimed reward.
    ClaimRewards,
    /// Update pool settings (global admins only); a reward rate change only
    /// becomes pending, to be finalized after the notice delay.
    UpdatePool {
        reward_rate: Option<u64>,
        min_stake_amount: Option<u64>,
        lockup_period: Option<i64>,
        is_paused: Option<bool>,
        enforce_lockup: Option<bool>,
        pool_end_date: Option<Option<i64>>,
    },
    /// Top up the reward vault (permissionless).
    FundRewards { amount: u64 },
    /// Close a fully withdrawn deposit record and reclaim its storage.
    CloseStakeAccount,
    /// Apply a pending reward rate change after the delay (permissionless).
    FinalizeRewardRateChange,
    /// One-time creation of the singleton authority record.
    InitializeProgramAuthority,
    /// Add and remove authorized pool creators (main authority only).
    ManageAuthorizedCreators { add: Vec<Pubkey>, remove: Vec<Pubkey> },
    /// Nominate a new global authority (two-step transfer, step one).
    TransferProgramAuthority,
    /// Accept a pending authority transfer (step two, nominee only).
    AcceptProgramAuthority,
    /// Read-only: list the authorized creators.
    GetAuthorizedCreators,
    /// Read-only: is this address allowed to create pools?
    CheckAuthorization { address: Pubkey },
    /// Withdraw a pending authority nomination (main authority only).
    CancelAuthorityTransfer,
}

} // verus!
