use vstd::prelude::*;

verus! {

/// Every failure an operation of this ledger can report.
///
/// Each error aborts the whole in-flight operation with no partial state
/// change. The variant order is part of the stable interface: the numeric
/// code of a variant is its position.
#[derive(Clone, Copy, Debug, PartialEq, Eq, Structural)]
pub enum StakePoolError {
    /// 0 - Error deserializing an account
    DeserializationError,
    /// 1 - Error serializing an account
    SerializationError,
    /// 2 - Invalid program owner
    InvalidProgramOwner,
    /// 3 - Invalid PDA derivation
    InvalidPda,
    /// 4 - Expected empty account
    ExpectedEmptyAccount,
    /// 5 - Expected non empty account
    ExpectedNonEmptyAccount,
    /// 6 - Expected signer account
    ExpectedSignerAccount,
    /// 7 - Expected writable account
    ExpectedWritableAccount,
    /// 8 - Account mismatch
    AccountMismatch,
    /// 9 - Invalid account key
    InvalidAccountKey,
    /// 10 - Numerical overflow
    NumericalOverflow,
    /// 11 - Pool is paused
    PoolPaused,
    /// 12 - Amount below minimum stake
    AmountBelowMinimum,
    /// 13 - Insufficient staked balance
    InsufficientStakedBalance,
    /// 14 - Lockup period not expired
    LockupNotExpired,
    /// 15 - Insufficient rewards in pool
    InsufficientRewards,
    /// 16 - Unauthorized
    Unauthorized,
    /// 17 - Invalid token program
    InvalidTokenProgram,
    /// 18 - Invalid mint
    InvalidMint,
    /// 19 - Invalid account discriminator
    InvalidAccountDiscriminator,
    /// 20 - Pool parameters changed (frontrunning protection)
    PoolParametersChanged,
    /// 21 - No pending authority transfer
    NoPendingAuthority,
    /// 22 - Invalid pending authority
    InvalidPendingAuthority,
    /// 23 - Pool has ended (no new stakes allowed)
    PoolEnded,
    /// 24 - Invalid parameters
    InvalidParameters,
    /// 25 - Invalid vault owner (vault must be owned by the pool's own identity)
    InvalidVaultOwner,
    /// 26 - Unsafe token extension detected
    UnsafeTokenExtension,
    /// 27 - Unexpected token balance change during transfer
    UnexpectedBalanceChange,
    /// 28 - Mint has freeze authority (can lock user funds)
    MintHasFreezeAuthority,
    /// 29 - Reward rate change delay not elapsed
    RewardRateChangeDelayNotElapsed,
    /// 30 - No pending reward rate change
    NoPendingRewardRateChange,
    /// 31 - Pending reward rate change already exists
    PendingRewardRateChangeExists,
    /// 32 - Invalid timestamp
    InvalidTimestamp,
    /// 33 - Data corruption detected (state invariant violated)
    DataCorruption,
    /// 34 - Account size too small for serialized data
    AccountSizeTooSmall,
    /// 35 - Unauthorized pool creator
    UnauthorizedPoolCreator,
    /// 36 - Creator already authorized
    CreatorAlreadyAuthorized,
    /// 37 - Maximum number of authorized creators reached
    MaxAuthorizedCreatorsReached,
    /// 38 - Cannot remove main authority from authorized creators
    CannotRemoveMainAuthority,
    /// 39 - Creator not found in authorized list
    CreatorNotFound,
}

impl StakePoolError {
    /// The human-readable description of this error.
    pub fn message(&self) -> (r: &'static str)
        ensures r@ == self.spec_message(),
    {
        match self {
            StakePoolError::DeserializationError => "Error deserializing an account",
            StakePoolError::SerializationError => "Error serializing an account",
            StakePoolError::InvalidProgramOwner => "Invalid program owner",
            StakePoolError::InvalidPda => "Invalid PDA derivation",
            StakePoolError::ExpectedEmptyAccount => "Expected empty account",
            StakePoolError::ExpectedNonEmptyAccount => "Expected non empty account",
            StakePoolError::ExpectedSignerAccount => "Expected signer account",
            StakePoolError::ExpectedWritableAccount => "Expected writable account",
            StakePoolError::AccountMismatch => "Account mismatch",
            StakePoolError::InvalidAccountKey => "Invalid account key",
            StakePoolError::NumericalOverflow => "Numerical overflow",
            StakePoolError::PoolPaused => "Pool is paused",
            StakePoolError::AmountBelowMinimum => "Amount below minimum stake",
            StakePoolError::InsufficientStakedBalance => "Insufficient staked balance",
            StakePoolError::LockupNotExpired => "Lockup period not expired",
            StakePoolError::InsufficientRewards => "Insufficient rewards in pool",
            StakePoolError::Unauthorized => "Unauthorized",
            StakePoolError::InvalidTokenProgram => "Invalid token program",
            StakePoolError::InvalidMint => "Invalid mint",
            StakePoolError::InvalidAccountDiscriminator => "Invalid account discriminator",
            StakePoolError::PoolParametersChanged => "Pool parameters changed (frontrunning protection)",
            StakePoolError::NoPendingAuthority => "No pending authority transfer",
            StakePoolError::InvalidPendingAuthority => "Invalid pending authority",
            StakePoolError::PoolEnded => "Pool has ended (no new stakes allowed)",
            StakePoolError::InvalidParameters => "Invalid parameters",
            StakePoolError::InvalidVaultOwner => "Invalid vault owner (vault must be owned by pool PDA)",
            StakePoolError::UnsafeTokenExtension => "Unsafe Token-2022 extension detected",
            StakePoolError::UnexpectedBalanceChange => "Unexpected token balance change during transfer",
            StakePoolError::MintHasFreezeAuthority => "Mint has freeze authority (can lock user funds)",
            StakePoolError::RewardRateChangeDelayNotElapsed => "Reward rate change delay not elapsed",
            StakePoolError::NoPendingRewardRateChange => "No pending reward rate change",
            StakePoolError::PendingRewardRateChangeExists => "Pending reward rate change already exists",
            StakePoolError::InvalidTimestamp => "Invalid timestamp",
            StakePoolError::DataCorruption => "Data corruption detected (state invariant violated)",
            StakePoolError::AccountSizeTooSmall => "Account size too small for serialized data",
            StakePoolError::UnauthorizedPoolCreator => "Unauthorized pool creator",
            StakePoolError::CreatorAlreadyAuthorized => "Creator already authorized",
            StakePoolError::MaxAuthorizedCreatorsReached => "Maximum number of authorized creators reached",
            StakePoolError::CannotRemoveMainAuthority => "Cannot remove main authority from authorized creators",
            StakePoolError::CreatorNotFound => "Creator not found in authorized list",
        }
    }

    /// What `message` returns, as a sequence of characters.
    pub open spec fn spec_message(&self) -> Seq<char> {
        match self {
            StakePoolError::DeserializationError => "Error deserializing an account"@,
            StakePoolError::SerializationError => "Error serializing an account"@,
            StakePoolError::InvalidProgramOwner => "Invalid program owner"@,
            StakePoolError::InvalidPda => "Invalid PDA derivation"@,
            StakePoolError::ExpectedEmptyAccount => "Expected empty account"@,
            StakePoolError::ExpectedNonEmptyAccount => "Expected non empty account"@,
            StakePoolError::ExpectedSignerAccount => "Expected signer account"@,
            StakePoolError::ExpectedWritableAccount => "Expected writable account"@,
            StakePoolError::AccountMismatch => "Account mismatch"@,
            StakePoolError::InvalidAccountKey => "Invalid account key"@,
            StakePoolError::NumericalOverflow => "Numerical overflow"@,
            StakePoolError::PoolPaused => "Pool is paused"@,
            StakePoolError::AmountBelowMinimum => "Amount below minimum stake"@,
            StakePoolError::InsufficientStakedBalance => "Insufficient staked balance"@,
            StakePoolError::LockupNotExpired => "Lockup period not expired"@,
            StakePoolError::InsufficientRewards => "Insufficient rewards in pool"@,
            StakePoolError::Unauthorized => "Unauthorized"@,
            StakePoolError::InvalidTokenProgram => "Invalid token program"@,
            StakePoolError::InvalidMint => "Invalid mint"@,
            StakePoolError::InvalidAccountDiscriminator => "Invalid account discriminator"@,
            StakePoolError::PoolParametersChanged => "Pool parameters changed (frontrunning protection)"@,
            StakePoolError::NoPendingAuthority => "No pending authority transfer"@,
            StakePoolError::InvalidPendingAuthority => "Invalid pending authority"@,
            StakePoolError::PoolEnded => "Pool has ended (no new stakes allowed)"@,
            StakePoolError::InvalidParameters => "Invalid parameters"@,
            StakePoolError::InvalidVaultOwner => "Invalid vault owner (vault must be owned by pool PDA)"@,
            StakePoolError::UnsafeTokenExtension => "Unsafe Token-2022 extension detected"@,
            StakePoolError::UnexpectedBalanceChange => "Unexpected token balance change during transfer"@,
            StakePoolError::MintHasFreezeAuthority => "Mint has freeze authority (can lock user funds)"@,
            StakePoolError::RewardRateChangeDelayNotElapsed => "Reward rate change delay not elapsed"@,
            StakePoolError::NoPendingRewardRateChange => "No pending reward rate change"@,
            StakePoolError::PendingRewardRateChangeExists => "Pending reward rate change already exists"@,
            StakePoolError::InvalidTimestamp => "Invalid timestamp"@,
            StakePoolError::DataCorruption => "Data corruption detected (state invariant violated)"@,
            StakePoolError::AccountSizeTooSmall => "Account size too small for serialized data"@,
            StakePoolError::UnauthorizedPoolCreator => "Unauthorized pool creator"@,
            StakePoolError::CreatorAlreadyAuthorized => "Creator already authorized"@,
            StakePoolError::MaxAuthorizedCreatorsReached => "Maximum number of authorized creators reached"@,
            StakePoolError::CannotRemoveMainAuthority => "Cannot remove main authority from authorized creators"@,
            StakePoolError::CreatorNotFound => "Creator not found in authorized list"@,
        }
    }
}

} // verus!
