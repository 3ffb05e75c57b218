use vstd::prelude::*;

use spl_token_2022::extension::{BaseStateWithExtensions, ExtensionType, StateWithExtensions};
use spl_token_2022::state::{Account as TokenAccount, Mint};

use crate::error::StakePoolError;
use crate::pubkey::Pubkey;

verus! {

/// Minimum valid Unix timestamp (Jan 1, 2021). Timestamps before this
/// indicate clock misconfiguration or corrupted stored data.
pub const MIN_VALID_TIMESTAMP: i64 = 1609459200;

/// What `validate_current_timestamp` returns.
pub open spec fn spec_validate_current_timestamp(timestamp: i64) -> Result<(), StakePoolError> {
    if timestamp < MIN_VALID_TIMESTAMP {
        Err(StakePoolError::InvalidTimestamp)
    } else {
        Ok(())
    }
}

/// What `validate_stored_timestamp` returns.
pub open spec fn spec_validate_stored_timestamp(stored: i64, current: i64) -> Result<
    (),
    StakePoolError,
> {
    if stored < MIN_VALID_TIMESTAMP {
        Err(StakePoolError::InvalidTimestamp)
    } else if stored > current {
        Err(StakePoolError::InvalidTimestamp)
    } else {
        Ok(())
    }
}

/// Validate a timestamp read from the external time source: reject anything
/// before the epoch sentinel as `InvalidTimestamp`.
pub fn validate_current_timestamp(timestamp: i64) -> (r: Result<(), StakePoolError>)
    ensures
        r == spec_validate_current_timestamp(timestamp),
{
    if timestamp < MIN_VALID_TIMESTAMP {
        return Err(StakePoolError::InvalidTimestamp);
    }
    Ok(())
}

/// Validate a stored historical timestamp: reject one before the epoch
/// sentinel (data corruption) or newer than "now" (clock manipulation).
pub fn validate_stored_timestamp(stored: i64, current: i64) -> (r: Result<(), StakePoolError>)
    ensures
        r == spec_validate_stored_timestamp(stored, current),
{
    if stored < MIN_VALID_TIMESTAMP {
        return Err(StakePoolError::InvalidTimestamp);
    }
    if stored > current {
        return Err(StakePoolError::InvalidTimestamp);
    }
    Ok(())
}

/// Validate a stored timestamp that is allowed to lie in the future, such as
/// a pool's end date: only the epoch sentinel is enforced.
pub fn validate_future_allowed_timestamp(stored: i64) -> (r: Result<(), StakePoolError>)
    ensures
        r == spec_validate_current_timestamp(stored),
{
    if stored < MIN_VALID_TIMESTAMP {
        return Err(StakePoolError::InvalidTimestamp);
    }
    Ok(())
}

/// One capability of an external token asset, read from its mint record.
/// The dangerous ones can break the ledger's invariants and are rejected at
/// pool creation; a fee on transfer is permitted because every transfer
/// reports the actually-delivered amount.
#[derive(Clone, Copy, Debug, PartialEq, Eq, Structural)]
pub enum TokenCapability {
    /// Custom logic runs on every transfer; it could block withdrawals.
    TransferHook,
    /// A third party may forcibly move tokens out of any account.
    PermanentDelegate,
    /// The mint itself can be closed, stranding every holder.
    MintCloseAuthority,
    /// New accounts may start frozen, blocking token movement.
    DefaultAccountState,
    /// Transfers deduct a fee; supported, since delivered amounts are booked.
    TransferFee,
    /// Any other capability; harmless to this ledger.
    Other,
}

/// What this ledger reads from an external mint record.
#[derive(Clone, Debug, PartialEq)]
pub struct MintInfo {
    /// Decimal places of the asset.
    pub decimals: u8,
    /// Whether some authority can freeze holders' accounts.
    pub has_freeze_authority: bool,
    /// The capabilities the mint carries.
    pub capabilities: Vec<TokenCapability>,
}

/// What this ledger reads from an external token-holding account record.
#[derive(Clone, Copy, Debug, PartialEq)]
pub struct TokenAccountInfo {
    /// The asset the account holds.
    pub mint: Pubkey,
    /// The principal that controls the account.
    pub owner: Pubkey,
    /// The current balance.
    pub amount: u64,
}

/// The mint record encoded in a byte string, if it parses: the result of
/// `spl_token_2022`'s mint unpacking, a function of the bytes alone.
pub uninterp spec fn spec_unpack_mint(data: Seq<u8>) -> Option<MintInfo>;

/// The token-account record encoded in a byte string, if it parses: the
/// result of `spl_token_2022`'s account unpacking, a function of the bytes
/// alone.
pub uninterp spec fn spec_unpack_token_account(data: Seq<u8>) -> Option<TokenAccountInfo>;

/// Relies on `spl_token_2022`'s `StateWithExtensions::<Mint>::unpack` and
/// `get_extension_types`: parses a mint record (legacy or with extensions)
/// into its decimals, freeze authority flag and extension set.
#[verifier::external_body]
fn unpack_mint(data: &[u8]) -> (r: Result<MintInfo, StakePoolError>)
    ensures
        match r {
            Ok(m) => spec_unpack_mint(data@) == Some(m),
            Err(e) => spec_unpack_mint(data@) == None::<MintInfo> && e
                == StakePoolError::InvalidTokenProgram,
        },
{
    let state = StateWithExtensions::<Mint>::unpack(data).map_err(|_| StakePoolError::InvalidTokenProgram)?;
    let exts = state.get_extension_types().map_err(|_| StakePoolError::InvalidTokenProgram)?;
    let capabilities = exts.iter().map(|e| match e {
        ExtensionType::TransferHook => TokenCapability::TransferHook,
        ExtensionType::PermanentDelegate => TokenCapability::PermanentDelegate,
        ExtensionType::MintCloseAuthority => TokenCapability::MintCloseAuthority,
        ExtensionType::DefaultAccountState => TokenCapability::DefaultAccountState,
        ExtensionType::TransferFeeConfig => TokenCapability::TransferFee,
        _ => TokenCapability::Other,
    }).collect();
    let has_freeze_authority = state.base.freeze_authority.is_some();
    Ok(MintInfo { decimals: state.base.decimals, has_freeze_authority, capabilities })
}

/// Relies on `spl_token_2022`'s `StateWithExtensions::<Account>::unpack`:
/// parses a token-account record into its mint, owner and balance.
#[verifier::external_body]
fn unpack_token_account(data: &[u8]) -> (r: Result<TokenAccountInfo, StakePoolError>)
    ensures
        match r {
            Ok(a) => spec_unpack_token_account(data@) == Some(a),
            Err(e) => spec_unpack_token_account(data@) == None::<TokenAccountInfo> && e
                == StakePoolError::InvalidTokenProgram,
        },
{
    let state = StateWithExtensions::<TokenAccount>::unpack(data).map_err(|_| StakePoolError::InvalidTokenProgram)?;
    Ok(TokenAccountInfo {
        mint: Pubkey { bytes: state.base.mint.to_bytes() },
        owner: Pubkey { bytes: state.base.owner.to_bytes() },
        amount: state.base.amount,
    })
}

/// Whether a capability is on the fixed denylist: any of these breaks the
/// ledger's custody or accounting assumptions.
pub open spec fn is_dangerous_capability(c: TokenCapability) -> bool {
    ||| c == TokenCapability::TransferHook
    ||| c == TokenCapability::PermanentDelegate
    ||| c == TokenCapability::MintCloseAuthority
    ||| c == TokenCapability::DefaultAccountState
}

/// What `validate_token_extensions` returns: `Ok` exactly when the bytes
/// parse as a mint and none of its capabilities is on the denylist.
pub open spec fn spec_validate_token_extensions(data: Seq<u8>) -> Result<(), StakePoolError> {
    match spec_unpack_mint(data) {
        None => Err(StakePoolError::InvalidTokenProgram),
        Some(m) => {
            if exists|i: int|
                0 <= i < m.capabilities@.len() && is_dangerous_capability(m.capabilities@[i]) {
                Err(StakePoolError::UnsafeTokenExtension)
            } else {
                Ok(())
            }
        },
    }
}

/// Reject a mint that carries any dangerous capability: a transfer hook, a
/// permanent delegate, a closable mint, or a forced-frozen default state.
pub fn validate_token_extensions(mint_data: &[u8]) -> (r: Result<(), StakePoolError>)
    ensures
        r == spec_validate_token_extensions(mint_data@),
{
    let mint = match unpack_mint(mint_data) {
        Ok(m) => m,
        Err(e) => {
            return Err(e);
        },
    };
    let n: usize = mint.capabilities.len();
    let mut i: usize = 0;
    while i < n
        invariant
            0 <= i <= n,
            n == mint.capabilities@.len(),
            spec_unpack_mint(mint_data@) == Some(mint),
            forall|j: int| 0 <= j < i ==> !is_dangerous_capability(mint.capabilities@[j]),
        decreases n - i,
    {
        let dangerous = match mint.capabilities[i] {
            TokenCapability::TransferHook => true,
            TokenCapability::PermanentDelegate => true,
            TokenCapability::MintCloseAuthority => true,
            TokenCapability::DefaultAccountState => true,
            TokenCapability::TransferFee => false,
            TokenCapability::Other => false,
        };
        if dangerous {
            proof {
                let m = spec_unpack_mint(mint_data@)->Some_0;
                assert(m == mint);
                assert(is_dangerous_capability(m.capabilities@[i as int]));
                assert(exists|j: int|
                    0 <= j < m.capabilities@.len() && is_dangerous_capability(m.capabilities@[j]));
            }
            return Err(StakePoolError::UnsafeTokenExtension);
        }
        i += 1;
    }
    Ok(())
}

/// What `validate_no_freeze_authority` returns.
pub open spec fn spec_validate_no_freeze_authority(data: Seq<u8>) -> Result<(), StakePoolError> {
    match spec_unpack_mint(data) {
        None => Err(StakePoolError::InvalidTokenProgram),
        Some(m) => {
            if m.has_freeze_authority {
                Err(StakePoolError::MintHasFreezeAuthority)
            } else {
                Ok(())
            }
        },
    }
}

/// Reject a mint whose freeze authority is set: its holder could freeze the
/// vaults or any depositor's account and lock funds permanently.
pub fn validate_no_freeze_authority(mint_data: &[u8]) -> (r: Result<(), StakePoolError>)
    ensures
        r == spec_validate_no_freeze_authority(mint_data@),
{
    let mint = match unpack_mint(mint_data) {
        Ok(m) => m,
        Err(e) => {
            return Err(e);
        },
    };
    if mint.has_freeze_authority {
        return Err(StakePoolError::MintHasFreezeAuthority);
    }
    Ok(())
}

/// What `verify_token_account` returns.
pub open spec fn spec_verify_token_account(
    data: Seq<u8>,
    expected_mint: Pubkey,
    mint_data: Option<Seq<u8>>,
) -> Result<(), StakePoolError> {
    match spec_unpack_token_account(data) {
        None => Err(StakePoolError::InvalidTokenProgram),
        Some(a) => {
            if a.mint != expected_mint {
                Err(StakePoolError::InvalidMint)
            } else {
                match mint_data {
                    None => Ok(()),
                    Some(md) => spec_validate_token_extensions(md),
                }
            }
        },
    }
}

/// Verify that a token account belongs to the expected mint; when the mint
/// record is supplied too (at pool creation), also vet its capabilities.
pub fn verify_token_account(
    token_account_data: &[u8],
    expected_mint: &Pubkey,
    mint_data: Option<&[u8]>,
) -> (r: Result<(), StakePoolError>)
    ensures
        r == spec_verify_token_account(
            token_account_data@,
            *expected_mint,
            match mint_data {
                Some(md) => Some(md@),
                None => None::<Seq<u8>>,
            },
        ),
{
    let account = match unpack_token_account(token_account_data) {
        Ok(a) => a,
        Err(e) => {
            return Err(e);
        },
    };
    if account.mint != *expected_mint {
        return Err(StakePoolError::InvalidMint);
    }
    match mint_data {
        None => Ok(()),
        Some(md) => validate_token_extensions(md),
    }
}

/// What `verify_vault_ownership` returns.
pub open spec fn spec_verify_vault_ownership(data: Seq<u8>, expected_owner: Pubkey) -> Result<
    (),
    StakePoolError,
> {
    match spec_unpack_token_account(data) {
        None => Err(StakePoolError::InvalidTokenProgram),
        Some(a) => {
            if a.owner != expected_owner {
                Err(StakePoolError::InvalidVaultOwner)
            } else {
                Ok(())
            }
        },
    }
}

/// Verify that a vault is owned by the pool's own controlling identity, not
/// an arbitrary party that could drain deposits.
pub fn verify_vault_ownership(token_account_data: &[u8], expected_owner: &Pubkey) -> (r: Result<
    (),
    StakePoolError,
>)
    ensures
        r == spec_verify_vault_ownership(token_account_data@, *expected_owner),
{
    let account = match unpack_token_account(token_account_data) {
        Ok(a) => a,
        Err(e) => {
            return Err(e);
        },
    };
    if account.owner != *expected_owner {
        return Err(StakePoolError::InvalidVaultOwner);
    }
    Ok(())
}

/// What `get_token_account_balance` returns.
pub open spec fn spec_token_account_balance(data: Seq<u8>) -> Result<u64, StakePoolError> {
    match spec_unpack_token_account(data) {
        None => Err(StakePoolError::InvalidTokenProgram),
        Some(a) => Ok(a.amount),
    }
}

/// Read the live balance out of a token account record.
pub fn get_token_account_balance(token_account_data: &[u8]) -> (r: Result<u64, StakePoolError>)
    ensures
        r == spec_token_account_balance(token_account_data@),
{
    let account = match unpack_token_account(token_account_data) {
        Ok(a) => a,
        Err(e) => {
            return Err(e);
        },
    };
    Ok(account.amount)
}

} // verus!
