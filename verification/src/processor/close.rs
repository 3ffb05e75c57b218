use vstd::prelude::*;

use crate::error::StakePoolError;
use crate::pubkey::Pubkey;
use crate::state::StakeAccount;

verus! {

/// What `close_stake_account` returns.
pub open spec fn spec_close_stake_account(stake_account: StakeAccount, owner: Pubkey) -> Result<
    (),
    StakePoolError,
> {
    if owner != stake_account.owner {
        Err(StakePoolError::AccountMismatch)
    } else if stake_account.amount_staked != 0 {
        Err(StakePoolError::ExpectedEmptyAccount)
    } else {
        Ok(())
    }
}

/// Approve closing a deposit record: only its owner may close it, and only
/// once the deposit is fully withdrawn (`amount_staked == 0`). On `Ok` the
/// caller deletes the record and reclaims its storage to a receiver the
/// owner chose.
pub fn close_stake_account(stake_account: &StakeAccount, owner: Pubkey) -> (r: Result<
    (),
    StakePoolError,
>)
    ensures
        r == spec_close_stake_account(*stake_account, owner),
{
    if owner != stake_account.owner {
        return Err(StakePoolError::AccountMismatch);
    }
    if stake_account.amount_staked != 0 {
        return Err(StakePoolError::ExpectedEmptyAccount);
    }
    Ok(())
}

} // verus!
