//! Ownership guard.

use crate::account::AccountInfo;
use crate::error::ProgramError;
use crate::pubkey::Pubkey;
use vstd::prelude::*;

verus! {

/// Accepts the account if `expected_owner` owns it, and rejects it as
/// `IllegalOwner` otherwise.
pub fn assert_owner(account: &AccountInfo, expected_owner: &Pubkey) -> (res: Result<
    (),
    ProgramError,
>)
    ensures
        res == if account.owner == *expected_owner {
            Ok::<(), ProgramError>(())
        } else {
            Err(ProgramError::IllegalOwner)
        },
{
    if account.owner != *expected_owner {
        Err(ProgramError::IllegalOwner)
    } else {
        Ok(())
    }
}

} // verus!
