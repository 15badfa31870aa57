//! Account checks and checked arithmetic on balances.

use crate::account::AccountInfo;
use crate::error::{ProgramError, OVERFLOW, UNDERFLOW};
use crate::pubkey::Pubkey;
use vstd::prelude::*;

verus! {

/// The largest slippage, in percent, at which a trade is still accepted.
pub const MAX_SLIPPAGE_PERCENT: u64 = 5;

/// Accepts the account if `expected_owner` owns it, and rejects it as
/// `IncorrectProgramId` otherwise.
pub fn check_account_owner(account: &AccountInfo, expected_owner: &Pubkey) -> (res: Result<
    (),
    ProgramError,
>)
    ensures
        res == if account.owner == *expected_owner {
            Ok::<(), ProgramError>(())
        } else {
            Err(ProgramError::IncorrectProgramId)
        },
{
    if account.owner != *expected_owner {
        return Err(ProgramError::IncorrectProgramId);
    }
    Ok(())
}

/// `a + b`, or the custom error `OVERFLOW` where the sum does not fit.
pub fn safe_add(a: u64, b: u64) -> (res: Result<u64, ProgramError>)
    ensures
        res == if a + b <= u64::MAX {
            Ok::<u64, ProgramError>((a + b) as u64)
        } else {
            Err(ProgramError::Custom(OVERFLOW))
        },
{
    match a.checked_add(b) {
        Some(sum) => Ok(sum),
        None => Err(ProgramError::Custom(OVERFLOW)),
    }
}

/// `a - b`, or the custom error `UNDERFLOW` where `b` is the larger.
pub fn safe_sub(a: u64, b: u64) -> (res: Result<u64, ProgramError>)
    ensures
        res == if b <= a {
            Ok::<u64, ProgramError>((a - b) as u64)
        } else {
            Err(ProgramError::Custom(UNDERFLOW))
        },
{
    match a.checked_sub(b) {
        Some(difference) => Ok(difference),
        None => Err(ProgramError::Custom(UNDERFLOW)),
    }
}

/// `amount` as a whole percentage of `pool_size`, rounded down, and capped at
/// the largest 64-bit value. Meaningful for a `pool_size` above zero.
pub open spec fn slippage_ratio(amount: u64, pool_size: u64) -> u64
    recommends
        pool_size > 0,
{
    let percent = (amount * 100) / (pool_size as int);
    if percent > u64::MAX {
        u64::MAX
    } else {
        percent as u64
    }
}

/// The slippage of trading `amount` against a pool of `pool_size`, in percent.
/// An empty pool has no ratio: it is rejected as `InvalidArgument`.
pub fn calculate_slippage(amount: u64, pool_size: u64) -> (res: Result<u64, ProgramError>)
    ensures
        res == if pool_size == 0 {
            Err::<u64, ProgramError>(ProgramError::InvalidArgument)
        } else {
            Ok(slippage_ratio(amount, pool_size))
        },
{
    if pool_size == 0 {
        return Err(ProgramError::InvalidArgument);
    }
    let percent: u128 = (amount as u128 * 100) / (pool_size as u128);
    if percent > u64::MAX as u128 {
        Ok(u64::MAX)
    } else {
        Ok(percent as u64)
    }
}

/// A trade is over the slippage ceiling exactly when a hundred times its
/// amount reaches six times the pool size.
pub proof fn lemma_slippage_ceiling(amount: u64, pool_size: u64)
    requires
        pool_size > 0,
    ensures
        slippage_ratio(amount, pool_size) > MAX_SLIPPAGE_PERCENT <==> amount * 100 >= 6 * pool_size,
{
    let percent = (amount * 100) / (pool_size as int);
    assert(percent >= 6 <==> amount * 100 >= 6 * pool_size) by (nonlinear_arith)
        requires
            pool_size > 0,
            percent == (amount * 100) / (pool_size as int),
    ;
}

/// The size against which slippage is measured: the number of bytes of the
/// pool account's data, not the balance the pool declares.
pub fn legacy_slippage_denominator(pool: &AccountInfo) -> (size: u64)
    ensures
        size == pool@.data.len(),
{
    pool.data.len() as u64
}

/// Accepts the account if its key signed the request, and rejects it as
/// `MissingRequiredSignature` otherwise.
pub fn check_signer(account: &AccountInfo) -> (res: Result<(), ProgramError>)
    ensures
        res == if account.is_signer {
            Ok::<(), ProgramError>(())
        } else {
            Err(ProgramError::MissingRequiredSignature)
        },
{
    if !account.is_signer {
        return Err(ProgramError::MissingRequiredSignature);
    }
    Ok(())
}

/// Accepts the account if its address is `expected_key`, and rejects it as
/// `InvalidAccountData` otherwise.
pub fn check_account_key(account: &AccountInfo, expected_key: &Pubkey) -> (res: Result<
    (),
    ProgramError,
>)
    ensures
        res == if account.key == *expected_key {
            Ok::<(), ProgramError>(())
        } else {
            Err(ProgramError::InvalidAccountData)
        },
{
    if account.key != *expected_key {
        return Err(ProgramError::InvalidAccountData);
    }
    Ok(())
}

} // verus!
