//! Settlement accounting.
//!
//! The swap's output is observed as the holding account's balance delta:
//! the balance captured right after the delegated call, minus the
//! rent-exempt reserve the account was provisioned with. The reserve is
//! retained by the derived authority during teardown and is never paid out.

use vstd::prelude::*;

use crate::error::{ConvertError, ErrorCode};

verus! {

/// The settlement amount owed to the requester: the holding account's
/// balance captured immediately before teardown, minus the rent-exempt
/// reserve. A balance below the reserve means the venue's observable output
/// is invalid, and the transaction aborts rather than underflow.
pub fn settle(after_swap_lamports: u64, rent_exempt_reserve: u64) -> (r: Result<u64, ConvertError>)
    ensures
        after_swap_lamports >= rent_exempt_reserve ==> (r matches Ok(amount) && amount
            == after_swap_lamports - rent_exempt_reserve),
        after_swap_lamports < rent_exempt_reserve ==> (r matches Err(e) && e
            == ConvertError::Program(ErrorCode::InvalidReturnData)),
{
    if after_swap_lamports < rent_exempt_reserve {
        Err(ConvertError::Program(ErrorCode::InvalidReturnData))
    } else {
        Ok(after_swap_lamports - rent_exempt_reserve)
    }
}

} // verus!
