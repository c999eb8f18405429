//! Atomic conversion of an arbitrary token into native SOL.
//!
//! The library models the decision logic of a single indivisible conversion
//! transaction: idempotent provisioning of a wrapped-SOL holding account
//! owned by a derived program authority, delegation of the swap itself to a
//! fixed external venue, settlement accounting from the holding account's
//! balance delta, teardown of the holding account, and disbursement of the
//! settled amount to the requesting party.

use vstd::prelude::*;

pub mod error;
pub mod ids;
pub mod pda;
pub mod provision;
pub mod record;
pub mod settle;
pub mod swap;
pub mod transaction;

verus! {

/// Seed label from which the program's signing authority address is derived
/// (the ASCII bytes of "authority").
pub const AUTHORITY_SEED: [u8; 9] = [97, 117, 116, 104, 111, 114, 105, 116, 121];

/// Seed label from which the wrapped-SOL holding account address is derived
/// (the ASCII bytes of "wsol").
pub const WSOL_SEED: [u8; 4] = [119, 115, 111, 108];

} // verus!
