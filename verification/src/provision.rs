//! Idempotent provisioning of the wrapped-SOL holding account.
//!
//! The holding account is the intermediate record that temporarily holds
//! swap proceeds. At transaction start it is either absent (the common
//! case) or left over, initialized, from a failed earlier attempt. The
//! provisioner creates and initializes it when absent, and otherwise
//! validates that its declared owner is the derived authority, failing with
//! an ownership-mismatch error when a third party pre-created the address.

use vstd::prelude::*;

use crate::error::{ConvertError, ErrorCode};
use crate::ids::addr_eq;
use crate::record::{
    record_amount, record_mint, record_owner, token_record_parses, unpack_token_record,
    TokenRecord,
};

verus! {

/// The wrapped-SOL holding account as the transaction finds it: absent, or
/// allocated with a native balance and record bytes.
pub enum HoldingAccount {
    /// No storage is allocated at the holding address.
    Absent,
    /// Storage is allocated: the account's native balance in lamports and
    /// its raw record bytes.
    Present { lamports: u64, data: Vec<u8> },
}

/// What provisioning established: whether the record was newly created and
/// initialized, and the record itself.
#[derive(Clone, Copy, Debug, PartialEq, Eq)]
pub struct ProvisionedHolding {
    /// True when the account was absent and has been created and
    /// initialized; false when an existing record was reused.
    pub created: bool,
    /// The holding account's record after provisioning.
    pub record: TokenRecord,
}

/// The provisioner's decision, as a function of the holding account's state,
/// the derived authority and the native mint: `(created, owner, mint,
/// amount)` of the resulting record, or the error that aborts the
/// transaction.
pub open spec fn provision_spec(
    holding: HoldingAccount,
    authority: Seq<u8>,
    mint: Seq<u8>,
) -> Result<(bool, Seq<u8>, Seq<u8>, int), ConvertError> {
    match holding {
        HoldingAccount::Absent => Ok((true, authority, mint, 0)),
        HoldingAccount::Present { lamports: _, data } => {
            if !token_record_parses(data@) {
                Err(ConvertError::MalformedHoldingAccount)
            } else if record_owner(data@) != authority {
                Err(ConvertError::Program(ErrorCode::IncorrectOwner))
            } else {
                Ok((false, record_owner(data@), record_mint(data@), record_amount(data@)))
            }
        },
    }
}

/// Ensure a valid holding account record exists and is owned by the derived
/// authority: create and initialize one bound to the native mint when the
/// address has no storage, otherwise reuse the existing record after
/// checking its owner.
pub fn create_wsol_token_idempotent(
    holding: &HoldingAccount,
    program_authority: &[u8; 32],
    sol_mint: &[u8; 32],
) -> (r: Result<ProvisionedHolding, ConvertError>)
    ensures
        r matches Ok(p) ==> provision_spec(*holding, program_authority@, sol_mint@) matches Ok(q)
            && p.created == q.0 && p.record.owner@ == q.1 && p.record.mint@ == q.2
            && p.record.amount == q.3,
        r matches Err(e) ==> provision_spec(*holding, program_authority@, sol_mint@) == Err::<
            (bool, Seq<u8>, Seq<u8>, int),
            ConvertError,
        >(e),
{
    match holding {
        HoldingAccount::Absent => Ok(
            ProvisionedHolding {
                created: true,
                record: TokenRecord { mint: *sol_mint, owner: *program_authority, amount: 0 },
            },
        ),
        HoldingAccount::Present { lamports: _, data } => {
            match unpack_token_record(data) {
                None => Err(ConvertError::MalformedHoldingAccount),
                Some(record) => {
                    if !addr_eq(&record.owner, program_authority) {
                        Err(ConvertError::Program(ErrorCode::IncorrectOwner))
                    } else {
                        Ok(ProvisionedHolding { created: false, record })
                    }
                },
            }
        },
    }
}

/// Idempotent provisioning: a first call that finds the holding account
/// absent creates a record owned by the derived authority; a second call
/// that then sees an allocated, well-formed record owned by that same
/// authority reuses it without re-creating, and reports the same owner.
pub proof fn lemma_provisioning_idempotent(
    first: HoldingAccount,
    second: HoldingAccount,
    authority: Seq<u8>,
    mint: Seq<u8>,
)
    requires
        first is Absent,
        second matches HoldingAccount::Present { lamports: _, data } && token_record_parses(data@)
            && record_owner(data@) == authority,
    ensures
        provision_spec(first, authority, mint) matches Ok(p) && p.0 == true && p.1 == authority,
        provision_spec(second, authority, mint) matches Ok(q) && q.0 == false && q.1 == authority,
{
}

} // verus!
