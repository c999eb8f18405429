//! Delegation of the swap to the external venue.
//!
//! The swap payload is an opaque byte sequence plus an ordered,
//! caller-supplied account list. The core does not interpret it beyond two
//! boundary checks: the sub-call target must be the fixed venue identity,
//! and the payload must start with the venue's known route instruction
//! discriminator, so the payload cannot be aimed at an unrelated
//! instruction of the venue program. What passes is forwarded verbatim,
//! with no additional signing authority attached.

use vstd::prelude::*;

use crate::error::{ConvertError, ErrorCode};
use crate::ids::{addr_eq, Jupiter, JUPITER_PROGRAM_ID};

verus! {

/// One account reference of the forwarded list, with its signer and
/// writability flags.
#[derive(Clone, Copy, Debug, PartialEq, Eq)]
pub struct AccountMeta {
    /// The referenced address.
    pub pubkey: [u8; 32],
    /// Whether the account must sign the sub-call.
    pub is_signer: bool,
    /// Whether the sub-call may mutate the account.
    pub is_writable: bool,
}

/// The delegated sub-call as it is handed to the host runtime.
pub struct SwapCall {
    /// The program the sub-call targets.
    pub program_id: [u8; 32],
    /// The forwarded account list, unmodified.
    pub accounts: Vec<AccountMeta>,
    /// The forwarded payload, unmodified.
    pub data: Vec<u8>,
    /// Whether the derived authority's derivation proof is attached as a
    /// signature. The swap is forwarded with no extra signing authority,
    /// so this is always false.
    pub authority_signs: bool,
}

/// The first bytes of the venue's route instruction: the discriminator a
/// forwarded payload must start with.
pub const ROUTE_DISCRIMINATOR: [u8; 8] = [229, 23, 203, 151, 122, 227, 173, 42];

/// The payload invokes the venue's route instruction: it is at least 8
/// bytes and starts with the route discriminator.
pub open spec fn payload_is_route(data: Seq<u8>) -> bool {
    data.len() >= 8 && data.subrange(0, 8) == ROUTE_DISCRIMINATOR@
}

/// Whether the payload starts with the route discriminator.
fn check_route_discriminator(data: &Vec<u8>) -> (r: bool)
    ensures
        r == payload_is_route(data@),
{
    if data.len() < 8 {
        proof {
            assert(!payload_is_route(data@));
        }
        return false;
    }
    let mut i: usize = 0;
    while i < 8
        invariant
            0 <= i <= 8,
            data@.len() >= 8,
            forall|j: int| 0 <= j < i ==> data@[j] == ROUTE_DISCRIMINATOR@[j],
        decreases 8 - i,
    {
        if data[i] != ROUTE_DISCRIMINATOR[i] {
            proof {
                assert(data@.subrange(0, 8)[i as int] != ROUTE_DISCRIMINATOR@[i as int]);
            }
            return false;
        }
        i = i + 1;
    }
    proof {
        assert(data@.subrange(0, 8) =~= ROUTE_DISCRIMINATOR@);
    }
    true
}

/// Build the delegated swap sub-call: verify the venue identity and the
/// route discriminator, then pass the account list and payload through
/// untouched, with an empty signer set.
pub fn swap_on_jupiter(
    jupiter_program: &[u8; 32],
    remaining_accounts: &Vec<AccountMeta>,
    data: Vec<u8>,
) -> (r: Result<SwapCall, ConvertError>)
    ensures
        r matches Ok(call) ==> jupiter_program@ == JUPITER_PROGRAM_ID@ && payload_is_route(data@)
            && call.program_id@ == JUPITER_PROGRAM_ID@ && call.accounts@ == remaining_accounts@
            && call.data@ == data@ && call.authority_signs == false,
        r matches Err(e) ==> e == ConvertError::Program(ErrorCode::InvalidSwapVenue) && (
        jupiter_program@ != JUPITER_PROGRAM_ID@ || !payload_is_route(data@)),
        r is Ok <==> (jupiter_program@ == JUPITER_PROGRAM_ID@ && payload_is_route(data@)),
{
    let venue = Jupiter::id();
    if !addr_eq(jupiter_program, &venue) {
        return Err(ConvertError::Program(ErrorCode::InvalidSwapVenue));
    }
    if !check_route_discriminator(&data) {
        return Err(ConvertError::Program(ErrorCode::InvalidSwapVenue));
    }
    let mut accounts: Vec<AccountMeta> = Vec::new();
    let mut i: usize = 0;
    while i < remaining_accounts.len()
        invariant
            0 <= i <= remaining_accounts@.len(),
            accounts@.len() == i,
            forall|j: int| 0 <= j < i ==> accounts@[j] == remaining_accounts@[j],
        decreases remaining_accounts@.len() - i,
    {
        accounts.push(remaining_accounts[i]);
        i = i + 1;
    }
    proof {
        assert(accounts@ =~= remaining_accounts@);
    }
    Ok(SwapCall { program_id: venue, accounts, data, authority_signs: false })
}

} // verus!
