//! Derived (non-keyholder) addresses.
//!
//! A derived authority is an address deterministically computed from a fixed
//! seed label and the program's own identity, chosen so that it has no
//! corresponding private key. The derivation is a pure function of the seed
//! and the program identity, so any observer can re-derive it.

use vstd::prelude::*;

verus! {

/// What the host ledger's address derivation returns for a single seed and a
/// program identity: the derived 32-byte address and its bump discriminator,
/// or nothing in the statistically improbable event that no bump works.
/// The result is a function of the seed and program identity alone.
pub uninterp spec fn derived_address(seed: Seq<u8>, program: Seq<u8>) -> Option<(Seq<u8>, u8)>;

/// Relies on `solana_pubkey::Pubkey::try_find_program_address` with a single
/// seed: the derived address and bump depend only on the seed bytes and the
/// program identity, and the derived address is 32 bytes long.
#[verifier::external_body]
pub(crate) fn try_find_derived_address<const N: usize>(seed: &[u8; N], program: &[u8; 32]) -> (r:
    Option<([u8; 32], u8)>)
    ensures
        r is Some <==> derived_address(seed@, program@) is Some,
        r matches Some(p) ==> derived_address(seed@, program@) matches Some(q) && p.0@ == q.0
            && p.1 == q.1,
{
    let program_key = solana_pubkey::Pubkey::new_from_array(*program);
    solana_pubkey::Pubkey::try_find_program_address(&[&seed[..]], &program_key)
        .map(|(address, bump)| (address.to_bytes(), bump))
}

} // verus!
