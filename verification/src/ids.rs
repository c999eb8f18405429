//! The fixed program and mint identities the conversion routine checks
//! against, as 32-byte addresses.

use vstd::prelude::*;

verus! {

/// Identity of this conversion program itself
/// (base58 `JUPDWNB9G9Hsg8PKynnP6DyWLsXVn4QnqMCqg6n4ZdM`).
pub const PROGRAM_ID: [u8; 32] = [
    4, 121, 213, 249, 202, 214, 86, 109, 225, 197, 59, 200, 2, 76, 158, 100, 37, 66, 86, 57, 168,
    64, 147, 238, 47, 198, 205, 83, 11, 200, 169, 228,
];

/// Identity of the fixed external swap venue
/// (base58 `JUP5jSkuNHeHLoapB97P7MpckomsS4kLSG1Y31VZoLv`).
pub const JUPITER_PROGRAM_ID: [u8; 32] = [
    4, 121, 213, 78, 137, 92, 221, 136, 176, 245, 96, 57, 180, 13, 108, 201, 43, 158, 200, 175,
    214, 77, 127, 183, 205, 13, 23, 104, 40, 145, 119, 187,
];

/// The canonical wrapped-SOL mint
/// (base58 `So11111111111111111111111111111111111111112`).
pub const NATIVE_MINT_ID: [u8; 32] = [
    6, 155, 136, 87, 254, 171, 129, 132, 251, 104, 127, 99, 70, 24, 192, 53, 218, 196, 57, 220,
    26, 235, 59, 85, 152, 160, 240, 0, 0, 0, 0, 1,
];

/// Identity of the token-record program
/// (base58 `TokenkegQfeZyiNwAJbNbGKPFXCWuBvf9Ss623VQ5DA`).
pub const TOKEN_PROGRAM_ID: [u8; 32] = [
    6, 221, 246, 225, 215, 101, 161, 147, 217, 203, 225, 70, 206, 235, 121, 172, 28, 180, 133,
    237, 95, 91, 55, 145, 58, 140, 245, 133, 126, 255, 0, 169,
];

/// Identity of the system (account-management) program: the all-zero address.
pub const SYSTEM_PROGRAM_ID: [u8; 32] = [
    0, 0, 0, 0, 0, 0, 0, 0, 0, 0, 0, 0, 0, 0, 0, 0, 0, 0, 0, 0, 0, 0, 0, 0, 0, 0, 0, 0, 0, 0, 0,
    0,
];

/// The external swap venue as a typed identity.
pub struct Jupiter;

impl Jupiter {
    /// The fixed program identity of the external swap venue.
    pub fn id() -> (r: [u8; 32])
        ensures
            r@ == JUPITER_PROGRAM_ID@,
    {
        JUPITER_PROGRAM_ID
    }
}

/// Relies on `spl_token::native_mint::id()`: the wrapped-SOL mint identity
/// declared there is the base58 address `So11111111111111111111111111111111111111112`,
/// whose bytes are `NATIVE_MINT_ID`.
#[verifier::external_body]
pub(crate) fn native_mint_id_bytes() -> (r: [u8; 32])
    ensures
        r@ == NATIVE_MINT_ID@,
{
    #[allow(deprecated)]
    spl_token::native_mint::id().to_bytes()
}

/// Relies on `spl_token::id()`: the token program identity declared there is
/// the base58 address `TokenkegQfeZyiNwAJbNbGKPFXCWuBvf9Ss623VQ5DA`, whose
/// bytes are `TOKEN_PROGRAM_ID`.
#[verifier::external_body]
pub(crate) fn token_program_id_bytes() -> (r: [u8; 32])
    ensures
        r@ == TOKEN_PROGRAM_ID@,
{
    spl_token::id().to_bytes()
}

/// Byte-for-byte equality of two 32-byte addresses.
pub fn addr_eq(a: &[u8; 32], b: &[u8; 32]) -> (r: bool)
    ensures
        r == (a@ == b@),
{
    let mut i: usize = 0;
    while i < 32
        invariant
            0 <= i <= 32,
            forall|j: int| 0 <= j < i ==> a@[j] == b@[j],
        decreases 32 - i,
    {
        if a[i] != b[i] {
            return false;
        }
        i = i + 1;
    }
    proof {
        assert(a@ =~= b@);
    }
    true
}

} // verus!
