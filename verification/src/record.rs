//! The token-account record held by the wrapped-SOL holding account.
//!
//! On the host ledger such a record is a fixed 165-byte layout: the mint at
//! bytes 0..32, the owner at bytes 32..64, the token amount little-endian at
//! bytes 64..72, then a delegate option (tag at 72..76), a one-byte account
//! state at 108, a native-reserve option (tag at 109..113), a delegated
//! amount, and a close-authority option (tag at 129..133).

use spl_token::solana_program::program_pack::Pack;
use vstd::prelude::*;

verus! {

/// The byte length of a packed token-account record.
pub const TOKEN_RECORD_LEN: usize = 165;

/// What the conversion logic reads from a token-account record: its mint,
/// its owner, and the token amount it holds.
#[derive(Clone, Copy, Debug, PartialEq, Eq)]
pub struct TokenRecord {
    /// The mint this record is bound to.
    pub mint: [u8; 32],
    /// The declared owner of the record.
    pub owner: [u8; 32],
    /// The amount of tokens the record holds.
    pub amount: u64,
}

/// The little-endian unsigned integer held in the 8 bytes of `data`
/// starting at `i`.
pub open spec fn le_u64_at(data: Seq<u8>, i: int) -> int {
    data[i] + data[i + 1] * 0x100 + data[i + 2] * 0x1_0000 + data[i + 3] * 0x100_0000 + data[i + 4]
        * 0x1_0000_0000 + data[i + 5] * 0x100_0000_0000 + data[i + 6] * 0x1_0000_0000_0000 + data[i
        + 7] * 0x100_0000_0000_0000
}

/// The 4 bytes of `data` starting at `i` are a valid option tag of the
/// record layout: all zero (none) or 1 followed by three zeros (some).
pub open spec fn option_tag_ok(data: Seq<u8>, i: int) -> bool {
    (data[i] == 0 || data[i] == 1) && data[i + 1] == 0 && data[i + 2] == 0 && data[i + 3] == 0
}

/// The bytes deserialize as an initialized token-account record: exact
/// length, valid option tags for delegate, native reserve and close
/// authority, and an account state that is initialized (1) or frozen (2).
pub open spec fn token_record_parses(data: Seq<u8>) -> bool {
    &&& data.len() == TOKEN_RECORD_LEN
    &&& option_tag_ok(data, 72)
    &&& data[108] == 1 || data[108] == 2
    &&& option_tag_ok(data, 109)
    &&& option_tag_ok(data, 129)
}

/// The mint field of a packed record.
pub open spec fn record_mint(data: Seq<u8>) -> Seq<u8> {
    data.subrange(0, 32)
}

/// The owner field of a packed record.
pub open spec fn record_owner(data: Seq<u8>) -> Seq<u8> {
    data.subrange(32, 64)
}

/// The amount field of a packed record.
pub open spec fn record_amount(data: Seq<u8>) -> int {
    le_u64_at(data, 64)
}

/// Relies on `spl_token::state::Account::unpack`: it succeeds exactly when
/// the input is 165 bytes with valid option tags and an account state byte
/// of 1 (initialized) or 2 (frozen), and then returns the mint from bytes
/// 0..32, the owner from bytes 32..64 and the little-endian amount from
/// bytes 64..72.
#[verifier::external_body]
pub(crate) fn unpack_token_record(data: &Vec<u8>) -> (r: Option<TokenRecord>)
    ensures
        r is Some <==> token_record_parses(data@),
        r matches Some(rec) ==> rec.mint@ == record_mint(data@) && rec.owner@ == record_owner(
            data@,
        ) && rec.amount == record_amount(data@),
{
    match spl_token::state::Account::unpack(data.as_slice()) {
        Ok(account) => Some(
            TokenRecord {
                mint: account.mint.to_bytes(),
                owner: account.owner.to_bytes(),
                amount: account.amount,
            },
        ),
        Err(_) => None,
    }
}

} // verus!
