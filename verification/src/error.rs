//! Failure kinds of the conversion routine.

use vstd::prelude::*;

verus! {

/// The program's own error kinds.
#[derive(Clone, Copy, Debug, PartialEq, Eq, Structural)]
pub enum ErrorCode {
    /// The delegated swap's observable output is invalid: the holding
    /// account's balance ended below its rent-exempt reserve.
    InvalidReturnData,
    /// The swap sub-call target does not match the fixed expected venue:
    /// either the venue program identity is wrong, or the forwarded payload
    /// does not start with the venue's route instruction discriminator.
    InvalidSwapVenue,
    /// A pre-existing holding account is owned by someone other than the
    /// derived authority.
    IncorrectOwner,
}

/// Everything that can abort a conversion transaction: one of the program's
/// own kinds, or a failure the host runtime or a collaborating program
/// reports back.
#[derive(Clone, Copy, Debug, PartialEq, Eq, Structural)]
pub enum ConvertError {
    /// One of the program's own error kinds.
    Program(ErrorCode),
    /// A named account of the entry point failed its address, derivation or
    /// signer check.
    AccountConstraint,
    /// The holding account has storage but does not deserialize as a
    /// token-account record.
    MalformedHoldingAccount,
    /// A funded sub-call failed because the paying account's balance is
    /// insufficient.
    InsufficientFunds,
    /// The delegated swap sub-call itself failed.
    DelegatedCallFailed,
}

} // verus!
