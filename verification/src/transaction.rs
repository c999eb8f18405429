//! The conversion transaction as one all-or-nothing ledger transition.
//!
//! A transaction runs linearly: validate the fixed account set, provision
//! the holding account, delegate the swap to the external venue, capture
//! the holding account's balance, tear the holding account down, settle,
//! and disburse to the requesting party. Any failure anywhere aborts the
//! whole transaction; the host ledger unwinds every state change, so an
//! error leaves the ledger exactly as it was.
//!
//! The delegated sub-call itself is outside work: its observable effect on
//! the holding account's balance enters here as a [`SwapOutcome`], and the
//! transition is verified for every value of it.

use vstd::prelude::*;

use crate::error::{ConvertError, ErrorCode};
use crate::ids::{
    addr_eq, native_mint_id_bytes, token_program_id_bytes, Jupiter, JUPITER_PROGRAM_ID,
    NATIVE_MINT_ID, PROGRAM_ID, SYSTEM_PROGRAM_ID, TOKEN_PROGRAM_ID,
};
use crate::pda::{derived_address, try_find_derived_address};
use crate::provision::{create_wsol_token_idempotent, provision_spec, HoldingAccount};
use crate::record::{record_owner, token_record_parses};
use crate::settle::settle;
use crate::swap::{payload_is_route, swap_on_jupiter, AccountMeta};
use crate::{AUTHORITY_SEED, WSOL_SEED};

verus! {

/// The fixed, ordered set of named accounts the conversion entry point is
/// invoked with.
pub struct SwapToSOL {
    /// The derived authority address (writable, owned by this program).
    pub program_authority: [u8; 32],
    /// The wrapped-SOL holding account address (writable, possibly not yet
    /// initialized).
    pub program_wsol_account: [u8; 32],
    /// The requesting party receiving the disbursement.
    pub user_account: [u8; 32],
    /// Whether the requesting party co-signed the transaction.
    pub user_is_signer: bool,
    /// The native-currency mint reference.
    pub sol_mint: [u8; 32],
    /// The external swap venue program reference.
    pub jupiter_program: [u8; 32],
    /// The token-record program reference.
    pub token_program: [u8; 32],
    /// The system (account-management) program reference.
    pub system_program: [u8; 32],
}

/// The account set of the mirror native-to-token direction. It has the same
/// shape as [`SwapToSOL`]; the mirror conversion itself is not elaborated
/// here.
pub struct SOLToSwap {
    /// The derived authority address (writable, owned by this program).
    pub program_authority: [u8; 32],
    /// The wrapped-SOL holding account address (writable, possibly not yet
    /// initialized).
    pub program_wsol_account: [u8; 32],
    /// The requesting party funding the conversion.
    pub user_account: [u8; 32],
    /// Whether the requesting party co-signed the transaction.
    pub user_is_signer: bool,
    /// The native-currency mint reference.
    pub sol_mint: [u8; 32],
    /// The external swap venue program reference.
    pub jupiter_program: [u8; 32],
    /// The token-record program reference.
    pub token_program: [u8; 32],
    /// The system (account-management) program reference.
    pub system_program: [u8; 32],
}

/// The bump discriminators of the two derived addresses, needed to present
/// their derivation proofs when signing sub-calls.
#[derive(Clone, Copy, Debug, PartialEq, Eq)]
pub struct Bumps {
    /// Bump of the derived authority address.
    pub authority_bump: u8,
    /// Bump of the holding account address.
    pub wsol_bump: u8,
}

/// The derived authority address in the account set matches its derivation
/// from the authority seed and this program's identity.
pub open spec fn authority_derivation_ok(a: SwapToSOL) -> bool {
    derived_address(AUTHORITY_SEED@, PROGRAM_ID@) matches Some(p) && a.program_authority@ == p.0
}

/// The holding account address in the account set matches its derivation
/// from the wrapped-SOL seed and this program's identity.
pub open spec fn wsol_derivation_ok(a: SwapToSOL) -> bool {
    derived_address(WSOL_SEED@, PROGRAM_ID@) matches Some(p) && a.program_wsol_account@ == p.0
}

/// The first check of the entry point's account set that fails, in the
/// order the accounts are declared, or nothing when all pass. A venue
/// identity mismatch is the program's own invalid-venue kind; every other
/// failure is a host-level account constraint.
pub open spec fn first_account_error(a: SwapToSOL) -> Option<ConvertError> {
    if !authority_derivation_ok(a) {
        Some(ConvertError::AccountConstraint)
    } else if !wsol_derivation_ok(a) {
        Some(ConvertError::AccountConstraint)
    } else if !a.user_is_signer {
        Some(ConvertError::AccountConstraint)
    } else if a.sol_mint@ != NATIVE_MINT_ID@ {
        Some(ConvertError::AccountConstraint)
    } else if a.jupiter_program@ != JUPITER_PROGRAM_ID@ {
        Some(ConvertError::Program(ErrorCode::InvalidSwapVenue))
    } else if a.token_program@ != TOKEN_PROGRAM_ID@ {
        Some(ConvertError::AccountConstraint)
    } else if a.system_program@ != SYSTEM_PROGRAM_ID@ {
        Some(ConvertError::AccountConstraint)
    } else {
        None
    }
}

/// Every check of the entry point's account set passes.
pub open spec fn accounts_valid(a: SwapToSOL) -> bool {
    first_account_error(a) is None
}

/// Validate the entry point's account set: both derived addresses, the
/// requester's signature, the native mint, the venue identity, and the two
/// collaborating program references. Returns the derivation bumps needed
/// for signing.
pub fn validate_accounts(accounts: &SwapToSOL) -> (r: Result<Bumps, ConvertError>)
    ensures
        r is Ok <==> accounts_valid(*accounts),
        r matches Err(e) ==> first_account_error(*accounts) == Some(e),
        r matches Ok(b) ==> (derived_address(AUTHORITY_SEED@, PROGRAM_ID@) matches Some(p)
            && b.authority_bump == p.1) && (derived_address(WSOL_SEED@, PROGRAM_ID@) matches Some(
            q,
        ) && b.wsol_bump == q.1),
{
    let (authority_addr, authority_bump) = match try_find_derived_address(
        &AUTHORITY_SEED,
        &PROGRAM_ID,
    ) {
        None => return Err(ConvertError::AccountConstraint),
        Some(p) => p,
    };
    if !addr_eq(&accounts.program_authority, &authority_addr) {
        return Err(ConvertError::AccountConstraint);
    }
    let (wsol_addr, wsol_bump) = match try_find_derived_address(&WSOL_SEED, &PROGRAM_ID) {
        None => return Err(ConvertError::AccountConstraint),
        Some(p) => p,
    };
    if !addr_eq(&accounts.program_wsol_account, &wsol_addr) {
        return Err(ConvertError::AccountConstraint);
    }
    if !accounts.user_is_signer {
        return Err(ConvertError::AccountConstraint);
    }
    let mint = native_mint_id_bytes();
    if !addr_eq(&accounts.sol_mint, &mint) {
        return Err(ConvertError::AccountConstraint);
    }
    let venue = Jupiter::id();
    if !addr_eq(&accounts.jupiter_program, &venue) {
        return Err(ConvertError::Program(ErrorCode::InvalidSwapVenue));
    }
    let token_program = token_program_id_bytes();
    if !addr_eq(&accounts.token_program, &token_program) {
        return Err(ConvertError::AccountConstraint);
    }
    if !addr_eq(&accounts.system_program, &SYSTEM_PROGRAM_ID) {
        return Err(ConvertError::AccountConstraint);
    }
    Ok(Bumps { authority_bump, wsol_bump })
}

/// The balances the conversion touches: the derived authority's own
/// balance, the requesting party's balance, and the holding account.
pub struct Ledger {
    /// Native balance of the derived authority.
    pub authority_lamports: u64,
    /// Native balance of the requesting party.
    pub user_lamports: u64,
    /// The wrapped-SOL holding account.
    pub holding: HoldingAccount,
}

/// The observable effect of the delegated swap sub-call: it either returned
/// successfully, having deposited `swapped_in` lamports of native currency
/// into the holding account, or it failed.
pub enum SwapOutcome {
    /// The venue returned successfully and the holding account's balance
    /// increased by this amount.
    Success { swapped_in: u64 },
    /// The sub-call failed; the host runtime aborts the transaction.
    Failure,
}

/// Native balance of the holding account, zero when absent.
pub open spec fn holding_lamports(h: HoldingAccount) -> int {
    match h {
        HoldingAccount::Absent => 0,
        HoldingAccount::Present { lamports, data: _ } => lamports as int,
    }
}

/// All lamports the ledger model holds.
pub open spec fn total_lamports(l: Ledger) -> int {
    l.authority_lamports + l.user_lamports + holding_lamports(l.holding)
}

/// The venue's deposit under an outcome, zero on failure.
pub open spec fn swapped_in_of(o: SwapOutcome) -> int {
    match o {
        SwapOutcome::Success { swapped_in } => swapped_in as int,
        SwapOutcome::Failure => 0,
    }
}

/// The whole conversion as a function of the starting ledger, the account
/// set, the forwarded payload, the rent-exempt reserve of a token-account
/// record, and the delegated call's outcome: the ledger after the
/// transaction and the disbursed amount, or the error that aborts it.
pub open spec fn swap_to_sol_spec(
    l: Ledger,
    a: SwapToSOL,
    data: Seq<u8>,
    reserve: u64,
    outcome: SwapOutcome,
) -> Result<(Ledger, u64), ConvertError> {
    match first_account_error(a) {
        Some(e) => Err(e),
        None => match provision_spec(l.holding, a.program_authority@, a.sol_mint@) {
            Err(e) => Err(e),
            Ok((created, _owner, _mint, _amount)) => {
                if created && l.authority_lamports < reserve {
                    Err(ConvertError::InsufficientFunds)
                } else if !payload_is_route(data) {
                    Err(ConvertError::Program(ErrorCode::InvalidSwapVenue))
                } else {
                    match outcome {
                        SwapOutcome::Failure => Err(ConvertError::DelegatedCallFailed),
                        SwapOutcome::Success { swapped_in } => {
                            let before_swap = if created {
                                reserve as int
                            } else {
                                holding_lamports(l.holding)
                            };
                            let after_swap = before_swap + swapped_in;
                            if after_swap < reserve {
                                Err(ConvertError::Program(ErrorCode::InvalidReturnData))
                            } else {
                                let payout = after_swap - reserve;
                                let paid_at_creation: int = if created {
                                    reserve as int
                                } else {
                                    0
                                };
                                let authority_after = l.authority_lamports - paid_at_creation
                                    + after_swap - payout;
                                Ok(
                                    (
                                        Ledger {
                                            authority_lamports: authority_after as u64,
                                            user_lamports: (l.user_lamports + payout) as u64,
                                            holding: HoldingAccount::Absent,
                                        },
                                        payout as u64,
                                    ),
                                )
                            }
                        },
                    }
                }
            },
        },
    }
}

/// Close the holding account: its entire balance is swept to the derived
/// authority and its storage is deallocated. Fails when there is no holding
/// account to close.
pub fn close_program_wsol(ledger: &mut Ledger) -> (r: Result<u64, ConvertError>)
    requires
        total_lamports(*old(ledger)) <= u64::MAX,
    ensures
        old(ledger).holding matches HoldingAccount::Present { lamports, data: _ } ==> (r matches Ok(
            swept,
        ) && swept == lamports && final(ledger).holding is Absent
            && final(ledger).authority_lamports == old(ledger).authority_lamports + lamports
            && final(ledger).user_lamports == old(ledger).user_lamports),
        old(ledger).holding is Absent ==> r == Err::<u64, ConvertError>(
            ConvertError::AccountConstraint,
        ) && *final(ledger) == *old(ledger),
{
    let swept: u64 = match &ledger.holding {
        HoldingAccount::Absent => return Err(ConvertError::AccountConstraint),
        HoldingAccount::Present { lamports, data: _ } => *lamports,
    };
    ledger.authority_lamports = ledger.authority_lamports + swept;
    ledger.holding = HoldingAccount::Absent;
    Ok(swept)
}

/// Run the whole conversion over the ledger model: validate the account
/// set, provision the holding account, check and build the delegated call,
/// apply its outcome, tear the holding account down, settle, and disburse.
/// On any error the ledger is left exactly as it was.
pub fn swap_to_sol(
    ledger: &mut Ledger,
    accounts: &SwapToSOL,
    data: Vec<u8>,
    remaining_accounts: &Vec<AccountMeta>,
    rent_exempt_reserve: u64,
    outcome: &SwapOutcome,
) -> (r: Result<u64, ConvertError>)
    requires
        total_lamports(*old(ledger)) + swapped_in_of(*outcome) <= u64::MAX,
    ensures
        r matches Ok(payout) ==> (swap_to_sol_spec(
            *old(ledger),
            *accounts,
            data@,
            rent_exempt_reserve,
            *outcome,
        ) matches Ok(p) && *final(ledger) == p.0 && payout == p.1),
        r matches Err(e) ==> swap_to_sol_spec(
            *old(ledger),
            *accounts,
            data@,
            rent_exempt_reserve,
            *outcome,
        ) == Err::<(Ledger, u64), ConvertError>(e) && *final(ledger) == *old(ledger),
{
    match validate_accounts(accounts) {
        Err(e) => return Err(e),
        Ok(_) => {},
    }
    let provisioned = match create_wsol_token_idempotent(
        &ledger.holding,
        &accounts.program_authority,
        &accounts.sol_mint,
    ) {
        Err(e) => return Err(e),
        Ok(p) => p,
    };
    if provisioned.created && ledger.authority_lamports < rent_exempt_reserve {
        return Err(ConvertError::InsufficientFunds);
    }
    match swap_on_jupiter(&accounts.jupiter_program, remaining_accounts, data) {
        Err(e) => return Err(e),
        Ok(_) => {},
    }
    let swapped_in: u64 = match outcome {
        SwapOutcome::Failure => return Err(ConvertError::DelegatedCallFailed),
        SwapOutcome::Success { swapped_in } => *swapped_in,
    };
    let before_swap: u64 = if provisioned.created {
        rent_exempt_reserve
    } else {
        match &ledger.holding {
            HoldingAccount::Present { lamports, data: _ } => *lamports,
            HoldingAccount::Absent => {
                proof {
                    assert(false);
                }
                0
            },
        }
    };
    let after_swap_lamports = before_swap + swapped_in;
    let payout = match settle(after_swap_lamports, rent_exempt_reserve) {
        Err(e) => return Err(e),
        Ok(amount) => amount,
    };
    let paid_at_creation: u64 = if provisioned.created {
        rent_exempt_reserve
    } else {
        0
    };
    let authority_after_close = ledger.authority_lamports - paid_at_creation + after_swap_lamports;
    // The host runtime checks the payer's balance on every transfer; here the
    // teardown sweep always covers the payout, so this cannot fail.
    if authority_after_close < payout {
        return Err(ConvertError::InsufficientFunds);
    }
    ledger.authority_lamports = authority_after_close - payout;
    ledger.user_lamports = ledger.user_lamports + payout;
    ledger.holding = HoldingAccount::Absent;
    Ok(payout)
}

/// Ownership guard: when a pre-existing holding account is owned by a third
/// party, the conversion fails with the ownership-mismatch error whatever
/// the delegated call would have done — the swap step is never reached.
pub proof fn lemma_ownership_guard(l: Ledger, a: SwapToSOL, data: Seq<u8>, reserve: u64)
    requires
        accounts_valid(a),
        l.holding matches HoldingAccount::Present { lamports: _, data: d }
            && token_record_parses(d@) && record_owner(d@) != a.program_authority@,
    ensures
        forall|o: SwapOutcome| swap_to_sol_spec(l, a, data, reserve, o) == Err::<
            (Ledger, u64),
            ConvertError,
        >(ConvertError::Program(ErrorCode::IncorrectOwner)),
{
}

/// Atomicity: when the delegated swap sub-call fails, the whole conversion
/// fails, and no account creation, balance change or disbursement is
/// observable afterwards.
pub proof fn lemma_atomicity(l: Ledger, a: SwapToSOL, data: Seq<u8>, reserve: u64)
    ensures
        swap_to_sol_spec(l, a, data, reserve, SwapOutcome::Failure) is Err,
{
}

/// Settlement correctness: on success the disbursed amount is exactly the
/// holding account's balance before teardown minus the rent-exempt
/// reserve, with the reserve entering the computation once.
pub proof fn lemma_settlement_delta(
    l: Ledger,
    a: SwapToSOL,
    data: Seq<u8>,
    reserve: u64,
    o: SwapOutcome,
)
    requires
        total_lamports(l) + swapped_in_of(o) <= u64::MAX,
    ensures
        swap_to_sol_spec(l, a, data, reserve, o) matches Ok(p) ==> (o matches SwapOutcome::Success {
            swapped_in,
        } && p.1 == (if l.holding is Absent {
            reserve as int
        } else {
            holding_lamports(l.holding)
        }) + swapped_in - reserve),
{
}

/// A conversion that starts with no holding account leaves the derived
/// authority's own balance exactly where it was: it transiently funds the
/// reserve, receives the swept balance, and pays out the difference.
pub proof fn lemma_authority_balance_preserved(
    l: Ledger,
    a: SwapToSOL,
    data: Seq<u8>,
    reserve: u64,
    o: SwapOutcome,
)
    requires
        l.holding is Absent,
        total_lamports(l) + swapped_in_of(o) <= u64::MAX,
    ensures
        swap_to_sol_spec(l, a, data, reserve, o) matches Ok(p) ==> p.0.authority_lamports
            == l.authority_lamports,
{
}

/// A conversion that reuses a leftover holding account retains that
/// account's reserve with the derived authority: the authority's balance
/// grows by exactly the reserve, and the holding account is gone.
pub proof fn lemma_reuse_retains_reserve(
    l: Ledger,
    a: SwapToSOL,
    data: Seq<u8>,
    reserve: u64,
    o: SwapOutcome,
)
    requires
        l.holding matches HoldingAccount::Present { .. },
        total_lamports(l) + swapped_in_of(o) <= u64::MAX,
    ensures
        swap_to_sol_spec(l, a, data, reserve, o) matches Ok(p) ==> p.0.authority_lamports
            == l.authority_lamports + reserve && p.0.holding is Absent,
{
}

/// Value conservation: a successful conversion changes the ledger's total
/// lamports by exactly the venue's deposit, and never touches balances on
/// failure.
pub proof fn lemma_value_conserved(
    l: Ledger,
    a: SwapToSOL,
    data: Seq<u8>,
    reserve: u64,
    o: SwapOutcome,
)
    requires
        total_lamports(l) + swapped_in_of(o) <= u64::MAX,
    ensures
        swap_to_sol_spec(l, a, data, reserve, o) matches Ok(p) ==> total_lamports(p.0)
            == total_lamports(l) + swapped_in_of(o),
{
}

} // verus!
