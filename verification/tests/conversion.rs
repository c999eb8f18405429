use spl_token::solana_program::program_option::COption;
use spl_token::solana_program::program_pack::Pack;
use spl_token::state::{Account, AccountState};

use swap_to_sol::error::{ConvertError, ErrorCode};
use swap_to_sol::ids::{
    Jupiter, JUPITER_PROGRAM_ID, NATIVE_MINT_ID, PROGRAM_ID, SYSTEM_PROGRAM_ID, TOKEN_PROGRAM_ID,
};
use swap_to_sol::provision::{create_wsol_token_idempotent, HoldingAccount};
use swap_to_sol::settle::settle;
use swap_to_sol::swap::{swap_on_jupiter, AccountMeta, ROUTE_DISCRIMINATOR};
use swap_to_sol::transaction::{
    close_program_wsol, swap_to_sol, validate_accounts, Ledger, SwapOutcome, SwapToSOL,
};
use swap_to_sol::{AUTHORITY_SEED, WSOL_SEED};

/// The example reserve of a 165-byte token-account record.
const RESERVE: u64 = 2_039_280;

fn authority_pda() -> ([u8; 32], u8) {
    let program = solana_pubkey::Pubkey::new_from_array(PROGRAM_ID);
    let (addr, bump) =
        solana_pubkey::Pubkey::try_find_program_address(&[&AUTHORITY_SEED], &program).unwrap();
    (addr.to_bytes(), bump)
}

fn wsol_pda() -> ([u8; 32], u8) {
    let program = solana_pubkey::Pubkey::new_from_array(PROGRAM_ID);
    let (addr, bump) =
        solana_pubkey::Pubkey::try_find_program_address(&[&WSOL_SEED], &program).unwrap();
    (addr.to_bytes(), bump)
}

fn valid_accounts() -> SwapToSOL {
    SwapToSOL {
        program_authority: authority_pda().0,
        program_wsol_account: wsol_pda().0,
        user_account: [9; 32],
        user_is_signer: true,
        sol_mint: NATIVE_MINT_ID,
        jupiter_program: JUPITER_PROGRAM_ID,
        token_program: TOKEN_PROGRAM_ID,
        system_program: SYSTEM_PROGRAM_ID,
    }
}

fn route_payload() -> Vec<u8> {
    let mut data = ROUTE_DISCRIMINATOR.to_vec();
    data.extend_from_slice(&[1, 2, 3, 4]);
    data
}

/// A packed token-account record, written by the token program's own layout
/// code.
fn packed_record(mint: [u8; 32], owner: [u8; 32], amount: u64) -> Vec<u8> {
    let account = Account {
        mint: solana_pubkey::Pubkey::new_from_array(mint),
        owner: solana_pubkey::Pubkey::new_from_array(owner),
        amount,
        delegate: COption::None,
        state: AccountState::Initialized,
        is_native: COption::Some(RESERVE),
        delegated_amount: 0,
        close_authority: COption::None,
    };
    let mut data = vec![0u8; Account::LEN];
    Account::pack(account, &mut data).unwrap();
    data
}

#[test]
fn fixed_identities_match_collaborators() {
    assert_eq!(NATIVE_MINT_ID, spl_token::native_mint::id().to_bytes());
    assert_eq!(TOKEN_PROGRAM_ID, spl_token::id().to_bytes());
    assert_eq!(Jupiter::id(), JUPITER_PROGRAM_ID);
    let venue: solana_pubkey::Pubkey = "JUP5jSkuNHeHLoapB97P7MpckomsS4kLSG1Y31VZoLv"
        .parse()
        .unwrap();
    assert_eq!(JUPITER_PROGRAM_ID, venue.to_bytes());
    let own: solana_pubkey::Pubkey = "JUPDWNB9G9Hsg8PKynnP6DyWLsXVn4QnqMCqg6n4ZdM"
        .parse()
        .unwrap();
    assert_eq!(PROGRAM_ID, own.to_bytes());
    assert_eq!(AUTHORITY_SEED, *b"authority");
    assert_eq!(WSOL_SEED, *b"wsol");
}

#[test]
fn account_validation_returns_derivation_bumps() {
    let accounts = valid_accounts();
    let bumps = validate_accounts(&accounts).unwrap();
    assert_eq!(bumps.authority_bump, authority_pda().1);
    assert_eq!(bumps.wsol_bump, wsol_pda().1);
}

#[test]
fn account_validation_rejects_wrong_derivation() {
    let mut accounts = valid_accounts();
    accounts.program_authority = [7; 32];
    assert_eq!(
        validate_accounts(&accounts),
        Err(ConvertError::AccountConstraint)
    );
    let mut accounts = valid_accounts();
    accounts.user_is_signer = false;
    assert_eq!(
        validate_accounts(&accounts),
        Err(ConvertError::AccountConstraint)
    );
    let mut accounts = valid_accounts();
    accounts.sol_mint = [7; 32];
    assert_eq!(
        validate_accounts(&accounts),
        Err(ConvertError::AccountConstraint)
    );
}

#[test]
fn provision_creates_when_absent() {
    let authority = authority_pda().0;
    let provisioned =
        create_wsol_token_idempotent(&HoldingAccount::Absent, &authority, &NATIVE_MINT_ID)
            .unwrap();
    assert!(provisioned.created);
    assert_eq!(provisioned.record.owner, authority);
    assert_eq!(provisioned.record.mint, NATIVE_MINT_ID);
    assert_eq!(provisioned.record.amount, 0);
}

#[test]
fn provision_reuses_initialized_account() {
    let authority = authority_pda().0;
    let first =
        create_wsol_token_idempotent(&HoldingAccount::Absent, &authority, &NATIVE_MINT_ID)
            .unwrap();
    let leftover = HoldingAccount::Present {
        lamports: RESERVE,
        data: packed_record(first.record.mint, first.record.owner, first.record.amount),
    };
    let second = create_wsol_token_idempotent(&leftover, &authority, &NATIVE_MINT_ID).unwrap();
    assert!(!second.created);
    assert_eq!(second.record.owner, first.record.owner);
    assert_eq!(second.record.mint, NATIVE_MINT_ID);
    assert_eq!(second.record.amount, 0);
}

#[test]
fn provision_rejects_foreign_owner() {
    let authority = authority_pda().0;
    let foreign = HoldingAccount::Present {
        lamports: RESERVE,
        data: packed_record(NATIVE_MINT_ID, [8; 32], 0),
    };
    assert_eq!(
        create_wsol_token_idempotent(&foreign, &authority, &NATIVE_MINT_ID),
        Err(ConvertError::Program(ErrorCode::IncorrectOwner))
    );
}

#[test]
fn provision_rejects_malformed_record() {
    let authority = authority_pda().0;
    let truncated = HoldingAccount::Present {
        lamports: RESERVE,
        data: vec![1, 2, 3],
    };
    assert_eq!(
        create_wsol_token_idempotent(&truncated, &authority, &NATIVE_MINT_ID),
        Err(ConvertError::MalformedHoldingAccount)
    );
    let mut uninitialized = packed_record(NATIVE_MINT_ID, authority, 0);
    uninitialized[108] = 0;
    let holding = HoldingAccount::Present {
        lamports: RESERVE,
        data: uninitialized,
    };
    assert_eq!(
        create_wsol_token_idempotent(&holding, &authority, &NATIVE_MINT_ID),
        Err(ConvertError::MalformedHoldingAccount)
    );
}

#[test]
fn record_parse_agrees_with_token_program() {
    let authority = authority_pda().0;
    let data = packed_record(NATIVE_MINT_ID, authority, 41_000);
    let reference = Account::unpack(&data).unwrap();
    let holding = HoldingAccount::Present {
        lamports: RESERVE,
        data,
    };
    let provisioned =
        create_wsol_token_idempotent(&holding, &authority, &NATIVE_MINT_ID).unwrap();
    assert_eq!(provisioned.record.owner, reference.owner.to_bytes());
    assert_eq!(provisioned.record.mint, reference.mint.to_bytes());
    assert_eq!(provisioned.record.amount, reference.amount);
}

#[test]
fn forwarded_call_passes_accounts_through() {
    let metas = vec![
        AccountMeta {
            pubkey: [1; 32],
            is_signer: true,
            is_writable: false,
        },
        AccountMeta {
            pubkey: [2; 32],
            is_signer: false,
            is_writable: true,
        },
    ];
    let payload = route_payload();
    let call = swap_on_jupiter(&JUPITER_PROGRAM_ID, &metas, payload.clone()).unwrap();
    assert_eq!(call.program_id, JUPITER_PROGRAM_ID);
    assert_eq!(call.accounts, metas);
    assert_eq!(call.data, payload);
    assert!(!call.authority_signs);
}

#[test]
fn forwarded_call_rejects_wrong_venue() {
    let metas: Vec<AccountMeta> = Vec::new();
    let result = swap_on_jupiter(&[3; 32], &metas, route_payload());
    assert!(matches!(
        result,
        Err(ConvertError::Program(ErrorCode::InvalidSwapVenue))
    ));
}

#[test]
fn forwarded_call_rejects_wrong_discriminator() {
    let metas: Vec<AccountMeta> = Vec::new();
    let mut payload = route_payload();
    payload[0] ^= 0xff;
    let result = swap_on_jupiter(&JUPITER_PROGRAM_ID, &metas, payload);
    assert!(matches!(
        result,
        Err(ConvertError::Program(ErrorCode::InvalidSwapVenue))
    ));
    let short = vec![229u8, 23];
    let result = swap_on_jupiter(&JUPITER_PROGRAM_ID, &metas, short);
    assert!(matches!(
        result,
        Err(ConvertError::Program(ErrorCode::InvalidSwapVenue))
    ));
}

#[test]
fn settlement_exact_amount() {
    assert_eq!(settle(5_000_000, RESERVE), Ok(2_960_720));
    assert_eq!(settle(RESERVE, RESERVE), Ok(0));
    assert_eq!(
        settle(RESERVE - 1, RESERVE),
        Err(ConvertError::Program(ErrorCode::InvalidReturnData))
    );
}

#[test]
fn teardown_sweeps_balance() {
    let mut ledger = Ledger {
        authority_lamports: 1_000,
        user_lamports: 5,
        holding: HoldingAccount::Present {
            lamports: 5_000_000,
            data: packed_record(NATIVE_MINT_ID, authority_pda().0, 0),
        },
    };
    assert_eq!(close_program_wsol(&mut ledger), Ok(5_000_000));
    assert_eq!(ledger.authority_lamports, 5_001_000);
    assert_eq!(ledger.user_lamports, 5);
    assert!(matches!(ledger.holding, HoldingAccount::Absent));

    let mut empty = Ledger {
        authority_lamports: 1_000,
        user_lamports: 5,
        holding: HoldingAccount::Absent,
    };
    assert_eq!(
        close_program_wsol(&mut empty),
        Err(ConvertError::AccountConstraint)
    );
    assert_eq!(empty.authority_lamports, 1_000);
}

#[test]
fn end_to_end_absent_holding() {
    // Holding account starts absent; after the simulated swap its balance is
    // 5,000,000, so the requester is owed 5,000,000 - 2,039,280 = 2,960,720,
    // and the derived authority's own balance is unaffected.
    let mut ledger = Ledger {
        authority_lamports: 10_000_000,
        user_lamports: 0,
        holding: HoldingAccount::Absent,
    };
    let outcome = SwapOutcome::Success {
        swapped_in: 5_000_000 - RESERVE,
    };
    let metas: Vec<AccountMeta> = Vec::new();
    let result = swap_to_sol(
        &mut ledger,
        &valid_accounts(),
        route_payload(),
        &metas,
        RESERVE,
        &outcome,
    );
    assert_eq!(result, Ok(2_960_720));
    assert_eq!(ledger.user_lamports, 2_960_720);
    assert_eq!(ledger.authority_lamports, 10_000_000);
    assert!(matches!(ledger.holding, HoldingAccount::Absent));
}

#[test]
fn reuse_scenario_disburses_delta() {
    // A failed earlier attempt left the holding account initialized with
    // balance exactly the reserve and the derived authority as owner; a new
    // attempt reuses it and disburses post-swap balance minus the reserve.
    let authority = authority_pda().0;
    let mut ledger = Ledger {
        authority_lamports: 1_000,
        user_lamports: 0,
        holding: HoldingAccount::Present {
            lamports: RESERVE,
            data: packed_record(NATIVE_MINT_ID, authority, 0),
        },
    };
    let outcome = SwapOutcome::Success {
        swapped_in: 700_000,
    };
    let metas: Vec<AccountMeta> = Vec::new();
    let result = swap_to_sol(
        &mut ledger,
        &valid_accounts(),
        route_payload(),
        &metas,
        RESERVE,
        &outcome,
    );
    assert_eq!(result, Ok(700_000));
    assert_eq!(ledger.user_lamports, 700_000);
    // The swept reserve is retained by the derived authority.
    assert_eq!(ledger.authority_lamports, 1_000 + RESERVE);
    assert!(matches!(ledger.holding, HoldingAccount::Absent));
}

#[test]
fn venue_identity_mismatch_rejects_before_subcall() {
    let mut accounts = valid_accounts();
    accounts.jupiter_program = [4; 32];
    let mut ledger = Ledger {
        authority_lamports: 10_000_000,
        user_lamports: 0,
        holding: HoldingAccount::Absent,
    };
    let outcome = SwapOutcome::Success {
        swapped_in: 5_000_000,
    };
    let metas: Vec<AccountMeta> = Vec::new();
    let result = swap_to_sol(
        &mut ledger,
        &accounts,
        route_payload(),
        &metas,
        RESERVE,
        &outcome,
    );
    assert_eq!(
        result,
        Err(ConvertError::Program(ErrorCode::InvalidSwapVenue))
    );
    assert_eq!(ledger.authority_lamports, 10_000_000);
    assert_eq!(ledger.user_lamports, 0);
    assert!(matches!(ledger.holding, HoldingAccount::Absent));
}

#[test]
fn failed_swap_changes_nothing() {
    let mut ledger = Ledger {
        authority_lamports: 10_000_000,
        user_lamports: 123,
        holding: HoldingAccount::Absent,
    };
    let metas: Vec<AccountMeta> = Vec::new();
    let result = swap_to_sol(
        &mut ledger,
        &valid_accounts(),
        route_payload(),
        &metas,
        RESERVE,
        &SwapOutcome::Failure,
    );
    assert_eq!(result, Err(ConvertError::DelegatedCallFailed));
    assert_eq!(ledger.authority_lamports, 10_000_000);
    assert_eq!(ledger.user_lamports, 123);
    assert!(matches!(ledger.holding, HoldingAccount::Absent));
}

#[test]
fn ownership_hijack_never_reaches_swap() {
    let mut ledger = Ledger {
        authority_lamports: 10_000_000,
        user_lamports: 0,
        holding: HoldingAccount::Present {
            lamports: RESERVE,
            data: packed_record(NATIVE_MINT_ID, [8; 32], 0),
        },
    };
    let outcome = SwapOutcome::Success {
        swapped_in: 5_000_000,
    };
    let metas: Vec<AccountMeta> = Vec::new();
    let result = swap_to_sol(
        &mut ledger,
        &valid_accounts(),
        route_payload(),
        &metas,
        RESERVE,
        &outcome,
    );
    assert_eq!(result, Err(ConvertError::Program(ErrorCode::IncorrectOwner)));
    assert_eq!(ledger.authority_lamports, 10_000_000);
    assert_eq!(ledger.user_lamports, 0);
}

#[test]
fn creation_underfunded_fails() {
    let mut ledger = Ledger {
        authority_lamports: RESERVE - 1,
        user_lamports: 0,
        holding: HoldingAccount::Absent,
    };
    let outcome = SwapOutcome::Success {
        swapped_in: 5_000_000,
    };
    let metas: Vec<AccountMeta> = Vec::new();
    let result = swap_to_sol(
        &mut ledger,
        &valid_accounts(),
        route_payload(),
        &metas,
        RESERVE,
        &outcome,
    );
    assert_eq!(result, Err(ConvertError::InsufficientFunds));
    assert_eq!(ledger.authority_lamports, RESERVE - 1);
}

#[test]
fn drained_reused_holding_rejected_as_invalid_output() {
    // A reused holding account whose post-swap balance ends below the
    // reserve: the venue's observable output is invalid.
    let authority = authority_pda().0;
    let mut ledger = Ledger {
        authority_lamports: 1_000,
        user_lamports: 0,
        holding: HoldingAccount::Present {
            lamports: 10,
            data: packed_record(NATIVE_MINT_ID, authority, 0),
        },
    };
    let outcome = SwapOutcome::Success { swapped_in: 5 };
    let metas: Vec<AccountMeta> = Vec::new();
    let result = swap_to_sol(
        &mut ledger,
        &valid_accounts(),
        route_payload(),
        &metas,
        RESERVE,
        &outcome,
    );
    assert_eq!(
        result,
        Err(ConvertError::Program(ErrorCode::InvalidReturnData))
    );
    assert_eq!(ledger.authority_lamports, 1_000);
}
