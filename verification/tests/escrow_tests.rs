use token_escrow::escrow::exchange_token;
use token_escrow::escrow::exchange_token_with_authority;
use token_escrow::escrow::initialize_escrow;
use token_escrow::escrow::initialize_escrow_with_authority;
use token_escrow::escrow::EscrowError;
use token_escrow::escrow::EscrowStatus;
use token_escrow::escrow::ExchangeError;
use token_escrow::escrow::InitializeError;
use token_escrow::escrow::InitializedEscrow;
use token_escrow::identity::Identity;
use token_escrow::token::close_account;
use token_escrow::token::set_authority;
use token_escrow::token::transfer;
use token_escrow::token::TokenAccount;
use token_escrow::token::TransferError;

fn id(n: u8) -> Identity {
    Identity::new([n; 32])
}

fn account(key: u8, mint: u8, authority: u8, balance: u64) -> TokenAccount {
    TokenAccount { key: id(key), mint: id(mint), authority: id(authority), balance }
}

/// A ready swap: A locked 100 of asset X (mint 1) wanting asset Y (mint 2),
/// under custody authority 9.
fn locked_escrow() -> (InitializedEscrow, TokenAccount) {
    let mut deposit = account(10, 1, 11, 500);
    let out = initialize_escrow_with_authority(
        id(9),  // custody authority
        id(11), // initializer A
        id(1),  // offered mint X
        id(2),  // desired mint Y
        &mut deposit,
        id(12), // vault key
        id(13), // receive key
        100,
    )
    .unwrap();
    assert_eq!(deposit.balance, 400);
    (out, deposit)
}

#[test]
fn identity_equality() {
    assert!(id(3).equals(&id(3)));
    assert!(!id(3).equals(&id(4)));
    let mut bytes = [7u8; 32];
    bytes[31] = 8;
    assert!(!Identity::new(bytes).equals(&id(7)));
}

#[test]
fn initialize_locks_funds_under_custody() {
    let (out, _deposit) = locked_escrow();
    assert_eq!(out.vault_account.balance, 100);
    assert!(out.vault_account.authority.equals(&id(9)));
    assert!(out.vault_account.mint.equals(&id(1)));
    assert!(out.escrow_account.status == EscrowStatus::Active);
    assert_eq!(out.escrow_account.amount, 100);
    assert!(out.escrow_account.initializer.equals(&id(11)));
    assert!(out.escrow_account.vault_account.equals(&id(12)));
    assert!(out.escrow_account.initializer_receive_account.equals(&id(13)));
    assert_eq!(out.initializer_receive_account.balance, 0);
    assert!(out.initializer_receive_account.mint.equals(&id(2)));
}

#[test]
fn initialize_insufficient_funds() {
    let mut deposit = account(10, 1, 11, 99);
    let r = initialize_escrow_with_authority(
        id(9), id(11), id(1), id(2), &mut deposit, id(12), id(13), 100,
    );
    assert_eq!(r.unwrap_err(), InitializeError::Service(TransferError::InsufficientFunds));
    assert_eq!(deposit.balance, 99);
}

#[test]
fn initialize_zero_amount_rejected() {
    let mut deposit = account(10, 1, 11, 500);
    let r = initialize_escrow_with_authority(
        id(9), id(11), id(1), id(2), &mut deposit, id(12), id(13), 0,
    );
    assert_eq!(r.unwrap_err(), InitializeError::ZeroAmount);
    assert_eq!(deposit.balance, 500);
}

#[test]
fn initialize_balance_constraint_wins_first() {
    // the funding account is short and foreign: the host's balance
    // constraint is evaluated before the transfer service's own checks
    let mut deposit = account(10, 3, 14, 99);
    let r = initialize_escrow_with_authority(
        id(9), id(11), id(1), id(2), &mut deposit, id(12), id(13), 100,
    );
    assert_eq!(r.unwrap_err(), InitializeError::Service(TransferError::InsufficientFunds));
    assert_eq!(deposit.balance, 99);
}

#[test]
fn initialize_wrong_funding_mint() {
    let mut deposit = account(10, 3, 11, 500);
    let r = initialize_escrow_with_authority(
        id(9), id(11), id(1), id(2), &mut deposit, id(12), id(13), 100,
    );
    assert_eq!(r.unwrap_err(), InitializeError::Service(TransferError::MintMismatch));
    assert_eq!(deposit.balance, 500);
}

#[test]
fn initialize_foreign_funding_account() {
    let mut deposit = account(10, 1, 14, 500);
    let r = initialize_escrow_with_authority(
        id(9), id(11), id(1), id(2), &mut deposit, id(12), id(13), 100,
    );
    assert_eq!(r.unwrap_err(), InitializeError::Service(TransferError::NotAuthorized));
    assert_eq!(deposit.balance, 500);
}

/// A locks 100 of X wanting Y on receive account 13; B exchanges at the
/// locked amount: the initializer's receive account gains the amount of Y,
/// B's new account gains the 100 locked X, the vault closes, and replaying
/// the same exchange fails on the vanished vault.
#[test]
fn full_swap_scenario() {
    let (out, _deposit) = locked_escrow();
    let mut escrow = out.escrow_account;
    let mut vault = Some(out.vault_account);
    let mut receive = out.initializer_receive_account;
    let mut funding = account(20, 2, 21, 150);

    let got = exchange_token_with_authority(
        &mut escrow,
        &mut vault,
        id(9),  // derived custody
        id(9),  // presented custody
        id(1),  // presented offered mint
        id(21), // counterparty B
        &mut funding,
        &mut receive,
        id(22), // B's new receive account key
        100,
    )
    .unwrap();

    assert_eq!(got.balance, 100);
    assert!(got.key.equals(&id(22)));
    assert!(got.mint.equals(&id(1)));
    assert!(got.authority.equals(&id(21)));
    assert_eq!(funding.balance, 50);
    assert_eq!(receive.balance, 100);
    assert!(vault.is_none());
    assert!(escrow.status == EscrowStatus::Consumed);

    // replay: the vault no longer resolves
    let again = exchange_token_with_authority(
        &mut escrow, &mut vault, id(9), id(9), id(1), id(21), &mut funding, &mut receive,
        id(22), 100,
    );
    assert_eq!(again.unwrap_err(), ExchangeError::Service(TransferError::AccountUnavailable));
    assert_eq!(funding.balance, 50);
    assert_eq!(receive.balance, 100);
}

/// B offers 99 against a 100 lock: refused with AmountNotEqual, and no
/// balance moves.
#[test]
fn amount_mismatch_rejected() {
    let (out, _deposit) = locked_escrow();
    let mut escrow = out.escrow_account;
    let mut vault = Some(out.vault_account);
    let mut receive = out.initializer_receive_account;
    let mut funding = account(20, 2, 21, 150);

    let r = exchange_token_with_authority(
        &mut escrow, &mut vault, id(9), id(9), id(1), id(21), &mut funding, &mut receive,
        id(22), 99,
    );
    assert_eq!(r.unwrap_err(), ExchangeError::Validation(EscrowError::AmountNotEqual));
    assert_eq!(funding.balance, 150);
    assert_eq!(receive.balance, 0);
    assert_eq!(vault.unwrap().balance, 100);
    assert!(escrow.status == EscrowStatus::Active);
}

/// Each bound field altered alone fails with its own error and changes
/// nothing: post-state equals pre-state exactly.
#[test]
fn identity_binding_each_field() {
    let cases: [(u64, u8, u8, u8, u8, ExchangeError); 5] = [
        (99, 1, 13, 12, 9, ExchangeError::Validation(EscrowError::AmountNotEqual)),
        (100, 3, 13, 12, 9, ExchangeError::Validation(EscrowError::InitializerMintNotMatched)),
        (100, 1, 14, 12, 9, ExchangeError::Validation(EscrowError::InitializerAccountNotMatched)),
        (100, 1, 13, 15, 9, ExchangeError::Validation(EscrowError::InitializerVaultAccountNotMatched)),
        (100, 1, 13, 12, 8, ExchangeError::Validation(EscrowError::InitializerPdaNotMatched)),
    ];
    for (amount, mint, receive_key, vault_key, presented_custody, expected) in cases {
        let (out, _deposit) = locked_escrow();
        let mut escrow = out.escrow_account;
        let mut vault_acct = out.vault_account;
        vault_acct.key = id(vault_key);
        let mut vault = Some(vault_acct);
        let mut receive = out.initializer_receive_account;
        receive.key = id(receive_key);
        let mut funding = account(20, 2, 21, 150);

        let r = exchange_token_with_authority(
            &mut escrow,
            &mut vault,
            id(9),
            id(presented_custody),
            id(mint),
            id(21),
            &mut funding,
            &mut receive,
            id(22),
            amount,
        );
        assert_eq!(r.unwrap_err(), expected);
        assert_eq!(funding.balance, 150);
        assert_eq!(receive.balance, 0);
        assert_eq!(vault.unwrap().balance, 100);
        assert!(escrow.status == EscrowStatus::Active);
        assert_eq!(escrow.amount, 100);
    }
}

/// Conservation: the counterparty's desired-asset balance falls by exactly
/// the amount, the initializer's receive balance rises by exactly it, the new
/// receive account holds exactly the locked funds, and the vault is gone.
#[test]
fn conservation_on_success() {
    let (out, _deposit) = locked_escrow();
    let mut escrow = out.escrow_account;
    let mut vault = Some(out.vault_account);
    let mut receive = out.initializer_receive_account;
    let mut funding = account(20, 2, 21, 101);

    let funding_before = funding.balance;
    let receive_before = receive.balance;
    let got = exchange_token_with_authority(
        &mut escrow, &mut vault, id(9), id(9), id(1), id(21), &mut funding, &mut receive,
        id(22), 100,
    )
    .unwrap();
    assert_eq!(funding_before - funding.balance, 100);
    assert_eq!(receive.balance - receive_before, 100);
    assert_eq!(got.balance, 100);
    assert!(vault.is_none());
}

/// Custody irrevocability: after initialization the offering party's own
/// signature moves nothing out of the vault; only the custody authority's
/// does.
#[test]
fn custody_is_irrevocable() {
    let (out, _deposit) = locked_escrow();
    let mut vault = out.vault_account;
    let mut elsewhere = account(30, 1, 11, 0);

    let theft = transfer(&mut vault, &mut elsewhere, &id(11), 100);
    assert_eq!(theft.unwrap_err(), TransferError::NotAuthorized);
    assert_eq!(vault.balance, 100);
    assert_eq!(elsewhere.balance, 0);

    let reauth = set_authority(&mut vault, &id(11), id(11));
    assert_eq!(reauth.unwrap_err(), TransferError::NotAuthorized);
    assert!(vault.authority.equals(&id(9)));

    let authorized_move = transfer(&mut vault, &mut elsewhere, &id(9), 100);
    assert!(authorized_move.is_ok());
    assert_eq!(elsewhere.balance, 100);
}

#[test]
fn consumed_record_is_refused() {
    let (out, _deposit) = locked_escrow();
    let mut escrow = out.escrow_account;
    escrow.status = EscrowStatus::Consumed;
    let mut vault = Some(out.vault_account);
    let mut receive = out.initializer_receive_account;
    let mut funding = account(20, 2, 21, 150);

    let r = exchange_token_with_authority(
        &mut escrow, &mut vault, id(9), id(9), id(1), id(21), &mut funding, &mut receive,
        id(22), 100,
    );
    assert_eq!(r.unwrap_err(), ExchangeError::RecordConsumed);
    assert_eq!(funding.balance, 150);
}

#[test]
fn underfunded_counterparty_is_refused() {
    let (out, _deposit) = locked_escrow();
    let mut escrow = out.escrow_account;
    let mut vault = Some(out.vault_account);
    let mut receive = out.initializer_receive_account;
    let mut funding = account(20, 2, 21, 99);

    let r = exchange_token_with_authority(
        &mut escrow, &mut vault, id(9), id(9), id(1), id(21), &mut funding, &mut receive,
        id(22), 100,
    );
    assert_eq!(r.unwrap_err(), ExchangeError::Service(TransferError::InsufficientFunds));
    assert_eq!(funding.balance, 99);
    assert_eq!(vault.unwrap().balance, 100);
}

#[test]
fn foreign_funding_account_is_refused() {
    let (out, _deposit) = locked_escrow();
    let mut escrow = out.escrow_account;
    let mut vault = Some(out.vault_account);
    let mut receive = out.initializer_receive_account;
    let mut funding = account(20, 2, 23, 150);

    let r = exchange_token_with_authority(
        &mut escrow, &mut vault, id(9), id(9), id(1), id(21), &mut funding, &mut receive,
        id(22), 100,
    );
    assert_eq!(r.unwrap_err(), ExchangeError::Service(TransferError::NotAuthorized));
    assert_eq!(funding.balance, 150);
}

#[test]
fn wrong_desired_asset_is_refused() {
    let (out, _deposit) = locked_escrow();
    let mut escrow = out.escrow_account;
    let mut vault = Some(out.vault_account);
    let mut receive = out.initializer_receive_account;
    // B's funding holds asset 4, the initializer wants asset 2
    let mut funding = account(20, 4, 21, 150);

    let r = exchange_token_with_authority(
        &mut escrow, &mut vault, id(9), id(9), id(1), id(21), &mut funding, &mut receive,
        id(22), 100,
    );
    assert_eq!(r.unwrap_err(), ExchangeError::Service(TransferError::MintMismatch));
    assert_eq!(funding.balance, 150);
}

#[test]
fn receive_balance_overflow_is_refused() {
    let (out, _deposit) = locked_escrow();
    let mut escrow = out.escrow_account;
    let mut vault = Some(out.vault_account);
    let mut receive = out.initializer_receive_account;
    receive.balance = u64::MAX - 99;
    let mut funding = account(20, 2, 21, 150);

    let r = exchange_token_with_authority(
        &mut escrow, &mut vault, id(9), id(9), id(1), id(21), &mut funding, &mut receive,
        id(22), 100,
    );
    assert_eq!(r.unwrap_err(), ExchangeError::Service(TransferError::BalanceOverflow));
    assert_eq!(receive.balance, u64::MAX - 99);
}

#[test]
fn overfilled_vault_cannot_close() {
    let (out, _deposit) = locked_escrow();
    let mut escrow = out.escrow_account;
    let mut vault_acct = out.vault_account;
    vault_acct.balance = 101;
    let mut vault = Some(vault_acct);
    let mut receive = out.initializer_receive_account;
    let mut funding = account(20, 2, 21, 150);

    let r = exchange_token_with_authority(
        &mut escrow, &mut vault, id(9), id(9), id(1), id(21), &mut funding, &mut receive,
        id(22), 100,
    );
    assert_eq!(r.unwrap_err(), ExchangeError::Service(TransferError::NonEmptyAccount));
    assert_eq!(funding.balance, 150);
    assert_eq!(vault.unwrap().balance, 101);
}

#[test]
fn close_account_demands_empty_and_authorized() {
    let mut slot = Some(account(30, 1, 9, 5));
    assert_eq!(close_account(&mut slot, &id(9)).unwrap_err(), TransferError::NonEmptyAccount);
    assert!(slot.is_some());

    let mut slot = Some(account(30, 1, 9, 0));
    assert_eq!(close_account(&mut slot, &id(8)).unwrap_err(), TransferError::NotAuthorized);
    assert!(slot.is_some());

    let mut slot = Some(account(30, 1, 9, 0));
    assert!(close_account(&mut slot, &id(9)).is_ok());
    assert!(slot.is_none());
    assert_eq!(close_account(&mut slot, &id(9)).unwrap_err(), TransferError::AccountUnavailable);
}

/// The library's custody derivation agrees with the ledger's own
/// program-derived-address search for the same seed label.
#[test]
fn custody_authority_matches_ledger_derivation() {
    let program = id(42);
    let derived = token_escrow::authority::derive_custody_authority(&program)
        .expect("a custody authority derives for this program identity");

    let pk = anchor_lang::prelude::Pubkey::new_from_array([42u8; 32]);
    let (expected, _bump) =
        anchor_lang::prelude::Pubkey::find_program_address(&[b"escrow"], &pk);
    assert_eq!(derived.bytes, expected.to_bytes());
    assert_ne!(derived.bytes, [42u8; 32]);
}

/// The whole protocol through the public operations, custody authority
/// re-derived from the program identity on both sides.
#[test]
fn end_to_end_with_real_derivation() {
    let program = id(42);
    let custody = token_escrow::authority::derive_custody_authority(&program).unwrap();

    let mut deposit = account(10, 1, 11, 500);
    let out = initialize_escrow(
        &program, id(11), id(1), id(2), &mut deposit, id(12), id(13), 100,
    )
    .unwrap();
    assert!(out.vault_account.authority.equals(&custody));

    let mut escrow = out.escrow_account;
    let mut vault = Some(out.vault_account);
    let mut receive = out.initializer_receive_account;
    let mut funding = account(20, 2, 21, 150);

    let got = exchange_token(
        &program, &mut escrow, &mut vault, custody, id(1), id(21), &mut funding, &mut receive,
        id(22), 100,
    )
    .unwrap();
    assert_eq!(got.balance, 100);
    assert!(vault.is_none());

    // a forged custody account is caught against the re-derivation
    let (out2, _dep2) = locked_escrow();
    let mut escrow2 = out2.escrow_account;
    let mut vault2 = Some(out2.vault_account);
    let mut receive2 = out2.initializer_receive_account;
    let r = exchange_token(
        &program, &mut escrow2, &mut vault2, id(9), id(1), id(21), &mut funding, &mut receive2,
        id(22), 100,
    );
    assert_eq!(
        r.unwrap_err(),
        ExchangeError::Validation(EscrowError::InitializerPdaNotMatched)
    );
}
