use vstd::prelude::*;

use crate::authority::custody_authority_of;
use crate::authority::derive_custody_authority;
use crate::identity::Identity;
use crate::token::authorized;
use crate::token::close_account;
use crate::token::set_authority;
use crate::token::transfer;
use crate::token::transfer_error;
use crate::token::transfer_ok;
use crate::token::TokenAccount;
use crate::token::TransferError;

verus! {

/// Lifecycle of an escrow record: created `Active`, consumed by the one
/// successful exchange, never anything else.
#[derive(Clone, Copy, Debug, PartialEq, Eq, Structural)]
pub enum EscrowStatus {
    Active,
    Consumed,
}

/// The persistent record of one pending swap: the locked amount and the four
/// identities every exchange is validated against.
#[derive(Clone, Copy, Debug)]
pub struct EscrowAccount {
    pub amount: u64,
    pub initializer: Identity,
    pub initializer_mint: Identity,
    pub vault_account: Identity,
    pub initializer_receive_account: Identity,
    pub status: EscrowStatus,
}

/// A validation failure of the exchange operation. Each guards one field of
/// the record against substitution.
#[derive(Clone, Copy, Debug, PartialEq, Eq, Structural)]
pub enum EscrowError {
    AmountNotEqual,
    InitializerMintNotMatched,
    InitializerAccountNotMatched,
    InitializerVaultAccountNotMatched,
    InitializerPdaNotMatched,
}

/// Why initialization aborted: a zero offer, a failure of the external
/// transfer service, or a program identity for which no custody authority
/// derives.
#[derive(Clone, Copy, Debug, PartialEq, Eq, Structural)]
pub enum InitializeError {
    /// The record invariant demands a positive locked amount; a zero-value
    /// swap is refused before anything is created.
    ZeroAmount,
    Service(TransferError),
    AuthorityUnderivable,
}

/// Why an exchange aborted: one of the five validations, a failure of the
/// external services, a record already consumed, or a program identity for
/// which no custody authority derives.
#[derive(Clone, Copy, Debug, PartialEq, Eq, Structural)]
pub enum ExchangeError {
    Validation(EscrowError),
    Service(TransferError),
    RecordConsumed,
    AuthorityUnderivable,
}

/// Everything a successful initialization creates: the record, the vault
/// funded and held by the custody authority, and the initializer's receive
/// account for the desired asset.
#[derive(Clone, Copy, Debug)]
pub struct InitializedEscrow {
    pub escrow_account: EscrowAccount,
    pub vault_account: TokenAccount,
    pub initializer_receive_account: TokenAccount,
}

/// Every condition under which initialization succeeds: the offered amount is
/// positive (the record invariant), and the funding account belongs to the
/// initializer, holds the offered asset kind, and holds at least that amount.
pub open spec fn initialize_ok(
    deposit: TokenAccount,
    initializer: Identity,
    initializer_mint: Identity,
    amount: u64,
) -> bool {
    &&& amount > 0
    &&& deposit.balance >= amount
    &&& deposit.authority@ == initializer@
    &&& deposit.mint@ == initializer_mint@
}

/// The failure initialization reports, first failed check winning: the zero
/// guard, then the host's funding-balance constraint, which it evaluates
/// before anything else, then the transfer service's own checks.
pub open spec fn initialize_error(
    deposit: TokenAccount,
    initializer: Identity,
    initializer_mint: Identity,
    amount: u64,
) -> InitializeError
    recommends
        !initialize_ok(deposit, initializer, initializer_mint, amount),
{
    if amount == 0 {
        InitializeError::ZeroAmount
    } else if deposit.balance < amount {
        InitializeError::Service(TransferError::InsufficientFunds)
    } else if deposit.authority@ != initializer@ {
        InitializeError::Service(TransferError::NotAuthorized)
    } else {
        InitializeError::Service(TransferError::MintMismatch)
    }
}

/// What a successful initialization leaves behind, stated over the old and
/// new value of the funding account and the created accounts.
pub open spec fn initialize_post(
    out: InitializedEscrow,
    custody_authority: Identity,
    initializer: Identity,
    initializer_mint: Identity,
    receiver_mint: Identity,
    deposit_old: TokenAccount,
    deposit_new: TokenAccount,
    vault_key: Identity,
    receive_key: Identity,
    amount: u64,
) -> bool {
    &&& out.escrow_account.amount == amount
    &&& out.escrow_account.amount > 0
    &&& out.escrow_account.initializer == initializer
    &&& out.escrow_account.initializer_mint == initializer_mint
    &&& out.escrow_account.vault_account == vault_key
    &&& out.escrow_account.initializer_receive_account == receive_key
    &&& out.escrow_account.status is Active
    &&& out.vault_account.key == vault_key
    &&& out.vault_account.mint == initializer_mint
    &&& out.vault_account.authority == custody_authority
    &&& out.vault_account.balance == amount
    &&& out.initializer_receive_account.key == receive_key
    &&& out.initializer_receive_account.mint == receiver_mint
    &&& out.initializer_receive_account.authority == initializer
    &&& out.initializer_receive_account.balance == 0
    &&& deposit_new.balance == deposit_old.balance - amount
    &&& deposit_new.key == deposit_old.key
    &&& deposit_new.mint == deposit_old.mint
    &&& deposit_new.authority == deposit_old.authority
}

/// Creates the vault and the initializer's receive account, hands the vault
/// irrevocably to the given custody authority, deposits the offered amount,
/// and writes the record — or fails with no effect at all. A zero amount is
/// refused outright, so every persisted record locks a positive amount.
///
/// The host creates the two fresh accounts (`vault_key`, `receive_key`) for
/// the operation; this function gives them their initial state.
pub fn initialize_escrow_with_authority(
    custody_authority: Identity,
    initializer: Identity,
    initializer_mint: Identity,
    receiver_mint: Identity,
    initializer_deposit_account: &mut TokenAccount,
    vault_key: Identity,
    receive_key: Identity,
    amount: u64,
) -> (r: Result<InitializedEscrow, InitializeError>)
    ensures
        r is Ok <==> initialize_ok(
            *old(initializer_deposit_account),
            initializer,
            initializer_mint,
            amount,
        ),
        r matches Ok(out) ==> initialize_post(
            out,
            custody_authority,
            initializer,
            initializer_mint,
            receiver_mint,
            *old(initializer_deposit_account),
            *final(initializer_deposit_account),
            vault_key,
            receive_key,
            amount,
        ),
        r is Err ==> *final(initializer_deposit_account) == *old(initializer_deposit_account),
        r matches Err(e) ==> e == initialize_error(
            *old(initializer_deposit_account),
            initializer,
            initializer_mint,
            amount,
        ),
{
    // The record invariant: only a positive amount may be locked.
    if amount == 0 {
        return Err(InitializeError::ZeroAmount);
    }
    // The host evaluates the funding-balance constraint before anything else.
    if initializer_deposit_account.balance < amount {
        return Err(InitializeError::Service(TransferError::InsufficientFunds));
    }
    // The host creates the vault for the offered asset and the receive
    // account for the desired asset, both owned by the initializer.
    let mut vault = TokenAccount {
        key: vault_key,
        mint: initializer_mint,
        authority: initializer,
        balance: 0,
    };
    let receive = TokenAccount {
        key: receive_key,
        mint: receiver_mint,
        authority: initializer,
        balance: 0,
    };
    // Irrevocable custody handover: from here on, only the custody authority
    // may move vault funds.
    match set_authority(&mut vault, &initializer, custody_authority) {
        Ok(()) => {},
        Err(_) => {
            // The vault was created under the initializer's authority.
            return vstd::pervasive::unreached();
        },
    }
    // Lock the offered amount in the vault.
    match transfer(initializer_deposit_account, &mut vault, &initializer, amount) {
        Err(e) => Err(InitializeError::Service(e)),
        Ok(()) => Ok(
            InitializedEscrow {
                escrow_account: EscrowAccount {
                    amount,
                    initializer,
                    initializer_mint,
                    vault_account: vault_key,
                    initializer_receive_account: receive_key,
                    status: EscrowStatus::Active,
                },
                vault_account: vault,
                initializer_receive_account: receive,
            },
        ),
    }
}

/// Like `initialize_escrow_with_authority`, deriving the custody authority
/// from the program identity itself, as the ledger program does.
pub fn initialize_escrow(
    program_id: &Identity,
    initializer: Identity,
    initializer_mint: Identity,
    receiver_mint: Identity,
    initializer_deposit_account: &mut TokenAccount,
    vault_key: Identity,
    receive_key: Identity,
    amount: u64,
) -> (r: Result<InitializedEscrow, InitializeError>)
    ensures
        custody_authority_of(program_id@) is None ==> (r matches Err(e)
            && e == InitializeError::AuthorityUnderivable),
        custody_authority_of(program_id@) matches Some(auth) ==> ({
            &&& r is Ok <==> initialize_ok(
                *old(initializer_deposit_account),
                initializer,
                initializer_mint,
                amount,
            )
            &&& (r matches Ok(out) ==> out.vault_account.authority@ == auth
                && initialize_post(
                out,
                out.vault_account.authority,
                initializer,
                initializer_mint,
                receiver_mint,
                *old(initializer_deposit_account),
                *final(initializer_deposit_account),
                vault_key,
                receive_key,
                amount,
            ))
            &&& (r matches Err(e) ==> e == initialize_error(
                *old(initializer_deposit_account),
                initializer,
                initializer_mint,
                amount,
            ))
        }),
        r is Err ==> *final(initializer_deposit_account) == *old(initializer_deposit_account),
{
    match derive_custody_authority(program_id) {
        None => Err(InitializeError::AuthorityUnderivable),
        Some(custody) => initialize_escrow_with_authority(
            custody,
            initializer,
            initializer_mint,
            receiver_mint,
            initializer_deposit_account,
            vault_key,
            receive_key,
            amount,
        ),
    }
}

/// The five validations of the exchange, in the order they run; the first
/// failure names the error.
pub open spec fn validation_error(
    escrow: EscrowAccount,
    presented_mint: Identity,
    presented_receive_key: Identity,
    presented_vault_key: Identity,
    derived_custody: Seq<u8>,
    presented_custody: Identity,
    amount: u64,
) -> Option<EscrowError> {
    if escrow.amount != amount {
        Some(EscrowError::AmountNotEqual)
    } else if escrow.initializer_mint@ != presented_mint@ {
        Some(EscrowError::InitializerMintNotMatched)
    } else if escrow.initializer_receive_account@ != presented_receive_key@ {
        Some(EscrowError::InitializerAccountNotMatched)
    } else if escrow.vault_account@ != presented_vault_key@ {
        Some(EscrowError::InitializerVaultAccountNotMatched)
    } else if derived_custody != presented_custody@ {
        Some(EscrowError::InitializerPdaNotMatched)
    } else {
        None
    }
}

/// Every condition the custody side of the exchange needs: the vault answers
/// to the presented custody account, holds the offered asset, and holds
/// exactly the locked amount (so that the payout empties it and it can
/// close).
pub open spec fn vault_service_ok(
    vault: TokenAccount,
    presented_custody: Identity,
    presented_mint: Identity,
    amount: u64,
) -> bool {
    &&& authorized(vault, presented_custody)
    &&& vault.mint@ == presented_mint@
    &&& vault.balance == amount
}

/// The service failure of the custody side, first failed check winning.
pub open spec fn vault_service_error(
    vault: TokenAccount,
    presented_custody: Identity,
    presented_mint: Identity,
    amount: u64,
) -> TransferError
    recommends
        !vault_service_ok(vault, presented_custody, presented_mint, amount),
{
    if !authorized(vault, presented_custody) {
        TransferError::NotAuthorized
    } else if vault.mint@ != presented_mint@ {
        TransferError::MintMismatch
    } else if vault.balance < amount {
        TransferError::InsufficientFunds
    } else {
        TransferError::NonEmptyAccount
    }
}

/// Every condition under which the exchange goes through.
pub open spec fn exchange_ok(
    escrow: EscrowAccount,
    vault: Option<TokenAccount>,
    derived_custody: Seq<u8>,
    presented_custody: Identity,
    presented_mint: Identity,
    receiver: Identity,
    funding: TokenAccount,
    receive: TokenAccount,
    amount: u64,
) -> bool {
    &&& vault matches Some(v)
    &&& escrow.status is Active
    &&& validation_error(
        escrow,
        presented_mint,
        receive.key,
        v.key,
        derived_custody,
        presented_custody,
        amount,
    ) is None
    &&& transfer_ok(funding, receive, receiver, amount)
    &&& vault_service_ok(v, presented_custody, presented_mint, amount)
}

/// The error a refused exchange reports: account resolution first, then the
/// record's own state, then the five validations, then the two transfers and
/// the close of the external service.
pub open spec fn exchange_error(
    escrow: EscrowAccount,
    vault: Option<TokenAccount>,
    derived_custody: Seq<u8>,
    presented_custody: Identity,
    presented_mint: Identity,
    receiver: Identity,
    funding: TokenAccount,
    receive: TokenAccount,
    amount: u64,
) -> ExchangeError
    recommends
        !exchange_ok(
            escrow,
            vault,
            derived_custody,
            presented_custody,
            presented_mint,
            receiver,
            funding,
            receive,
            amount,
        ),
{
    match vault {
        None => ExchangeError::Service(TransferError::AccountUnavailable),
        Some(v) => if escrow.status is Consumed {
            ExchangeError::RecordConsumed
        } else {
            match validation_error(
                escrow,
                presented_mint,
                receive.key,
                v.key,
                derived_custody,
                presented_custody,
                amount,
            ) {
                Some(e) => ExchangeError::Validation(e),
                None => if !transfer_ok(funding, receive, receiver, amount) {
                    ExchangeError::Service(transfer_error(funding, receive, receiver, amount))
                } else {
                    ExchangeError::Service(
                        vault_service_error(v, presented_custody, presented_mint, amount),
                    )
                },
            }
        },
    }
}

/// What a successful exchange leaves behind: conservation of both assets, the
/// vault gone, the record consumed and otherwise untouched.
pub open spec fn exchange_post(
    escrow_old: EscrowAccount,
    escrow_new: EscrowAccount,
    vault_new: Option<TokenAccount>,
    funding_old: TokenAccount,
    funding_new: TokenAccount,
    receive_old: TokenAccount,
    receive_new: TokenAccount,
    out: TokenAccount,
    receiver_receive_key: Identity,
    presented_mint: Identity,
    receiver: Identity,
    amount: u64,
) -> bool {
    &&& out.key == receiver_receive_key
    &&& out.mint == presented_mint
    &&& out.authority == receiver
    &&& out.balance == amount
    &&& funding_new.balance == funding_old.balance - amount
    &&& funding_new.key == funding_old.key
    &&& funding_new.mint == funding_old.mint
    &&& funding_new.authority == funding_old.authority
    &&& receive_new.balance == receive_old.balance + amount
    &&& receive_new.key == receive_old.key
    &&& receive_new.mint == receive_old.mint
    &&& receive_new.authority == receive_old.authority
    &&& vault_new is None
    &&& escrow_new.status is Consumed
    &&& escrow_new.amount == escrow_old.amount
    &&& escrow_new.initializer == escrow_old.initializer
    &&& escrow_new.initializer_mint == escrow_old.initializer_mint
    &&& escrow_new.vault_account == escrow_old.vault_account
    &&& escrow_new.initializer_receive_account == escrow_old.initializer_receive_account
}

/// Validates a counter-offer against the record and, only if all five checks
/// and every service precondition hold, pays the initializer, pays the
/// counterparty out of the vault, closes the vault and consumes the record —
/// one atomic step. Any failure leaves every account exactly as it was.
pub fn exchange_token_with_authority(
    escrow_account: &mut EscrowAccount,
    vault_slot: &mut Option<TokenAccount>,
    derived_custody: Identity,
    presented_custody: Identity,
    presented_mint: Identity,
    receiver: Identity,
    receiver_token_account: &mut TokenAccount,
    initializer_receive_account: &mut TokenAccount,
    receiver_receive_key: Identity,
    amount: u64,
) -> (r: Result<TokenAccount, ExchangeError>)
    ensures
        r is Ok <==> exchange_ok(
            *old(escrow_account),
            *old(vault_slot),
            derived_custody@,
            presented_custody,
            presented_mint,
            receiver,
            *old(receiver_token_account),
            *old(initializer_receive_account),
            amount,
        ),
        r matches Ok(out) ==> exchange_post(
            *old(escrow_account),
            *final(escrow_account),
            *final(vault_slot),
            *old(receiver_token_account),
            *final(receiver_token_account),
            *old(initializer_receive_account),
            *final(initializer_receive_account),
            out,
            receiver_receive_key,
            presented_mint,
            receiver,
            amount,
        ),
        r is Err ==> ({
            &&& *final(escrow_account) == *old(escrow_account)
            &&& *final(vault_slot) == *old(vault_slot)
            &&& *final(receiver_token_account) == *old(receiver_token_account)
            &&& *final(initializer_receive_account) == *old(initializer_receive_account)
        }),
        r matches Err(e) ==> e == exchange_error(
            *old(escrow_account),
            *old(vault_slot),
            derived_custody@,
            presented_custody,
            presented_mint,
            receiver,
            *old(receiver_token_account),
            *old(initializer_receive_account),
            amount,
        ),
{
    // The host resolves the vault account; a closed vault fails here, before
    // any of this program's logic runs.
    let resolved: Option<TokenAccount> = *vault_slot;
    let vault = match resolved {
        None => {
            return Err(ExchangeError::Service(TransferError::AccountUnavailable));
        },
        Some(v) => v,
    };
    // The record is a one-shot lock: only an active record can be exchanged.
    match escrow_account.status {
        EscrowStatus::Consumed => {
            return Err(ExchangeError::RecordConsumed);
        },
        EscrowStatus::Active => {},
    }
    // The five validations, in order.
    if escrow_account.amount != amount {
        return Err(ExchangeError::Validation(EscrowError::AmountNotEqual));
    }
    if !escrow_account.initializer_mint.equals(&presented_mint) {
        return Err(ExchangeError::Validation(EscrowError::InitializerMintNotMatched));
    }
    if !escrow_account.initializer_receive_account.equals(&initializer_receive_account.key) {
        return Err(ExchangeError::Validation(EscrowError::InitializerAccountNotMatched));
    }
    if !escrow_account.vault_account.equals(&vault.key) {
        return Err(ExchangeError::Validation(EscrowError::InitializerVaultAccountNotMatched));
    }
    if !derived_custody.equals(&presented_custody) {
        return Err(ExchangeError::Validation(EscrowError::InitializerPdaNotMatched));
    }
    // The host applies the whole operation atomically: establish every
    // precondition of the two transfers and the close before moving anything,
    // so that no partial state can remain.
    if !receiver_token_account.authority.equals(&receiver) {
        return Err(ExchangeError::Service(TransferError::NotAuthorized));
    }
    if !receiver_token_account.mint.equals(&initializer_receive_account.mint) {
        return Err(ExchangeError::Service(TransferError::MintMismatch));
    }
    if receiver_token_account.balance < amount {
        return Err(ExchangeError::Service(TransferError::InsufficientFunds));
    }
    if initializer_receive_account.balance > u64::MAX - amount {
        return Err(ExchangeError::Service(TransferError::BalanceOverflow));
    }
    if !vault.authority.equals(&presented_custody) {
        return Err(ExchangeError::Service(TransferError::NotAuthorized));
    }
    if !vault.mint.equals(&presented_mint) {
        return Err(ExchangeError::Service(TransferError::MintMismatch));
    }
    if vault.balance < amount {
        return Err(ExchangeError::Service(TransferError::InsufficientFunds));
    }
    if vault.balance > amount {
        return Err(ExchangeError::Service(TransferError::NonEmptyAccount));
    }
    // The counterparty pays the initializer's receive account.
    match transfer(receiver_token_account, initializer_receive_account, &receiver, amount) {
        Ok(()) => {},
        Err(_) => {
            return vstd::pervasive::unreached();
        },
    }
    // The host creates the counterparty's receive account for the offered
    // asset; the custody authority pays the vault out into it.
    let mut paid_vault = vault;
    let mut receiver_receive_account = TokenAccount {
        key: receiver_receive_key,
        mint: presented_mint,
        authority: receiver,
        balance: 0,
    };
    match transfer(&mut paid_vault, &mut receiver_receive_account, &presented_custody, amount) {
        Ok(()) => {},
        Err(_) => {
            return vstd::pervasive::unreached();
        },
    }
    // The custody authority closes the now-empty vault.
    let mut closing: Option<TokenAccount> = Some(paid_vault);
    match close_account(&mut closing, &presented_custody) {
        Ok(()) => {},
        Err(_) => {
            return vstd::pervasive::unreached();
        },
    }
    *vault_slot = None;
    escrow_account.status = EscrowStatus::Consumed;
    Ok(receiver_receive_account)
}

/// Like `exchange_token_with_authority`, re-deriving the custody authority
/// from the program identity itself, as the ledger program does, before the
/// presented custody account is checked against it.
pub fn exchange_token(
    program_id: &Identity,
    escrow_account: &mut EscrowAccount,
    vault_slot: &mut Option<TokenAccount>,
    presented_custody: Identity,
    presented_mint: Identity,
    receiver: Identity,
    receiver_token_account: &mut TokenAccount,
    initializer_receive_account: &mut TokenAccount,
    receiver_receive_key: Identity,
    amount: u64,
) -> (r: Result<TokenAccount, ExchangeError>)
    ensures
        custody_authority_of(program_id@) is None ==> (r matches Err(e)
            && e == ExchangeError::AuthorityUnderivable),
        custody_authority_of(program_id@) matches Some(auth) ==> ({
            &&& (r is Ok <==> exchange_ok(
                *old(escrow_account),
                *old(vault_slot),
                auth,
                presented_custody,
                presented_mint,
                receiver,
                *old(receiver_token_account),
                *old(initializer_receive_account),
                amount,
            ))
            &&& (r matches Err(e) ==> e == exchange_error(
                *old(escrow_account),
                *old(vault_slot),
                auth,
                presented_custody,
                presented_mint,
                receiver,
                *old(receiver_token_account),
                *old(initializer_receive_account),
                amount,
            ))
        }),
        r matches Ok(out) ==> exchange_post(
            *old(escrow_account),
            *final(escrow_account),
            *final(vault_slot),
            *old(receiver_token_account),
            *final(receiver_token_account),
            *old(initializer_receive_account),
            *final(initializer_receive_account),
            out,
            receiver_receive_key,
            presented_mint,
            receiver,
            amount,
        ),
        r is Err ==> ({
            &&& *final(escrow_account) == *old(escrow_account)
            &&& *final(vault_slot) == *old(vault_slot)
            &&& *final(receiver_token_account) == *old(receiver_token_account)
            &&& *final(initializer_receive_account) == *old(initializer_receive_account)
        }),
{
    match derive_custody_authority(program_id) {
        None => Err(ExchangeError::AuthorityUnderivable),
        Some(derived) => exchange_token_with_authority(
            escrow_account,
            vault_slot,
            derived,
            presented_custody,
            presented_mint,
            receiver,
            receiver_token_account,
            initializer_receive_account,
            receiver_receive_key,
            amount,
        ),
    }
}

} // verus!
