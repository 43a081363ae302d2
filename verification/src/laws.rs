use vstd::prelude::*;

use crate::escrow::exchange_error;
use crate::escrow::exchange_ok;
use crate::escrow::initialize_post;
use crate::escrow::validation_error;
use crate::escrow::EscrowAccount;
use crate::escrow::EscrowError;
use crate::escrow::ExchangeError;
use crate::escrow::InitializedEscrow;
use crate::identity::Identity;
use crate::token::authorized;
use crate::token::transfer_error;
use crate::token::transfer_ok;
use crate::token::TokenAccount;
use crate::token::TransferError;

verus! {

/// A live escrow: an active record whose vault still exists, answers to the
/// custody authority, holds the offered asset, and holds exactly the locked
/// amount. Initialization establishes this, and it stands until the one
/// successful exchange consumes the record.
pub open spec fn escrow_live(escrow: EscrowAccount, vault: TokenAccount, custody: Seq<u8>) -> bool {
    &&& escrow.status is Active
    &&& vault.key@ == escrow.vault_account@
    &&& vault.mint@ == escrow.initializer_mint@
    &&& vault.authority@ == custody
    &&& vault.balance == escrow.amount
}

/// Law: whatever a successful initialization returns is a live escrow under
/// the custody authority it was given.
pub proof fn lemma_initialize_establishes_live(
    out: InitializedEscrow,
    custody_authority: Identity,
    initializer: Identity,
    initializer_mint: Identity,
    receiver_mint: Identity,
    deposit_old: TokenAccount,
    deposit_new: TokenAccount,
    vault_key: Identity,
    receive_key: Identity,
    amount: u64,
)
    requires
        initialize_post(
            out,
            custody_authority,
            initializer,
            initializer_mint,
            receiver_mint,
            deposit_old,
            deposit_new,
            vault_key,
            receive_key,
            amount,
        ),
    ensures
        escrow_live(out.escrow_account, out.vault_account, custody_authority@),
{
}

/// Law: custody is irrevocable. While the vault answers to the custody
/// authority, no other party — the offering party included — can move its
/// funds: the transfer service refuses them outright.
pub proof fn lemma_custody_irrevocable(
    vault: TokenAccount,
    custody_authority: Identity,
    party: Identity,
    destination: TokenAccount,
    amount: u64,
)
    requires
        vault.authority@ == custody_authority@,
        party@ != custody_authority@,
    ensures
        !authorized(vault, party),
        !transfer_ok(vault, destination, party, amount),
        transfer_error(vault, destination, party, amount) == TransferError::NotAuthorized,
{
}

/// Law: no double exchange. Once an exchange has consumed an escrow — its
/// vault is gone, its record is consumed — no further exchange of the same
/// record can go through, and a missing vault is refused before any of the
/// program's own validations run.
pub proof fn lemma_no_double_exchange(
    escrow: EscrowAccount,
    vault: Option<TokenAccount>,
    derived_custody: Seq<u8>,
    presented_custody: Identity,
    presented_mint: Identity,
    receiver: Identity,
    funding: TokenAccount,
    receive: TokenAccount,
    amount: u64,
)
    requires
        vault is None || escrow.status is Consumed,
    ensures
        !exchange_ok(
            escrow,
            vault,
            derived_custody,
            presented_custody,
            presented_mint,
            receiver,
            funding,
            receive,
            amount,
        ),
        vault is None ==> exchange_error(
            escrow,
            vault,
            derived_custody,
            presented_custody,
            presented_mint,
            receiver,
            funding,
            receive,
            amount,
        ) == ExchangeError::Service(TransferError::AccountUnavailable),
        vault is Some && escrow.status is Consumed ==> exchange_error(
            escrow,
            vault,
            derived_custody,
            presented_custody,
            presented_mint,
            receiver,
            funding,
            receive,
            amount,
        ) == ExchangeError::RecordConsumed,
{
}

/// Law: identity binding. Presenting the record with any one of its bound
/// fields altered — the amount, the offered-asset kind, the initializer's
/// receive account, the vault, or the custody account against the derived
/// authority — fails the validation that guards that field, the earlier
/// fields standing as recorded.
pub proof fn lemma_identity_binding(
    escrow: EscrowAccount,
    presented_mint: Identity,
    presented_receive_key: Identity,
    presented_vault_key: Identity,
    derived_custody: Seq<u8>,
    presented_custody: Identity,
    amount: u64,
)
    ensures
        amount != escrow.amount ==> validation_error(
            escrow,
            presented_mint,
            presented_receive_key,
            presented_vault_key,
            derived_custody,
            presented_custody,
            amount,
        ) == Some(EscrowError::AmountNotEqual),
        amount == escrow.amount && presented_mint@ != escrow.initializer_mint@
            ==> validation_error(
            escrow,
            presented_mint,
            presented_receive_key,
            presented_vault_key,
            derived_custody,
            presented_custody,
            amount,
        ) == Some(EscrowError::InitializerMintNotMatched),
        amount == escrow.amount && presented_mint@ == escrow.initializer_mint@
            && presented_receive_key@ != escrow.initializer_receive_account@
            ==> validation_error(
            escrow,
            presented_mint,
            presented_receive_key,
            presented_vault_key,
            derived_custody,
            presented_custody,
            amount,
        ) == Some(EscrowError::InitializerAccountNotMatched),
        amount == escrow.amount && presented_mint@ == escrow.initializer_mint@
            && presented_receive_key@ == escrow.initializer_receive_account@
            && presented_vault_key@ != escrow.vault_account@ ==> validation_error(
            escrow,
            presented_mint,
            presented_receive_key,
            presented_vault_key,
            derived_custody,
            presented_custody,
            amount,
        ) == Some(EscrowError::InitializerVaultAccountNotMatched),
        amount == escrow.amount && presented_mint@ == escrow.initializer_mint@
            && presented_receive_key@ == escrow.initializer_receive_account@
            && presented_vault_key@ == escrow.vault_account@
            && derived_custody != presented_custody@ ==> validation_error(
            escrow,
            presented_mint,
            presented_receive_key,
            presented_vault_key,
            derived_custody,
            presented_custody,
            amount,
        ) == Some(EscrowError::InitializerPdaNotMatched),
{
}

/// Law: a failed validation blocks the exchange, and names its own error.
pub proof fn lemma_validation_failure_blocks(
    escrow: EscrowAccount,
    vault: TokenAccount,
    derived_custody: Seq<u8>,
    presented_custody: Identity,
    presented_mint: Identity,
    receiver: Identity,
    funding: TokenAccount,
    receive: TokenAccount,
    amount: u64,
)
    requires
        escrow.status is Active,
        validation_error(
            escrow,
            presented_mint,
            receive.key,
            vault.key,
            derived_custody,
            presented_custody,
            amount,
        ) is Some,
    ensures
        !exchange_ok(
            escrow,
            Some(vault),
            derived_custody,
            presented_custody,
            presented_mint,
            receiver,
            funding,
            receive,
            amount,
        ),
        exchange_error(
            escrow,
            Some(vault),
            derived_custody,
            presented_custody,
            presented_mint,
            receiver,
            funding,
            receive,
            amount,
        ) == ExchangeError::Validation(
            validation_error(
                escrow,
                presented_mint,
                receive.key,
                vault.key,
                derived_custody,
                presented_custody,
                amount,
            ).unwrap(),
        ),
{
}

/// Law: success is owed. A live escrow accepts the matching counter-offer:
/// when the presented fields are the recorded ones, the presented custody
/// account is the derived authority, and the counterparty's own funding
/// account can pay, every check of the exchange passes.
pub proof fn lemma_live_escrow_accepts_matching_offer(
    escrow: EscrowAccount,
    vault: TokenAccount,
    derived_custody: Seq<u8>,
    presented_custody: Identity,
    presented_mint: Identity,
    receiver: Identity,
    funding: TokenAccount,
    receive: TokenAccount,
    amount: u64,
)
    requires
        escrow_live(escrow, vault, derived_custody),
        amount == escrow.amount,
        presented_mint@ == escrow.initializer_mint@,
        receive.key@ == escrow.initializer_receive_account@,
        presented_custody@ == derived_custody,
        transfer_ok(funding, receive, receiver, amount),
    ensures
        exchange_ok(
            escrow,
            Some(vault),
            derived_custody,
            presented_custody,
            presented_mint,
            receiver,
            funding,
            receive,
            amount,
        ),
{
}

} // verus!
