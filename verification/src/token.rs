use vstd::prelude::*;

use crate::identity::Identity;

verus! {

/// One fungible-token account on the ledger: its own address, the asset kind
/// it holds, the authority that may move its funds, and its balance.
#[derive(Clone, Copy, Debug)]
pub struct TokenAccount {
    pub key: Identity,
    pub mint: Identity,
    pub authority: Identity,
    pub balance: u64,
}

/// A failure of the external transfer service's primitives. Every one aborts
/// the surrounding operation; the ledger keeps none of its writes.
#[derive(Clone, Copy, Debug, PartialEq, Eq, Structural)]
pub enum TransferError {
    /// The account to act on does not resolve (it was closed or never existed).
    AccountUnavailable,
    /// The presented authorizer does not hold authority over the source account.
    NotAuthorized,
    /// Source and destination hold different asset kinds.
    MintMismatch,
    /// The source balance is smaller than the requested amount.
    InsufficientFunds,
    /// The destination balance would exceed the largest representable balance.
    BalanceOverflow,
    /// An account that must be empty before it closes still holds funds.
    NonEmptyAccount,
}

/// The authorizer holds authority over the account's funds.
pub open spec fn authorized(account: TokenAccount, authorizer: Identity) -> bool {
    account.authority@ == authorizer@
}

/// Every condition under which `transfer` moves funds.
pub open spec fn transfer_ok(
    from: TokenAccount,
    to: TokenAccount,
    authorizer: Identity,
    amount: u64,
) -> bool {
    &&& authorized(from, authorizer)
    &&& from.mint@ == to.mint@
    &&& from.balance >= amount
    &&& to.balance + amount <= u64::MAX
}

/// The reason for which `transfer` refuses, first failed check winning.
pub open spec fn transfer_error(
    from: TokenAccount,
    to: TokenAccount,
    authorizer: Identity,
    amount: u64,
) -> TransferError
    recommends
        !transfer_ok(from, to, authorizer, amount),
{
    if !authorized(from, authorizer) {
        TransferError::NotAuthorized
    } else if from.mint@ != to.mint@ {
        TransferError::MintMismatch
    } else if from.balance < amount {
        TransferError::InsufficientFunds
    } else {
        TransferError::BalanceOverflow
    }
}

/// Every condition under which `close_account` removes the account.
pub open spec fn close_ok(slot: Option<TokenAccount>, authorizer: Identity) -> bool {
    slot matches Some(a) && authorized(a, authorizer) && a.balance == 0
}

/// The reason for which `close_account` refuses, first failed check winning.
pub open spec fn close_error(slot: Option<TokenAccount>, authorizer: Identity) -> TransferError
    recommends
        !close_ok(slot, authorizer),
{
    match slot {
        None => TransferError::AccountUnavailable,
        Some(a) => if !authorized(a, authorizer) {
            TransferError::NotAuthorized
        } else {
            TransferError::NonEmptyAccount
        },
    }
}

/// Moves `amount` from `from` to `to` when the authorizer holds authority over
/// `from`, the asset kinds agree, and both balances allow it; otherwise it
/// refuses and changes nothing. This models the external transfer service's
/// `transfer` primitive, which the host applies atomically.
pub fn transfer(
    from: &mut TokenAccount,
    to: &mut TokenAccount,
    authorizer: &Identity,
    amount: u64,
) -> (r: Result<(), TransferError>)
    ensures
        r is Ok <==> transfer_ok(*old(from), *old(to), *authorizer, amount),
        r is Ok ==> ({
            &&& final(from).balance == old(from).balance - amount
            &&& final(to).balance == old(to).balance + amount
            &&& final(from).key == old(from).key
            &&& final(from).mint == old(from).mint
            &&& final(from).authority == old(from).authority
            &&& final(to).key == old(to).key
            &&& final(to).mint == old(to).mint
            &&& final(to).authority == old(to).authority
        }),
        r is Err ==> *final(from) == *old(from) && *final(to) == *old(to),
        r matches Err(e) ==> e == transfer_error(*old(from), *old(to), *authorizer, amount),
{
    if !from.authority.equals(authorizer) {
        return Err(TransferError::NotAuthorized);
    }
    if !from.mint.equals(&to.mint) {
        return Err(TransferError::MintMismatch);
    }
    if from.balance < amount {
        return Err(TransferError::InsufficientFunds);
    }
    if to.balance > u64::MAX - amount {
        return Err(TransferError::BalanceOverflow);
    }
    from.balance = from.balance - amount;
    to.balance = to.balance + amount;
    Ok(())
}

/// Reassigns authority over the account when the current authority asks for
/// it; otherwise it refuses and changes nothing. This models the external
/// service's `setAuthority` primitive, the irrevocable custody handover of
/// escrow initialization.
pub fn set_authority(
    account: &mut TokenAccount,
    current: &Identity,
    new_authority: Identity,
) -> (r: Result<(), TransferError>)
    ensures
        r is Ok <==> authorized(*old(account), *current),
        r is Ok ==> ({
            &&& final(account).authority == new_authority
            &&& final(account).key == old(account).key
            &&& final(account).mint == old(account).mint
            &&& final(account).balance == old(account).balance
        }),
        r is Err ==> *final(account) == *old(account),
        r matches Err(e) ==> e == TransferError::NotAuthorized,
{
    if !account.authority.equals(current) {
        return Err(TransferError::NotAuthorized);
    }
    account.authority = new_authority;
    Ok(())
}

/// Closes the account held in `slot`: afterwards the slot no longer resolves.
/// Only the account's authority may close it, and only once it holds no
/// funds. This models the external service's `closeAccount` primitive; the
/// storage-fee refund it pays out lies outside this model.
pub fn close_account(slot: &mut Option<TokenAccount>, authorizer: &Identity) -> (r: Result<
    (),
    TransferError,
>)
    ensures
        r is Ok <==> close_ok(*old(slot), *authorizer),
        r is Ok ==> *final(slot) is None,
        r is Err ==> *final(slot) == *old(slot),
        r matches Err(e) ==> e == close_error(*old(slot), *authorizer),
{
    let resolved: Option<TokenAccount> = *slot;
    match resolved {
        None => Err(TransferError::AccountUnavailable),
        Some(account) => {
            if !account.authority.equals(authorizer) {
                Err(TransferError::NotAuthorized)
            } else if account.balance != 0 {
                Err(TransferError::NonEmptyAccount)
            } else {
                *slot = None;
                Ok(())
            }
        },
    }
}

} // verus!
