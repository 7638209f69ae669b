//! Model of the asset-ledger collaborator: holding accounts, the
//! authorization capability, and the two atomic primitives the fulfillment
//! protocol consumes — an asset transfer and an account closure.
//!
//! Authorization is explicit capability passing: moving funds out of an
//! account takes either the holder's own authorization or a custody proof
//! minted from an offer's identifier and bump, never ambient context.

use vstd::prelude::*;
use crate::offer::AccountId;
use crate::offer::spec_vault_address;
use crate::offer::spec_vault_bump;
use crate::offer::vault_bump;

verus! {

/// A holding account: one party's balance of one asset type, together with
/// the storage deposit that was paid to keep the account alive and is
/// refunded when the account is closed.
#[derive(Clone, Copy, PartialEq, Eq, Structural, Debug)]
pub struct TokenAccount {
    /// The identity whose authorization moves funds out of this account.
    pub owner: AccountId,
    /// Asset type descriptor of the balance this account tracks.
    pub mint: AccountId,
    /// Units of `mint` currently held.
    pub balance: u64,
    /// Storage deposit refunded to the closure's recipient.
    pub rent_deposit: u64,
}

/// The capability that authorizes an outgoing movement.
#[derive(Clone, Copy, PartialEq, Eq, Structural, Debug)]
pub enum Authority {
    /// A party acting for itself (its signature).
    Holder { key: AccountId },
    /// A custody proof minted by code that holds an offer's identifier and
    /// bump; valid only when the bump is the canonical discriminant, and
    /// only over the account owned by that offer's derived address.
    Custody { id: u64, bump: u8 },
}

/// Whether `authority` may move funds out of an account owned by `owner`.
pub open spec fn spec_authorizes(authority: Authority, owner: AccountId) -> bool {
    match authority {
        Authority::Holder { key } => owner == key,
        Authority::Custody { id, bump } => bump == spec_vault_bump(id) && owner
            == spec_vault_address(id),
    }
}

/// Checks an authorization capability against an account owner.
pub fn authorizes(authority: &Authority, owner: &AccountId) -> (r: bool)
    ensures
        r == spec_authorizes(*authority, *owner),
{
    match authority {
        Authority::Holder { key } => *key == *owner,
        Authority::Custody { id, bump } => *bump == vault_bump(*id) && *owner
            == crate::offer::derive_vault_address(*id).0,
    }
}

/// Why a transfer was refused; the ledger refuses in this fixed order.
#[derive(Clone, Copy, PartialEq, Eq, Structural, Debug)]
pub enum TransferError {
    /// An endpoint's declared asset type differs from the one being moved.
    WrongAssetType,
    /// The capability does not authorize the source account.
    NotAuthorized,
    /// The source holds fewer units than the amount requested.
    InsufficientBalance,
    /// The destination's balance cannot take the amount without overflow.
    BalanceOverflow,
}

/// Why a closure was refused; the ledger refuses in this fixed order.
#[derive(Clone, Copy, PartialEq, Eq, Structural, Debug)]
pub enum CloseError {
    /// The capability does not authorize the account.
    NotAuthorized,
    /// The account still holds a nonzero balance.
    NonEmpty,
    /// The recipient's deposit balance cannot take the refund without
    /// overflow.
    RecipientOverflow,
}

/// Moves `amount` units of `mint` from `from` to `to`, authorized over the
/// source account, atomically: on any refusal neither account changes.
pub fn transfer_tokens(
    from: &mut TokenAccount,
    to: &mut TokenAccount,
    amount: u64,
    mint: &AccountId,
    authority: &Authority,
) -> (r: Result<(), TransferError>)
    ensures
        r is Ok <==> (old(from).mint == *mint && old(to).mint == *mint && spec_authorizes(
            *authority,
            old(from).owner,
        ) && amount <= old(from).balance && old(to).balance + amount <= u64::MAX),
        r == Err::<(), TransferError>(TransferError::WrongAssetType) <==> (old(from).mint != *mint
            || old(to).mint != *mint),
        r == Err::<(), TransferError>(TransferError::NotAuthorized) <==> (old(from).mint == *mint
            && old(to).mint == *mint && !spec_authorizes(*authority, old(from).owner)),
        r == Err::<(), TransferError>(TransferError::InsufficientBalance) <==> (old(from).mint
            == *mint && old(to).mint == *mint && spec_authorizes(*authority, old(from).owner)
            && amount > old(from).balance),
        r == Err::<(), TransferError>(TransferError::BalanceOverflow) <==> (old(from).mint == *mint
            && old(to).mint == *mint && spec_authorizes(*authority, old(from).owner) && amount
            <= old(from).balance && old(to).balance + amount > u64::MAX),
        r is Ok ==> *final(from) == (TokenAccount {
            balance: (old(from).balance - amount) as u64,
            ..*old(from)
        }) && *final(to) == (TokenAccount { balance: (old(to).balance + amount) as u64, ..*old(to) }),
        r is Err ==> *final(from) == *old(from) && *final(to) == *old(to),
{
    if from.mint != *mint || to.mint != *mint {
        return Err(TransferError::WrongAssetType);
    }
    if !authorizes(authority, &from.owner) {
        return Err(TransferError::NotAuthorized);
    }
    if amount > from.balance {
        return Err(TransferError::InsufficientBalance);
    }
    if amount > u64::MAX - to.balance {
        return Err(TransferError::BalanceOverflow);
    }
    from.balance = from.balance - amount;
    to.balance = to.balance + amount;
    Ok(())
}

/// Closes the account in `slot`, refunding its storage deposit to
/// `recipient_deposit`, authorized over the account, atomically: on any
/// refusal the account stays open and the deposit balance is untouched.
/// Closure is impossible while the account holds a nonzero balance.
pub fn close_token_account(
    slot: &mut Option<TokenAccount>,
    recipient_deposit: &mut u64,
    authority: &Authority,
) -> (r: Result<(), CloseError>)
    requires
        (*old(slot)) is Some,
    ensures
        r is Ok <==> (spec_authorizes(*authority, old(slot)->Some_0.owner) && old(
            slot,
        )->Some_0.balance == 0 && *old(recipient_deposit) + old(slot)->Some_0.rent_deposit
            <= u64::MAX),
        r == Err::<(), CloseError>(CloseError::NotAuthorized) <==> !spec_authorizes(
            *authority,
            old(slot)->Some_0.owner,
        ),
        r == Err::<(), CloseError>(CloseError::NonEmpty) <==> (spec_authorizes(
            *authority,
            old(slot)->Some_0.owner,
        ) && old(slot)->Some_0.balance != 0),
        r == Err::<(), CloseError>(CloseError::RecipientOverflow) <==> (spec_authorizes(
            *authority,
            old(slot)->Some_0.owner,
        ) && old(slot)->Some_0.balance == 0 && *old(recipient_deposit) + old(
            slot,
        )->Some_0.rent_deposit > u64::MAX),
        r is Ok ==> *final(slot) is None && *final(recipient_deposit) == *old(recipient_deposit)
            + old(slot)->Some_0.rent_deposit,
        r is Err ==> *final(slot) == *old(slot) && *final(recipient_deposit) == *old(
            recipient_deposit,
        ),
{
    let account = match *slot {
        Some(account) => account,
        None => { return Err(CloseError::NotAuthorized) },
    };
    if !authorizes(authority, &account.owner) {
        return Err(CloseError::NotAuthorized);
    }
    if account.balance != 0 {
        return Err(CloseError::NonEmpty);
    }
    if account.rent_deposit > u64::MAX - *recipient_deposit {
        return Err(CloseError::RecipientOverflow);
    }
    *recipient_deposit = *recipient_deposit + account.rent_deposit;
    *slot = None;
    Ok(())
}

} // verus!
