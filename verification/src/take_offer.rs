//! The fulfillment protocol: `take_offer` executes one swap atomically and
//! retires the offer.
//!
//! In a fixed order it (1) mints the custody proof from the offer's
//! identifier and bump, (2) moves the vault's entire balance — read at
//! execution time, not cached — to the taker, (3) closes the vault with its
//! storage deposit going to the maker, (4) moves the wanted amount from the
//! taker to the maker under the taker's own authorization, and (5) retires
//! the record. The steps run against a staged copy of the accounts that is
//! committed only after every step has succeeded, so a failure anywhere
//! leaves every account exactly as it was.

use vstd::prelude::*;
use crate::ledger::Authority;
use crate::ledger::TokenAccount;
use crate::ledger::close_token_account;
use crate::ledger::transfer_tokens;
use crate::offer::AccountId;
use crate::offer::Offer;
use crate::offer::spec_vault_address;

verus! {

/// Why a fulfillment attempt failed; every failure leaves the offer active
/// and every balance unchanged, and none is retried internally.
#[derive(Clone, Copy, PartialEq, Eq, Structural, Debug)]
pub enum FulfillmentError {
    /// A supplied account's declared owner, asset type or derivation does
    /// not match the offer's recorded relationships, or the offer or vault
    /// is already gone. Detected before any asset movement.
    StructuralMismatch,
    /// The escrowed-asset withdrawal from the vault was refused at the
    /// ledger boundary.
    VaultWithdrawalFailed,
    /// Releasing the vault was refused at the ledger boundary.
    VaultClosureFailed,
    /// The payment transfer was refused at the ledger boundary, for the
    /// taker's balance or the maker's headroom.
    TakerInsufficientBalance,
}

/// Everything one fulfillment attempt touches: the parties, the two asset
/// type descriptors, the three holding accounts, the registry's view of the
/// offer and its vault, and the two parties' storage-deposit balances.
///
/// `offer` and `vault` are `None` once consumed: the record and its vault
/// are created together and destroyed together, and a fulfillment that
/// finds either gone fails structurally instead of double-spending.
#[derive(Clone, Copy, PartialEq, Eq, Structural, Debug)]
pub struct TakeOffer {
    /// The party fulfilling the offer; authorizes the payment itself.
    pub taker: AccountId,
    /// The party who created the offer.
    pub maker: AccountId,
    /// Asset type descriptor of the escrowed asset.
    pub token_mint_a: AccountId,
    /// Asset type descriptor of the wanted asset.
    pub token_mint_b: AccountId,
    /// The taker's holding account for the escrowed asset type.
    pub taker_token_account_a: TokenAccount,
    /// The taker's holding account for the wanted asset type.
    pub taker_token_account_b: TokenAccount,
    /// The maker's holding account for the wanted asset type.
    pub maker_token_account_b: TokenAccount,
    /// The offer record, while it is still active.
    pub offer: Option<Offer>,
    /// The vault holding the escrowed asset, while it still exists.
    pub vault: Option<TokenAccount>,
    /// The maker's storage-deposit balance; receives the vault's deposit.
    pub maker_deposit: u64,
    /// The taker's storage-deposit balance; never receives anything here.
    pub taker_deposit: u64,
}

/// The structural relationships checked before any asset movement: offer
/// and vault both present, the stored bump canonical for the identifier,
/// the vault owned by the offer's derived address and of the offered asset
/// type, and each holding account declared with exactly the owner and asset
/// type the offer records.
pub open spec fn spec_structural_ok(a: TakeOffer) -> bool {
    &&& a.offer is Some
    &&& a.vault is Some
    &&& a.offer->Some_0.wf()
    &&& a.offer->Some_0.maker == a.maker
    &&& a.offer->Some_0.token_mint_a == a.token_mint_a
    &&& a.offer->Some_0.token_mint_b == a.token_mint_b
    &&& a.vault->Some_0.owner == spec_vault_address(a.offer->Some_0.id)
    &&& a.vault->Some_0.mint == a.token_mint_a
    &&& a.taker_token_account_a.owner == a.taker
    &&& a.taker_token_account_a.mint == a.token_mint_a
    &&& a.taker_token_account_b.owner == a.taker
    &&& a.taker_token_account_b.mint == a.token_mint_b
    &&& a.maker_token_account_b.owner == a.maker
    &&& a.maker_token_account_b.mint == a.token_mint_b
}

/// The vault's whole balance fits into the taker's holding account.
pub open spec fn spec_withdrawal_ok(a: TakeOffer) -> bool {
    a.taker_token_account_a.balance + a.vault->Some_0.balance <= u64::MAX
}

/// The vault's storage deposit fits into the maker's deposit balance.
pub open spec fn spec_closure_ok(a: TakeOffer) -> bool {
    a.maker_deposit + a.vault->Some_0.rent_deposit <= u64::MAX
}

/// The taker holds the wanted amount and the maker's holding account can
/// take it.
pub open spec fn spec_payment_ok(a: TakeOffer) -> bool {
    &&& a.offer->Some_0.token_b_wanted_amount <= a.taker_token_account_b.balance
    &&& a.maker_token_account_b.balance + a.offer->Some_0.token_b_wanted_amount <= u64::MAX
}

/// Exactly the attempts that succeed: structurally sound and every one of
/// the three asset movements accepted by the ledger.
pub open spec fn spec_take_ok(a: TakeOffer) -> bool {
    &&& spec_structural_ok(a)
    &&& spec_withdrawal_ok(a)
    &&& spec_closure_ok(a)
    &&& spec_payment_ok(a)
}

/// The accounts after a successful fulfillment: vault emptied into the
/// taker's holding account, vault closed with its deposit moved to the
/// maker, payment moved from taker to maker, record retired — and nothing
/// else touched.
pub open spec fn spec_take_result(a: TakeOffer) -> TakeOffer {
    TakeOffer {
        offer: None,
        vault: None,
        taker_token_account_a: TokenAccount {
            balance: (a.taker_token_account_a.balance + a.vault->Some_0.balance) as u64,
            ..a.taker_token_account_a
        },
        taker_token_account_b: TokenAccount {
            balance: (a.taker_token_account_b.balance - a.offer->Some_0.token_b_wanted_amount)
                as u64,
            ..a.taker_token_account_b
        },
        maker_token_account_b: TokenAccount {
            balance: (a.maker_token_account_b.balance + a.offer->Some_0.token_b_wanted_amount)
                as u64,
            ..a.maker_token_account_b
        },
        maker_deposit: (a.maker_deposit + a.vault->Some_0.rent_deposit) as u64,
        ..a
    }
}

/// Checks the structural relationships; no state is touched.
pub fn structural_check(a: &TakeOffer) -> (r: bool)
    ensures
        r == spec_structural_ok(*a),
{
    let (offer, vault) = match (&a.offer, &a.vault) {
        (Some(offer), Some(vault)) => (offer, vault),
        _ => { return false },
    };
    offer.derivation_ok() && offer.maker == a.maker && offer.token_mint_a == a.token_mint_a
        && offer.token_mint_b == a.token_mint_b && vault.owner
        == crate::offer::derive_vault_address(offer.id).0 && vault.mint == a.token_mint_a
        && a.taker_token_account_a.owner == a.taker && a.taker_token_account_a.mint
        == a.token_mint_a && a.taker_token_account_b.owner == a.taker
        && a.taker_token_account_b.mint == a.token_mint_b && a.maker_token_account_b.owner
        == a.maker && a.maker_token_account_b.mint == a.token_mint_b
}

/// Executes one swap atomically and retires the offer.
///
/// Succeeds exactly on `spec_take_ok`, leaving the state `spec_take_result`
/// gives: the taker's balance of the offered asset type grows by exactly
/// the vault's balance at execution time, the maker's balance of the wanted
/// asset type grows by exactly the wanted amount, the taker's shrinks by
/// the same, the vault's storage deposit goes to the maker — never the
/// taker — and record and vault are gone together. On every failure the
/// distinguishable error says which step refused, and no account, record or
/// deposit has changed.
pub fn take_offer(accounts: &mut TakeOffer) -> (r: Result<(), FulfillmentError>)
    ensures
        r is Ok <==> spec_take_ok(*old(accounts)),
        r is Ok ==> *final(accounts) == spec_take_result(*old(accounts)),
        r is Err ==> *final(accounts) == *old(accounts),
        r == Err::<(), FulfillmentError>(FulfillmentError::StructuralMismatch)
            <==> !spec_structural_ok(*old(accounts)),
        r == Err::<(), FulfillmentError>(FulfillmentError::VaultWithdrawalFailed)
            <==> (spec_structural_ok(*old(accounts)) && !spec_withdrawal_ok(*old(accounts))),
        r == Err::<(), FulfillmentError>(FulfillmentError::VaultClosureFailed)
            <==> (spec_structural_ok(*old(accounts)) && spec_withdrawal_ok(*old(accounts))
            && !spec_closure_ok(*old(accounts))),
        r == Err::<(), FulfillmentError>(FulfillmentError::TakerInsufficientBalance)
            <==> (spec_structural_ok(*old(accounts)) && spec_withdrawal_ok(*old(accounts))
            && spec_closure_ok(*old(accounts)) && !spec_payment_ok(*old(accounts))),
{
    // Structural validation comes before any asset movement.
    if !structural_check(accounts) {
        return Err(FulfillmentError::StructuralMismatch);
    }
    let (offer, vault) = match (accounts.offer, accounts.vault) {
        (Some(offer), Some(vault)) => (offer, vault),
        _ => { return Err(FulfillmentError::StructuralMismatch) },
    };

    // Every movement below runs on staged copies; the commit at the end is
    // the transactional boundary that makes the sequence all-or-nothing.
    let mut taker_account_a = accounts.taker_token_account_a;
    let mut taker_account_b = accounts.taker_token_account_b;
    let mut maker_account_b = accounts.maker_token_account_b;
    let mut maker_deposit = accounts.maker_deposit;

    // Step 1: the custody proof minted from the offer's identifier and
    // bump — the record itself, not any person, authorizes the vault.
    let custody = Authority::Custody { id: offer.id, bump: offer.bump };

    // Step 2: withdraw the vault's entire current balance to the taker.
    let mut vault_account = vault;
    let escrowed = vault_account.balance;
    match transfer_tokens(
        &mut vault_account,
        &mut taker_account_a,
        escrowed,
        &accounts.token_mint_a,
        &custody,
    ) {
        Ok(()) => {},
        Err(_) => { return Err(FulfillmentError::VaultWithdrawalFailed) },
    }

    // Step 3: close the emptied vault, deposit refunded to the maker.
    let mut vault_slot = Some(vault_account);
    match close_token_account(&mut vault_slot, &mut maker_deposit, &custody) {
        Ok(()) => {},
        Err(_) => { return Err(FulfillmentError::VaultClosureFailed) },
    }

    // Step 4: the payment, under the taker's own authorization.
    let taker_authority = Authority::Holder { key: accounts.taker };
    match transfer_tokens(
        &mut taker_account_b,
        &mut maker_account_b,
        offer.token_b_wanted_amount,
        &accounts.token_mint_b,
        &taker_authority,
    ) {
        Ok(()) => {},
        Err(_) => { return Err(FulfillmentError::TakerInsufficientBalance) },
    }

    // Step 5: commit every effect at once and retire the record.
    accounts.taker_token_account_a = taker_account_a;
    accounts.taker_token_account_b = taker_account_b;
    accounts.maker_token_account_b = maker_account_b;
    accounts.maker_deposit = maker_deposit;
    accounts.offer = None;
    accounts.vault = None;
    Ok(())
}

/// Single fulfillment: once the record or the vault is gone — as after any
/// successful `take_offer`, whose contract leaves both `None` — no further
/// attempt on the same entry is structurally sound, so by `take_offer`'s
/// contract every such attempt fails with `StructuralMismatch` and changes
/// nothing.
pub proof fn lemma_single_fulfillment(a: TakeOffer)
    requires
        a.offer is None || a.vault is None,
    ensures
        !spec_structural_ok(a),
        !spec_take_ok(a),
{
}

/// No double fulfillment: the state a successful `take_offer` commits —
/// `spec_take_result` of the state it read — admits no further fulfillment
/// of the same entry, since record and vault are gone; by `take_offer`'s
/// contract every attempt on it fails with `StructuralMismatch`.
pub proof fn lemma_no_double_fulfillment(a: TakeOffer)
    requires
        spec_take_ok(a),
    ensures
        !spec_structural_ok(spec_take_result(a)),
        !spec_take_ok(spec_take_result(a)),
{
}

/// Exact-amount conservation: on success the taker gains exactly the
/// vault's pre-state balance of the offered asset type, the maker gains
/// exactly the wanted amount of the wanted asset type, the taker pays
/// exactly the same, and the wanted-asset units held across the two
/// holding accounts in view are conserved.
pub proof fn lemma_exact_conservation(a: TakeOffer)
    requires
        spec_take_ok(a),
    ensures
        spec_take_result(a).taker_token_account_a.balance == a.taker_token_account_a.balance
            + a.vault->Some_0.balance,
        spec_take_result(a).maker_token_account_b.balance == a.maker_token_account_b.balance
            + a.offer->Some_0.token_b_wanted_amount,
        spec_take_result(a).taker_token_account_b.balance == a.taker_token_account_b.balance
            - a.offer->Some_0.token_b_wanted_amount,
        spec_take_result(a).taker_token_account_b.balance + spec_take_result(
            a,
        ).maker_token_account_b.balance == a.taker_token_account_b.balance
            + a.maker_token_account_b.balance,
{
}

/// Deposit routing: on success the vault's storage deposit goes to the
/// maker in full, and the taker's deposit balance is untouched — the
/// refund never reaches the taker.
pub proof fn lemma_deposit_routed_to_maker(a: TakeOffer)
    requires
        spec_take_ok(a),
    ensures
        spec_take_result(a).maker_deposit == a.maker_deposit + a.vault->Some_0.rent_deposit,
        spec_take_result(a).taker_deposit == a.taker_deposit,
{
}

/// Mismatch rejection: an attempt whose taker-side holding account for the
/// wanted asset declares a different asset type than the offer wants is not
/// structurally sound, so by `take_offer`'s contract it fails with
/// `StructuralMismatch` and no balance changes.
pub proof fn lemma_mismatch_rejection(a: TakeOffer)
    requires
        a.offer is Some,
        a.taker_token_account_b.mint != a.offer->Some_0.token_mint_b,
    ensures
        !spec_structural_ok(a),
        !spec_take_ok(a),
{
}

} // verus!
