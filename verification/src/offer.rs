//! The offer record and the deterministic custody derivation.
//!
//! An offer describes one pending swap: who made it, which asset type sits
//! in escrow, which asset type is wanted and how much of it. The vault that
//! holds the escrowed asset lives at an address derived purely from the
//! offer's identifier, so any party can recompute the vault address from the
//! record alone; the `bump` field is the one-byte discriminant chosen at
//! creation that makes that derivation check out.

use vstd::prelude::*;

verus! {

/// Domain tag that keeps custody addresses apart from every other use of
/// the derivation: the ASCII bytes of "offer", little endian.
pub const OFFER_DOMAIN_TAG: u64 = 0x72_65_66_66_6f;

/// Bytes a host must reserve for one persisted offer record:
/// id (8) + maker (32) + two asset type descriptors (32 + 32)
/// + wanted amount (8) + bump (1).
pub const OFFER_RECORD_BYTES: u64 = 8 + 32 + 32 + 32 + 8 + 1;

/// A 32-byte identity (a party, an asset type descriptor, or a derived
/// custody address), held as four 64-bit words.
#[derive(Clone, Copy, PartialEq, Eq, Structural, Debug)]
pub struct AccountId {
    pub w0: u64,
    pub w1: u64,
    pub w2: u64,
    pub w3: u64,
}

/// The canonical discriminant for an offer identifier: the fold of the
/// identifier's eight bytes. Creation stores it; fulfillment recomputes it
/// and refuses a record whose stored bump disagrees.
pub open spec fn spec_vault_bump(id: u64) -> u8 {
    (id ^ (id >> 8) ^ (id >> 16) ^ (id >> 24) ^ (id >> 32) ^ (id >> 40) ^ (id >> 48)
        ^ (id >> 56)) as u8
}

/// The custody address of the vault tied to offer `id`: a pure function of
/// the domain tag and the identifier, recomputable by any party.
pub open spec fn spec_vault_address(id: u64) -> AccountId {
    AccountId {
        w0: OFFER_DOMAIN_TAG,
        w1: id,
        w2: spec_vault_bump(id) as u64,
        w3: 0,
    }
}

/// Recomputes the canonical bump for an offer identifier.
pub fn vault_bump(id: u64) -> (r: u8)
    ensures
        r == spec_vault_bump(id),
{
    (id ^ (id >> 8) ^ (id >> 16) ^ (id >> 24) ^ (id >> 32) ^ (id >> 40) ^ (id >> 48)
        ^ (id >> 56)) as u8
}

/// Derives the vault's address and its canonical discriminant from the
/// offer identifier alone, identically for creator and fulfiller.
pub fn derive_vault_address(id: u64) -> (r: (AccountId, u8))
    ensures
        r.0 == spec_vault_address(id),
        r.1 == spec_vault_bump(id),
{
    let bump = vault_bump(id);
    let address = AccountId { w0: OFFER_DOMAIN_TAG, w1: id, w2: bump as u64, w3: 0 };
    (address, bump)
}

/// Distinct offers keep distinct vaults: the derived address determines the
/// offer identifier it was derived from.
pub proof fn lemma_vault_address_injective(id1: u64, id2: u64)
    ensures
        spec_vault_address(id1) == spec_vault_address(id2) ==> id1 == id2,
{
}

/// One pending swap, durable for the offer's whole lifetime.
#[derive(Clone, Copy, PartialEq, Eq, Structural, Debug)]
pub struct Offer {
    /// Identifier, unique per maker, chosen at creation; the vault address
    /// is derived from it.
    pub id: u64,
    /// The party who created the offer, escrowed the offered asset, and
    /// receives both the payment and the vault's storage deposit.
    pub maker: AccountId,
    /// Asset type descriptor of the asset held in the vault.
    pub token_mint_a: AccountId,
    /// Asset type descriptor of the asset the maker wants in exchange.
    pub token_mint_b: AccountId,
    /// Quantity of `token_mint_b` required to unlock the vault; immutable
    /// after creation.
    pub token_b_wanted_amount: u64,
    /// Discriminant proving the vault address was derived for this offer.
    pub bump: u8,
}

impl Offer {
    /// A record is well formed when its stored bump is the canonical
    /// discriminant for its identifier, i.e. the custody derivation checks
    /// out.
    pub open spec fn wf(self) -> bool {
        self.bump == spec_vault_bump(self.id)
    }

    /// The address the record's vault must live at.
    pub open spec fn spec_vault(self) -> AccountId {
        spec_vault_address(self.id)
    }

    /// Verifies the stored discriminant against the derivation, as any
    /// caller can before trusting the record.
    pub fn derivation_ok(&self) -> (r: bool)
        ensures
            r == self.wf(),
    {
        self.bump == vault_bump(self.id)
    }
}

} // verus!
