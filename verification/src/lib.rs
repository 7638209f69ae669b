//! Atomic two-party asset-swap escrow.
//!
//! A maker locks a quantity of one asset type in a vault whose custody
//! authority is the offer record itself, and declares the quantity of a
//! second asset type wanted in exchange. A taker fulfills the offer in one
//! indivisible step: the vault's whole balance moves to the taker, the vault
//! is closed with its storage deposit returned to the maker, the payment
//! moves from the taker to the maker, and the offer record is retired.
//! Either every one of those effects persists or none does.

pub mod ledger;
pub mod offer;
pub mod take_offer;
