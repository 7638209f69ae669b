use escrow::ledger::authorizes;
use escrow::ledger::close_token_account;
use escrow::ledger::transfer_tokens;
use escrow::ledger::Authority;
use escrow::ledger::CloseError;
use escrow::ledger::TokenAccount;
use escrow::ledger::TransferError;
use escrow::offer::derive_vault_address;
use escrow::offer::AccountId;

fn ident(tag: u64) -> AccountId {
    AccountId { w0: tag, w1: tag, w2: tag, w3: tag }
}

fn account(owner: AccountId, mint: AccountId, balance: u64) -> TokenAccount {
    TokenAccount { owner, mint, balance, rent_deposit: 10 }
}

#[test]
fn transfer_moves_exact_amount() {
    let mint = ident(3);
    let mut from = account(ident(1), mint, 700);
    let mut to = account(ident(2), mint, 41);
    let authority = Authority::Holder { key: ident(1) };
    let r = transfer_tokens(&mut from, &mut to, 300, &mint, &authority);
    assert_eq!(r, Ok(()));
    assert_eq!(from.balance, 400);
    assert_eq!(to.balance, 341);
    assert_eq!(from.rent_deposit, 10);
    assert_eq!(to.rent_deposit, 10);
}

#[test]
fn transfer_wrong_asset_type_is_refused() {
    let mint = ident(3);
    let mut from = account(ident(1), mint, 700);
    let mut to = account(ident(2), ident(4), 0);
    let authority = Authority::Holder { key: ident(1) };
    let r = transfer_tokens(&mut from, &mut to, 300, &mint, &authority);
    assert_eq!(r, Err(TransferError::WrongAssetType));
    assert_eq!(from.balance, 700);
    assert_eq!(to.balance, 0);
}

#[test]
fn transfer_without_authority_is_refused() {
    let mint = ident(3);
    let mut from = account(ident(1), mint, 700);
    let mut to = account(ident(2), mint, 0);
    let authority = Authority::Holder { key: ident(2) };
    let r = transfer_tokens(&mut from, &mut to, 300, &mint, &authority);
    assert_eq!(r, Err(TransferError::NotAuthorized));
    assert_eq!(from.balance, 700);
}

#[test]
fn transfer_beyond_balance_is_refused() {
    let mint = ident(3);
    let mut from = account(ident(1), mint, 299);
    let mut to = account(ident(2), mint, 0);
    let authority = Authority::Holder { key: ident(1) };
    let r = transfer_tokens(&mut from, &mut to, 300, &mint, &authority);
    assert_eq!(r, Err(TransferError::InsufficientBalance));
    assert_eq!(from.balance, 299);
    assert_eq!(to.balance, 0);
}

#[test]
fn transfer_overflowing_destination_is_refused() {
    let mint = ident(3);
    let mut from = account(ident(1), mint, 700);
    let mut to = account(ident(2), mint, u64::MAX - 299);
    let authority = Authority::Holder { key: ident(1) };
    let r = transfer_tokens(&mut from, &mut to, 300, &mint, &authority);
    assert_eq!(r, Err(TransferError::BalanceOverflow));
    assert_eq!(from.balance, 700);
    assert_eq!(to.balance, u64::MAX - 299);
}

#[test]
fn custody_proof_authorizes_only_its_vault() {
    let (vault_address, bump) = derive_vault_address(21);
    let good = Authority::Custody { id: 21, bump };
    assert!(authorizes(&good, &vault_address));
    // Wrong discriminant: the proof is no credential at all.
    let bad_bump = Authority::Custody { id: 21, bump: bump.wrapping_add(1) };
    assert!(!authorizes(&bad_bump, &vault_address));
    // Right discriminant, different offer: different vault.
    let other = Authority::Custody { id: 22, bump: derive_vault_address(22).1 };
    assert!(!authorizes(&other, &vault_address));
    // A person's authority never reaches a derived custody address.
    assert!(!authorizes(&Authority::Holder { key: vault_address }, &ident(1)));
}

#[test]
fn holder_authority_is_the_owner_alone() {
    let authority = Authority::Holder { key: ident(1) };
    assert!(authorizes(&authority, &ident(1)));
    assert!(!authorizes(&authority, &ident(2)));
}

#[test]
fn close_refunds_deposit_to_recipient() {
    let (vault_address, bump) = derive_vault_address(5);
    let mut slot = Some(TokenAccount {
        owner: vault_address,
        mint: ident(3),
        balance: 0,
        rent_deposit: 77,
    });
    let mut recipient_deposit: u64 = 1000;
    let authority = Authority::Custody { id: 5, bump };
    let r = close_token_account(&mut slot, &mut recipient_deposit, &authority);
    assert_eq!(r, Ok(()));
    assert_eq!(slot, None);
    assert_eq!(recipient_deposit, 1077);
}

#[test]
fn close_of_nonempty_account_is_refused() {
    let (vault_address, bump) = derive_vault_address(5);
    let open = TokenAccount { owner: vault_address, mint: ident(3), balance: 1, rent_deposit: 77 };
    let mut slot = Some(open);
    let mut recipient_deposit: u64 = 1000;
    let authority = Authority::Custody { id: 5, bump };
    let r = close_token_account(&mut slot, &mut recipient_deposit, &authority);
    assert_eq!(r, Err(CloseError::NonEmpty));
    assert_eq!(slot, Some(open));
    assert_eq!(recipient_deposit, 1000);
}

#[test]
fn close_without_authority_is_refused() {
    let (vault_address, _) = derive_vault_address(5);
    let open = TokenAccount { owner: vault_address, mint: ident(3), balance: 0, rent_deposit: 77 };
    let mut slot = Some(open);
    let mut recipient_deposit: u64 = 1000;
    let authority = Authority::Holder { key: ident(1) };
    let r = close_token_account(&mut slot, &mut recipient_deposit, &authority);
    assert_eq!(r, Err(CloseError::NotAuthorized));
    assert_eq!(slot, Some(open));
    assert_eq!(recipient_deposit, 1000);
}

#[test]
fn close_overflowing_recipient_is_refused() {
    let (vault_address, bump) = derive_vault_address(5);
    let open = TokenAccount { owner: vault_address, mint: ident(3), balance: 0, rent_deposit: 77 };
    let mut slot = Some(open);
    let mut recipient_deposit: u64 = u64::MAX - 76;
    let authority = Authority::Custody { id: 5, bump };
    let r = close_token_account(&mut slot, &mut recipient_deposit, &authority);
    assert_eq!(r, Err(CloseError::RecipientOverflow));
    assert_eq!(slot, Some(open));
    assert_eq!(recipient_deposit, u64::MAX - 76);
}
