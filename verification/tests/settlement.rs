use anchor_escrow::address::Address;
use anchor_escrow::state::{Escrow, EscrowAccount, Signer, TakeError, TokenHolding, Vault};
use anchor_escrow::take::Take;
use anchor_lang::prelude::Pubkey;

fn id(n: u8) -> Address {
    Address::new([n; 32])
}

fn program() -> Address {
    id(9)
}

fn maker() -> Address {
    id(1)
}

fn taker() -> Address {
    id(2)
}

fn mint_x() -> Address {
    id(3)
}

fn mint_y() -> Address {
    id(4)
}

/// The record address and bump that the maker's escrow has under seed 42.
fn derived(seed: u64) -> (Address, u8) {
    let (key, bump) = Pubkey::find_program_address(
        &[b"escrow", &maker().bytes, &seed.to_le_bytes()],
        &Pubkey::new_from_array(program().bytes),
    );
    (Address::new(key.to_bytes()), bump)
}

/// Maker M, asset A = X with 100 in the vault, asset B = Y, seed 42.
fn open_escrow() -> Take {
    let (key, bump) = derived(42);
    Take {
        program_id: program(),
        taker: Signer { key: taker(), is_signer: true, lamports: 1_000 },
        maker: maker(),
        mint_a: mint_x(),
        mint_b: mint_y(),
        escrow: EscrowAccount {
            key,
            open: true,
            lamports: 30,
            record: Escrow { seed: 42, maker: maker(), mint_a: mint_x(), mint_b: mint_y(), bump },
        },
        taker_ata_a: TokenHolding { mint: mint_x(), owner: taker(), amount: 7 },
        taker_ata_b: TokenHolding { mint: mint_y(), owner: taker(), amount: 80 },
        maker_ata_b: TokenHolding { mint: mint_y(), owner: maker(), amount: 5 },
        vault: Vault {
            holding: TokenHolding { mint: mint_x(), owner: key, amount: 100 },
            open: true,
            lamports: 20,
        },
    }
}

#[test]
fn take_moves_both_assets_and_closes_the_record() {
    let mut s = open_escrow();
    let before = s;
    assert_eq!(s.take(50, 100), Ok(()));
    assert_eq!(s.taker_ata_b.amount, before.taker_ata_b.amount - 50);
    assert_eq!(s.taker_ata_b.amount, 30);
    assert_eq!(s.maker_ata_b.amount, before.maker_ata_b.amount + 50);
    assert_eq!(s.maker_ata_b.amount, 55);
    assert_eq!(s.vault.holding.amount, 0);
    assert!(!s.vault.open);
    assert_eq!(s.taker_ata_a.amount, before.taker_ata_a.amount + 100);
    assert_eq!(s.taker_ata_a.amount, 107);
    assert!(!s.escrow.open);
    assert_eq!(s.taker.lamports, 1_050);
    assert_eq!(s.vault.lamports, 0);
    assert_eq!(s.escrow.lamports, 0);
    assert_eq!(s.escrow.record, before.escrow.record);
    assert_eq!(s.maker, before.maker);
}

#[test]
fn take_with_foreign_vault_authority_changes_nothing() {
    let mut s = open_escrow();
    s.vault.holding.owner = id(77);
    let before = s;
    assert_eq!(s.take(50, 100), Err(TakeError::DerivationMismatch));
    assert_eq!(s, before);
}

#[test]
fn withdraw_with_foreign_vault_authority_is_refused() {
    let mut s = open_escrow();
    s.vault.holding.owner = taker();
    let before = s;
    assert_eq!(s.withdraw_and_close_vault(100), Err(TakeError::DerivationMismatch));
    assert_eq!(s, before);
}

#[test]
fn take_with_wrong_bump_is_a_derivation_mismatch() {
    let mut s = open_escrow();
    s.escrow.record.bump = s.escrow.record.bump.wrapping_sub(1);
    let before = s;
    assert_eq!(s.take(50, 100), Err(TakeError::DerivationMismatch));
    assert_eq!(s, before);
}

#[test]
fn take_with_wrong_seed_is_a_derivation_mismatch() {
    let mut s = open_escrow();
    s.escrow.record.seed = 43;
    let before = s;
    assert_eq!(s.take(50, 100), Err(TakeError::DerivationMismatch));
    assert_eq!(s, before);
}

#[test]
fn take_under_another_program_is_a_derivation_mismatch() {
    let mut s = open_escrow();
    s.program_id = id(10);
    let before = s;
    assert_eq!(s.take(50, 100), Err(TakeError::DerivationMismatch));
    assert_eq!(s, before);
}

#[test]
fn second_take_finds_the_record_closed() {
    let mut s = open_escrow();
    assert_eq!(s.take(50, 100), Ok(()));
    let settled = s;
    assert_eq!(s.take(50, 100), Err(TakeError::RecordAlreadyClosed));
    assert_eq!(s, settled);
    assert_eq!(s.take(0, 0), Err(TakeError::RecordAlreadyClosed));
    assert_eq!(s, settled);
}

#[test]
fn closed_record_is_reported_before_anything_else() {
    let mut s = open_escrow();
    s.escrow.open = false;
    s.taker.is_signer = false;
    s.vault.holding.owner = id(77);
    let before = s;
    assert_eq!(s.take(50, 100), Err(TakeError::RecordAlreadyClosed));
    assert_eq!(s.deposit(50), Err(TakeError::RecordAlreadyClosed));
    assert_eq!(s.close_escrow(), Err(TakeError::RecordAlreadyClosed));
    assert_eq!(s, before);
}

#[test]
fn refused_withdrawal_takes_the_deposit_back() {
    let mut s = open_escrow();
    let before = s;
    // The taker can pay 50, but 101 is more than the vault holds.
    assert_eq!(s.take(50, 101), Err(TakeError::InsufficientFunds));
    assert_eq!(s, before);
    assert_eq!(s.taker_ata_b.amount, 80);
    assert_eq!(s.maker_ata_b.amount, 5);
    // The two steps on their own show where it went wrong.
    assert_eq!(s.deposit(50), Ok(()));
    assert_eq!(s.withdraw_and_close_vault(101), Err(TakeError::InsufficientFunds));
}

#[test]
fn partial_withdrawal_is_refused() {
    let mut s = open_escrow();
    let before = s;
    assert_eq!(s.take(50, 99), Err(TakeError::VaultNotEmptied));
    assert_eq!(s, before);
    assert_eq!(s.withdraw_and_close_vault(99), Err(TakeError::VaultNotEmptied));
    assert_eq!(s, before);
}

#[test]
fn deposit_beyond_the_takers_balance_is_refused() {
    let mut s = open_escrow();
    let before = s;
    assert_eq!(s.take(81, 100), Err(TakeError::InsufficientFunds));
    assert_eq!(s, before);
    assert_eq!(s.deposit(81), Err(TakeError::InsufficientFunds));
    assert_eq!(s, before);
    assert_eq!(s.deposit(80), Ok(()));
    assert_eq!(s.taker_ata_b.amount, 0);
    assert_eq!(s.maker_ata_b.amount, 85);
}

#[test]
fn unsigned_taker_is_an_identity_mismatch() {
    let mut s = open_escrow();
    s.taker.is_signer = false;
    let before = s;
    assert_eq!(s.take(50, 100), Err(TakeError::IdentityMismatch));
    assert_eq!(s.deposit(50), Err(TakeError::IdentityMismatch));
    assert_eq!(s, before);
}

#[test]
fn makers_holding_owned_by_another_is_an_identity_mismatch() {
    let mut s = open_escrow();
    s.maker_ata_b.owner = id(50);
    let before = s;
    assert_eq!(s.take(50, 100), Err(TakeError::IdentityMismatch));
    assert_eq!(s.deposit(50), Err(TakeError::IdentityMismatch));
    assert_eq!(s, before);
}

#[test]
fn maker_other_than_the_records_is_an_identity_mismatch() {
    let mut s = open_escrow();
    s.maker = id(50);
    let before = s;
    assert_eq!(s.take(50, 100), Err(TakeError::IdentityMismatch));
    assert_eq!(s, before);
}

#[test]
fn takers_holdings_owned_by_another_are_an_identity_mismatch() {
    let mut s = open_escrow();
    s.taker_ata_a.owner = id(50);
    let before = s;
    assert_eq!(s.take(50, 100), Err(TakeError::IdentityMismatch));
    assert_eq!(s.withdraw_and_close_vault(100), Err(TakeError::IdentityMismatch));
    assert_eq!(s, before);
    let mut s = open_escrow();
    s.taker_ata_b.owner = id(50);
    assert_eq!(s.take(50, 100), Err(TakeError::IdentityMismatch));
}

#[test]
fn vault_of_another_asset_is_an_asset_mismatch() {
    let mut s = open_escrow();
    s.vault.holding.mint = mint_y();
    let before = s;
    assert_eq!(s.take(50, 100), Err(TakeError::AssetMismatch));
    assert_eq!(s.withdraw_and_close_vault(100), Err(TakeError::AssetMismatch));
    assert_eq!(s, before);
}

#[test]
fn holdings_of_another_asset_are_an_asset_mismatch() {
    let mut s = open_escrow();
    s.taker_ata_a.mint = mint_y();
    assert_eq!(s.take(50, 100), Err(TakeError::AssetMismatch));
    let mut s = open_escrow();
    s.taker_ata_b.mint = mint_x();
    assert_eq!(s.take(50, 100), Err(TakeError::AssetMismatch));
    assert_eq!(s.deposit(50), Err(TakeError::AssetMismatch));
    let mut s = open_escrow();
    s.maker_ata_b.mint = mint_x();
    assert_eq!(s.take(50, 100), Err(TakeError::AssetMismatch));
    let mut s = open_escrow();
    s.mint_b = mint_x();
    assert_eq!(s.take(50, 100), Err(TakeError::AssetMismatch));
    let mut s = open_escrow();
    s.mint_a = mint_y();
    let before = s;
    assert_eq!(s.take(50, 100), Err(TakeError::AssetMismatch));
    assert_eq!(s, before);
}

#[test]
fn receiving_balance_that_would_overflow_is_refused() {
    let mut s = open_escrow();
    s.maker_ata_b.amount = u64::MAX - 49;
    let before = s;
    assert_eq!(s.take(50, 100), Err(TakeError::Overflow));
    assert_eq!(s, before);
    assert_eq!(s.take(49, 100), Ok(()));
    assert_eq!(s.maker_ata_b.amount, u64::MAX);

    let mut s = open_escrow();
    s.taker_ata_a.amount = u64::MAX - 99;
    let before = s;
    assert_eq!(s.take(50, 100), Err(TakeError::Overflow));
    assert_eq!(s, before);

    let mut s = open_escrow();
    s.taker.lamports = u64::MAX - 49;
    let before = s;
    assert_eq!(s.take(50, 100), Err(TakeError::Overflow));
    assert_eq!(s, before);
    s.taker.lamports = u64::MAX - 50;
    assert_eq!(s.take(50, 100), Ok(()));
    assert_eq!(s.taker.lamports, u64::MAX);
}

#[test]
fn refused_take_repeats_with_the_same_error() {
    let mut s = open_escrow();
    s.vault.holding.owner = id(77);
    let before = s;
    let first = s.take(50, 100);
    let second = s.take(50, 100);
    assert_eq!(first, Err(TakeError::DerivationMismatch));
    assert_eq!(second, first);
    assert_eq!(s, before);
}

#[test]
fn empty_settlement_still_closes_vault_and_record() {
    let mut s = open_escrow();
    s.vault.holding.amount = 0;
    assert_eq!(s.take(0, 0), Ok(()));
    assert_eq!(s.taker_ata_b.amount, 80);
    assert_eq!(s.maker_ata_b.amount, 5);
    assert_eq!(s.taker_ata_a.amount, 7);
    assert!(!s.vault.open);
    assert!(!s.escrow.open);
}

#[test]
fn steps_taken_one_by_one_match_the_whole() {
    let mut whole = open_escrow();
    assert_eq!(whole.take(50, 100), Ok(()));
    let mut steps = open_escrow();
    let authority = steps.escrow_authority();
    assert_eq!(steps.validate(authority), Ok(()));
    assert_eq!(steps.deposit(50), Ok(()));
    assert_eq!(steps.withdraw_and_close_vault(100), Ok(()));
    assert!(steps.escrow.open);
    assert!(!steps.vault.open);
    assert_eq!(steps.taker.lamports, 1_020);
    assert_eq!(steps.close_escrow(), Ok(()));
    assert_eq!(steps, whole);
}

#[test]
fn withdrawing_twice_finds_the_vault_closed() {
    let mut s = open_escrow();
    assert_eq!(s.withdraw_and_close_vault(100), Ok(()));
    let emptied = s;
    assert_eq!(s.withdraw_and_close_vault(0), Err(TakeError::RecordAlreadyClosed));
    assert_eq!(s, emptied);
}

#[test]
fn take_signed_by_goes_by_the_authority_it_is_given() {
    let mut s = open_escrow();
    let key = s.escrow.key;
    let before = s;
    assert_eq!(s.take_signed_by(None, 50, 100), Err(TakeError::DerivationMismatch));
    assert_eq!(s.take_signed_by(Some(id(77)), 50, 100), Err(TakeError::DerivationMismatch));
    assert_eq!(s, before);
    assert_eq!(s.validate(None), Err(TakeError::DerivationMismatch));
    assert_eq!(
        s.withdraw_and_close_vault_signed_by(Some(id(77)), 100),
        Err(TakeError::DerivationMismatch)
    );
    assert_eq!(s.take_signed_by(Some(key), 50, 100), Ok(()));
    assert_eq!(s.taker_ata_a.amount, 107);
}
