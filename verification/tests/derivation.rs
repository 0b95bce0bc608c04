use anchor_escrow::address::Address;
use anchor_escrow::authority::{derive_escrow_authority, signer_seeds, tag_bytes};
use anchor_lang::prelude::Pubkey;

fn maker() -> Address {
    Address::new([1; 32])
}

fn program() -> Address {
    Address::new([9; 32])
}

#[test]
fn tag_spells_escrow() {
    assert_eq!(tag_bytes(), b"escrow".to_vec());
}

#[test]
fn seeds_are_tag_maker_seed_and_bump() {
    let seeds = signer_seeds(&maker(), 42, 254);
    assert_eq!(seeds.len(), 4);
    assert_eq!(seeds[0], b"escrow".to_vec());
    assert_eq!(seeds[1], vec![1u8; 32]);
    assert_eq!(seeds[2], vec![42u8, 0, 0, 0, 0, 0, 0, 0]);
    assert_eq!(seeds[3], vec![254u8]);
}

#[test]
fn seed_is_laid_out_little_endian() {
    let seeds = signer_seeds(&maker(), 0x0102_0304_0506_0708, 0);
    assert_eq!(seeds[2], vec![8u8, 7, 6, 5, 4, 3, 2, 1]);
    assert_eq!(seeds[2], 0x0102_0304_0506_0708u64.to_le_bytes().to_vec());
    assert_eq!(seeds[3], vec![0u8]);
}

#[test]
fn derivation_agrees_with_the_address_found_for_the_seeds() {
    let program_key = Pubkey::new_from_array(program().bytes);
    let (key, bump) =
        Pubkey::find_program_address(&[b"escrow", &maker().bytes, &42u64.to_le_bytes()], &program_key);
    let derived = derive_escrow_authority(&program(), &maker(), 42, bump);
    assert_eq!(derived, Some(Address::new(key.to_bytes())));
    assert_ne!(derived, Some(program()));
    assert_ne!(derived, Some(maker()));
}

#[test]
fn derivation_is_repeatable_and_tells_escrows_apart() {
    let program_key = Pubkey::new_from_array(program().bytes);
    let (_, bump_a) =
        Pubkey::find_program_address(&[b"escrow", &maker().bytes, &1u64.to_le_bytes()], &program_key);
    let (_, bump_b) =
        Pubkey::find_program_address(&[b"escrow", &maker().bytes, &2u64.to_le_bytes()], &program_key);
    let a = derive_escrow_authority(&program(), &maker(), 1, bump_a);
    let b = derive_escrow_authority(&program(), &maker(), 2, bump_b);
    assert!(a.is_some());
    assert!(b.is_some());
    assert_ne!(a, b);
    assert_eq!(a, derive_escrow_authority(&program(), &maker(), 1, bump_a));
}

#[test]
fn derivation_fails_for_a_bump_that_lands_on_the_curve() {
    let program_key = Pubkey::new_from_array(program().bytes);
    let mut seen = false;
    let mut seed: u64 = 0;
    while seed < 64 && !seen {
        let (_, bump) = Pubkey::find_program_address(
            &[b"escrow", &maker().bytes, &seed.to_le_bytes()],
            &program_key,
        );
        if bump < 255 {
            // Every bump above the one found was passed over for lying on the curve.
            assert_eq!(derive_escrow_authority(&program(), &maker(), seed, 255), None);
            seen = true;
        }
        seed += 1;
    }
    assert!(seen);
}

#[test]
fn addresses_compare_by_their_bytes() {
    let mut bytes = [5u8; 32];
    let a = Address::new(bytes);
    assert_eq!(a, Address::new([5u8; 32]));
    bytes[31] = 6;
    assert_ne!(a, Address::new(bytes));
    assert_eq!(a.to_vec(), vec![5u8; 32]);
    assert_eq!(Address::new(bytes).to_vec()[31], 6);
}
