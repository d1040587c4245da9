use anchor_lang::prelude::Pubkey;
use custody_engine::address::{
    associated_token_address, associated_token_program_id, derive_address, escrow_seeds, market_seeds, prove_authority,
    token_2022_program_id, token_program_id, Address,
};
use std::str::FromStr;

fn program() -> Address {
    Address::new(Pubkey::from_str("33ijjeqroG7Syj3fqJn7oebG6iAwk1pGq5deBNYzkr1h").unwrap().to_bytes())
}

fn pubkey(a: &Address) -> Pubkey {
    Pubkey::new_from_array(a.bytes)
}

#[test]
fn derived_address_matches_the_runtime() {
    let creator = Address::new([7; 32]);
    let (address, bump) = derive_address(&market_seeds(&creator, 1), &program()).unwrap();
    let (expected, expected_bump) =
        Pubkey::find_program_address(&[b"market", pubkey(&creator).as_ref(), &1u64.to_le_bytes()], &pubkey(&program()));
    assert_eq!(address.bytes, expected.to_bytes());
    assert_eq!(bump, expected_bump);
    assert_ne!(address, program());
    assert_ne!(address, creator);
}

#[test]
fn derivation_is_deterministic_and_seed_sensitive() {
    let maker = Address::new([1; 32]);
    let a = derive_address(&escrow_seeds(&maker, 42), &program()).unwrap();
    let b = derive_address(&escrow_seeds(&maker, 42), &program()).unwrap();
    let c = derive_address(&escrow_seeds(&maker, 43), &program()).unwrap();
    assert_eq!(a, b);
    assert_ne!(a.0, c.0);
}

#[test]
fn found_bump_recreates_the_address() {
    let maker = Address::new([1; 32]);
    let (address, bump) = derive_address(&escrow_seeds(&maker, 42), &program()).unwrap();
    assert_eq!(prove_authority(escrow_seeds(&maker, 42), bump, &program()), Some(address));
    assert_ne!(prove_authority(escrow_seeds(&maker, 41), bump, &program()), Some(address));
}

#[test]
fn too_many_seeds_derive_nothing() {
    let seeds: Vec<Vec<u8>> = (0..16).map(|i| vec![i as u8]).collect();
    assert_eq!(derive_address(&seeds, &program()), None);
    let long: Vec<Vec<u8>> = vec![vec![0u8; 33]];
    assert_eq!(derive_address(&long, &program()), None);
}

#[test]
fn well_known_programs() {
    assert_eq!(pubkey(&token_program_id()), Pubkey::from_str("TokenkegQfeZyiNwAJbNbGKPFXCWuBvf9Ss623VQ5DA").unwrap());
    assert_eq!(
        pubkey(&token_2022_program_id()),
        Pubkey::from_str("TokenzQdBNbLqP5VEhdkAS6EPFLC1PHnBqCXEpPxuEb").unwrap()
    );
    assert_eq!(
        pubkey(&associated_token_program_id()),
        Pubkey::from_str("ATokenGPvbdGVxr1b2hvZbsiqW5xWH25efTNsLJA8knL").unwrap()
    );
}

#[test]
fn associated_token_address_matches_the_runtime() {
    let wallet = Address::new([3; 32]);
    let mint = Address::new([4; 32]);
    let token_program = token_program_id();
    let derived = associated_token_address(&wallet, &mint, &token_program).unwrap();
    let (expected, _) = Pubkey::find_program_address(
        &[pubkey(&wallet).as_ref(), pubkey(&token_program).as_ref(), pubkey(&mint).as_ref()],
        &pubkey(&associated_token_program_id()),
    );
    assert_eq!(derived.bytes, expected.to_bytes());
}

#[test]
fn associated_token_address_matches_the_token_library() {
    let wallet = Address::new([3; 32]);
    let mint = Address::new([4; 32]);
    let derived = associated_token_address(&wallet, &mint, &token_program_id()).unwrap();
    let expected = anchor_spl::associated_token::get_associated_token_address(&pubkey(&wallet), &pubkey(&mint));
    assert_eq!(derived.bytes, expected.to_bytes());
    let derived_2022 = associated_token_address(&wallet, &mint, &token_2022_program_id()).unwrap();
    let expected_2022 = anchor_spl::associated_token::get_associated_token_address_with_program_id(
        &pubkey(&wallet),
        &pubkey(&mint),
        &pubkey(&token_2022_program_id()),
    );
    assert_eq!(derived_2022.bytes, expected_2022.to_bytes());
    assert_ne!(derived, derived_2022);
}
