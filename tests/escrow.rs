use anchor_lang::prelude::Pubkey;
use custody_engine::address::{associated_token_address, derive_address, escrow_seeds, token_program_id, Address};
use custody_engine::custody::{Slot, TokenAccount};
use custody_engine::errors::EscrowError;
use custody_engine::escrow::{make, refund, take, Escrow, Make, Refund, Take};
use std::str::FromStr;

fn program() -> Address {
    Address::new(Pubkey::from_str("8F3byNyXVHzfmjKK9J2cxvVbKzRiVYh8icoprMUqSFmb").unwrap().to_bytes())
}

fn key(n: u8) -> Address {
    Address::new([n; 32])
}

fn ata(owner: &Address, mint: &Address) -> Address {
    associated_token_address(owner, mint, &token_program_id()).unwrap()
}

fn empty<T>(key: Address) -> Slot<T> {
    Slot { key, lamports: 0, data: None }
}

fn holding(owner: Address, mint: Address, amount: u64) -> Slot<TokenAccount> {
    Slot { key: ata(&owner, &mint), lamports: 2_039_280, data: Some(TokenAccount { mint, owner, amount }) }
}

struct Opened {
    maker: Address,
    mint_a: Address,
    mint_b: Address,
    escrow: Slot<Escrow>,
    vault: Slot<TokenAccount>,
    maker_ata_a: Slot<TokenAccount>,
}

fn open(seed: u64, receive: u64, amount: u64, maker_has: u64) -> (Opened, Result<(), EscrowError>) {
    let program = program();
    let maker = key(1);
    let mint_a = key(3);
    let mint_b = key(4);
    let (escrow_key, _) = derive_address(&escrow_seeds(&maker, seed), &program).unwrap();
    let mut ctx = Make {
        maker,
        escrow: Slot { key: escrow_key, lamports: 1_500_000, data: None },
        mint_a,
        mint_b,
        maker_ata_a: holding(maker, mint_a, maker_has),
        vault: Slot { key: ata(&escrow_key, &mint_a), lamports: 2_039_280, data: None },
    };
    let r = make(&mut ctx, &program, seed, receive, amount);
    (
        Opened { maker, mint_a, mint_b, escrow: ctx.escrow, vault: ctx.vault, maker_ata_a: ctx.maker_ata_a },
        r,
    )
}

fn take_ctx(o: Opened, taker: Address, taker_b: u64) -> Take {
    Take {
        taker,
        maker: o.maker,
        maker_lamports: 10_000_000_000,
        escrow: o.escrow,
        mint_a: o.mint_a,
        mint_b: o.mint_b,
        vault: o.vault,
        taker_ata_a: empty(ata(&taker, &o.mint_a)),
        taker_ata_b: holding(taker, o.mint_b, taker_b),
        maker_ata_b: empty(ata(&o.maker, &o.mint_b)),
    }
}

#[test]
fn test_escrow_make_and_take() {
    let (opened, r) = open(42, 500_000_000, 1_000_000_000, 1_000_000_000);
    assert_eq!(r, Ok(()));
    assert!(opened.escrow.data.is_some(), "Escrow account should exist");
    assert_eq!(opened.vault.data.unwrap().amount, 1_000_000_000);
    assert_eq!(opened.maker_ata_a.data.unwrap().amount, 0);

    let taker = key(2);
    let mut ctx = take_ctx(opened, taker, 500_000_000);
    assert_eq!(take(&mut ctx, &program()), Ok(()));
    assert!(ctx.escrow.data.is_none());
    assert!(ctx.vault.data.is_none());
    assert_eq!(ctx.taker_ata_a.data.unwrap().amount, 1_000_000_000);
    assert_eq!(ctx.taker_ata_b.data.unwrap().amount, 0);
    assert_eq!(ctx.maker_ata_b.data.unwrap().amount, 500_000_000);
    assert_eq!(ctx.maker_lamports, 10_000_000_000 + 1_500_000 + 2_039_280);
}

#[test]
fn escrow_records_terms() {
    let (opened, r) = open(7, 500_000_000, 1_000_000_000, 1_000_000_000);
    assert_eq!(r, Ok(()));
    let e = opened.escrow.data.unwrap();
    assert_eq!(e.seed, 7);
    assert_eq!(e.receive, 500_000_000);
    assert_eq!(e.maker, key(1));
    let (_, bump) = derive_address(&escrow_seeds(&key(1), 7), &program()).unwrap();
    assert_eq!(e.bump, bump);
    assert_eq!(opened.vault.data.unwrap().owner, opened.escrow.key);
}

#[test]
fn make_without_enough_tokens_fails() {
    let (opened, r) = open(42, 500_000_000, 1_000_000_000, 999_999_999);
    assert_eq!(r, Err(EscrowError::InsufficientFunds));
    assert!(opened.escrow.data.is_none());
    assert!(opened.vault.data.is_none());
    assert_eq!(opened.maker_ata_a.data.unwrap().amount, 999_999_999);
}

#[test]
fn make_at_wrong_address_fails() {
    let program = program();
    let maker = key(1);
    let mint_a = key(3);
    let escrow_key = key(9);
    let mut ctx = Make {
        maker,
        escrow: empty(escrow_key),
        mint_a,
        mint_b: key(4),
        maker_ata_a: holding(maker, mint_a, 10),
        vault: empty(ata(&escrow_key, &mint_a)),
    };
    assert_eq!(make(&mut ctx, &program, 42, 1, 10), Err(EscrowError::AddressMismatch));
    assert!(ctx.escrow.data.is_none());
}

#[test]
fn make_twice_fails() {
    let (opened, r) = open(42, 5, 10, 20);
    assert_eq!(r, Ok(()));
    let mut ctx = Make {
        maker: opened.maker,
        escrow: opened.escrow,
        mint_a: opened.mint_a,
        mint_b: opened.mint_b,
        maker_ata_a: opened.maker_ata_a,
        vault: opened.vault,
    };
    assert_eq!(make(&mut ctx, &program(), 42, 5, 10), Err(EscrowError::AccountInUse));
    assert_eq!(ctx.maker_ata_a.data.unwrap().amount, 10);
}

#[test]
fn take_with_too_little_fails_and_changes_nothing() {
    let (opened, _) = open(42, 500_000_000, 1_000_000_000, 1_000_000_000);
    let mut ctx = take_ctx(opened, key(2), 499_999_999);
    assert_eq!(take(&mut ctx, &program()), Err(EscrowError::InsufficientFunds));
    assert_eq!(ctx.vault.data.unwrap().amount, 1_000_000_000);
    assert!(ctx.escrow.data.is_some());
    assert!(ctx.taker_ata_a.data.is_none());
    assert_eq!(ctx.taker_ata_b.data.unwrap().amount, 499_999_999);
}

#[test]
fn take_with_wrong_kind_fails() {
    let (opened, _) = open(42, 5, 10, 10);
    let mut ctx = take_ctx(opened, key(2), 5);
    ctx.mint_b = key(8);
    assert_eq!(take(&mut ctx, &program()), Err(EscrowError::MintMismatch));
}

#[test]
fn refund_returns_vault_to_maker() {
    let (opened, _) = open(42, 500_000_000, 1_000_000_000, 1_000_000_000);
    let mut ctx = Refund {
        maker: opened.maker,
        maker_lamports: 1_000,
        escrow: opened.escrow,
        mint_a: opened.mint_a,
        maker_ata_a: opened.maker_ata_a,
        vault: opened.vault,
    };
    assert_eq!(refund(&mut ctx, &program()), Ok(()));
    assert!(ctx.escrow.data.is_none());
    assert!(ctx.vault.data.is_none());
    assert_eq!(ctx.maker_ata_a.data.unwrap().amount, 1_000_000_000);
    assert_eq!(ctx.maker_lamports, 1_000 + 1_500_000 + 2_039_280);
}

#[test]
fn refund_by_another_fails() {
    let (opened, _) = open(42, 5, 10, 10);
    let mut ctx = Refund {
        maker: key(2),
        maker_lamports: 0,
        escrow: opened.escrow,
        mint_a: opened.mint_a,
        maker_ata_a: holding(key(2), opened.mint_a, 0),
        vault: opened.vault,
    };
    assert_eq!(refund(&mut ctx, &program()), Err(EscrowError::Unauthorized));
    assert_eq!(ctx.vault.data.unwrap().amount, 10);
}

#[test]
fn closed_escrow_cannot_be_taken_again() {
    let (opened, _) = open(42, 5, 10, 10);
    let mut ctx = take_ctx(opened, key(2), 5);
    assert_eq!(take(&mut ctx, &program()), Ok(()));
    assert_eq!(take(&mut ctx, &program()), Err(EscrowError::NotInitialized));
}

#[test]
fn escrow_can_reopen_after_close() {
    let (opened, _) = open(42, 5, 10, 10);
    let ata_key = opened.maker_ata_a.key;
    let ata_data = opened.maker_ata_a.data.unwrap();
    let mut ctx = take_ctx(opened, key(2), 5);
    assert_eq!(take(&mut ctx, &program()), Ok(()));
    let mut again = Make {
        maker: ctx.maker,
        escrow: ctx.escrow,
        mint_a: ctx.mint_a,
        mint_b: ctx.mint_b,
        maker_ata_a: Slot { key: ata_key, lamports: 0, data: Some(TokenAccount { amount: 20, ..ata_data }) },
        vault: ctx.vault,
    };
    assert_eq!(make(&mut again, &program(), 42, 7, 20), Ok(()));
    assert_eq!(again.escrow.data.unwrap().receive, 7);
    assert_eq!(again.vault.data.unwrap().amount, 20);
}

#[test]
fn take_overflowing_maker_balance_fails() {
    let (opened, _) = open(42, 5, 10, 10);
    let maker = opened.maker;
    let mint_b = opened.mint_b;
    let mut ctx = take_ctx(opened, key(2), 5);
    ctx.maker_ata_b = holding(maker, mint_b, u64::MAX - 1);
    assert_eq!(take(&mut ctx, &program()), Err(EscrowError::Overflow));
    assert_eq!(ctx.vault.data.unwrap().amount, 10);
}
