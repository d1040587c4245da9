//! Accounts and the movements of value between them.
use crate::address::Address;
use crate::errors::CustodyError;
use vstd::prelude::*;

verus! {

/// An account at `key` holding `lamports` of native value; `data` is `None`
/// while the account does not exist (never created, or closed).
#[derive(Debug, PartialEq, Eq)]
pub struct Slot<T> {
    pub key: Address,
    pub lamports: u64,
    pub data: Option<T>,
}

/// A balance of one kind of token (`mint`) held for `owner`.
#[derive(Clone, Copy, Debug, PartialEq, Eq)]
pub struct TokenAccount {
    pub mint: Address,
    pub owner: Address,
    pub amount: u64,
}

/// A kind of token: who may issue it, and how much of it exists.
#[derive(Clone, Copy, Debug, PartialEq, Eq)]
pub struct MintAccount {
    pub authority: Address,
    pub supply: u64,
    pub decimals: u8,
}

/// Moving `amount` from `from` to `to`: both balances change, or neither.
pub open spec fn transfer_of(from: TokenAccount, to: TokenAccount, amount: u64) -> Result<
    (TokenAccount, TokenAccount),
    CustodyError,
> {
    if from.mint != to.mint {
        Err(CustodyError::MintMismatch)
    } else if from.amount < amount {
        Err(CustodyError::InsufficientFunds)
    } else if to.amount + amount > u64::MAX {
        Err(CustodyError::Overflow)
    } else {
        Ok(
            (
                TokenAccount { amount: (from.amount - amount) as u64, ..from },
                TokenAccount { amount: (to.amount + amount) as u64, ..to },
            ),
        )
    }
}

/// Issuing `amount` new tokens into `to`.
pub open spec fn mint_to_of(mint_key: Address, mint: MintAccount, to: TokenAccount, amount: u64) -> Result<
    (MintAccount, TokenAccount),
    CustodyError,
> {
    if to.mint != mint_key {
        Err(CustodyError::MintMismatch)
    } else if mint.supply + amount > u64::MAX || to.amount + amount > u64::MAX {
        Err(CustodyError::Overflow)
    } else {
        Ok(
            (
                MintAccount { supply: (mint.supply + amount) as u64, ..mint },
                TokenAccount { amount: (to.amount + amount) as u64, ..to },
            ),
        )
    }
}

/// Destroying `amount` tokens held in `from`.
pub open spec fn burn_of(mint_key: Address, mint: MintAccount, from: TokenAccount, amount: u64) -> Result<
    (MintAccount, TokenAccount),
    CustodyError,
> {
    if from.mint != mint_key {
        Err(CustodyError::MintMismatch)
    } else if from.amount < amount {
        Err(CustodyError::InsufficientFunds)
    } else if mint.supply < amount {
        Err(CustodyError::Overflow)
    } else {
        Ok(
            (
                MintAccount { supply: (mint.supply - amount) as u64, ..mint },
                TokenAccount { amount: (from.amount - amount) as u64, ..from },
            ),
        )
    }
}

/// Moves `amount` between two accounts of the same kind of token.
pub fn transfer(from: &TokenAccount, to: &TokenAccount, amount: u64) -> (r: Result<
    (TokenAccount, TokenAccount),
    CustodyError,
>)
    ensures
        r == transfer_of(*from, *to, amount),
{
    if !from.mint.same(&to.mint) {
        return Err(CustodyError::MintMismatch);
    }
    if from.amount < amount {
        return Err(CustodyError::InsufficientFunds);
    }
    match to.amount.checked_add(amount) {
        Some(credited) => Ok(
            (
                TokenAccount { amount: from.amount - amount, ..*from },
                TokenAccount { amount: credited, ..*to },
            ),
        ),
        None => Err(CustodyError::Overflow),
    }
}

/// Issues `amount` tokens of the mint at `mint_key` into `to`.
pub fn mint_to(mint_key: &Address, mint: &MintAccount, to: &TokenAccount, amount: u64) -> (r: Result<
    (MintAccount, TokenAccount),
    CustodyError,
>)
    ensures
        r == mint_to_of(*mint_key, *mint, *to, amount),
{
    if !to.mint.same(mint_key) {
        return Err(CustodyError::MintMismatch);
    }
    match (mint.supply.checked_add(amount), to.amount.checked_add(amount)) {
        (Some(supply), Some(credited)) => Ok(
            (MintAccount { supply, ..*mint }, TokenAccount { amount: credited, ..*to }),
        ),
        _ => Err(CustodyError::Overflow),
    }
}

/// Destroys `amount` tokens of the mint at `mint_key` held in `from`.
pub fn burn(mint_key: &Address, mint: &MintAccount, from: &TokenAccount, amount: u64) -> (r: Result<
    (MintAccount, TokenAccount),
    CustodyError,
>)
    ensures
        r == burn_of(*mint_key, *mint, *from, amount),
{
    if !from.mint.same(mint_key) {
        return Err(CustodyError::MintMismatch);
    }
    if from.amount < amount {
        return Err(CustodyError::InsufficientFunds);
    }
    if mint.supply < amount {
        return Err(CustodyError::Overflow);
    }
    Ok(
        (
            MintAccount { supply: mint.supply - amount, ..*mint },
            TokenAccount { amount: from.amount - amount, ..*from },
        ),
    )
}

} // verus!
