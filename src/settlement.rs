//! Settlement arithmetic: pool payouts, allowance consumption and supply
//! counters, all checked.
use crate::errors::{LabubuError, MarketError, StablecoinError};
use vstd::prelude::*;

verus! {

/// What a winner is paid: the stake back plus the stake's share of the losing
/// pool, rounded down.
pub open spec fn payout_of(user_winning_bet: u64, total_winning_pool: u64, total_losing_pool: u64) -> Result<u64, MarketError> {
    if user_winning_bet == 0 {
        Err(MarketError::NoWinnings)
    } else if total_winning_pool == 0 {
        Err(MarketError::Overflow)
    } else if user_winning_bet + (user_winning_bet * total_losing_pool) / (total_winning_pool as int) > u64::MAX {
        Err(MarketError::Overflow)
    } else {
        Ok((user_winning_bet + (user_winning_bet * total_losing_pool) / (total_winning_pool as int)) as u64)
    }
}

/// `user_winning_bet + floor(user_winning_bet * total_losing_pool / total_winning_pool)`,
/// with the product taken in 128 bits and the division last.
pub fn pool_payout(user_winning_bet: u64, total_winning_pool: u64, total_losing_pool: u64) -> (r: Result<u64, MarketError>)
    ensures
        r == payout_of(user_winning_bet, total_winning_pool, total_losing_pool),
{
    if user_winning_bet == 0 {
        return Err(MarketError::NoWinnings);
    }
    if total_winning_pool == 0 {
        return Err(MarketError::Overflow);
    }
    let a = user_winning_bet as u128;
    let b = total_losing_pool as u128;
    assert(a * b <= 0xffff_ffff_ffff_ffff * 0xffff_ffff_ffff_ffffu128) by (nonlinear_arith)
        requires
            a <= 0xffff_ffff_ffff_ffff,
            b <= 0xffff_ffff_ffff_ffff,
    ;
    let winnings = (a * b) / (total_winning_pool as u128);
    if winnings > u64::MAX as u128 {
        return Err(MarketError::Overflow);
    }
    match user_winning_bet.checked_add(winnings as u64) {
        Some(total) => Ok(total),
        None => Err(MarketError::Overflow),
    }
}

/// The new used counter after minting `requested` under `allowance`.
pub open spec fn allowance_use_of(allowance: u64, used: u64, requested: u64) -> Result<u64, StablecoinError> {
    if used > allowance || requested > allowance - used {
        Err(StablecoinError::ExceedsAllowance)
    } else {
        Ok((used + requested) as u64)
    }
}

/// Consumes `requested` of what remains of `allowance` once `used` is spent.
pub fn consume_allowance(allowance: u64, used: u64, requested: u64) -> (r: Result<u64, StablecoinError>)
    ensures
        r == allowance_use_of(allowance, used, requested),
        r matches Ok(u) ==> used <= u <= allowance,
{
    let remaining = match allowance.checked_sub(used) {
        Some(rem) => rem,
        None => return Err(StablecoinError::ExceedsAllowance),
    };
    if requested > remaining {
        return Err(StablecoinError::ExceedsAllowance);
    }
    match used.checked_add(requested) {
        Some(u) => Ok(u),
        None => Err(StablecoinError::Overflow),
    }
}

/// The counter after one unit is taken from a category holding `remaining`.
pub open spec fn supply_take_of(remaining: u16) -> Result<u16, LabubuError> {
    if remaining == 0 {
        Err(LabubuError::SoldOut)
    } else {
        Ok((remaining - 1) as u16)
    }
}

/// Takes one unit from a category; an exhausted category stays exhausted.
pub fn take_one(remaining: u16) -> (r: Result<u16, LabubuError>)
    ensures
        r == supply_take_of(remaining),
{
    if remaining == 0 {
        Err(LabubuError::SoldOut)
    } else {
        Ok(remaining - 1)
    }
}

} // verus!
