//! Why a transition was refused. A refused transition changes nothing.
use vstd::prelude::*;

verus! {

/// Failures of a token movement.
#[derive(Clone, Copy, Debug, PartialEq, Eq, Structural)]
pub enum CustodyError {
    /// The source holds less than the amount.
    InsufficientFunds,
    /// The two accounts hold different kinds of token.
    MintMismatch,
    /// A balance or a supply would leave the range of `u64`.
    Overflow,
}

#[derive(Clone, Copy, Debug, PartialEq, Eq, Structural)]
pub enum EscrowError {
    /// The escrow or its vault already exists.
    AccountInUse,
    /// The escrow or its vault does not exist.
    NotInitialized,
    /// An account is not at the address derived for its role.
    AddressMismatch,
    /// The caller or an account owner is not the one the escrow names.
    Unauthorized,
    MintMismatch,
    InsufficientFunds,
    Overflow,
}

#[derive(Clone, Copy, Debug, PartialEq, Eq, Structural)]
pub enum StablecoinError {
    Unauthorized,
    Paused,
    ExceedsAllowance,
    NotMinter,
    Overflow,
    AlreadyInitialized,
    NotInitialized,
    AddressMismatch,
    MintMismatch,
    InsufficientFunds,
}

#[derive(Clone, Copy, Debug, PartialEq, Eq, Structural)]
pub enum MarketError {
    ResolutionTimeInPast,
    BettingClosed,
    InvalidBetAmount,
    ResolutionTooEarly,
    AlreadyResolved,
    NotResolved,
    AlreadyClaimed,
    NoWinnings,
    Overflow,
    Unauthorized,
    AlreadyInitialized,
    NotInitialized,
    AddressMismatch,
    InsufficientFunds,
}

#[derive(Clone, Copy, Debug, PartialEq, Eq, Structural)]
pub enum LabubuError {
    SoldOut,
    InvalidLabubuId,
    Unauthorized,
    AlreadyInitialized,
    NotInitialized,
    AddressMismatch,
    MintMismatch,
    Overflow,
}

pub open spec fn escrow_custody_error(e: CustodyError) -> EscrowError {
    match e {
        CustodyError::InsufficientFunds => EscrowError::InsufficientFunds,
        CustodyError::MintMismatch => EscrowError::MintMismatch,
        CustodyError::Overflow => EscrowError::Overflow,
    }
}

pub open spec fn stablecoin_custody_error(e: CustodyError) -> StablecoinError {
    match e {
        CustodyError::InsufficientFunds => StablecoinError::InsufficientFunds,
        CustodyError::MintMismatch => StablecoinError::MintMismatch,
        CustodyError::Overflow => StablecoinError::Overflow,
    }
}

pub open spec fn labubu_custody_error(e: CustodyError) -> LabubuError {
    match e {
        CustodyError::InsufficientFunds => LabubuError::Overflow,
        CustodyError::MintMismatch => LabubuError::MintMismatch,
        CustodyError::Overflow => LabubuError::Overflow,
    }
}

impl EscrowError {
    pub fn from_custody(e: CustodyError) -> (r: EscrowError)
        ensures
            r == escrow_custody_error(e),
    {
        match e {
            CustodyError::InsufficientFunds => EscrowError::InsufficientFunds,
            CustodyError::MintMismatch => EscrowError::MintMismatch,
            CustodyError::Overflow => EscrowError::Overflow,
        }
    }
}

impl StablecoinError {
    pub fn from_custody(e: CustodyError) -> (r: StablecoinError)
        ensures
            r == stablecoin_custody_error(e),
    {
        match e {
            CustodyError::InsufficientFunds => StablecoinError::InsufficientFunds,
            CustodyError::MintMismatch => StablecoinError::MintMismatch,
            CustodyError::Overflow => StablecoinError::Overflow,
        }
    }
}

impl LabubuError {
    pub fn from_custody(e: CustodyError) -> (r: LabubuError)
        ensures
            r == labubu_custody_error(e),
    {
        match e {
            CustodyError::InsufficientFunds => LabubuError::Overflow,
            CustodyError::MintMismatch => LabubuError::MintMismatch,
            CustodyError::Overflow => LabubuError::Overflow,
        }
    }
}

} // verus!
