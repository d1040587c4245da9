//! Custody and settlement rules for program-controlled accounts: derived
//! addresses, escrow swaps, an allowance-gated stablecoin, a binary
//! prediction market and a limited-supply collectible mint.
pub mod address;
pub mod collection;
pub mod custody;
pub mod errors;
pub mod escrow;
pub mod market;
pub mod settlement;
pub mod stablecoin;
