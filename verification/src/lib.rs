//! Hash-time-locked escrow, share-based liquidity accounting and quote matching
//! for swaps between two ledgers, with machine-checked contracts.

pub mod errors;
pub mod escrow;
pub mod hashing;
pub mod htlc;
pub mod ids;
pub mod math;
pub mod pool;
pub mod registry;
pub mod solver;
pub mod transfer;
