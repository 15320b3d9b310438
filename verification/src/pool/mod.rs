//! Share-based liquidity pools: deposits mint shares, withdrawals burn them
//! at the pool's current ratio, and rewards are paid out in proportion to the
//! shares held. A payout is first reserved, then settled once the asset
//! ledger has reported on the transfer.
//!
//! `records` holds the data, `rules` says what each operation answers and
//! changes, `contract` holds the operations themselves.

pub mod contract;
pub mod records;
pub mod rules;

pub use self::contract::FusionPool;
pub use self::records::{
    LiquidityPool,
    LiquidityProvider,
    Payout,
    PoolAction,
    PoolEntry,
    PoolReward,
    PoolTransaction,
};
