//! Hash-time-locked escrow orders, one per swap leg, and the tracker that
//! links the two legs of a swap. An order moves from `Pending` to `Funded`
//! and from there to `Claimed` or `Refunded`; each of these steps is taken
//! only once the asset ledger has confirmed the transfer that it stands for.
//!
//! Timestamps count nanoseconds; a timelock is a duration in seconds.
//!
//! `records` holds the data, `rules` says what each operation answers and
//! changes, `contract` holds the operations themselves.

pub mod contract;
pub mod records;
pub mod rules;

pub use self::contract::FusionEscrow;
pub use self::records::{
    CrossChainSwap,
    EscrowOrder,
    FusionQuote,
    OrderEntry,
    OrderStatus,
    Settlement,
    SwapRoute,
    SwapStatus,
};
