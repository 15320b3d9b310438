//! The failure kinds that every ledger-side operation reports.

use vstd::prelude::*;

verus! {

/// Why an operation was rejected. A rejected operation leaves all state as it was.
#[derive(Clone, Copy, Debug, PartialEq, Eq, Structural)]
pub enum ContractError {
    /// No record is stored under the given id.
    NotFound,
    /// The caller does not hold the role that the operation asks for.
    Unauthorized,
    /// The record's current status does not admit the operation, or a
    /// transfer for it is still in flight.
    InvalidState,
    /// A bound or range check on the arguments failed.
    PreconditionFailed,
    /// The secret does not hash to the stored commitment.
    CryptoMismatch,
    /// A refund was asked for before the timelock ran out.
    TimelockViolation,
    /// The pool's free liquidity does not cover the amount.
    InsufficientFunds,
    /// The provider or the pool holds fewer shares than asked for.
    InsufficientShares,
    /// The asset ledger reported that a transfer failed.
    TransferFailed,
    /// An amount or a counter left the range of its integer type.
    Overflow,
}

} // verus!
