//! What a contract asks the asset ledger to do. The contract only decides;
//! its host performs the transfer and reports back whether it succeeded.

use vstd::prelude::*;

verus! {

/// One side of a transfer.
#[derive(Debug, PartialEq, Eq)]
pub enum Party {
    /// The contract that holds the escrow or the pool.
    Holder,
    /// The named account.
    Account(String),
}

/// A transfer of `amount` units of `token` from `sender` to `receiver`.
#[derive(Debug, PartialEq, Eq)]
pub struct Transfer {
    pub token: String,
    pub sender: Party,
    pub receiver: Party,
    pub amount: u128,
    pub memo: String,
}

} // verus!
