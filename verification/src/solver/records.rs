//! What the solver contract keeps: solvers, pools, orders and quotes.

use crate::registry::copy_list;
use vstd::prelude::*;

verus! {

/// Where an order made from a quote stands.
#[derive(Clone, Copy, Debug, PartialEq, Eq, Structural)]
pub enum OrderStatus {
    Pending,
    Filled,
    Cancelled,
    Expired,
    Failed,
}

/// A registered solver and its record of fills.
#[derive(Debug)]
pub struct Solver {
    pub account_id: String,
    pub name: String,
    pub description: String,
    pub version: String,
    pub code_hash: String,
    pub is_active: bool,
    pub total_solves: u64,
    /// Advisory only, in basis points.
    pub success_rate: u32,
    pub total_volume: u128,
    pub total_fees: u128,
    pub registered_at: u64,
    pub last_active: u64,
}

/// The inventory that a solver fills orders from.
#[derive(Debug)]
pub struct SolverPool {
    pub id: String,
    pub solver: String,
    pub liquidity_providers: Vec<String>,
    pub total_liquidity: u128,
    pub available_liquidity: u128,
    /// In basis points.
    pub fee_rate: u32,
    pub min_order_size: u128,
    pub max_order_size: u128,
    pub is_active: bool,
    pub created_at: u64,
}

/// An order made from an accepted quote.
#[derive(Debug)]
pub struct FusionOrder {
    pub id: String,
    pub user: String,
    pub from_token: String,
    pub to_token: String,
    pub from_amount: u128,
    pub to_amount: u128,
    pub min_to_amount: u128,
    pub deadline: u64,
    pub solver: Option<String>,
    pub status: OrderStatus,
    pub created_at: u64,
    pub filled_at: Option<u64>,
    pub tx_hash: Option<String>,
}

/// A signature that a solver handed in.
#[derive(Debug)]
pub struct ChainSignature {
    pub signature: String,
    pub public_key: String,
    pub message: String,
    pub timestamp: u64,
    pub solver: String,
}

/// A user's request for a quote.
#[derive(Debug)]
pub struct QuoteRequest {
    pub from_token: String,
    pub to_token: String,
    pub amount: u128,
    pub user: String,
    pub deadline: u64,
}

/// A solver's answer to a request.
#[derive(Debug)]
pub struct QuoteResponse {
    pub quote_id: String,
    pub from_token: String,
    pub to_token: String,
    pub from_amount: u128,
    pub to_amount: u128,
    pub price: String,
    pub gas_estimate: u128,
    pub solver: String,
    pub pool_id: String,
    pub fee: u128,
    pub valid_until: u64,
}

impl Clone for Solver {
    fn clone(&self) -> (copy: Self)
        ensures
            copy == *self,
    {
        Solver {
            account_id: self.account_id.clone(),
            name: self.name.clone(),
            description: self.description.clone(),
            version: self.version.clone(),
            code_hash: self.code_hash.clone(),
            is_active: self.is_active,
            total_solves: self.total_solves,
            success_rate: self.success_rate,
            total_volume: self.total_volume,
            total_fees: self.total_fees,
            registered_at: self.registered_at,
            last_active: self.last_active,
        }
    }
}

impl Clone for SolverPool {
    fn clone(&self) -> (copy: Self)
        ensures
            copy.liquidity_providers@ == self.liquidity_providers@,
            copy == (SolverPool { liquidity_providers: copy.liquidity_providers, ..*self }),
    {
        SolverPool {
            id: self.id.clone(),
            solver: self.solver.clone(),
            liquidity_providers: copy_list(&self.liquidity_providers),
            total_liquidity: self.total_liquidity,
            available_liquidity: self.available_liquidity,
            fee_rate: self.fee_rate,
            min_order_size: self.min_order_size,
            max_order_size: self.max_order_size,
            is_active: self.is_active,
            created_at: self.created_at,
        }
    }
}

impl Clone for FusionOrder {
    fn clone(&self) -> (copy: Self)
        ensures
            copy == *self,
    {
        FusionOrder {
            id: self.id.clone(),
            user: self.user.clone(),
            from_token: self.from_token.clone(),
            to_token: self.to_token.clone(),
            from_amount: self.from_amount,
            to_amount: self.to_amount,
            min_to_amount: self.min_to_amount,
            deadline: self.deadline,
            solver: match &self.solver {
                Some(solver) => Some(solver.clone()),
                None => None,
            },
            status: self.status,
            created_at: self.created_at,
            filled_at: self.filled_at,
            tx_hash: match &self.tx_hash {
                Some(hash) => Some(hash.clone()),
                None => None,
            },
        }
    }
}

impl Clone for QuoteRequest {
    fn clone(&self) -> (copy: Self)
        ensures
            copy == *self,
    {
        QuoteRequest {
            from_token: self.from_token.clone(),
            to_token: self.to_token.clone(),
            amount: self.amount,
            user: self.user.clone(),
            deadline: self.deadline,
        }
    }
}

} // verus!
