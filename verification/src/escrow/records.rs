//! What the escrow contract keeps: orders, swaps and quotes.

use vstd::prelude::*;

verus! {

/// Where an escrow order stands.
#[derive(Clone, Copy, Debug, PartialEq, Eq, Structural)]
pub enum OrderStatus {
    Pending,
    Funded,
    Claimed,
    Refunded,
    Expired,
}

/// Joint progress of the two legs of a swap.
#[derive(Clone, Copy, Debug, PartialEq, Eq, Structural)]
pub enum SwapStatus {
    Initiated,
    EVMOrderFilled,
    NEAROrderFunded,
    Completed,
    Failed,
    Expired,
}

/// One leg of a swap, held in escrow on this ledger.
#[derive(Debug)]
pub struct EscrowOrder {
    pub id: String,
    pub maker: String,
    pub taker: String,
    pub from_token: String,
    pub to_token: String,
    pub from_amount: u128,
    pub to_amount: u128,
    /// The SHA-256 digest that the secret must hash to, in lowercase hex.
    pub hashlock: String,
    /// The secret, once a claim has revealed it.
    pub secret: Option<String>,
    /// In seconds.
    pub timelock: u64,
    pub status: OrderStatus,
    pub created_at: u64,
    pub expires_at: u64,
}

/// A swap across two ledgers, whose legs share one hashlock.
#[derive(Debug)]
pub struct CrossChainSwap {
    pub evm_order_hash: String,
    pub near_order_id: String,
    pub evm_address: String,
    pub near_account: String,
    pub from_chain: String,
    pub to_chain: String,
    pub from_token: String,
    pub to_token: String,
    pub from_amount: u128,
    pub to_amount: u128,
    pub hashlock: String,
    pub secret: Option<String>,
    /// In seconds.
    pub timelock: u64,
    pub status: SwapStatus,
    pub created_at: u64,
    pub expires_at: u64,
}

/// One hop of a quoted route.
#[derive(Debug)]
pub struct SwapRoute {
    pub protocol: String,
    pub from_token: String,
    pub to_token: String,
    pub amount: u128,
    pub fee: String,
    pub pool_id: Option<String>,
}

/// An indicative price for a swap.
#[derive(Debug)]
pub struct FusionQuote {
    pub from_token: String,
    pub to_token: String,
    pub from_amount: u128,
    pub to_amount: u128,
    pub price: String,
    pub gas_estimate: u128,
    pub protocols: Vec<String>,
    pub route: Vec<SwapRoute>,
}

/// The step that an order's transfer in flight stands for.
#[derive(Debug)]
pub enum Settlement {
    /// The maker's deposit into escrow.
    Fund,
    /// The payout to the taker, who revealed `secret`; `fee` stays behind.
    Claim { secret: String, fee: u128 },
    /// The return of the deposit to the maker.
    Refund,
}

/// An order together with the transfer in flight for it, if any.
pub struct OrderEntry {
    pub order: EscrowOrder,
    pub in_flight: Option<Settlement>,
}

impl Clone for EscrowOrder {
    fn clone(&self) -> (copy: Self)
        ensures
            copy == *self,
    {
        EscrowOrder {
            id: self.id.clone(),
            maker: self.maker.clone(),
            taker: self.taker.clone(),
            from_token: self.from_token.clone(),
            to_token: self.to_token.clone(),
            from_amount: self.from_amount,
            to_amount: self.to_amount,
            hashlock: self.hashlock.clone(),
            secret: match &self.secret {
                Some(secret) => Some(secret.clone()),
                None => None,
            },
            timelock: self.timelock,
            status: self.status,
            created_at: self.created_at,
            expires_at: self.expires_at,
        }
    }
}

impl Clone for CrossChainSwap {
    fn clone(&self) -> (copy: Self)
        ensures
            copy == *self,
    {
        CrossChainSwap {
            evm_order_hash: self.evm_order_hash.clone(),
            near_order_id: self.near_order_id.clone(),
            evm_address: self.evm_address.clone(),
            near_account: self.near_account.clone(),
            from_chain: self.from_chain.clone(),
            to_chain: self.to_chain.clone(),
            from_token: self.from_token.clone(),
            to_token: self.to_token.clone(),
            from_amount: self.from_amount,
            to_amount: self.to_amount,
            hashlock: self.hashlock.clone(),
            secret: match &self.secret {
                Some(secret) => Some(secret.clone()),
                None => None,
            },
            timelock: self.timelock,
            status: self.status,
            created_at: self.created_at,
            expires_at: self.expires_at,
        }
    }
}

} // verus!
