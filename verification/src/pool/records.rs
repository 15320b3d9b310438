//! What the pool contract keeps: pools, stakes, rewards and the log.

use crate::registry::Registry;
use vstd::prelude::*;

verus! {

/// What a pool transaction did.
#[derive(Clone, Copy, Debug, PartialEq, Eq, Structural)]
pub enum PoolAction {
    Deposit,
    Withdraw,
    ClaimRewards,
    FeeCollection,
}

/// A pool's balances and terms.
#[derive(Debug)]
pub struct LiquidityPool {
    pub id: String,
    pub name: String,
    pub description: String,
    pub solver: String,
    pub token: String,
    pub total_liquidity: u128,
    pub available_liquidity: u128,
    pub total_shares: u128,
    /// In basis points.
    pub fee_rate: u32,
    pub min_deposit: u128,
    pub max_deposit: u128,
    pub is_active: bool,
    pub created_at: u64,
    pub last_updated: u64,
}

/// One account's stake in one pool.
#[derive(Debug)]
pub struct LiquidityProvider {
    pub account_id: String,
    pub pool_id: String,
    pub shares: u128,
    pub deposited_amount: u128,
    pub claimed_rewards: u128,
    pub joined_at: u64,
    pub last_claim: u64,
}

/// The rewards credited to a pool and those already claimed.
#[derive(Debug)]
pub struct PoolReward {
    pub pool_id: String,
    pub total_rewards: u128,
    pub distributed_rewards: u128,
    /// In basis points per day.
    pub reward_rate: u32,
    pub last_distribution: u64,
    pub next_distribution: u64,
}

/// One line of the transaction log.
#[derive(Debug)]
pub struct PoolTransaction {
    pub id: String,
    pub pool_id: String,
    pub user: String,
    pub action: PoolAction,
    pub amount: u128,
    pub shares: u128,
    pub timestamp: u64,
    pub tx_hash: Option<String>,
}

/// A payout whose transfer has been issued and not yet reported on.
#[derive(Debug)]
pub struct Payout {
    /// `Withdraw` or `ClaimRewards`.
    pub action: PoolAction,
    pub account: String,
    pub shares: u128,
    pub amount: u128,
}

/// Everything kept for one pool.
pub struct PoolEntry {
    pub pool: LiquidityPool,
    pub reward: PoolReward,
    /// The providers of this pool, by account.
    pub providers: Registry<LiquidityProvider>,
    pub in_flight: Option<Payout>,
}

impl Clone for LiquidityPool {
    fn clone(&self) -> (copy: Self)
        ensures
            copy == *self,
    {
        LiquidityPool {
            id: self.id.clone(),
            name: self.name.clone(),
            description: self.description.clone(),
            solver: self.solver.clone(),
            token: self.token.clone(),
            total_liquidity: self.total_liquidity,
            available_liquidity: self.available_liquidity,
            total_shares: self.total_shares,
            fee_rate: self.fee_rate,
            min_deposit: self.min_deposit,
            max_deposit: self.max_deposit,
            is_active: self.is_active,
            created_at: self.created_at,
            last_updated: self.last_updated,
        }
    }
}

impl Clone for LiquidityProvider {
    fn clone(&self) -> (copy: Self)
        ensures
            copy == *self,
    {
        LiquidityProvider {
            account_id: self.account_id.clone(),
            pool_id: self.pool_id.clone(),
            shares: self.shares,
            deposited_amount: self.deposited_amount,
            claimed_rewards: self.claimed_rewards,
            joined_at: self.joined_at,
            last_claim: self.last_claim,
        }
    }
}

impl Clone for PoolReward {
    fn clone(&self) -> (copy: Self)
        ensures
            copy == *self,
    {
        PoolReward {
            pool_id: self.pool_id.clone(),
            total_rewards: self.total_rewards,
            distributed_rewards: self.distributed_rewards,
            reward_rate: self.reward_rate,
            last_distribution: self.last_distribution,
            next_distribution: self.next_distribution,
        }
    }
}

} // verus!
