//! The pool contract and its operations.

use crate::errors::ContractError;
use crate::ids::make_id;
use crate::math::bumped;
use crate::pool::records::{
    LiquidityPool,
    LiquidityProvider,
    Payout,
    PoolAction,
    PoolEntry,
    PoolReward,
    PoolTransaction,
};
use crate::pool::rules::{
    add_rewards_check,
    claim_rewards_check,
    claim_settled,
    create_pool_check,
    deposit_check,
    deposit_effect,
    entry_wf,
    fresh_pool,
    fresh_reward,
    lemma_burn_bounds,
    lemma_shares_at_par,
    logged,
    payout_covered,
    payout_dropped,
    payout_issued,
    settle_check,
    switch_check,
    switched,
    withdraw_check,
    withdrawal_settled,
    PoolLedger,
};
use crate::registry::{listed, texts, Index, Registry};
use crate::transfer::{Party, Transfer};
use vstd::prelude::*;

verus! {

/// The pool contract: its pools, the indices over them, the transaction
/// log, the contract-wide counters and the configuration.
pub struct FusionPool {
    owner: String,
    solver_contract: String,
    entries: Registry<PoolEntry>,
    solver_pools: Index,
    user_pools: Index,
    transactions: Vec<PoolTransaction>,
    total_pools: u64,
    total_providers: u64,
    total_liquidity: u128,
    total_rewards_distributed: u128,
    min_pool_fee: u32,
    max_pool_fee: u32,
    reward_distribution_interval: u64,
    min_deposit_amount: u128,
}

impl View for FusionPool {
    type V = PoolLedger;

    closed spec fn view(&self) -> PoolLedger {
        PoolLedger {
            owner: self.owner,
            solver_contract: self.solver_contract,
            entries: self.entries@,
            solver_pools: self.solver_pools@,
            user_pools: self.user_pools@,
            transactions: self.transactions@,
            total_pools: self.total_pools,
            total_providers: self.total_providers,
            total_liquidity: self.total_liquidity,
            total_rewards_distributed: self.total_rewards_distributed,
            min_pool_fee: self.min_pool_fee,
            max_pool_fee: self.max_pool_fee,
            reward_distribution_interval: self.reward_distribution_interval,
            min_deposit_amount: self.min_deposit_amount,
        }
    }
}

impl FusionPool {
    /// The contract-wide invariant.
    pub closed spec fn wf(&self) -> bool {
        &&& self.entries.wf()
        &&& self.solver_pools.wf()
        &&& self.user_pools.wf()
        &&& self@.wf()
    }

    /// A contract without pools: fees between 0.1% and 10%, a distribution
    /// interval of one day in nanoseconds.
    pub fn new(owner: String, solver_contract: String) -> (contract: Self)
        ensures
            contract.wf(),
            contract@ == (PoolLedger {
                owner,
                solver_contract,
                entries: Map::empty(),
                solver_pools: Map::empty(),
                user_pools: Map::empty(),
                transactions: Seq::empty(),
                total_pools: 0,
                total_providers: 0,
                total_liquidity: 0,
                total_rewards_distributed: 0,
                min_pool_fee: 10,
                max_pool_fee: 1000,
                reward_distribution_interval: 86_400_000_000_000,
                min_deposit_amount: 1_000_000_000_000_000_000_000,
            }),
    {
        FusionPool {
            owner,
            solver_contract,
            entries: Registry::new(),
            solver_pools: Index::new(),
            user_pools: Index::new(),
            transactions: Vec::new(),
            total_pools: 0,
            total_providers: 0,
            total_liquidity: 0,
            total_rewards_distributed: 0,
            min_pool_fee: 10,
            max_pool_fee: 1000,
            reward_distribution_interval: 86_400_000_000_000,
            min_deposit_amount: 1_000_000_000_000_000_000_000,
        }
    }

    /// Sets up a pool owned by `caller` under `pool_id`, with zero balances
    /// and a fresh reward record. A pool already stored under that id is
    /// replaced; the stakes recorded for it stay.
    pub fn create_pool(
        &mut self,
        pool_id: String,
        name: String,
        description: String,
        token: String,
        fee_rate: u32,
        min_deposit: u128,
        max_deposit: u128,
        caller: String,
        now: u64,
    ) -> (result: Result<bool, ContractError>)
        requires
            old(self).wf(),
        ensures
            final(self).wf(),
            match result {
                Ok(created) => {
                    let before = old(self)@;
                    let after = final(self)@;
                    let entry = after.entries[pool_id@];
                    &&& created
                    &&& create_pool_check(before, now, pool_id@, fee_rate, min_deposit, max_deposit)
                        is Ok
                    &&& after.entries == before.entries.insert(pool_id@, entry)
                    &&& entry.pool == fresh_pool(
                        caller,
                        now,
                        pool_id,
                        name,
                        description,
                        token,
                        fee_rate,
                        min_deposit,
                        max_deposit,
                    )
                    &&& entry.reward == fresh_reward(
                        pool_id,
                        now,
                        before.reward_distribution_interval,
                    )
                    &&& entry.in_flight is None
                    &&& entry.providers@ == if before.entries.contains_key(pool_id@) {
                        before.entries[pool_id@].providers@
                    } else {
                        Map::empty()
                    }
                    &&& after.solver_pools == before.solver_pools.insert(
                        caller@,
                        listed(before.solver_pools, caller@).push(pool_id@),
                    )
                    &&& after == (PoolLedger {
                        entries: after.entries,
                        solver_pools: after.solver_pools,
                        total_pools: bumped(before.total_pools),
                        ..before
                    })
                },
                Err(error) => {
                    &&& *final(self) == *old(self)
                    &&& create_pool_check(
                        old(self)@,
                        now,
                        pool_id@,
                        fee_rate,
                        min_deposit,
                        max_deposit,
                    ) == Err::<(), ContractError>(error)
                },
            },
    {
        if fee_rate < self.min_pool_fee || fee_rate > self.max_pool_fee {
            return Err(ContractError::PreconditionFailed);
        }
        if min_deposit > max_deposit {
            return Err(ContractError::PreconditionFailed);
        }
        match self.entries.get(&pool_id) {
            Some(entry) => {
                if entry.in_flight.is_some() {
                    return Err(ContractError::InvalidState);
                }
            },
            None => {},
        }
        let next_distribution = match now.checked_add(self.reward_distribution_interval) {
            Some(at) => at,
            None => {
                return Err(ContractError::Overflow);
            },
        };
        let providers = match self.entries.remove(&pool_id) {
            Some(entry) => entry.providers,
            None => Registry::new(),
        };
        let pool = LiquidityPool {
            id: pool_id.clone(),
            name,
            description,
            solver: caller.clone(),
            token,
            total_liquidity: 0,
            available_liquidity: 0,
            total_shares: 0,
            fee_rate,
            min_deposit,
            max_deposit,
            is_active: true,
            created_at: now,
            last_updated: now,
        };
        let reward = PoolReward {
            pool_id: pool_id.clone(),
            total_rewards: 0,
            distributed_rewards: 0,
            reward_rate: 100,
            last_distribution: now,
            next_distribution,
        };
        let entry = PoolEntry { pool, reward, providers, in_flight: None };
        self.entries.insert(pool_id.clone(), entry);
        self.solver_pools.add(caller, pool_id);
        self.total_pools = self.total_pools.saturating_add(1);
        proof {
            let before = old(self)@;
            let after = self@;
            assert(after.entries =~= before.entries.insert(pool_id@, entry));
            assert forall|id: Seq<char>| #[trigger] after.entries.contains_key(id) implies {
                &&& entry_wf(after.entries[id])
                &&& after.entries[id].pool.id@ == id
                &&& listed(after.solver_pools, after.entries[id].pool.solver@).contains(id)
            } by {
                if id == pool_id@ {
                    let list = listed(before.solver_pools, caller@).push(pool_id@);
                    assert(list[list.len() - 1] == pool_id@);
                } else {
                    assert(before.entries.contains_key(id));
                    let solver = before.entries[id].pool.solver@;
                    let old_list = listed(before.solver_pools, solver);
                    let i = choose|i: int| 0 <= i < old_list.len() && old_list[i] == id;
                    if solver == caller@ {
                        assert(old_list.push(pool_id@)[i] == id);
                    }
                }
            }
            assert forall|id: Seq<char>, account: Seq<char>|
                after.entries.contains_key(id) && #[trigger] after.entries[id].providers@.contains_key(
                    account,
                ) implies listed(after.user_pools, account).contains(id) by {
                assert(before.entries.contains_key(id));
                assert(before.entries[id].providers@.contains_key(account));
            }
            assert forall|solver: Seq<char>, i: int|
                0 <= i < listed(after.solver_pools, solver).len() implies after.entries.contains_key(
                #[trigger] listed(after.solver_pools, solver)[i],
            ) by {
                let old_list = listed(before.solver_pools, solver);
                if solver == caller@ && i == old_list.len() {
                } else {
                    assert(before.entries.contains_key(old_list[i]));
                }
            }
            assert forall|account: Seq<char>, i: int|
                0 <= i < listed(after.user_pools, account).len() implies {
                let id = #[trigger] listed(after.user_pools, account)[i];
                after.entries.contains_key(id) && after.entries[id].providers@.contains_key(account)
            } by {
                let id = listed(before.user_pools, account)[i];
                assert(before.entries.contains_key(id));
                assert(before.entries[id].providers@.contains_key(account));
            }
        }
        Ok(true)
    }
    /// Appends a line to the transaction log.
    fn log(
        &mut self,
        pool_id: String,
        user: String,
        action: PoolAction,
        amount: u128,
        shares: u128,
        now: u64,
    )
        ensures
            final(self)@.transactions.len() == old(self)@.transactions.len() + 1,
            final(self)@.transactions == old(self)@.transactions.push(
                final(self)@.transactions.last(),
            ),
            logged(
                final(self)@.transactions.last(),
                old(self)@.transactions.len(),
                pool_id,
                user,
                action,
                amount,
                shares,
                now,
            ),
            final(self)@ == (PoolLedger { transactions: final(self)@.transactions, ..old(self)@ }),
            final(self).entries == old(self).entries,
            final(self).solver_pools == old(self).solver_pools,
            final(self).user_pools == old(self).user_pools,
    {
        let seq = self.transactions.len() as u64;
        let tx = PoolTransaction {
            id: make_id("tx_", seq),
            pool_id,
            user,
            action,
            amount,
            shares,
            timestamp: now,
            tx_hash: None,
        };
        self.transactions.push(tx);
    }

    /// Deposits `amount` from `caller` into the pool and mints shares for
    /// it: the amount itself in an empty pool, else the amount at the pool's
    /// ratio of shares to liquidity, rounded down. Returns the shares minted.
    pub fn deposit_liquidity(&mut self, pool_id: String, caller: String, amount: u128, now: u64) -> (result:
        Result<u128, ContractError>)
        requires
            old(self).wf(),
        ensures
            final(self).wf(),
            result == deposit_check(old(self)@, pool_id, caller, amount, now),
            match result {
                Ok(shares) => deposit_effect(
                    old(self)@,
                    final(self)@,
                    pool_id,
                    caller,
                    amount,
                    now,
                    shares,
                ),
                Err(_) => *final(self) == *old(self),
            },
    {
        let entry = match self.entries.get(&pool_id) {
            Some(entry) => entry,
            None => {
                return Err(ContractError::NotFound);
            },
        };
        if entry.in_flight.is_some() {
            return Err(ContractError::InvalidState);
        }
        if !entry.pool.is_active {
            return Err(ContractError::InvalidState);
        }
        if amount < entry.pool.min_deposit || amount > entry.pool.max_deposit {
            return Err(ContractError::PreconditionFailed);
        }
        proof {
            self.lemma_ledger_wf();
            lemma_shares_at_par(entry.pool, amount);
        }
        let shares = if entry.pool.total_shares == 0 {
            amount
        } else {
            match amount.checked_mul(entry.pool.total_shares) {
                Some(product) => product / entry.pool.total_liquidity,
                None => {
                    return Err(ContractError::Overflow);
                },
            }
        };
        let stake = match entry.providers.get(&caller) {
            Some(stake) => stake.clone(),
            None => LiquidityProvider {
                account_id: caller.clone(),
                pool_id: pool_id.clone(),
                shares: 0,
                deposited_amount: 0,
                claimed_rewards: 0,
                joined_at: now,
                last_claim: now,
            },
        };
        let sums = (
            entry.pool.total_liquidity.checked_add(amount),
            entry.pool.total_shares.checked_add(shares),
            stake.shares.checked_add(shares),
            stake.deposited_amount.checked_add(amount),
        );
        let (total_liquidity, total_shares, staked_shares, staked_amount) = match sums {
            (Some(a), Some(b), Some(c), Some(d)) => (a, b, c, d),
            _ => {
                return Err(ContractError::Overflow);
            },
        };
        let available_liquidity = entry.pool.available_liquidity + amount;
        let mut entry = self.entries.remove(&pool_id).unwrap();
        entry.pool.total_liquidity = total_liquidity;
        entry.pool.available_liquidity = available_liquidity;
        entry.pool.total_shares = total_shares;
        entry.pool.last_updated = now;
        let stake = LiquidityProvider {
            shares: staked_shares,
            deposited_amount: staked_amount,
            ..stake
        };
        entry.providers.insert(caller.clone(), stake);
        self.entries.insert(pool_id.clone(), entry);
        self.user_pools.add_once(caller.clone(), pool_id.clone());
        self.total_liquidity = self.total_liquidity.saturating_add(amount);
        self.total_providers = self.total_providers.saturating_add(1);
        self.log(pool_id, caller, PoolAction::Deposit, amount, shares, now);
        proof {
            let before = old(self)@;
            let after = self@;
            assert(after.entries =~= before.entries.insert(pool_id@, entry));
            crate::registry::lemma_listed_grows(before.user_pools, caller@, pool_id@);
            assert(entry_wf(entry));
            assert forall|id: Seq<char>| #[trigger] after.entries.contains_key(id) implies {
                &&& entry_wf(after.entries[id])
                &&& after.entries[id].pool.id@ == id
                &&& listed(after.solver_pools, after.entries[id].pool.solver@).contains(id)
            } by {
                assert(before.entries.contains_key(id));
            }
            assert forall|id: Seq<char>, account: Seq<char>|
                after.entries.contains_key(id) && #[trigger] after.entries[id].providers@.contains_key(
                    account,
                ) implies listed(after.user_pools, account).contains(id) by {
                assert(before.entries.contains_key(id));
                if id == pool_id@ && account == caller@ {
                } else {
                    assert(before.entries[id].providers@.contains_key(account));
                    assert(listed(before.user_pools, account).contains(id));
                }
            }
            assert forall|solver: Seq<char>, i: int|
                0 <= i < listed(after.solver_pools, solver).len() implies after.entries.contains_key(
                #[trigger] listed(after.solver_pools, solver)[i],
            ) by {
                assert(before.entries.contains_key(listed(before.solver_pools, solver)[i]));
            }
            assert forall|account: Seq<char>, i: int|
                0 <= i < listed(after.user_pools, account).len() implies {
                let id = #[trigger] listed(after.user_pools, account)[i];
                after.entries.contains_key(id) && after.entries[id].providers@.contains_key(account)
            } by {
                let old_list = listed(before.user_pools, account);
                if i < old_list.len() {
                    let id = old_list[i];
                    assert(before.entries.contains_key(id));
                    assert(before.entries[id].providers@.contains_key(account));
                }
            }
        }
        Ok(shares)
    }
    /// Puts `payout` in flight for the pool. Nothing else changes.
    fn reserve(&mut self, pool_id: String, payout: Payout)
        requires
            old(self).wf(),
            old(self)@.entries.contains_key(pool_id@),
            old(self)@.entries[pool_id@].in_flight is None,
            payout_covered(old(self)@.entries[pool_id@], payout),
        ensures
            final(self).wf(),
            payout_issued(old(self)@, final(self)@, pool_id@, payout),
    {
        let mut entry = self.entries.remove(&pool_id).unwrap();
        entry.in_flight = Some(payout);
        self.entries.insert(pool_id, entry);
        proof {
            let before = old(self)@;
            let after = self@;
            assert(after.entries =~= before.entries.insert(
                pool_id@,
                PoolEntry { in_flight: Some(payout), ..before.entries[pool_id@] },
            ));
            assert forall|id: Seq<char>| #[trigger] after.entries.contains_key(id) implies {
                &&& entry_wf(after.entries[id])
                &&& after.entries[id].pool.id@ == id
                &&& listed(after.solver_pools, after.entries[id].pool.solver@).contains(id)
            } by {
                assert(before.entries.contains_key(id));
            }
            assert forall|id: Seq<char>, account: Seq<char>|
                after.entries.contains_key(id) && #[trigger] after.entries[id].providers@.contains_key(
                    account,
                ) implies listed(after.user_pools, account).contains(id) by {
                assert(before.entries.contains_key(id));
                assert(before.entries[id].providers@.contains_key(account));
            }
            assert forall|solver: Seq<char>, i: int|
                0 <= i < listed(after.solver_pools, solver).len() implies after.entries.contains_key(
                #[trigger] listed(after.solver_pools, solver)[i],
            ) by {
                assert(before.entries.contains_key(listed(before.solver_pools, solver)[i]));
            }
            assert forall|account: Seq<char>, i: int|
                0 <= i < listed(after.user_pools, account).len() implies {
                let id = #[trigger] listed(after.user_pools, account)[i];
                after.entries.contains_key(id) && after.entries[id].providers@.contains_key(account)
            } by {
                let id = listed(before.user_pools, account)[i];
                assert(before.entries.contains_key(id));
                assert(before.entries[id].providers@.contains_key(account));
            }
        }
    }

    /// Reserves the payout for burning `shares` of `caller`'s stake and asks
    /// for its transfer. The shares are burnt when `settle_payout` reports
    /// the transfer as done; until then the pool takes no other deposit,
    /// withdrawal or claim.
    pub fn withdraw_liquidity(&mut self, pool_id: String, shares: u128, caller: String) -> (result:
        Result<Transfer, ContractError>)
        requires
            old(self).wf(),
        ensures
            final(self).wf(),
            match (result, withdraw_check(old(self)@, pool_id@, caller@, shares)) {
                (Ok(transfer), Ok(amount)) => {
                    &&& payout_issued(
                        old(self)@,
                        final(self)@,
                        pool_id@,
                        Payout { action: PoolAction::Withdraw, account: caller, shares, amount },
                    )
                    &&& transfer.token == old(self)@.entries[pool_id@].pool.token
                    &&& transfer.sender == Party::Holder
                    &&& transfer.receiver == Party::Account(caller)
                    &&& transfer.amount == amount
                    &&& transfer.memo@ == "Withdraw from pool "@ + pool_id@
                },
                (Err(error), Err(expected)) => error == expected && *final(self) == *old(self),
                _ => false,
            },
    {
        let entry = match self.entries.get(&pool_id) {
            Some(entry) => entry,
            None => {
                return Err(ContractError::NotFound);
            },
        };
        if entry.in_flight.is_some() {
            return Err(ContractError::InvalidState);
        }
        if !entry.pool.is_active {
            return Err(ContractError::InvalidState);
        }
        let stake = match entry.providers.get(&caller) {
            Some(stake) => stake,
            None => {
                return Err(ContractError::NotFound);
            },
        };
        if stake.shares < shares || entry.pool.total_shares < shares {
            return Err(ContractError::InsufficientShares);
        }
        if entry.pool.total_shares == 0 {
            return Err(ContractError::PreconditionFailed);
        }
        let amount = if shares == entry.pool.total_shares {
            proof {
                lemma_burn_bounds(
                    shares as int,
                    entry.pool.total_liquidity as int,
                    entry.pool.total_shares as int,
                );
            }
            entry.pool.total_liquidity
        } else {
            match shares.checked_mul(entry.pool.total_liquidity) {
                Some(product) => product / entry.pool.total_shares,
                None => {
                    return Err(ContractError::Overflow);
                },
            }
        };
        if amount > entry.pool.available_liquidity {
            return Err(ContractError::InsufficientFunds);
        }
        if amount > stake.deposited_amount {
            return Err(ContractError::Overflow);
        }
        let transfer = Transfer {
            token: entry.pool.token.clone(),
            sender: Party::Holder,
            receiver: Party::Account(caller.clone()),
            amount,
            memo: String::from_str("Withdraw from pool ").concat(pool_id.as_str()),
        };
        let payout = Payout { action: PoolAction::Withdraw, account: caller, shares, amount };
        self.reserve(pool_id, payout);
        Ok(transfer)
    }

    /// Reserves `caller`'s part of the rewards not yet claimed, in proportion
    /// to its shares and rounded down, and asks for its transfer. A part of
    /// zero is rejected. The reward counts as claimed when `settle_payout`
    /// reports the transfer as done.
    pub fn claim_rewards(&mut self, pool_id: String, caller: String) -> (result: Result<
        Transfer,
        ContractError,
    >)
        requires
            old(self).wf(),
        ensures
            final(self).wf(),
            match (result, claim_rewards_check(old(self)@, pool_id@, caller@)) {
                (Ok(transfer), Ok(reward)) => {
                    &&& payout_issued(
                        old(self)@,
                        final(self)@,
                        pool_id@,
                        Payout {
                            action: PoolAction::ClaimRewards,
                            account: caller,
                            shares: 0,
                            amount: reward,
                        },
                    )
                    &&& transfer.token == old(self)@.entries[pool_id@].pool.token
                    &&& transfer.sender == Party::Holder
                    &&& transfer.receiver == Party::Account(caller)
                    &&& transfer.amount == reward
                    &&& transfer.memo@ == "Claim rewards from pool "@ + pool_id@
                },
                (Err(error), Err(expected)) => error == expected && *final(self) == *old(self),
                _ => false,
            },
    {
        let entry = match self.entries.get(&pool_id) {
            Some(entry) => entry,
            None => {
                return Err(ContractError::NotFound);
            },
        };
        if entry.in_flight.is_some() {
            return Err(ContractError::InvalidState);
        }
        let stake = match entry.providers.get(&caller) {
            Some(stake) => stake,
            None => {
                return Err(ContractError::NotFound);
            },
        };
        if entry.pool.total_shares == 0 || stake.shares == 0 {
            return Err(ContractError::PreconditionFailed);
        }
        let unclaimed = entry.reward.total_rewards - entry.reward.distributed_rewards;
        let reward = match stake.shares.checked_mul(unclaimed) {
            Some(product) => product / entry.pool.total_shares,
            None => {
                return Err(ContractError::Overflow);
            },
        };
        if reward == 0 {
            return Err(ContractError::PreconditionFailed);
        }
        if reward > unclaimed {
            return Err(ContractError::InsufficientFunds);
        }
        if stake.claimed_rewards.checked_add(reward).is_none() {
            return Err(ContractError::Overflow);
        }
        let transfer = Transfer {
            token: entry.pool.token.clone(),
            sender: Party::Holder,
            receiver: Party::Account(caller.clone()),
            amount: reward,
            memo: String::from_str("Claim rewards from pool ").concat(pool_id.as_str()),
        };
        let payout = Payout {
            action: PoolAction::ClaimRewards,
            account: caller,
            shares: 0,
            amount: reward,
        };
        self.reserve(pool_id, payout);
        Ok(transfer)
    }
    /// Stores `entry` under `pool_id`, where the pool's solver, its id and
    /// the accounts of its providers are those of the entry it replaces.
    fn store(&mut self, pool_id: String, entry: PoolEntry, Ghost(before): Ghost<PoolLedger>)
        requires
            old(self).entries.wf(),
            old(self).solver_pools.wf(),
            old(self).user_pools.wf(),
            before.wf(),
            before.entries.contains_key(pool_id@),
            old(self)@ == (PoolLedger { entries: before.entries.remove(pool_id@), ..before }),
            entry_wf(entry),
            entry.pool.id == before.entries[pool_id@].pool.id,
            entry.pool.solver == before.entries[pool_id@].pool.solver,
            entry.providers@.dom() == before.entries[pool_id@].providers@.dom(),
        ensures
            final(self).wf(),
            final(self)@ == (PoolLedger { entries: before.entries.insert(pool_id@, entry), ..before }),
    {
        self.entries.insert(pool_id, entry);
        proof {
            let after = self@;
            assert(after.entries =~= before.entries.insert(pool_id@, entry));
            assert forall|id: Seq<char>| #[trigger] after.entries.contains_key(id) implies {
                &&& entry_wf(after.entries[id])
                &&& after.entries[id].pool.id@ == id
                &&& listed(after.solver_pools, after.entries[id].pool.solver@).contains(id)
            } by {
                assert(before.entries.contains_key(id));
            }
            assert forall|id: Seq<char>, account: Seq<char>|
                after.entries.contains_key(id) && #[trigger] after.entries[id].providers@.contains_key(
                    account,
                ) implies listed(after.user_pools, account).contains(id) by {
                assert(before.entries.contains_key(id));
                assert(before.entries[id].providers@.contains_key(account));
            }
            assert forall|solver: Seq<char>, i: int|
                0 <= i < listed(after.solver_pools, solver).len() implies after.entries.contains_key(
                #[trigger] listed(after.solver_pools, solver)[i],
            ) by {
                assert(before.entries.contains_key(listed(before.solver_pools, solver)[i]));
            }
            assert forall|account: Seq<char>, i: int|
                0 <= i < listed(after.user_pools, account).len() implies {
                let id = #[trigger] listed(after.user_pools, account)[i];
                after.entries.contains_key(id) && after.entries[id].providers@.contains_key(account)
            } by {
                let id = listed(before.user_pools, account)[i];
                assert(before.entries.contains_key(id));
                assert(before.entries[id].providers@.contains_key(account));
            }
        }
    }

    /// Settles the payout in flight for the pool once the asset ledger has
    /// reported on its transfer. A transfer that succeeded is booked: a
    /// withdrawal burns the shares and takes the amount out of the pool, a
    /// claim counts the reward as distributed. A transfer that failed is
    /// dropped, which leaves the pool as it was before the payout was asked
    /// for, and is answered with `TransferFailed`.
    pub fn settle_payout(&mut self, pool_id: String, success: bool, now: u64) -> (result: Result<
        PoolAction,
        ContractError,
    >)
        requires
            old(self).wf(),
        ensures
            final(self).wf(),
            match settle_check(old(self)@, pool_id@) {
                Err(error) => result == Err::<PoolAction, ContractError>(error) && *final(self)
                    == *old(self),
                Ok(payout) => if !success {
                    &&& result == Err::<PoolAction, ContractError>(ContractError::TransferFailed)
                    &&& payout_dropped(old(self)@, final(self)@, pool_id@)
                } else {
                    &&& result == Ok::<PoolAction, ContractError>(payout.action)
                    &&& payout.action == PoolAction::Withdraw ==> withdrawal_settled(
                        old(self)@,
                        final(self)@,
                        pool_id,
                        payout,
                        now,
                    )
                    &&& payout.action == PoolAction::ClaimRewards ==> claim_settled(
                        old(self)@,
                        final(self)@,
                        pool_id,
                        payout,
                        now,
                    )
                    &&& payout.action == PoolAction::Withdraw || payout.action
                        == PoolAction::ClaimRewards
                },
            },
    {
        match self.entries.get(&pool_id) {
            Some(entry) => {
                if entry.in_flight.is_none() {
                    return Err(ContractError::InvalidState);
                }
            },
            None => {
                return Err(ContractError::NotFound);
            },
        }
        let ghost before = self@;
        let PoolEntry { pool, reward, providers, in_flight } = self.entries.remove(
            &pool_id,
        ).unwrap();
        let ghost old_entry = PoolEntry { pool, reward, providers, in_flight };
        let payout = in_flight.unwrap();
        if !success {
            let entry = PoolEntry { pool, reward, providers, in_flight: None };
            self.store(pool_id, entry, Ghost(before));
            return Err(ContractError::TransferFailed);
        }
        let mut pool = pool;
        let mut reward = reward;
        let mut providers = providers;
        let mut stake = providers.get(&payout.account).unwrap().clone();
        let action = payout.action;
        match action {
            PoolAction::Withdraw => {
                proof {
                    lemma_burn_bounds(
                        payout.shares as int,
                        pool.total_liquidity as int,
                        pool.total_shares as int,
                    );
                    lemma_shares_at_par(pool, payout.shares);
                }
                pool.total_liquidity = pool.total_liquidity - payout.amount;
                pool.available_liquidity = pool.available_liquidity - payout.amount;
                pool.total_shares = pool.total_shares - payout.shares;
                pool.last_updated = now;
                stake.shares = stake.shares - payout.shares;
                stake.deposited_amount = stake.deposited_amount - payout.amount;
                self.total_liquidity = self.total_liquidity.saturating_sub(payout.amount);
            },
            _ => {
                reward.distributed_rewards = reward.distributed_rewards + payout.amount;
                reward.last_distribution = now;
                stake.claimed_rewards = stake.claimed_rewards + payout.amount;
                stake.last_claim = now;
                self.total_rewards_distributed = self.total_rewards_distributed.saturating_add(
                    payout.amount,
                );
            },
        }
        providers.insert(payout.account.clone(), stake);
        let entry = PoolEntry { pool, reward, providers, in_flight: None };
        proof {
            assert(entry.providers@.dom() =~= old_entry.providers@.dom());
        }
        let ghost staged = PoolLedger {
            total_liquidity: self@.total_liquidity,
            total_rewards_distributed: self@.total_rewards_distributed,
            ..before
        };
        self.store(pool_id.clone(), entry, Ghost(staged));
        self.log(pool_id, payout.account, action, payout.amount, payout.shares, now);
        Ok(action)
    }

    /// Credits `amount` to the pool's rewards. Only the pool's solver may do
    /// so. This is bookkeeping alone: no asset moves.
    pub fn add_rewards(&mut self, pool_id: String, amount: u128, caller: String, now: u64) -> (result:
        Result<bool, ContractError>)
        requires
            old(self).wf(),
        ensures
            final(self).wf(),
            match add_rewards_check(old(self)@, pool_id@, caller@, amount) {
                Err(error) => result == Err::<bool, ContractError>(error) && *final(self) == *old(
                    self,
                ),
                Ok(_) => {
                    let before = old(self)@;
                    let after = final(self)@;
                    let old_entry = before.entries[pool_id@];
                    &&& result == Ok::<bool, ContractError>(true)
                    &&& after.entries == before.entries.insert(
                        pool_id@,
                        PoolEntry {
                            reward: PoolReward {
                                total_rewards: (old_entry.reward.total_rewards + amount) as u128,
                                ..old_entry.reward
                            },
                            ..old_entry
                        },
                    )
                    &&& after.transactions.len() == before.transactions.len() + 1
                    &&& after.transactions == before.transactions.push(after.transactions.last())
                    &&& logged(
                        after.transactions.last(),
                        before.transactions.len(),
                        pool_id,
                        caller,
                        PoolAction::FeeCollection,
                        amount,
                        0,
                        now,
                    )
                    &&& after == (PoolLedger {
                        entries: after.entries,
                        transactions: after.transactions,
                        ..before
                    })
                },
            },
    {
        let total_rewards = match self.entries.get(&pool_id) {
            Some(entry) => {
                if entry.pool.solver != caller {
                    return Err(ContractError::Unauthorized);
                }
                match entry.reward.total_rewards.checked_add(amount) {
                    Some(total) => total,
                    None => {
                        return Err(ContractError::Overflow);
                    },
                }
            },
            None => {
                return Err(ContractError::NotFound);
            },
        };
        let ghost before = self@;
        let mut entry = self.entries.remove(&pool_id).unwrap();
        entry.reward.total_rewards = total_rewards;
        self.store(pool_id.clone(), entry, Ghost(before));
        self.log(pool_id, caller, PoolAction::FeeCollection, amount, 0, now);
        Ok(true)
    }

    /// Switches the pool on or off for its solver.
    fn switch(&mut self, pool_id: String, caller: String, active: bool) -> (result: Result<
        (),
        ContractError,
    >)
        requires
            old(self).wf(),
        ensures
            final(self).wf(),
            result == switch_check(old(self)@, pool_id@, caller@),
            match result {
                Ok(_) => switched(old(self)@, final(self)@, pool_id@, active),
                Err(_) => *final(self) == *old(self),
            },
    {
        match self.entries.get(&pool_id) {
            Some(entry) => {
                if entry.pool.solver != caller {
                    return Err(ContractError::Unauthorized);
                }
            },
            None => {
                return Err(ContractError::NotFound);
            },
        }
        let ghost before = self@;
        let mut entry = self.entries.remove(&pool_id).unwrap();
        entry.pool.is_active = active;
        self.store(pool_id, entry, Ghost(before));
        Ok(())
    }

    /// Closes the pool to deposits and withdrawals. Only its solver may do so.
    pub fn deactivate_pool(&mut self, pool_id: String, caller: String) -> (result: Result<
        (),
        ContractError,
    >)
        requires
            old(self).wf(),
        ensures
            final(self).wf(),
            result == switch_check(old(self)@, pool_id@, caller@),
            match result {
                Ok(_) => switched(old(self)@, final(self)@, pool_id@, false),
                Err(_) => *final(self) == *old(self),
            },
    {
        self.switch(pool_id, caller, false)
    }

    /// Opens the pool to deposits and withdrawals again. Only its solver may
    /// do so.
    pub fn activate_pool(&mut self, pool_id: String, caller: String) -> (result: Result<
        (),
        ContractError,
    >)
        requires
            old(self).wf(),
        ensures
            final(self).wf(),
            result == switch_check(old(self)@, pool_id@, caller@),
            match result {
                Ok(_) => switched(old(self)@, final(self)@, pool_id@, true),
                Err(_) => *final(self) == *old(self),
            },
    {
        self.switch(pool_id, caller, true)
    }
    /// The pool stored under `pool_id`.
    pub fn get_pool(&self, pool_id: String) -> (pool: Option<LiquidityPool>)
        requires
            self.wf(),
        ensures
            pool == if self@.entries.contains_key(pool_id@) {
                Some(self@.entries[pool_id@].pool)
            } else {
                None
            },
    {
        match self.entries.get(&pool_id) {
            Some(entry) => Some(entry.pool.clone()),
            None => None,
        }
    }

    /// The stake of `account` in the pool.
    pub fn get_provider(&self, pool_id: String, account: String) -> (stake: Option<
        LiquidityProvider,
    >)
        requires
            self.wf(),
        ensures
            stake == if self@.entries.contains_key(pool_id@)
                && self@.entries[pool_id@].providers@.contains_key(account@) {
                Some(self@.entries[pool_id@].providers@[account@])
            } else {
                None
            },
    {
        match self.entries.get(&pool_id) {
            Some(entry) => match entry.providers.get(&account) {
                Some(stake) => Some(stake.clone()),
                None => None,
            },
            None => None,
        }
    }

    /// The reward record of the pool.
    pub fn get_reward(&self, pool_id: String) -> (reward: Option<PoolReward>)
        requires
            self.wf(),
        ensures
            reward == if self@.entries.contains_key(pool_id@) {
                Some(self@.entries[pool_id@].reward)
            } else {
                None
            },
    {
        match self.entries.get(&pool_id) {
            Some(entry) => Some(entry.reward.clone()),
            None => None,
        }
    }

    /// The payout in flight for the pool, as (action, shares, amount).
    pub fn get_in_flight(&self, pool_id: String) -> (payout: Option<(PoolAction, u128, u128)>)
        requires
            self.wf(),
        ensures
            payout == if self@.entries.contains_key(pool_id@) {
                match self@.entries[pool_id@].in_flight {
                    Some(p) => Some((p.action, p.shares, p.amount)),
                    None => None,
                }
            } else {
                None
            },
    {
        match self.entries.get(&pool_id) {
            Some(entry) => match &entry.in_flight {
                Some(p) => Some((p.action, p.shares, p.amount)),
                None => None,
            },
            None => None,
        }
    }

    /// The ids of the pools that `user` deposited into, oldest first.
    pub fn get_user_pools(&self, user: String) -> (ids: Vec<String>)
        requires
            self.wf(),
        ensures
            texts(ids@) == listed(self@.user_pools, user@),
    {
        self.user_pools.list(&user)
    }

    /// The ids of the pools that `solver` created, oldest first.
    pub fn get_solver_pools(&self, solver: String) -> (ids: Vec<String>)
        requires
            self.wf(),
        ensures
            texts(ids@) == listed(self@.solver_pools, solver@),
    {
        self.solver_pools.list(&solver)
    }

    /// The contract keeps no listing of a pool's providers by pool: the
    /// answer is empty for every pool.
    pub fn get_pool_providers(&self, pool_id: String) -> (stakes: Vec<LiquidityProvider>)
        ensures
            stakes@.len() == 0,
    {
        Vec::new()
    }

    /// The contract-wide counters: pools created, deposits taken, liquidity
    /// held and rewards paid out.
    pub fn get_statistics(&self) -> (totals: (u64, u64, u128, u128))
        ensures
            totals == (
                self@.total_pools,
                self@.total_providers,
                self@.total_liquidity,
                self@.total_rewards_distributed,
            ),
    {
        (
            self.total_pools,
            self.total_providers,
            self.total_liquidity,
            self.total_rewards_distributed,
        )
    }

    /// How many lines the transaction log holds.
    pub fn transaction_count(&self) -> (count: usize)
        ensures
            count == self@.transactions.len(),
    {
        self.transactions.len()
    }

    /// Sets the lowest fee rate a new pool may ask. Only the owner may do so.
    pub fn set_min_pool_fee(&mut self, min_fee: u32, caller: String) -> (result: Result<
        (),
        ContractError,
    >)
        requires
            old(self).wf(),
        ensures
            final(self).wf(),
            result == if caller@ == old(self)@.owner@ {
                Ok::<(), ContractError>(())
            } else {
                Err(ContractError::Unauthorized)
            },
            final(self)@ == if result is Ok {
                PoolLedger { min_pool_fee: min_fee, ..old(self)@ }
            } else {
                old(self)@
            },
    {
        if caller != self.owner {
            return Err(ContractError::Unauthorized);
        }
        self.min_pool_fee = min_fee;
        Ok(())
    }

    /// Sets the highest fee rate a new pool may ask. Only the owner may do so.
    pub fn set_max_pool_fee(&mut self, max_fee: u32, caller: String) -> (result: Result<
        (),
        ContractError,
    >)
        requires
            old(self).wf(),
        ensures
            final(self).wf(),
            result == if caller@ == old(self)@.owner@ {
                Ok::<(), ContractError>(())
            } else {
                Err(ContractError::Unauthorized)
            },
            final(self)@ == if result is Ok {
                PoolLedger { max_pool_fee: max_fee, ..old(self)@ }
            } else {
                old(self)@
            },
    {
        if caller != self.owner {
            return Err(ContractError::Unauthorized);
        }
        self.max_pool_fee = max_fee;
        Ok(())
    }

    /// Sets the configured minimum deposit. Only the owner may do so.
    pub fn set_min_deposit_amount(&mut self, min_amount: u128, caller: String) -> (result: Result<
        (),
        ContractError,
    >)
        requires
            old(self).wf(),
        ensures
            final(self).wf(),
            result == if caller@ == old(self)@.owner@ {
                Ok::<(), ContractError>(())
            } else {
                Err(ContractError::Unauthorized)
            },
            final(self)@ == if result is Ok {
                PoolLedger { min_deposit_amount: min_amount, ..old(self)@ }
            } else {
                old(self)@
            },
    {
        if caller != self.owner {
            return Err(ContractError::Unauthorized);
        }
        self.min_deposit_amount = min_amount;
        Ok(())
    }

    /// Sets the time between reward distributions, which new pools take
    /// their next distribution from. Only the owner may do so.
    pub fn set_reward_distribution_interval(&mut self, interval: u64, caller: String) -> (result:
        Result<(), ContractError>)
        requires
            old(self).wf(),
        ensures
            final(self).wf(),
            result == if caller@ == old(self)@.owner@ {
                Ok::<(), ContractError>(())
            } else {
                Err(ContractError::Unauthorized)
            },
            final(self)@ == if result is Ok {
                PoolLedger { reward_distribution_interval: interval, ..old(self)@ }
            } else {
                old(self)@
            },
    {
        if caller != self.owner {
            return Err(ContractError::Unauthorized);
        }
        self.reward_distribution_interval = interval;
        Ok(())
    }

    /// Answers a token contract that notifies of a transfer to this one:
    /// none of the amount is handed back.
    pub fn ft_on_transfer(&mut self, sender_id: String, amount: u128, msg: String) -> (unused: u128)
        ensures
            unused == 0,
            *final(self) == *old(self),
    {
        0
    }
    /// A well-formed contract has a well-formed ledger: in every pool free
    /// liquidity is within the total, shares exist exactly where liquidity
    /// does, and no more rewards are distributed than were credited.
    pub proof fn lemma_ledger_wf(&self)
        requires
            self.wf(),
        ensures
            self@.wf(),
    {
    }
}

} // verus!
