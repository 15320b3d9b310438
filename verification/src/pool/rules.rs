//! The rules of the pool contract over its ledger: the share arithmetic,
//! the invariants, and for each operation what it answers and what it changes.

use crate::errors::ContractError;
use crate::ids::tagged_id;
use crate::math::{bumped, lowered, raised};
use crate::pool::records::{
    LiquidityPool,
    LiquidityProvider,
    Payout,
    PoolAction,
    PoolEntry,
    PoolReward,
    PoolTransaction,
};
use crate::registry::listed;
use vstd::prelude::*;

verus! {

/// The shares that a deposit of `amount` mints: the amount itself in an
/// empty pool, else the amount at the pool's ratio of shares to liquidity,
/// rounded down.
pub open spec fn shares_for(pool: LiquidityPool, amount: u128) -> int {
    if pool.total_shares == 0 {
        amount as int
    } else {
        (amount * pool.total_shares) / (pool.total_liquidity as int)
    }
}

/// The liquidity that burning `shares` pays out: the shares at the pool's
/// ratio of liquidity to shares, rounded down. Burning all shares pays out
/// all liquidity.
pub open spec fn amount_for(pool: LiquidityPool, shares: u128) -> int {
    (shares * pool.total_liquidity) / (pool.total_shares as int)
}

/// The rewards not yet claimed.
pub open spec fn outstanding(reward: PoolReward) -> int {
    reward.total_rewards - reward.distributed_rewards
}

/// A provider's part of the outstanding rewards: in proportion to its
/// shares, rounded down.
pub open spec fn reward_for(pool: LiquidityPool, reward: PoolReward, shares: u128) -> int {
    if pool.total_shares == 0 || shares == 0 {
        0
    } else {
        (shares * outstanding(reward)) / (pool.total_shares as int)
    }
}

/// Free liquidity never exceeds the total, and a pool has shares exactly
/// when it has liquidity.
pub open spec fn pool_wf(pool: LiquidityPool) -> bool {
    &&& pool.available_liquidity <= pool.total_liquidity
    &&& (pool.total_shares == 0 <==> pool.total_liquidity == 0)
}

/// Rounding is in the pool's favour: the shares minted are never worth more
/// than the amount deposited, and the amount paid out is never worth more
/// than the shares burnt.
pub proof fn lemma_rounding_favours_the_pool(pool: LiquidityPool, amount: u128, shares: u128)
    requires
        pool.total_shares > 0,
        pool.total_liquidity > 0,
    ensures
        shares_for(pool, amount) * pool.total_liquidity <= amount * pool.total_shares,
        amount_for(pool, shares) * pool.total_shares <= shares * pool.total_liquidity,
{
    vstd::arithmetic::mul::lemma_mul_nonnegative(amount as int, pool.total_shares as int);
    vstd::arithmetic::mul::lemma_mul_nonnegative(shares as int, pool.total_liquidity as int);
    vstd::arithmetic::div_mod::lemma_remainder_lower(
        amount * pool.total_shares,
        pool.total_liquidity as int,
    );
    vstd::arithmetic::div_mod::lemma_remainder_lower(
        shares * pool.total_liquidity,
        pool.total_shares as int,
    );
}

/// Every share stands for one unit of liquidity: no operation moves
/// liquidity without moving as many shares.
pub open spec fn at_par(pool: LiquidityPool) -> bool {
    pool.total_shares == pool.total_liquidity
}

/// In a pool at par a deposit mints one share per unit, and burning shares
/// pays out one unit per share.
pub proof fn lemma_shares_at_par(pool: LiquidityPool, amount: u128)
    requires
        at_par(pool),
    ensures
        shares_for(pool, amount) == amount,
        pool.total_shares > 0 ==> amount_for(pool, amount) == amount,
{
    if pool.total_shares > 0 {
        vstd::arithmetic::mul::lemma_mul_is_commutative(amount as int, pool.total_shares as int);
        vstd::arithmetic::div_mod::lemma_div_multiples_vanish(
            amount as int,
            pool.total_shares as int,
        );
    }
}

/// No more rewards are claimed than were credited.
pub open spec fn reward_wf(reward: PoolReward) -> bool {
    reward.distributed_rewards <= reward.total_rewards
}

/// A payout in flight is covered by the balances it will be taken from.
pub open spec fn payout_covered(entry: PoolEntry, payout: Payout) -> bool {
    &&& entry.providers@.contains_key(payout.account@)
    &&& match payout.action {
        PoolAction::Withdraw => {
            &&& entry.pool.total_shares > 0
            &&& payout.shares <= entry.providers@[payout.account@].shares
            &&& payout.shares <= entry.pool.total_shares
            &&& payout.amount == amount_for(entry.pool, payout.shares)
            &&& payout.amount <= entry.pool.available_liquidity
            &&& payout.amount <= entry.providers@[payout.account@].deposited_amount
        },
        PoolAction::ClaimRewards => {
            &&& payout.shares == 0
            &&& payout.amount > 0
            &&& payout.amount <= outstanding(entry.reward)
            &&& entry.providers@[payout.account@].claimed_rewards + payout.amount <= u128::MAX
        },
        _ => false,
    }
}

/// The pool's and the reward's invariants hold, the pool is at par, the
/// reward record and every stake name the pool, every stake is stored under
/// its account, and a payout in flight is covered.
pub open spec fn entry_wf(entry: PoolEntry) -> bool {
    &&& pool_wf(entry.pool)
    &&& at_par(entry.pool)
    &&& reward_wf(entry.reward)
    &&& entry.reward.pool_id@ == entry.pool.id@
    &&& entry.providers.wf()
    &&& forall|account: Seq<char>| #[trigger]
        entry.providers@.contains_key(account) ==> {
            &&& entry.providers@[account].account_id@ == account
            &&& entry.providers@[account].pool_id@ == entry.pool.id@
        }
    &&& match entry.in_flight {
        Some(payout) => payout_covered(entry, payout),
        None => true,
    }
}

/// The state of the pool contract as contracts speak of it.
pub struct PoolLedger {
    pub owner: String,
    pub solver_contract: String,
    /// By pool id.
    pub entries: Map<Seq<char>, PoolEntry>,
    /// For each solver, the ids of the pools it created.
    pub solver_pools: Map<Seq<char>, Seq<Seq<char>>>,
    /// For each account, the ids of the pools it deposited into.
    pub user_pools: Map<Seq<char>, Seq<Seq<char>>>,
    pub transactions: Seq<PoolTransaction>,
    pub total_pools: u64,
    pub total_providers: u64,
    pub total_liquidity: u128,
    pub total_rewards_distributed: u128,
    pub min_pool_fee: u32,
    pub max_pool_fee: u32,
    pub reward_distribution_interval: u64,
    pub min_deposit_amount: u128,
}

impl PoolLedger {
    /// Every entry is well formed and stored under its pool's id, every pool
    /// is listed under its solver, every provider's account lists the pool,
    /// every id listed under a solver is that of a pool, and every id listed
    /// under an account is that of a pool in which the account has a stake.
    pub open spec fn wf(self) -> bool {
        &&& forall|id: Seq<char>| #[trigger]
            self.entries.contains_key(id) ==> {
                &&& entry_wf(self.entries[id])
                &&& self.entries[id].pool.id@ == id
                &&& listed(self.solver_pools, self.entries[id].pool.solver@).contains(id)
            }
        &&& forall|id: Seq<char>, account: Seq<char>|
            self.entries.contains_key(id) && #[trigger] self.entries[id].providers@.contains_key(
                account,
            ) ==> listed(self.user_pools, account).contains(id)
        &&& forall|solver: Seq<char>, i: int|
            0 <= i < listed(self.solver_pools, solver).len() ==> self.entries.contains_key(
                #[trigger] listed(self.solver_pools, solver)[i],
            )
        &&& forall|account: Seq<char>, i: int|
            0 <= i < listed(self.user_pools, account).len() ==> {
                let id = #[trigger] listed(self.user_pools, account)[i];
                self.entries.contains_key(id) && self.entries[id].providers@.contains_key(account)
            }
    }
}

/// The pool that `create_pool` sets up.
pub open spec fn fresh_pool(
    caller: String,
    now: u64,
    pool_id: String,
    name: String,
    description: String,
    token: String,
    fee_rate: u32,
    min_deposit: u128,
    max_deposit: u128,
) -> LiquidityPool {
    LiquidityPool {
        id: pool_id,
        name,
        description,
        solver: caller,
        token,
        total_liquidity: 0,
        available_liquidity: 0,
        total_shares: 0,
        fee_rate,
        min_deposit,
        max_deposit,
        is_active: true,
        created_at: now,
        last_updated: now,
    }
}

/// The reward record that `create_pool` sets up.
pub open spec fn fresh_reward(pool_id: String, now: u64, interval: u64) -> PoolReward {
    PoolReward {
        pool_id,
        total_rewards: 0,
        distributed_rewards: 0,
        reward_rate: 100,
        last_distribution: now,
        next_distribution: (now + interval) as u64,
    }
}

/// Whether `create_pool` accepts its arguments, and the error if not.
pub open spec fn create_pool_check(
    ledger: PoolLedger,
    now: u64,
    pool_id: Seq<char>,
    fee_rate: u32,
    min_deposit: u128,
    max_deposit: u128,
) -> Result<(), ContractError> {
    if fee_rate < ledger.min_pool_fee || fee_rate > ledger.max_pool_fee {
        Err(ContractError::PreconditionFailed)
    } else if min_deposit > max_deposit {
        Err(ContractError::PreconditionFailed)
    } else if ledger.entries.contains_key(pool_id) && ledger.entries[pool_id].in_flight is Some {
        Err(ContractError::InvalidState)
    } else if now + ledger.reward_distribution_interval > u64::MAX {
        Err(ContractError::Overflow)
    } else {
        Ok(())
    }
}

/// The stake recorded for `account` in a pool, or the empty stake that its
/// first deposit at `now` starts from.
pub open spec fn stake_or_fresh(
    entry: PoolEntry,
    account: String,
    pool_id: String,
    now: u64,
) -> LiquidityProvider {
    if entry.providers@.contains_key(account@) {
        entry.providers@[account@]
    } else {
        LiquidityProvider {
            account_id: account,
            pool_id,
            shares: 0,
            deposited_amount: 0,
            claimed_rewards: 0,
            joined_at: now,
            last_claim: now,
        }
    }
}

/// Whether `tx` is the log line with number `seq` for the given action.
pub open spec fn logged(
    tx: PoolTransaction,
    seq: nat,
    pool_id: String,
    user: String,
    action: PoolAction,
    amount: u128,
    shares: u128,
    now: u64,
) -> bool {
    &&& tx.id@ == tagged_id("tx_"@, seq)
    &&& tx.pool_id == pool_id
    &&& tx.user == user
    &&& tx.action == action
    &&& tx.amount == amount
    &&& tx.shares == shares
    &&& tx.timestamp == now
    &&& tx.tx_hash is None
}

/// The shares that `deposit_liquidity` mints, or the error it rejects the
/// deposit with.
pub open spec fn deposit_check(
    ledger: PoolLedger,
    pool_id: String,
    caller: String,
    amount: u128,
    now: u64,
) -> Result<u128, ContractError> {
    if !ledger.entries.contains_key(pool_id@) {
        Err(ContractError::NotFound)
    } else {
        let entry = ledger.entries[pool_id@];
        let pool = entry.pool;
        let stake = stake_or_fresh(entry, caller, pool_id, now);
        if entry.in_flight is Some {
            Err(ContractError::InvalidState)
        } else if !pool.is_active {
            Err(ContractError::InvalidState)
        } else if amount < pool.min_deposit || amount > pool.max_deposit {
            Err(ContractError::PreconditionFailed)
        } else if pool.total_shares != 0 && amount * pool.total_shares > u128::MAX {
            Err(ContractError::Overflow)
        } else if pool.total_liquidity + amount > u128::MAX || pool.total_shares + shares_for(
            pool,
            amount,
        ) > u128::MAX || stake.shares + shares_for(pool, amount) > u128::MAX
            || stake.deposited_amount + amount > u128::MAX {
            Err(ContractError::Overflow)
        } else {
            Ok(shares_for(pool, amount) as u128)
        }
    }
}

/// What an accepted deposit of `amount` that mints `shares` changes.
pub open spec fn deposit_effect(
    before: PoolLedger,
    after: PoolLedger,
    pool_id: String,
    caller: String,
    amount: u128,
    now: u64,
    shares: u128,
) -> bool {
    let old_entry = before.entries[pool_id@];
    let entry = after.entries[pool_id@];
    let stake = stake_or_fresh(old_entry, caller, pool_id, now);
    &&& after.entries == before.entries.insert(pool_id@, entry)
    &&& entry.pool == (LiquidityPool {
        total_liquidity: (old_entry.pool.total_liquidity + amount) as u128,
        available_liquidity: (old_entry.pool.available_liquidity + amount) as u128,
        total_shares: (old_entry.pool.total_shares + shares) as u128,
        last_updated: now,
        ..old_entry.pool
    })
    &&& entry.reward == old_entry.reward
    &&& entry.in_flight is None
    &&& entry.providers@ == old_entry.providers@.insert(
        caller@,
        LiquidityProvider {
            shares: (stake.shares + shares) as u128,
            deposited_amount: (stake.deposited_amount + amount) as u128,
            ..stake
        },
    )
    &&& after.user_pools == if listed(before.user_pools, caller@).contains(pool_id@) {
        before.user_pools
    } else {
        before.user_pools.insert(caller@, listed(before.user_pools, caller@).push(pool_id@))
    }
    &&& after.transactions.len() == before.transactions.len() + 1
    &&& after.transactions == before.transactions.push(after.transactions.last())
    &&& logged(
        after.transactions.last(),
        before.transactions.len(),
        pool_id,
        caller,
        PoolAction::Deposit,
        amount,
        shares,
        now,
    )
    &&& after == (PoolLedger {
        entries: after.entries,
        user_pools: after.user_pools,
        transactions: after.transactions,
        total_liquidity: raised(before.total_liquidity, amount),
        total_providers: bumped(before.total_providers),
        ..before
    })
}

/// Burning `shares` of a pool's `total_shares` never pays out more than its
/// liquidity: all of it for all shares, less than all of it for fewer.
pub proof fn lemma_burn_bounds(shares: int, liquidity: int, total_shares: int)
    requires
        0 <= shares <= total_shares,
        0 < total_shares,
        0 <= liquidity,
    ensures
        0 <= (shares * liquidity) / total_shares <= liquidity,
        shares == total_shares ==> (shares * liquidity) / total_shares == liquidity,
        shares < total_shares && 0 < liquidity ==> (shares * liquidity) / total_shares < liquidity,
{
    vstd::arithmetic::mul::lemma_mul_nonnegative(shares, liquidity);
    vstd::arithmetic::mul::lemma_mul_inequality(shares, total_shares, liquidity);
    vstd::arithmetic::div_mod::lemma_multiply_divide_le(shares * liquidity, total_shares, liquidity);
    vstd::arithmetic::div_mod::lemma_div_multiples_vanish(liquidity, total_shares);
    vstd::arithmetic::div_mod::lemma_div_pos_is_pos(shares * liquidity, total_shares);
    if shares < total_shares && 0 < liquidity {
        vstd::arithmetic::mul::lemma_mul_strict_inequality(shares, total_shares, liquidity);
        vstd::arithmetic::div_mod::lemma_multiply_divide_lt(
            shares * liquidity,
            total_shares,
            liquidity,
        );
    }
}

/// The amount that `withdraw_liquidity` reserves for paying out, or the
/// error it rejects the withdrawal with.
pub open spec fn withdraw_check(
    ledger: PoolLedger,
    pool_id: Seq<char>,
    caller: Seq<char>,
    shares: u128,
) -> Result<u128, ContractError> {
    if !ledger.entries.contains_key(pool_id) {
        Err(ContractError::NotFound)
    } else {
        let entry = ledger.entries[pool_id];
        let pool = entry.pool;
        if entry.in_flight is Some {
            Err(ContractError::InvalidState)
        } else if !pool.is_active {
            Err(ContractError::InvalidState)
        } else if !entry.providers@.contains_key(caller) {
            Err(ContractError::NotFound)
        } else if entry.providers@[caller].shares < shares || pool.total_shares < shares {
            Err(ContractError::InsufficientShares)
        } else if pool.total_shares == 0 {
            Err(ContractError::PreconditionFailed)
        } else if shares != pool.total_shares && shares * pool.total_liquidity > u128::MAX {
            Err(ContractError::Overflow)
        } else if amount_for(pool, shares) > pool.available_liquidity {
            Err(ContractError::InsufficientFunds)
        } else if amount_for(pool, shares) > entry.providers@[caller].deposited_amount {
            Err(ContractError::Overflow)
        } else {
            Ok(amount_for(pool, shares) as u128)
        }
    }
}

/// The reward that `claim_rewards` reserves for paying out, or the error it
/// rejects the claim with.
pub open spec fn claim_rewards_check(
    ledger: PoolLedger,
    pool_id: Seq<char>,
    caller: Seq<char>,
) -> Result<u128, ContractError> {
    if !ledger.entries.contains_key(pool_id) {
        Err(ContractError::NotFound)
    } else {
        let entry = ledger.entries[pool_id];
        if entry.in_flight is Some {
            Err(ContractError::InvalidState)
        } else if !entry.providers@.contains_key(caller) {
            Err(ContractError::NotFound)
        } else {
            let stake = entry.providers@[caller];
            let reward = reward_for(entry.pool, entry.reward, stake.shares);
            if entry.pool.total_shares == 0 || stake.shares == 0 {
                Err(ContractError::PreconditionFailed)
            } else if stake.shares * outstanding(entry.reward) > u128::MAX {
                Err(ContractError::Overflow)
            } else if reward == 0 {
                Err(ContractError::PreconditionFailed)
            } else if reward > outstanding(entry.reward) {
                Err(ContractError::InsufficientFunds)
            } else if stake.claimed_rewards + reward > u128::MAX {
                Err(ContractError::Overflow)
            } else {
                Ok(reward as u128)
            }
        }
    }
}

/// The only change is that `payout` is now in flight for the pool.
pub open spec fn payout_issued(
    before: PoolLedger,
    after: PoolLedger,
    pool_id: Seq<char>,
    payout: Payout,
) -> bool {
    after == (PoolLedger {
        entries: before.entries.insert(
            pool_id,
            PoolEntry { in_flight: Some(payout), ..before.entries[pool_id] },
        ),
        ..before
    })
}

/// The payout that `settle_payout` settles, or the error it is rejected with.
pub open spec fn settle_check(ledger: PoolLedger, pool_id: Seq<char>) -> Result<
    Payout,
    ContractError,
> {
    if !ledger.entries.contains_key(pool_id) {
        Err(ContractError::NotFound)
    } else {
        match ledger.entries[pool_id].in_flight {
            Some(payout) => Ok(payout),
            None => Err(ContractError::InvalidState),
        }
    }
}

/// The only change is that nothing is in flight for the pool any more.
pub open spec fn payout_dropped(before: PoolLedger, after: PoolLedger, pool_id: Seq<char>) -> bool {
    after == (PoolLedger {
        entries: before.entries.insert(
            pool_id,
            PoolEntry { in_flight: None, ..before.entries[pool_id] },
        ),
        ..before
    })
}

/// What settling a paid-out withdrawal changes: the shares are burnt and the
/// amount leaves the pool, the provider's stake and the contract's total.
pub open spec fn withdrawal_settled(
    before: PoolLedger,
    after: PoolLedger,
    pool_id: String,
    payout: Payout,
    now: u64,
) -> bool {
    let old_entry = before.entries[pool_id@];
    let entry = after.entries[pool_id@];
    let stake = old_entry.providers@[payout.account@];
    &&& after.entries == before.entries.insert(pool_id@, entry)
    &&& entry.pool == (LiquidityPool {
        total_liquidity: (old_entry.pool.total_liquidity - payout.amount) as u128,
        available_liquidity: (old_entry.pool.available_liquidity - payout.amount) as u128,
        total_shares: (old_entry.pool.total_shares - payout.shares) as u128,
        last_updated: now,
        ..old_entry.pool
    })
    &&& entry.reward == old_entry.reward
    &&& entry.in_flight is None
    &&& entry.providers@ == old_entry.providers@.insert(
        payout.account@,
        LiquidityProvider {
            shares: (stake.shares - payout.shares) as u128,
            deposited_amount: (stake.deposited_amount - payout.amount) as u128,
            ..stake
        },
    )
    &&& after.transactions.len() == before.transactions.len() + 1
    &&& after.transactions == before.transactions.push(after.transactions.last())
    &&& logged(
        after.transactions.last(),
        before.transactions.len(),
        pool_id,
        payout.account,
        PoolAction::Withdraw,
        payout.amount,
        payout.shares,
        now,
    )
    &&& after == (PoolLedger {
        entries: after.entries,
        transactions: after.transactions,
        total_liquidity: lowered(before.total_liquidity, payout.amount),
        ..before
    })
}

/// What settling a paid-out reward claim changes: the reward counts as
/// distributed and as claimed by the provider.
pub open spec fn claim_settled(
    before: PoolLedger,
    after: PoolLedger,
    pool_id: String,
    payout: Payout,
    now: u64,
) -> bool {
    let old_entry = before.entries[pool_id@];
    let entry = after.entries[pool_id@];
    let stake = old_entry.providers@[payout.account@];
    &&& after.entries == before.entries.insert(pool_id@, entry)
    &&& entry.pool == old_entry.pool
    &&& entry.reward == (PoolReward {
        distributed_rewards: (old_entry.reward.distributed_rewards + payout.amount) as u128,
        last_distribution: now,
        ..old_entry.reward
    })
    &&& entry.in_flight is None
    &&& entry.providers@ == old_entry.providers@.insert(
        payout.account@,
        LiquidityProvider {
            claimed_rewards: (stake.claimed_rewards + payout.amount) as u128,
            last_claim: now,
            ..stake
        },
    )
    &&& after.transactions.len() == before.transactions.len() + 1
    &&& after.transactions == before.transactions.push(after.transactions.last())
    &&& logged(
        after.transactions.last(),
        before.transactions.len(),
        pool_id,
        payout.account,
        PoolAction::ClaimRewards,
        payout.amount,
        0,
        now,
    )
    &&& after == (PoolLedger {
        entries: after.entries,
        transactions: after.transactions,
        total_rewards_distributed: raised(before.total_rewards_distributed, payout.amount),
        ..before
    })
}

/// What `add_rewards` answers for the given caller and amount.
pub open spec fn add_rewards_check(
    ledger: PoolLedger,
    pool_id: Seq<char>,
    caller: Seq<char>,
    amount: u128,
) -> Result<(), ContractError> {
    if !ledger.entries.contains_key(pool_id) {
        Err(ContractError::NotFound)
    } else if ledger.entries[pool_id].pool.solver@ != caller {
        Err(ContractError::Unauthorized)
    } else if ledger.entries[pool_id].reward.total_rewards + amount > u128::MAX {
        Err(ContractError::Overflow)
    } else {
        Ok(())
    }
}

/// What switching a pool on or off answers for the given caller.
pub open spec fn switch_check(ledger: PoolLedger, pool_id: Seq<char>, caller: Seq<char>) -> Result<
    (),
    ContractError,
> {
    if !ledger.entries.contains_key(pool_id) {
        Err(ContractError::NotFound)
    } else if ledger.entries[pool_id].pool.solver@ != caller {
        Err(ContractError::Unauthorized)
    } else {
        Ok(())
    }
}

/// The only change is that the pool is switched on or off.
pub open spec fn switched(
    before: PoolLedger,
    after: PoolLedger,
    pool_id: Seq<char>,
    active: bool,
) -> bool {
    let old_entry = before.entries[pool_id];
    after == (PoolLedger {
        entries: before.entries.insert(
            pool_id,
            PoolEntry { pool: LiquidityPool { is_active: active, ..old_entry.pool }, ..old_entry },
        ),
        ..before
    })
}

/// A withdrawal whose amount exceeds the pool's free liquidity is rejected,
/// whatever shares the provider holds: with `InsufficientFunds` where the
/// provider and the pool hold the shares and nothing else stands against it.
pub proof fn lemma_withdrawal_needs_free_liquidity(
    ledger: PoolLedger,
    pool_id: Seq<char>,
    caller: Seq<char>,
    shares: u128,
)
    requires
        ledger.entries.contains_key(pool_id),
        amount_for(ledger.entries[pool_id].pool, shares)
            > ledger.entries[pool_id].pool.available_liquidity,
    ensures
        withdraw_check(ledger, pool_id, caller, shares) is Err,
        ({
            let entry = ledger.entries[pool_id];
            &&& entry.in_flight is None
            &&& entry.pool.is_active
            &&& entry.providers@.contains_key(caller)
            &&& shares <= entry.providers@[caller].shares
            &&& shares <= entry.pool.total_shares
            &&& entry.pool.total_shares > 0
            &&& shares * entry.pool.total_liquidity <= u128::MAX
        }) ==> withdraw_check(ledger, pool_id, caller, shares) == Err::<u128, ContractError>(
            ContractError::InsufficientFunds,
        ),
{
}

/// A deposit of a positive amount into an empty pool, by an account that
/// holds no shares of it, mints as many shares as it deposits, and a
/// withdrawal of all those shares right after it is accepted and pays out
/// exactly the amount deposited.
pub proof fn lemma_deposit_withdraw_round_trip(
    before: PoolLedger,
    after: PoolLedger,
    pool_id: String,
    caller: String,
    amount: u128,
    now: u64,
)
    requires
        before.wf(),
        before.entries.contains_key(pool_id@),
        before.entries[pool_id@].pool.total_shares == 0,
        stake_or_fresh(before.entries[pool_id@], caller, pool_id, now).shares == 0,
        amount > 0,
        deposit_check(before, pool_id, caller, amount, now) is Ok,
        deposit_effect(before, after, pool_id, caller, amount, now, amount),
    ensures
        deposit_check(before, pool_id, caller, amount, now) == Ok::<u128, ContractError>(amount),
        after.entries[pool_id@].providers@[caller@].shares == amount,
        withdraw_check(after, pool_id@, caller@, amount) == Ok::<u128, ContractError>(amount),
{
    let pool = after.entries[pool_id@].pool;
    assert(after.entries[pool_id@].providers@.contains_key(caller@));
    assert(pool.total_shares == amount && pool.total_liquidity == amount);
    lemma_burn_bounds(amount as int, amount as int, amount as int);
}

} // verus!
