//! The rules of the solver contract over its ledger: the invariants, and
//! for each operation what it answers and what it changes.

use crate::errors::ContractError;
use crate::ids::issued_below;
use crate::registry::listed;
use crate::solver::records::{
    ChainSignature,
    FusionOrder,
    OrderStatus,
    QuoteRequest,
    Solver,
    SolverPool,
};
use vstd::prelude::*;

verus! {

/// The highest fee cap the owner may set: 10%.
pub const MAX_FEE_CAP: u32 = 1_000;

/// The success rate reported for a solver that has filled an order.
pub const REPORTED_SUCCESS_RATE: u32 = 9_500;

/// The state of the solver contract as contracts speak of it.
pub struct SolverLedger {
    pub owner: String,
    pub escrow_contract: String,
    /// By account.
    pub solvers: Map<Seq<char>, Solver>,
    /// The accounts of the solvers that are switched on.
    pub active_solvers: Set<Seq<char>>,
    /// By pool id.
    pub pools: Map<Seq<char>, SolverPool>,
    /// For each solver, the ids of the pools it opened.
    pub solver_pools: Map<Seq<char>, Seq<Seq<char>>>,
    /// By order id.
    pub orders: Map<Seq<char>, FusionOrder>,
    /// For each user, the ids of its orders.
    pub user_orders: Map<Seq<char>, Seq<Seq<char>>>,
    /// The requests not yet answered, by quote id.
    pub pending_orders: Map<Seq<char>, QuoteRequest>,
    pub signatures: Seq<ChainSignature>,
    pub total_orders: u64,
    pub total_volume: u128,
    pub total_fees: u128,
    pub min_solver_stake: u128,
    /// In basis points.
    pub max_solver_fee: u32,
    pub quote_timeout: u64,
    /// The counter that the next quote id is drawn from.
    pub next_quote: u64,
    /// The counter that the next order id is drawn from.
    pub next_order: u64,
}

/// An order is pending or filled, is given to a solver, and carries the time
/// and the transaction of its fill exactly when it is filled.
pub open spec fn order_wf(order: FusionOrder) -> bool {
    &&& order.status == OrderStatus::Pending || order.status == OrderStatus::Filled
    &&& order.solver is Some
    &&& (order.filled_at is Some <==> order.status == OrderStatus::Filled)
    &&& (order.tx_hash is Some <==> order.status == OrderStatus::Filled)
}

/// A solver is reported with the fixed success rate once it has filled an
/// order, and with none before.
pub open spec fn solver_wf(solver: Solver) -> bool {
    solver.success_rate == if solver.total_solves == 0 {
        0
    } else {
        REPORTED_SUCCESS_RATE
    }
}

impl SolverLedger {
    /// Every id was drawn from its counter; every solver, pool and order is
    /// stored under its own id and well formed; the active solvers are the registered ones
    /// that are switched on; a pool's free liquidity is within its total and
    /// the pool is listed under its solver; an order is listed under its
    /// user; every id listed under a user is that of one of its orders, and
    /// every id listed under a solver is that of a pool.
    pub open spec fn wf(self) -> bool {
        &&& issued_below(self.pending_orders.dom(), "quote_"@, self.next_quote as nat)
        &&& issued_below(self.orders.dom(), "order_"@, self.next_order as nat)
        &&& forall|account: Seq<char>| #[trigger]
            self.solvers.contains_key(account) ==> {
                &&& self.solvers[account].account_id@ == account
                &&& solver_wf(self.solvers[account])
            }
        &&& forall|account: Seq<char>| #[trigger]
            self.active_solvers.contains(account) <==> self.solvers.contains_key(account)
                && self.solvers[account].is_active
        &&& forall|id: Seq<char>| #[trigger]
            self.pools.contains_key(id) ==> {
                &&& self.pools[id].id@ == id
                &&& self.pools[id].available_liquidity <= self.pools[id].total_liquidity
                &&& listed(self.solver_pools, self.pools[id].solver@).contains(id)
            }
        &&& forall|id: Seq<char>| #[trigger]
            self.orders.contains_key(id) ==> {
                &&& self.orders[id].id@ == id
                &&& order_wf(self.orders[id])
                &&& listed(self.user_orders, self.orders[id].user@).contains(id)
            }
        &&& forall|user: Seq<char>, i: int|
            0 <= i < listed(self.user_orders, user).len() ==> {
                let id = #[trigger] listed(self.user_orders, user)[i];
                self.orders.contains_key(id) && self.orders[id].user@ == user
            }
        &&& forall|solver: Seq<char>, i: int|
            0 <= i < listed(self.solver_pools, solver).len() ==> self.pools.contains_key(
                #[trigger] listed(self.solver_pools, solver)[i],
            )
    }
}

/// What an owner-only operation answers to `caller`.
pub open spec fn owner_check(ledger: SolverLedger, caller: Seq<char>) -> Result<(), ContractError> {
    if caller == ledger.owner@ {
        Ok(())
    } else {
        Err(ContractError::Unauthorized)
    }
}

/// What `create_pool` answers: the caller must be a registered solver that
/// is switched on, and the fee must be within the cap.
pub open spec fn create_pool_check(ledger: SolverLedger, caller: Seq<char>, fee_rate: u32) -> Result<
    (),
    ContractError,
> {
    if !ledger.solvers.contains_key(caller) {
        Err(ContractError::NotFound)
    } else if !ledger.solvers[caller].is_active {
        Err(ContractError::InvalidState)
    } else if fee_rate > ledger.max_solver_fee {
        Err(ContractError::PreconditionFailed)
    } else {
        Ok(())
    }
}

/// What `add_liquidity` answers: the deposit must reach the minimum stake,
/// the pool must exist and be open, and its balances must stay in range.
pub open spec fn add_liquidity_check(ledger: SolverLedger, pool_id: Seq<char>, deposit: u128) -> Result<
    (),
    ContractError,
> {
    if deposit < ledger.min_solver_stake {
        Err(ContractError::PreconditionFailed)
    } else if !ledger.pools.contains_key(pool_id) {
        Err(ContractError::NotFound)
    } else if !ledger.pools[pool_id].is_active {
        Err(ContractError::InvalidState)
    } else if ledger.pools[pool_id].total_liquidity + deposit > u128::MAX {
        Err(ContractError::Overflow)
    } else {
        Ok(())
    }
}

/// What `provide_quote` answers at `now`: the caller must be a registered
/// solver that is switched on, the pool must exist, be its own and be open,
/// and the request must be pending with its deadline not passed.
pub open spec fn provide_quote_check(
    ledger: SolverLedger,
    caller: Seq<char>,
    now: u64,
    quote_id: Seq<char>,
    pool_id: Seq<char>,
) -> Result<(), ContractError> {
    if !ledger.solvers.contains_key(caller) {
        Err(ContractError::NotFound)
    } else if !ledger.solvers[caller].is_active {
        Err(ContractError::InvalidState)
    } else if !ledger.pools.contains_key(pool_id) {
        Err(ContractError::NotFound)
    } else if ledger.pools[pool_id].solver@ != caller {
        Err(ContractError::Unauthorized)
    } else if !ledger.pools[pool_id].is_active {
        Err(ContractError::InvalidState)
    } else if !ledger.pending_orders.contains_key(quote_id) {
        Err(ContractError::NotFound)
    } else if now > ledger.pending_orders[quote_id].deadline {
        Err(ContractError::TimelockViolation)
    } else {
        Ok(())
    }
}

/// Whether the order is given to `caller`.
pub open spec fn assigned_to(order: FusionOrder, caller: Seq<char>) -> bool {
    order.solver matches Some(solver) && solver@ == caller
}

/// What `execute_order` answers at `now`: the order must exist, be pending
/// and given to the caller, its deadline must not have passed, and the
/// caller must be a registered solver.
pub open spec fn execute_order_check(
    ledger: SolverLedger,
    order_id: Seq<char>,
    caller: Seq<char>,
    now: u64,
) -> Result<(), ContractError> {
    if !ledger.orders.contains_key(order_id) {
        Err(ContractError::NotFound)
    } else if ledger.orders[order_id].status != OrderStatus::Pending {
        Err(ContractError::InvalidState)
    } else if !assigned_to(ledger.orders[order_id], caller) {
        Err(ContractError::Unauthorized)
    } else if now > ledger.orders[order_id].deadline {
        Err(ContractError::TimelockViolation)
    } else if !ledger.solvers.contains_key(caller) {
        Err(ContractError::NotFound)
    } else {
        Ok(())
    }
}

/// A request is answered once: after an accepted quote has consumed it, a
/// second quote for the same request is rejected with `NotFound`, whichever
/// solver and pool it comes from, as long as they would pass on their own.
pub proof fn lemma_quote_is_accepted_once(
    before: SolverLedger,
    after: SolverLedger,
    first: Seq<char>,
    second: Seq<char>,
    now: u64,
    later: u64,
    quote_id: Seq<char>,
    first_pool: Seq<char>,
    second_pool: Seq<char>,
)
    requires
        provide_quote_check(before, first, now, quote_id, first_pool) is Ok,
        provide_quote_check(before, second, later, quote_id, second_pool) is Ok,
        after == (SolverLedger {
            pending_orders: before.pending_orders.remove(quote_id),
            ..before
        }),
    ensures
        provide_quote_check(after, second, later, quote_id, second_pool) == Err::<
            (),
            ContractError,
        >(ContractError::NotFound),
        provide_quote_check(after, first, now, quote_id, first_pool) == Err::<(), ContractError>(
            ContractError::NotFound,
        ),
{
}

/// The ledger once `account` is switched on or off: a registered solver
/// takes the switch and joins or leaves the active solvers; for an account
/// that is not registered nothing changes.
pub open spec fn with_switch(ledger: SolverLedger, account: Seq<char>, active: bool) -> SolverLedger {
    if ledger.solvers.contains_key(account) {
        SolverLedger {
            solvers: ledger.solvers.insert(
                account,
                Solver { is_active: active, ..ledger.solvers[account] },
            ),
            active_solvers: if active {
                ledger.active_solvers.insert(account)
            } else {
                ledger.active_solvers.remove(account)
            },
            ..ledger
        }
    } else {
        ledger
    }
}

} // verus!
