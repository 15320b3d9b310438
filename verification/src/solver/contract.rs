//! The solver contract and its operations.

use crate::errors::ContractError;
use crate::ids::{lemma_next_id_is_fresh, make_id, tagged_id};
use crate::math::{bumped, raised};
use crate::registry::{lemma_listed_grows, list_holds, listed, texts, Index, Registry};
use crate::solver::records::{
    ChainSignature,
    FusionOrder,
    OrderStatus,
    QuoteRequest,
    QuoteResponse,
    Solver,
    SolverPool,
};
use crate::solver::rules::{
    add_liquidity_check,
    create_pool_check,
    execute_order_check,
    owner_check,
    provide_quote_check,
    with_switch,
    MAX_FEE_CAP,
    REPORTED_SUCCESS_RATE,
    SolverLedger,
};
use vstd::prelude::*;

verus! {

/// The solver contract: the registry of solvers, their pools, the orders
/// and the requests not yet answered, with the indices over them.
pub struct FusionSolver {
    owner: String,
    escrow_contract: String,
    solvers: Registry<Solver>,
    active_solvers: Registry<bool>,
    pools: Registry<SolverPool>,
    solver_pools: Index,
    orders: Registry<FusionOrder>,
    user_orders: Index,
    pending_orders: Registry<QuoteRequest>,
    signatures: Vec<ChainSignature>,
    total_orders: u64,
    total_volume: u128,
    total_fees: u128,
    min_solver_stake: u128,
    max_solver_fee: u32,
    quote_timeout: u64,
    next_quote: u64,
    next_order: u64,
}

impl View for FusionSolver {
    type V = SolverLedger;

    closed spec fn view(&self) -> SolverLedger {
        SolverLedger {
            owner: self.owner,
            escrow_contract: self.escrow_contract,
            solvers: self.solvers@,
            active_solvers: self.active_solvers@.dom(),
            pools: self.pools@,
            solver_pools: self.solver_pools@,
            orders: self.orders@,
            user_orders: self.user_orders@,
            pending_orders: self.pending_orders@,
            signatures: self.signatures@,
            total_orders: self.total_orders,
            total_volume: self.total_volume,
            total_fees: self.total_fees,
            min_solver_stake: self.min_solver_stake,
            max_solver_fee: self.max_solver_fee,
            quote_timeout: self.quote_timeout,
            next_quote: self.next_quote,
            next_order: self.next_order,
        }
    }
}

/// What the indices list stays on record: where the lists are unchanged, no
/// pool and no order goes away and no order changes hands, every listed id
/// is still that of a pool, or of an order of the user it is listed under.
proof fn lemma_lists_carry_over(before: SolverLedger, after: SolverLedger)
    requires
        before.wf(),
        after.user_orders == before.user_orders,
        after.solver_pools == before.solver_pools,
        forall|id: Seq<char>| #[trigger]
            before.orders.contains_key(id) ==> after.orders.contains_key(id)
                && after.orders[id].user == before.orders[id].user,
        forall|id: Seq<char>| #[trigger]
            before.pools.contains_key(id) ==> after.pools.contains_key(id),
    ensures
        forall|user: Seq<char>, i: int|
            0 <= i < listed(after.user_orders, user).len() ==> {
                let id = #[trigger] listed(after.user_orders, user)[i];
                after.orders.contains_key(id) && after.orders[id].user@ == user
            },
        forall|solver: Seq<char>, i: int|
            0 <= i < listed(after.solver_pools, solver).len() ==> after.pools.contains_key(
                #[trigger] listed(after.solver_pools, solver)[i],
            ),
{
    assert forall|user: Seq<char>, i: int|
        0 <= i < listed(after.user_orders, user).len() implies {
        let id = #[trigger] listed(after.user_orders, user)[i];
        after.orders.contains_key(id) && after.orders[id].user@ == user
    } by {
        let id = listed(before.user_orders, user)[i];
        assert(before.orders.contains_key(id));
    }
    assert forall|solver: Seq<char>, i: int|
        0 <= i < listed(after.solver_pools, solver).len() implies after.pools.contains_key(
        #[trigger] listed(after.solver_pools, solver)[i],
    ) by {
        assert(before.pools.contains_key(listed(before.solver_pools, solver)[i]));
    }
}

impl FusionSolver {
    /// The contract-wide invariant.
    pub closed spec fn wf(&self) -> bool {
        &&& self.solvers.wf()
        &&& self.active_solvers.wf()
        &&& self.pools.wf()
        &&& self.solver_pools.wf()
        &&& self.orders.wf()
        &&& self.user_orders.wf()
        &&& self.pending_orders.wf()
        &&& self@.wf()
    }

    /// A well-formed contract has a well-formed ledger.
    pub proof fn lemma_ledger_wf(&self)
        requires
            self.wf(),
        ensures
            self@.wf(),
    {
    }

    /// A contract without solvers: a minimum stake of 100 units of 10^24, a
    /// fee cap of 5%, quotes valid for five minutes in nanoseconds.
    pub fn new(owner: String, escrow_contract: String) -> (contract: Self)
        ensures
            contract.wf(),
            contract@ == (SolverLedger {
                owner,
                escrow_contract,
                solvers: Map::empty(),
                active_solvers: Set::empty(),
                pools: Map::empty(),
                solver_pools: Map::empty(),
                orders: Map::empty(),
                user_orders: Map::empty(),
                pending_orders: Map::empty(),
                signatures: Seq::empty(),
                total_orders: 0,
                total_volume: 0,
                total_fees: 0,
                min_solver_stake: 100_000_000_000_000_000_000_000,
                max_solver_fee: 500,
                quote_timeout: 300_000_000_000,
                next_quote: 0,
                next_order: 0,
            }),
    {
        let contract = FusionSolver {
            owner,
            escrow_contract,
            solvers: Registry::new(),
            active_solvers: Registry::new(),
            pools: Registry::new(),
            solver_pools: Index::new(),
            orders: Registry::new(),
            user_orders: Index::new(),
            pending_orders: Registry::new(),
            signatures: Vec::new(),
            total_orders: 0,
            total_volume: 0,
            total_fees: 0,
            min_solver_stake: 100_000_000_000_000_000_000_000,
            max_solver_fee: 500,
            quote_timeout: 300_000_000_000,
            next_quote: 0,
            next_order: 0,
        };
        assert(contract@.active_solvers =~= Set::<Seq<char>>::empty());
        contract
    }

    /// Registers `caller` as a solver, switched on and without fills. An
    /// account that is registered already is turned away: the answer is
    /// `false` and nothing changes.
    pub fn register_solver(
        &mut self,
        name: String,
        description: String,
        version: String,
        code_hash: String,
        caller: String,
        now: u64,
    ) -> (registered: bool)
        requires
            old(self).wf(),
        ensures
            final(self).wf(),
            registered == !old(self)@.solvers.contains_key(caller@),
            registered ==> final(self)@ == (SolverLedger {
                solvers: old(self)@.solvers.insert(caller@, final(self)@.solvers[caller@]),
                active_solvers: old(self)@.active_solvers.insert(caller@),
                ..old(self)@
            }),
            registered ==> final(self)@.solvers[caller@] == (Solver {
                account_id: caller,
                name,
                description,
                version,
                code_hash,
                is_active: true,
                total_solves: 0,
                success_rate: 0,
                total_volume: 0,
                total_fees: 0,
                registered_at: now,
                last_active: now,
            }),
            !registered ==> *final(self) == *old(self),
    {
        if self.solvers.contains_key(&caller) {
            return false;
        }
        let solver = Solver {
            account_id: caller.clone(),
            name,
            description,
            version,
            code_hash,
            is_active: true,
            total_solves: 0,
            success_rate: 0,
            total_volume: 0,
            total_fees: 0,
            registered_at: now,
            last_active: now,
        };
        self.solvers.insert(caller.clone(), solver);
        self.active_solvers.insert(caller, true);
        proof {
            let before = old(self)@;
            let after = self@;
            assert(after.active_solvers =~= before.active_solvers.insert(caller@));
            assert(after.solvers =~= before.solvers.insert(caller@, solver));
            lemma_lists_carry_over(before, after);
            assert forall|account: Seq<char>| #[trigger]
                after.active_solvers.contains(account) <==> after.solvers.contains_key(account)
                    && after.solvers[account].is_active by {
                if account != caller@ {
                    assert(before.active_solvers.contains(account) <==> before.solvers.contains_key(
                        account,
                    ) && before.solvers[account].is_active);
                }
            }
            assert forall|account: Seq<char>| #[trigger]
                after.solvers.contains_key(account) implies after.solvers[account].account_id@
                == account by {
                if account != caller@ {
                    assert(before.solvers.contains_key(account));
                }
            }
        }
        true
    }

    /// Opens a pool of `caller` under `pool_id`, without liquidity. A pool
    /// already stored under that id is replaced.
    pub fn create_pool(
        &mut self,
        pool_id: String,
        fee_rate: u32,
        min_order_size: u128,
        max_order_size: u128,
        caller: String,
        now: u64,
    ) -> (result: Result<bool, ContractError>)
        requires
            old(self).wf(),
        ensures
            final(self).wf(),
            match create_pool_check(old(self)@, caller@, fee_rate) {
                Err(error) => result == Err::<bool, ContractError>(error) && *final(self) == *old(
                    self,
                ),
                Ok(_) => {
                    let before = old(self)@;
                    let after = final(self)@;
                    let pool = after.pools[pool_id@];
                    &&& result == Ok::<bool, ContractError>(true)
                    &&& after == (SolverLedger {
                        pools: before.pools.insert(pool_id@, pool),
                        solver_pools: before.solver_pools.insert(
                            caller@,
                            listed(before.solver_pools, caller@).push(pool_id@),
                        ),
                        ..before
                    })
                    &&& pool.id == pool_id
                    &&& pool.solver == caller
                    &&& pool.liquidity_providers@.len() == 0
                    &&& pool.total_liquidity == 0
                    &&& pool.available_liquidity == 0
                    &&& pool.fee_rate == fee_rate
                    &&& pool.min_order_size == min_order_size
                    &&& pool.max_order_size == max_order_size
                    &&& pool.is_active
                    &&& pool.created_at == now
                },
            },
    {
        match self.solvers.get(&caller) {
            Some(solver) => {
                if !solver.is_active {
                    return Err(ContractError::InvalidState);
                }
            },
            None => {
                return Err(ContractError::NotFound);
            },
        }
        if fee_rate > self.max_solver_fee {
            return Err(ContractError::PreconditionFailed);
        }
        let pool = SolverPool {
            id: pool_id.clone(),
            solver: caller.clone(),
            liquidity_providers: Vec::new(),
            total_liquidity: 0,
            available_liquidity: 0,
            fee_rate,
            min_order_size,
            max_order_size,
            is_active: true,
            created_at: now,
        };
        self.pools.insert(pool_id.clone(), pool);
        self.solver_pools.add(caller, pool_id);
        proof {
            let before = old(self)@;
            let after = self@;
            assert(after.pools =~= before.pools.insert(pool_id@, pool));
            lemma_listed_grows(before.solver_pools, caller@, pool_id@);
            assert forall|id: Seq<char>| #[trigger] after.pools.contains_key(id) implies {
                &&& after.pools[id].id@ == id
                &&& after.pools[id].available_liquidity <= after.pools[id].total_liquidity
                &&& listed(after.solver_pools, after.pools[id].solver@).contains(id)
            } by {
                if id != pool_id@ {
                    assert(before.pools.contains_key(id));
                }
            }
            assert forall|solver: Seq<char>, i: int|
                0 <= i < listed(after.solver_pools, solver).len() implies after.pools.contains_key(
                #[trigger] listed(after.solver_pools, solver)[i],
            ) by {
                let old_list = listed(before.solver_pools, solver);
                if solver == caller@ && i == old_list.len() {
                } else {
                    assert(before.pools.contains_key(old_list[i]));
                }
            }
        }
        Ok(true)
    }
    /// Adds `deposit`, which came with the call, to the pool's liquidity and
    /// lists `caller` among its providers. The deposit must reach the
    /// minimum stake.
    pub fn add_liquidity(&mut self, pool_id: String, caller: String, deposit: u128) -> (result:
        Result<(), ContractError>)
        requires
            old(self).wf(),
        ensures
            final(self).wf(),
            result == add_liquidity_check(old(self)@, pool_id@, deposit),
            match result {
                Err(_) => *final(self) == *old(self),
                Ok(_) => {
                    let before = old(self)@;
                    let after = final(self)@;
                    let old_pool = before.pools[pool_id@];
                    let pool = after.pools[pool_id@];
                    &&& after == (SolverLedger {
                        pools: before.pools.insert(pool_id@, pool),
                        ..before
                    })
                    &&& texts(pool.liquidity_providers@) == if texts(
                        old_pool.liquidity_providers@,
                    ).contains(caller@) {
                        texts(old_pool.liquidity_providers@)
                    } else {
                        texts(old_pool.liquidity_providers@).push(caller@)
                    }
                    &&& pool.total_liquidity == old_pool.total_liquidity + deposit
                    &&& pool.available_liquidity == old_pool.available_liquidity + deposit
                    &&& pool.id == old_pool.id
                    &&& pool.solver == old_pool.solver
                    &&& pool.fee_rate == old_pool.fee_rate
                    &&& pool.min_order_size == old_pool.min_order_size
                    &&& pool.max_order_size == old_pool.max_order_size
                    &&& pool.is_active == old_pool.is_active
                    &&& pool.created_at == old_pool.created_at
                },
            },
    {
        if deposit < self.min_solver_stake {
            return Err(ContractError::PreconditionFailed);
        }
        let total_liquidity = match self.pools.get(&pool_id) {
            Some(pool) => {
                if !pool.is_active {
                    return Err(ContractError::InvalidState);
                }
                match pool.total_liquidity.checked_add(deposit) {
                    Some(total) => total,
                    None => {
                        return Err(ContractError::Overflow);
                    },
                }
            },
            None => {
                return Err(ContractError::NotFound);
            },
        };
        let mut pool = self.pools.remove(&pool_id).unwrap();
        let ghost old_pool = pool;
        if !list_holds(&pool.liquidity_providers, &caller) {
            pool.liquidity_providers.push(caller);
            assert(texts(pool.liquidity_providers@) =~= texts(old_pool.liquidity_providers@).push(
                caller@,
            ));
        }
        pool.total_liquidity = total_liquidity;
        pool.available_liquidity = pool.available_liquidity + deposit;
        self.pools.insert(pool_id, pool);
        proof {
            let before = old(self)@;
            let after = self@;
            assert(after.pools =~= before.pools.insert(pool_id@, pool));
            assert forall|id: Seq<char>| #[trigger] after.pools.contains_key(id) implies {
                &&& after.pools[id].id@ == id
                &&& after.pools[id].available_liquidity <= after.pools[id].total_liquidity
                &&& listed(after.solver_pools, after.pools[id].solver@).contains(id)
            } by {
                assert(before.pools.contains_key(id));
            }
            lemma_lists_carry_over(before, after);
        }
        Ok(())
    }

    /// Opens a request by `caller` for a quote, pending under a fresh id.
    pub fn request_quote(
        &mut self,
        from_token: String,
        to_token: String,
        amount: u128,
        deadline: u64,
        caller: String,
    ) -> (result: Result<String, ContractError>)
        requires
            old(self).wf(),
        ensures
            final(self).wf(),
            match result {
                Ok(quote_id) => {
                    let before = old(self)@;
                    &&& before.next_quote < u64::MAX
                    &&& quote_id@ == tagged_id("quote_"@, before.next_quote as nat)
                    &&& quote_id@.len() > 0
                    &&& !before.pending_orders.contains_key(quote_id@)
                    &&& final(self)@ == (SolverLedger {
                        pending_orders: before.pending_orders.insert(
                            quote_id@,
                            QuoteRequest { from_token, to_token, amount, user: caller, deadline },
                        ),
                        next_quote: (before.next_quote + 1) as u64,
                        ..before
                    })
                },
                Err(error) => {
                    &&& error == ContractError::Overflow
                    &&& old(self)@.next_quote == u64::MAX
                    &&& *final(self) == *old(self)
                },
            },
    {
        if self.next_quote == u64::MAX {
            return Err(ContractError::Overflow);
        }
        let quote_id = make_id("quote_", self.next_quote);
        proof {
            lemma_next_id_is_fresh(
                old(self)@.pending_orders.dom(),
                "quote_"@,
                self.next_quote as nat,
            );
        }
        let request = QuoteRequest { from_token, to_token, amount, user: caller, deadline };
        self.pending_orders.insert(quote_id.clone(), request);
        self.next_quote = self.next_quote + 1;
        proof {
            assert(self@.pending_orders.dom() =~= old(self)@.pending_orders.dom().insert(
                quote_id@,
            ));
        }
        Ok(quote_id)
    }

    /// Answers a pending request with a quote from `caller`'s pool. The
    /// accepted quote consumes the request: the first quote wins, and every
    /// later one for the same request is rejected with `NotFound`.
    pub fn provide_quote(
        &mut self,
        quote_id: String,
        to_amount: u128,
        price: String,
        gas_estimate: u128,
        pool_id: String,
        fee: u128,
        valid_until: u64,
        caller: String,
        now: u64,
    ) -> (result: Result<QuoteResponse, ContractError>)
        requires
            old(self).wf(),
        ensures
            final(self).wf(),
            match (result, provide_quote_check(old(self)@, caller@, now, quote_id@, pool_id@)) {
                (Ok(response), Ok(_)) => {
                    let request = old(self)@.pending_orders[quote_id@];
                    &&& final(self)@ == (SolverLedger {
                        pending_orders: old(self)@.pending_orders.remove(quote_id@),
                        ..old(self)@
                    })
                    &&& response == (QuoteResponse {
                        quote_id,
                        from_token: request.from_token,
                        to_token: request.to_token,
                        from_amount: request.amount,
                        to_amount,
                        price,
                        gas_estimate,
                        solver: caller,
                        pool_id,
                        fee,
                        valid_until,
                    })
                },
                (Err(error), Err(expected)) => error == expected && *final(self) == *old(self),
                _ => false,
            },
    {
        match self.solvers.get(&caller) {
            Some(solver) => {
                if !solver.is_active {
                    return Err(ContractError::InvalidState);
                }
            },
            None => {
                return Err(ContractError::NotFound);
            },
        }
        match self.pools.get(&pool_id) {
            Some(pool) => {
                if pool.solver != caller {
                    return Err(ContractError::Unauthorized);
                }
                if !pool.is_active {
                    return Err(ContractError::InvalidState);
                }
            },
            None => {
                return Err(ContractError::NotFound);
            },
        }
        match self.pending_orders.get(&quote_id) {
            Some(request) => {
                if now > request.deadline {
                    return Err(ContractError::TimelockViolation);
                }
            },
            None => {
                return Err(ContractError::NotFound);
            },
        }
        let request = self.pending_orders.remove(&quote_id).unwrap();
        proof {
            let before = old(self)@.pending_orders.dom();
            assert(self@.pending_orders.dom() =~= before.remove(quote_id@));
        }
        Ok(
            QuoteResponse {
                quote_id,
                from_token: request.from_token,
                to_token: request.to_token,
                from_amount: request.amount,
                to_amount,
                price,
                gas_estimate,
                solver: caller,
                pool_id,
                fee,
                valid_until,
            },
        )
    }

    /// Makes an order of `caller` from an accepted quote, given to `solver`,
    /// in status `Pending` under a fresh id.
    pub fn create_order(
        &mut self,
        quote_id: String,
        from_token: String,
        to_token: String,
        from_amount: u128,
        to_amount: u128,
        min_to_amount: u128,
        deadline: u64,
        solver: String,
        caller: String,
        now: u64,
    ) -> (result: Result<String, ContractError>)
        requires
            old(self).wf(),
        ensures
            final(self).wf(),
            match result {
                Ok(order_id) => {
                    let before = old(self)@;
                    &&& before.next_order < u64::MAX
                    &&& order_id@ == tagged_id("order_"@, before.next_order as nat)
                    &&& order_id@.len() > 0
                    &&& !before.orders.contains_key(order_id@)
                    &&& final(self)@ == (SolverLedger {
                        orders: before.orders.insert(
                            order_id@,
                            FusionOrder {
                                id: order_id,
                                user: caller,
                                from_token,
                                to_token,
                                from_amount,
                                to_amount,
                                min_to_amount,
                                deadline,
                                solver: Some(solver),
                                status: OrderStatus::Pending,
                                created_at: now,
                                filled_at: None,
                                tx_hash: None,
                            },
                        ),
                        user_orders: before.user_orders.insert(
                            caller@,
                            listed(before.user_orders, caller@).push(order_id@),
                        ),
                        total_orders: bumped(before.total_orders),
                        next_order: (before.next_order + 1) as u64,
                        ..before
                    })
                },
                Err(error) => {
                    &&& error == ContractError::Overflow
                    &&& old(self)@.next_order == u64::MAX
                    &&& *final(self) == *old(self)
                },
            },
    {
        if self.next_order == u64::MAX {
            return Err(ContractError::Overflow);
        }
        let order_id = make_id("order_", self.next_order);
        proof {
            lemma_next_id_is_fresh(old(self)@.orders.dom(), "order_"@, self.next_order as nat);
        }
        let order = FusionOrder {
            id: order_id.clone(),
            user: caller.clone(),
            from_token,
            to_token,
            from_amount,
            to_amount,
            min_to_amount,
            deadline,
            solver: Some(solver),
            status: OrderStatus::Pending,
            created_at: now,
            filled_at: None,
            tx_hash: None,
        };
        self.orders.insert(order_id.clone(), order);
        self.user_orders.add(caller, order_id.clone());
        self.total_orders = self.total_orders.saturating_add(1);
        self.next_order = self.next_order + 1;
        proof {
            let before = old(self)@;
            let after = self@;
            assert(after.orders =~= before.orders.insert(order_id@, order));
            assert(after.orders.dom() =~= before.orders.dom().insert(order_id@));
            lemma_listed_grows(before.user_orders, caller@, order_id@);
            assert forall|id: Seq<char>| #[trigger] after.orders.contains_key(id) implies {
                &&& after.orders[id].id@ == id
                &&& listed(after.user_orders, after.orders[id].user@).contains(id)
            } by {
                if id != order_id@ {
                    assert(before.orders.contains_key(id));
                }
            }
            assert forall|user: Seq<char>, i: int|
                0 <= i < listed(after.user_orders, user).len() implies {
                let id = #[trigger] listed(after.user_orders, user)[i];
                after.orders.contains_key(id) && after.orders[id].user@ == user
            } by {
                let old_list = listed(before.user_orders, user);
                if user == caller@ && i == old_list.len() {
                } else {
                    assert(before.orders.contains_key(old_list[i]));
                }
            }
        }
        Ok(order_id)
    }

    /// Records that the solver `caller` has filled the order, with the hash
    /// of the filling transaction: the order becomes `Filled`, and the fill
    /// counts towards the solver's and the contract's totals.
    pub fn execute_order(&mut self, order_id: String, tx_hash: String, caller: String, now: u64) -> (result:
        Result<bool, ContractError>)
        requires
            old(self).wf(),
        ensures
            final(self).wf(),
            match execute_order_check(old(self)@, order_id@, caller@, now) {
                Err(error) => result == Err::<bool, ContractError>(error) && *final(self) == *old(
                    self,
                ),
                Ok(_) => {
                    let before = old(self)@;
                    let order = before.orders[order_id@];
                    let solver = before.solvers[caller@];
                    &&& result == Ok::<bool, ContractError>(true)
                    &&& final(self)@ == (SolverLedger {
                        orders: before.orders.insert(
                            order_id@,
                            FusionOrder {
                                status: OrderStatus::Filled,
                                filled_at: Some(now),
                                tx_hash: Some(tx_hash),
                                ..order
                            },
                        ),
                        solvers: before.solvers.insert(
                            caller@,
                            Solver {
                                total_solves: bumped(solver.total_solves),
                                total_volume: raised(solver.total_volume, order.from_amount),
                                last_active: now,
                                success_rate: REPORTED_SUCCESS_RATE,
                                ..solver
                            },
                        ),
                        total_volume: raised(before.total_volume, order.from_amount),
                        ..before
                    })
                },
            },
    {
        match self.orders.get(&order_id) {
            Some(order) => {
                let pending = match order.status {
                    OrderStatus::Pending => true,
                    _ => false,
                };
                if !pending {
                    return Err(ContractError::InvalidState);
                }
                let assigned = match &order.solver {
                    Some(solver) => *solver == caller,
                    None => false,
                };
                if !assigned {
                    return Err(ContractError::Unauthorized);
                }
                if now > order.deadline {
                    return Err(ContractError::TimelockViolation);
                }
            },
            None => {
                return Err(ContractError::NotFound);
            },
        }
        if !self.solvers.contains_key(&caller) {
            return Err(ContractError::NotFound);
        }
        let mut order = self.orders.remove(&order_id).unwrap();
        order.status = OrderStatus::Filled;
        order.filled_at = Some(now);
        order.tx_hash = Some(tx_hash);
        let from_amount = order.from_amount;
        self.orders.insert(order_id, order);
        let mut solver = self.solvers.remove(&caller).unwrap();
        solver.total_solves = solver.total_solves.saturating_add(1);
        solver.total_volume = solver.total_volume.saturating_add(from_amount);
        solver.last_active = now;
        solver.success_rate = REPORTED_SUCCESS_RATE;
        self.solvers.insert(caller, solver);
        self.total_volume = self.total_volume.saturating_add(from_amount);
        proof {
            let before = old(self)@;
            let after = self@;
            assert(after.orders =~= before.orders.insert(order_id@, order));
            assert(after.orders.dom() =~= before.orders.dom());
            assert(after.solvers =~= before.solvers.insert(caller@, solver));
            assert(after.active_solvers =~= before.active_solvers);
            lemma_lists_carry_over(before, after);
            assert forall|id: Seq<char>| #[trigger] after.orders.contains_key(id) implies {
                &&& after.orders[id].id@ == id
                &&& listed(after.user_orders, after.orders[id].user@).contains(id)
            } by {
                assert(before.orders.contains_key(id));
            }
            assert forall|account: Seq<char>| #[trigger]
                after.active_solvers.contains(account) <==> after.solvers.contains_key(account)
                    && after.solvers[account].is_active by {
                assert(before.active_solvers.contains(account) <==> before.solvers.contains_key(
                    account,
                ) && before.solvers[account].is_active);
            }
            assert forall|account: Seq<char>| #[trigger]
                after.solvers.contains_key(account) implies after.solvers[account].account_id@
                == account by {
                assert(before.solvers.contains_key(account));
            }
        }
        Ok(true)
    }

    /// Files a signature that `solver` handed in. Nothing is checked: every
    /// signature is filed and answered with `true`.
    pub fn verify_signature(
        &mut self,
        signature: String,
        public_key: String,
        message: String,
        solver: String,
        now: u64,
    ) -> (accepted: bool)
        requires
            old(self).wf(),
        ensures
            final(self).wf(),
            accepted,
            final(self)@ == (SolverLedger {
                signatures: old(self)@.signatures.push(
                    ChainSignature { signature, public_key, message, timestamp: now, solver },
                ),
                ..old(self)@
            }),
    {
        self.signatures.push(
            ChainSignature { signature, public_key, message, timestamp: now, solver },
        );
        true
    }
    /// Switches a solver on or off as the owner asks.
    fn switch(&mut self, solver_id: String, caller: String, active: bool) -> (result: Result<
        (),
        ContractError,
    >)
        requires
            old(self).wf(),
        ensures
            final(self).wf(),
            result == owner_check(old(self)@, caller@),
            match result {
                Ok(_) => final(self)@ == with_switch(old(self)@, solver_id@, active),
                Err(_) => *final(self) == *old(self),
            },
    {
        if caller != self.owner {
            return Err(ContractError::Unauthorized);
        }
        if !self.solvers.contains_key(&solver_id) {
            return Ok(());
        }
        let mut solver = self.solvers.remove(&solver_id).unwrap();
        solver.is_active = active;
        self.solvers.insert(solver_id.clone(), solver);
        if active {
            self.active_solvers.insert(solver_id, true);
        } else {
            self.active_solvers.remove(&solver_id);
        }
        proof {
            let before = old(self)@;
            let after = self@;
            assert(after.solvers =~= before.solvers.insert(solver_id@, solver));
            assert(after.active_solvers =~= if active {
                before.active_solvers.insert(solver_id@)
            } else {
                before.active_solvers.remove(solver_id@)
            });
            assert forall|id: Seq<char>| #[trigger] after.pools.contains_key(id) implies {
                &&& after.pools[id].id@ == id
                &&& after.pools[id].available_liquidity <= after.pools[id].total_liquidity
                &&& listed(after.solver_pools, after.pools[id].solver@).contains(id)
            } by {
                assert(before.pools.contains_key(id));
            }
            lemma_lists_carry_over(before, after);
            assert forall|account: Seq<char>| #[trigger]
                after.active_solvers.contains(account) <==> after.solvers.contains_key(account)
                    && after.solvers[account].is_active by {
                if account != solver_id@ {
                    assert(before.active_solvers.contains(account) <==> before.solvers.contains_key(
                        account,
                    ) && before.solvers[account].is_active);
                }
            }
            assert forall|account: Seq<char>| #[trigger]
                after.solvers.contains_key(account) implies after.solvers[account].account_id@
                == account by {
                assert(before.solvers.contains_key(account));
            }
        }
        Ok(())
    }

    /// Switches a solver off. Only the owner may do so; for an account that
    /// is not registered nothing changes.
    pub fn deactivate_solver(&mut self, solver_id: String, caller: String) -> (result: Result<
        (),
        ContractError,
    >)
        requires
            old(self).wf(),
        ensures
            final(self).wf(),
            result == owner_check(old(self)@, caller@),
            match result {
                Ok(_) => final(self)@ == with_switch(old(self)@, solver_id@, false),
                Err(_) => *final(self) == *old(self),
            },
    {
        self.switch(solver_id, caller, false)
    }

    /// Switches a solver on again. Only the owner may do so; for an account
    /// that is not registered nothing changes.
    pub fn activate_solver(&mut self, solver_id: String, caller: String) -> (result: Result<
        (),
        ContractError,
    >)
        requires
            old(self).wf(),
        ensures
            final(self).wf(),
            result == owner_check(old(self)@, caller@),
            match result {
                Ok(_) => final(self)@ == with_switch(old(self)@, solver_id@, true),
                Err(_) => *final(self) == *old(self),
            },
    {
        self.switch(solver_id, caller, true)
    }

    /// Sets the least deposit that `add_liquidity` takes. Only the owner may
    /// do so.
    pub fn set_min_solver_stake(&mut self, min_stake: u128, caller: String) -> (result: Result<
        (),
        ContractError,
    >)
        requires
            old(self).wf(),
        ensures
            final(self).wf(),
            result == owner_check(old(self)@, caller@),
            match result {
                Ok(_) => final(self)@ == (SolverLedger {
                    min_solver_stake: min_stake,
                    ..old(self)@
                }),
                Err(_) => *final(self) == *old(self),
            },
    {
        if caller != self.owner {
            return Err(ContractError::Unauthorized);
        }
        self.min_solver_stake = min_stake;
        Ok(())
    }

    /// Sets the cap on a pool's fee rate, in basis points and at most 10%.
    /// Only the owner may do so.
    pub fn set_max_solver_fee(&mut self, max_fee: u32, caller: String) -> (result: Result<
        (),
        ContractError,
    >)
        requires
            old(self).wf(),
        ensures
            final(self).wf(),
            result == if caller@ != old(self)@.owner@ {
                Err::<(), ContractError>(ContractError::Unauthorized)
            } else if max_fee > MAX_FEE_CAP {
                Err(ContractError::PreconditionFailed)
            } else {
                Ok(())
            },
            match result {
                Ok(_) => final(self)@ == (SolverLedger { max_solver_fee: max_fee, ..old(self)@ }),
                Err(_) => *final(self) == *old(self),
            },
    {
        if caller != self.owner {
            return Err(ContractError::Unauthorized);
        }
        if max_fee > MAX_FEE_CAP {
            return Err(ContractError::PreconditionFailed);
        }
        self.max_solver_fee = max_fee;
        Ok(())
    }

    /// Sets how long a quote stays valid. Only the owner may do so.
    pub fn set_quote_timeout(&mut self, timeout: u64, caller: String) -> (result: Result<
        (),
        ContractError,
    >)
        requires
            old(self).wf(),
        ensures
            final(self).wf(),
            result == owner_check(old(self)@, caller@),
            match result {
                Ok(_) => final(self)@ == (SolverLedger { quote_timeout: timeout, ..old(self)@ }),
                Err(_) => *final(self) == *old(self),
            },
    {
        if caller != self.owner {
            return Err(ContractError::Unauthorized);
        }
        self.quote_timeout = timeout;
        Ok(())
    }

    /// The solver registered for `solver_id`.
    pub fn get_solver(&self, solver_id: String) -> (solver: Option<Solver>)
        requires
            self.wf(),
        ensures
            solver == if self@.solvers.contains_key(solver_id@) {
                Some(self@.solvers[solver_id@])
            } else {
                None
            },
    {
        match self.solvers.get(&solver_id) {
            Some(solver) => Some(solver.clone()),
            None => None,
        }
    }

    /// The pool stored under `pool_id`.
    pub fn get_pool(&self, pool_id: String) -> (pool: Option<SolverPool>)
        requires
            self.wf(),
        ensures
            match pool {
                Some(copy) => {
                    let stored = self@.pools[pool_id@];
                    &&& self@.pools.contains_key(pool_id@)
                    &&& copy.liquidity_providers@ == stored.liquidity_providers@
                    &&& copy == (SolverPool {
                        liquidity_providers: copy.liquidity_providers,
                        ..stored
                    })
                },
                None => !self@.pools.contains_key(pool_id@),
            },
    {
        match self.pools.get(&pool_id) {
            Some(pool) => Some(pool.clone()),
            None => None,
        }
    }

    /// The order stored under `order_id`.
    pub fn get_order(&self, order_id: String) -> (order: Option<FusionOrder>)
        requires
            self.wf(),
        ensures
            order == if self@.orders.contains_key(order_id@) {
                Some(self@.orders[order_id@])
            } else {
                None
            },
    {
        match self.orders.get(&order_id) {
            Some(order) => Some(order.clone()),
            None => None,
        }
    }

    /// The request pending under `quote_id`.
    pub fn get_pending_request(&self, quote_id: String) -> (request: Option<QuoteRequest>)
        requires
            self.wf(),
        ensures
            request == if self@.pending_orders.contains_key(quote_id@) {
                Some(self@.pending_orders[quote_id@])
            } else {
                None
            },
    {
        match self.pending_orders.get(&quote_id) {
            Some(request) => Some(request.clone()),
            None => None,
        }
    }

    /// The ids of the orders that `user` made, oldest first.
    pub fn get_user_orders(&self, user: String) -> (ids: Vec<String>)
        requires
            self.wf(),
        ensures
            texts(ids@) == listed(self@.user_orders, user@),
    {
        self.user_orders.list(&user)
    }

    /// The ids of the pools that `solver_id` opened, oldest first.
    pub fn get_solver_pools(&self, solver_id: String) -> (ids: Vec<String>)
        requires
            self.wf(),
        ensures
            texts(ids@) == listed(self@.solver_pools, solver_id@),
    {
        self.solver_pools.list(&solver_id)
    }

    /// The number of orders made, the volume filled and the fees taken.
    pub fn get_statistics(&self) -> (totals: (u64, u128, u128))
        ensures
            totals == (self@.total_orders, self@.total_volume, self@.total_fees),
    {
        (self.total_orders, self.total_volume, self.total_fees)
    }

    /// The accounts of the solvers that are switched on, each once.
    pub fn get_active_solvers(&self) -> (accounts: Vec<String>)
        requires
            self.wf(),
        ensures
            texts(accounts@).no_duplicates(),
            forall|account: Seq<char>|
                texts(accounts@).contains(account) <==> self@.active_solvers.contains(account),
    {
        self.active_solvers.keys()
    }
}

} // verus!
