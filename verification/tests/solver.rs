use fusion_swap::errors::ContractError;
use fusion_swap::solver::{FusionSolver, OrderStatus};

fn s(text: &str) -> String {
    text.to_string()
}

fn register(contract: &mut FusionSolver, account: &str, now: u64) -> bool {
    contract.register_solver(
        s("Test Solver"),
        s("A test solver"),
        s("1.0.0"),
        s("abc123"),
        s(account),
        now,
    )
}

/// A contract owned by alice in which the solver bob has opened "pool1".
fn contract() -> FusionSolver {
    let mut contract = FusionSolver::new(s("alice"), s("charlie"));
    assert!(register(&mut contract, "bob", 0));
    contract.create_pool(s("pool1"), 100, 1000, 1_000_000, s("bob"), 0).unwrap();
    contract
}

fn request(contract: &mut FusionSolver, deadline: u64) -> String {
    contract.request_quote(s("danny"), s("fargo"), 1000, deadline, s("eugene")).unwrap()
}

fn quote(
    contract: &mut FusionSolver,
    caller: &str,
    now: u64,
    quote_id: &str,
    pool_id: &str,
) -> Result<fusion_swap::solver::QuoteResponse, ContractError> {
    contract.provide_quote(s(quote_id), 980, s("0.98"), 5, s(pool_id), 3, 500, s(caller), now)
}

fn order(contract: &mut FusionSolver, solver: &str, deadline: u64) -> String {
    contract
        .create_order(
            s("quote_0"),
            s("danny"),
            s("fargo"),
            1000,
            980,
            970,
            deadline,
            s(solver),
            s("eugene"),
            1,
        )
        .unwrap()
}

#[test]
fn test_register_solver() {
    let mut contract = FusionSolver::new(s("alice"), s("charlie"));

    let success = contract.register_solver(
        s("Test Solver"),
        s("A test solver"),
        s("1.0.0"),
        s("abc123"),
        s("bob"),
        0,
    );

    assert!(success);

    let solver = contract.get_solver(s("bob"));
    assert!(solver.is_some());
    assert_eq!(solver.unwrap().name, "Test Solver");
}

#[test]
fn lib_test_create_pool() {
    let mut contract = FusionSolver::new(s("alice"), s("charlie"));

    contract.register_solver(
        s("Test Solver"),
        s("A test solver"),
        s("1.0.0"),
        s("abc123"),
        s("bob"),
        0,
    );

    let success = contract.create_pool(s("pool1"), 100, 1000, 1000000, s("bob"), 0).unwrap();

    assert!(success);

    let pool = contract.get_pool(s("pool1"));
    assert!(pool.is_some());
    assert_eq!(pool.unwrap().solver, "bob");
}

#[test]
fn test_request_quote() {
    let mut contract = FusionSolver::new(s("alice"), s("charlie"));

    let quote_id = contract
        .request_quote(s("danny"), s("eugene"), 1000, 0 + 300_000_000_000, s("bob"))
        .unwrap();

    assert!(!quote_id.is_empty());
}

#[test]
fn new_solver_contract_has_the_default_configuration() {
    let contract = FusionSolver::new(s("alice"), s("charlie"));
    assert_eq!(contract.get_statistics(), (0, 0, 0));
    assert!(contract.get_active_solvers().is_empty());
    assert!(contract.get_solver(s("bob")).is_none());
    assert!(contract.get_pool(s("pool1")).is_none());
    assert!(contract.get_order(s("order_0")).is_none());
}

#[test]
fn registered_solver_starts_active_and_without_fills() {
    let mut contract = FusionSolver::new(s("alice"), s("charlie"));
    assert!(register(&mut contract, "bob", 12));
    let solver = contract.get_solver(s("bob")).unwrap();
    assert_eq!(solver.account_id, "bob");
    assert_eq!(solver.description, "A test solver");
    assert_eq!(solver.version, "1.0.0");
    assert_eq!(solver.code_hash, "abc123");
    assert!(solver.is_active);
    assert_eq!(solver.total_solves, 0);
    assert_eq!(solver.success_rate, 0);
    assert_eq!(solver.total_volume, 0);
    assert_eq!(solver.total_fees, 0);
    assert_eq!(solver.registered_at, 12);
    assert_eq!(solver.last_active, 12);
    assert_eq!(contract.get_active_solvers(), vec![s("bob")]);
}

#[test]
fn second_registration_of_an_account_is_turned_away() {
    let mut contract = FusionSolver::new(s("alice"), s("charlie"));
    assert!(register(&mut contract, "bob", 1));
    let again = contract.register_solver(s("Other"), s("d"), s("2.0.0"), s("x"), s("bob"), 2);
    assert!(!again);
    let solver = contract.get_solver(s("bob")).unwrap();
    assert_eq!(solver.name, "Test Solver");
    assert_eq!(solver.registered_at, 1);
    assert_eq!(contract.get_active_solvers(), vec![s("bob")]);
}

#[test]
fn created_pool_is_empty_and_listed() {
    let mut contract = contract();
    let pool = contract.get_pool(s("pool1")).unwrap();
    assert_eq!(pool.id, "pool1");
    assert!(pool.liquidity_providers.is_empty());
    assert_eq!(pool.total_liquidity, 0);
    assert_eq!(pool.available_liquidity, 0);
    assert_eq!(pool.fee_rate, 100);
    assert_eq!(pool.min_order_size, 1000);
    assert_eq!(pool.max_order_size, 1_000_000);
    assert!(pool.is_active);
    assert_eq!(pool.created_at, 0);
    contract.create_pool(s("pool2"), 500, 1, 2, s("bob"), 3).unwrap();
    assert_eq!(contract.get_solver_pools(s("bob")), vec![s("pool1"), s("pool2")]);
}

#[test]
fn pool_is_for_an_active_solver_within_the_fee_cap() {
    let mut contract = contract();
    assert_eq!(
        contract.create_pool(s("p"), 100, 1, 2, s("eugene"), 0),
        Err(ContractError::NotFound)
    );
    assert_eq!(
        contract.create_pool(s("p"), 501, 1, 2, s("bob"), 0),
        Err(ContractError::PreconditionFailed)
    );
    contract.deactivate_solver(s("bob"), s("alice")).unwrap();
    assert_eq!(
        contract.create_pool(s("p"), 100, 1, 2, s("bob"), 0),
        Err(ContractError::InvalidState)
    );
    assert!(contract.get_pool(s("p")).is_none());
    assert_eq!(contract.get_solver_pools(s("bob")), vec![s("pool1")]);
}

#[test]
fn liquidity_needs_the_minimum_stake() {
    let mut contract = contract();
    let stake: u128 = 100_000_000_000_000_000_000_000;
    assert_eq!(
        contract.add_liquidity(s("pool1"), s("eugene"), stake - 1),
        Err(ContractError::PreconditionFailed)
    );
    assert_eq!(
        contract.add_liquidity(s("pool9"), s("eugene"), stake),
        Err(ContractError::NotFound)
    );
    assert_eq!(contract.add_liquidity(s("pool1"), s("eugene"), stake), Ok(()));
    assert_eq!(contract.add_liquidity(s("pool1"), s("fargo"), stake + 5), Ok(()));
    assert_eq!(contract.add_liquidity(s("pool1"), s("eugene"), stake), Ok(()));
    let pool = contract.get_pool(s("pool1")).unwrap();
    assert_eq!(pool.liquidity_providers, vec![s("eugene"), s("fargo")]);
    assert_eq!(pool.total_liquidity, 3 * stake + 5);
    assert_eq!(pool.available_liquidity, 3 * stake + 5);
    assert_eq!(
        contract.add_liquidity(s("pool1"), s("eugene"), u128::MAX),
        Err(ContractError::Overflow)
    );
    assert_eq!(contract.get_pool(s("pool1")).unwrap().total_liquidity, 3 * stake + 5);
}

#[test]
fn requests_get_fresh_ids() {
    let mut contract = contract();
    let first = request(&mut contract, 100);
    let second = request(&mut contract, 100);
    assert_eq!(first, "quote_0");
    assert_eq!(second, "quote_1");
    let pending = contract.get_pending_request(first).unwrap();
    assert_eq!(pending.from_token, "danny");
    assert_eq!(pending.to_token, "fargo");
    assert_eq!(pending.amount, 1000);
    assert_eq!(pending.user, "eugene");
    assert_eq!(pending.deadline, 100);
    assert!(contract.get_pending_request(s("quote_2")).is_none());
}

#[test]
fn quote_answers_the_request_and_consumes_it() {
    let mut contract = contract();
    let id = request(&mut contract, 100);
    let response = quote(&mut contract, "bob", 100, &id, "pool1").unwrap();
    assert_eq!(response.quote_id, "quote_0");
    assert_eq!(response.from_token, "danny");
    assert_eq!(response.to_token, "fargo");
    assert_eq!(response.from_amount, 1000);
    assert_eq!(response.to_amount, 980);
    assert_eq!(response.price, "0.98");
    assert_eq!(response.gas_estimate, 5);
    assert_eq!(response.solver, "bob");
    assert_eq!(response.pool_id, "pool1");
    assert_eq!(response.fee, 3);
    assert_eq!(response.valid_until, 500);
    assert!(contract.get_pending_request(id).is_none());
}

#[test]
fn exactly_one_of_two_quotes_for_a_request_is_accepted() {
    let mut contract = contract();
    assert!(register(&mut contract, "danny", 0));
    contract.create_pool(s("pool2"), 100, 1, 2, s("danny"), 0).unwrap();
    let id = request(&mut contract, 100);
    let other = request(&mut contract, 100);
    assert!(quote(&mut contract, "bob", 10, &id, "pool1").is_ok());
    assert_eq!(
        quote(&mut contract, "danny", 10, &id, "pool2").unwrap_err(),
        ContractError::NotFound
    );
    assert_eq!(
        quote(&mut contract, "bob", 10, &id, "pool1").unwrap_err(),
        ContractError::NotFound
    );
    assert!(contract.get_pending_request(other.clone()).is_some());
    assert!(quote(&mut contract, "danny", 10, &other, "pool2").is_ok());
}

#[test]
fn quote_is_checked_against_solver_pool_and_request() {
    let mut contract = contract();
    let id = request(&mut contract, 100);
    assert_eq!(
        quote(&mut contract, "eugene", 10, &id, "pool1").unwrap_err(),
        ContractError::NotFound
    );
    assert_eq!(
        quote(&mut contract, "bob", 10, &id, "pool9").unwrap_err(),
        ContractError::NotFound
    );
    assert_eq!(
        quote(&mut contract, "bob", 10, "quote_9", "pool1").unwrap_err(),
        ContractError::NotFound
    );
    assert_eq!(
        quote(&mut contract, "bob", 101, &id, "pool1").unwrap_err(),
        ContractError::TimelockViolation
    );
    assert!(register(&mut contract, "danny", 0));
    assert_eq!(
        quote(&mut contract, "danny", 10, &id, "pool1").unwrap_err(),
        ContractError::Unauthorized
    );
    contract.deactivate_solver(s("bob"), s("alice")).unwrap();
    assert_eq!(
        quote(&mut contract, "bob", 10, &id, "pool1").unwrap_err(),
        ContractError::InvalidState
    );
    assert!(contract.get_pending_request(id.clone()).is_some());
    contract.activate_solver(s("bob"), s("alice")).unwrap();
    assert!(quote(&mut contract, "bob", 10, &id, "pool1").is_ok());
}

#[test]
fn order_is_made_pending_and_listed() {
    let mut contract = contract();
    let id = order(&mut contract, "bob", 100);
    assert_eq!(id, "order_0");
    let stored = contract.get_order(id.clone()).unwrap();
    assert_eq!(stored.id, id);
    assert_eq!(stored.user, "eugene");
    assert_eq!(stored.from_token, "danny");
    assert_eq!(stored.to_token, "fargo");
    assert_eq!(stored.from_amount, 1000);
    assert_eq!(stored.to_amount, 980);
    assert_eq!(stored.min_to_amount, 970);
    assert_eq!(stored.deadline, 100);
    assert_eq!(stored.solver, Some(s("bob")));
    assert_eq!(stored.status, OrderStatus::Pending);
    assert_eq!(stored.created_at, 1);
    assert_eq!(stored.filled_at, None);
    assert_eq!(stored.tx_hash, None);
    let second = order(&mut contract, "bob", 100);
    assert_eq!(contract.get_user_orders(s("eugene")), vec![id, second]);
    assert_eq!(contract.get_statistics(), (2, 0, 0));
}

#[test]
fn fill_is_recorded_for_order_and_solver() {
    let mut contract = contract();
    let id = order(&mut contract, "bob", 100);
    assert_eq!(contract.execute_order(id.clone(), s("0xfeed"), s("bob"), 100), Ok(true));
    let stored = contract.get_order(id).unwrap();
    assert_eq!(stored.status, OrderStatus::Filled);
    assert_eq!(stored.filled_at, Some(100));
    assert_eq!(stored.tx_hash, Some(s("0xfeed")));
    let solver = contract.get_solver(s("bob")).unwrap();
    assert_eq!(solver.total_solves, 1);
    assert_eq!(solver.total_volume, 1000);
    assert_eq!(solver.last_active, 100);
    assert_eq!(solver.success_rate, 9500);
    assert_eq!(contract.get_statistics(), (1, 1000, 0));
}

#[test]
fn fill_is_for_the_assigned_solver_before_the_deadline() {
    let mut contract = contract();
    assert!(register(&mut contract, "danny", 0));
    let id = order(&mut contract, "bob", 100);
    assert_eq!(
        contract.execute_order(s("order_9"), s("0x"), s("bob"), 1),
        Err(ContractError::NotFound)
    );
    assert_eq!(
        contract.execute_order(id.clone(), s("0x"), s("danny"), 1),
        Err(ContractError::Unauthorized)
    );
    assert_eq!(
        contract.execute_order(id.clone(), s("0x"), s("bob"), 101),
        Err(ContractError::TimelockViolation)
    );
    assert_eq!(contract.get_order(id.clone()).unwrap().status, OrderStatus::Pending);
    assert_eq!(contract.execute_order(id.clone(), s("0x"), s("bob"), 1), Ok(true));
    assert_eq!(
        contract.execute_order(id, s("0x"), s("bob"), 1),
        Err(ContractError::InvalidState)
    );
    assert_eq!(contract.get_solver(s("bob")).unwrap().total_solves, 1);
    let unknown = order(&mut contract, "fargo", 100);
    assert_eq!(
        contract.execute_order(unknown, s("0x"), s("fargo"), 1),
        Err(ContractError::NotFound)
    );
}

#[test]
fn every_signature_is_filed() {
    let mut contract = contract();
    assert!(contract.verify_signature(s("sig"), s("key"), s("message"), s("bob"), 3));
    assert!(contract.verify_signature(s(""), s(""), s(""), s("nobody"), 4));
}

#[test]
fn solvers_are_switched_by_the_owner() {
    let mut contract = contract();
    assert!(register(&mut contract, "danny", 0));
    assert_eq!(
        contract.deactivate_solver(s("bob"), s("bob")),
        Err(ContractError::Unauthorized)
    );
    assert!(contract.get_solver(s("bob")).unwrap().is_active);
    assert_eq!(contract.deactivate_solver(s("bob"), s("alice")), Ok(()));
    assert!(!contract.get_solver(s("bob")).unwrap().is_active);
    assert_eq!(contract.get_active_solvers(), vec![s("danny")]);
    assert_eq!(contract.deactivate_solver(s("nobody"), s("alice")), Ok(()));
    assert!(contract.get_solver(s("nobody")).is_none());
    assert_eq!(
        contract.activate_solver(s("bob"), s("danny")),
        Err(ContractError::Unauthorized)
    );
    assert_eq!(contract.activate_solver(s("bob"), s("alice")), Ok(()));
    assert!(contract.get_solver(s("bob")).unwrap().is_active);
    let mut active = contract.get_active_solvers();
    active.sort();
    assert_eq!(active, vec![s("bob"), s("danny")]);
    assert_eq!(contract.activate_solver(s("nobody"), s("alice")), Ok(()));
    assert_eq!(contract.get_active_solvers().len(), 2);
}

#[test]
fn solver_configuration_is_for_the_owner() {
    let mut contract = contract();
    assert_eq!(contract.set_min_solver_stake(1, s("bob")), Err(ContractError::Unauthorized));
    assert_eq!(contract.set_max_solver_fee(1, s("bob")), Err(ContractError::Unauthorized));
    assert_eq!(contract.set_quote_timeout(1, s("bob")), Err(ContractError::Unauthorized));
    assert_eq!(
        contract.set_max_solver_fee(1001, s("alice")),
        Err(ContractError::PreconditionFailed)
    );
    assert_eq!(contract.set_max_solver_fee(1000, s("alice")), Ok(()));
    assert_eq!(contract.create_pool(s("p"), 1000, 1, 2, s("bob"), 0), Ok(true));
    assert_eq!(contract.set_min_solver_stake(10, s("alice")), Ok(()));
    assert_eq!(contract.add_liquidity(s("p"), s("eugene"), 10), Ok(()));
    assert_eq!(contract.set_quote_timeout(60, s("alice")), Ok(()));
}
