use fusion_swap::errors::ContractError;
use fusion_swap::escrow::rules::split_fee;
use fusion_swap::escrow::{FusionEscrow, OrderStatus, SwapStatus};
use fusion_swap::hashing::commitment;
use fusion_swap::transfer::Party;

const HOUR: u64 = 3600;
const NANOS: u64 = 1_000_000_000;

fn s(text: &str) -> String {
    text.to_string()
}

/// A contract owned by alice with charlie and danny on the allow-list.
fn contract() -> FusionEscrow {
    let mut contract = FusionEscrow::new(s("alice"));
    contract.add_supported_token(s("charlie"), s("alice")).unwrap();
    contract.add_supported_token(s("danny"), s("alice")).unwrap();
    contract
}

/// An order of 1000 by bob for eugene, locked to `secret`, created at `now`.
fn order(contract: &mut FusionEscrow, secret: &str, now: u64) -> String {
    contract
        .create_order(
            s("eugene"),
            s("charlie"),
            s("danny"),
            1000,
            950,
            commitment(&s(secret)),
            HOUR,
            s("bob"),
            now,
        )
        .unwrap()
}

fn funded(contract: &mut FusionEscrow, secret: &str, now: u64) -> String {
    let id = order(contract, secret, now);
    contract.fund_order(id.clone(), s("bob"), now).unwrap();
    assert_eq!(contract.settle_order(id.clone(), true), Ok(OrderStatus::Funded));
    id
}

#[test]
fn test_create_order() {
    let mut contract = FusionEscrow::new(s("alice"));
    contract.add_supported_token(s("charlie"), s("alice")).unwrap();
    contract.add_supported_token(s("danny"), s("alice")).unwrap();

    let order_id = contract
        .create_order(
            s("eugene"),
            s("charlie"),
            s("danny"),
            1000,
            950,
            s("hashlock123"),
            3600,
            s("bob"),
            0,
        )
        .unwrap();

    assert!(!order_id.is_empty());
}

#[test]
fn test_get_quote() {
    let contract = FusionEscrow::new(s("alice"));

    let quote = contract.get_quote(s("charlie"), s("danny"), 1000);

    assert_eq!(quote.from_amount, 1000);
    assert_eq!(quote.to_amount, 980);
}

#[test]
fn quote_describes_one_hop() {
    let contract = FusionEscrow::new(s("alice"));
    let quote = contract.get_quote(s("charlie"), s("danny"), 12345);
    assert_eq!(quote.to_amount, 12098);
    assert_eq!(quote.price, "1.0");
    assert_eq!(quote.gas_estimate, 30_000_000_000_000);
    assert_eq!(quote.protocols, vec![s("ref-finance")]);
    assert_eq!(quote.route.len(), 1);
    assert_eq!(quote.route[0].protocol, "ref-finance");
    assert_eq!(quote.route[0].from_token, "charlie");
    assert_eq!(quote.route[0].to_token, "danny");
    assert_eq!(quote.route[0].amount, 12345);
    assert_eq!(quote.route[0].fee, "0.003");
    assert_eq!(quote.route[0].pool_id, Some(s("1")));
    assert_eq!(contract.get_quote(s("a"), s("b"), u128::MAX).to_amount, 333476719582519694194107115283132847225);
}

#[test]
fn new_contract_has_the_default_configuration() {
    let contract = FusionEscrow::new(s("alice"));
    assert_eq!(contract.get_config(), (30, 3600, 86400));
    assert_eq!(contract.get_statistics(), (0, 0, 0));
    assert!(!contract.is_supported_token(s("charlie")));
    assert!(contract.get_user_orders(s("bob")).is_empty());
}

#[test]
fn created_order_is_pending_and_listed() {
    let mut contract = contract();
    let id = order(&mut contract, "secret", 5);
    assert_eq!(id, "order_0");
    let stored = contract.get_order(id.clone()).unwrap();
    assert_eq!(stored.id, id);
    assert_eq!(stored.maker, "bob");
    assert_eq!(stored.taker, "eugene");
    assert_eq!(stored.from_token, "charlie");
    assert_eq!(stored.to_token, "danny");
    assert_eq!(stored.from_amount, 1000);
    assert_eq!(stored.to_amount, 950);
    assert_eq!(stored.hashlock, commitment(&s("secret")));
    assert_eq!(stored.secret, None);
    assert_eq!(stored.timelock, HOUR);
    assert_eq!(stored.status, OrderStatus::Pending);
    assert_eq!(stored.created_at, 5);
    assert_eq!(stored.expires_at, 5 + HOUR * NANOS);
    assert_eq!(contract.get_user_orders(s("bob")), vec![s("order_0")]);
    assert!(!contract.has_transfer_in_flight(id));
}

#[test]
fn orders_created_at_the_same_time_get_different_ids() {
    let mut contract = contract();
    let first = order(&mut contract, "secret", 7);
    let second = order(&mut contract, "secret", 7);
    assert_ne!(first, second);
    assert_eq!(contract.get_user_orders(s("bob")), vec![first, second]);
}

#[test]
fn create_order_checks_the_timelock_window() {
    let mut contract = contract();
    let mut create = |timelock: u64| {
        contract.create_order(
            s("eugene"),
            s("charlie"),
            s("danny"),
            1000,
            950,
            s("hashlock123"),
            timelock,
            s("bob"),
            0,
        )
    };
    assert_eq!(create(3599), Err(ContractError::PreconditionFailed));
    assert_eq!(create(86401), Err(ContractError::PreconditionFailed));
    assert!(create(3600).is_ok());
    assert!(create(86400).is_ok());
}

#[test]
fn create_order_checks_the_allow_list() {
    let mut contract = contract();
    let result = contract.create_order(
        s("eugene"),
        s("fargo"),
        s("danny"),
        1000,
        950,
        s("hashlock123"),
        HOUR,
        s("bob"),
        0,
    );
    assert_eq!(result, Err(ContractError::PreconditionFailed));
    let result = contract.create_order(
        s("eugene"),
        s("charlie"),
        s("fargo"),
        1000,
        950,
        s("hashlock123"),
        HOUR,
        s("bob"),
        0,
    );
    assert_eq!(result, Err(ContractError::PreconditionFailed));
    contract.remove_supported_token(s("danny"), s("alice")).unwrap();
    let result = contract.create_order(
        s("eugene"),
        s("charlie"),
        s("danny"),
        1000,
        950,
        s("hashlock123"),
        HOUR,
        s("bob"),
        0,
    );
    assert_eq!(result, Err(ContractError::PreconditionFailed));
    assert!(contract.get_user_orders(s("bob")).is_empty());
}

#[test]
fn create_order_rejects_an_expiry_out_of_range() {
    let mut contract = contract();
    let result = contract.create_order(
        s("eugene"),
        s("charlie"),
        s("danny"),
        1000,
        950,
        s("hashlock123"),
        HOUR,
        s("bob"),
        u64::MAX - 10,
    );
    assert_eq!(result, Err(ContractError::Overflow));
}

#[test]
fn fund_asks_for_the_deposit_and_waits_for_its_confirmation() {
    let mut contract = contract();
    let id = order(&mut contract, "secret", 0);
    let transfer = contract.fund_order(id.clone(), s("bob"), 1).unwrap();
    assert_eq!(transfer.token, "charlie");
    assert_eq!(transfer.sender, Party::Account(s("bob")));
    assert_eq!(transfer.receiver, Party::Holder);
    assert_eq!(transfer.amount, 1000);
    assert_eq!(transfer.memo, "Fund order order_0");
    assert_eq!(contract.get_order(id.clone()).unwrap().status, OrderStatus::Pending);
    assert!(contract.has_transfer_in_flight(id.clone()));
    assert_eq!(contract.settle_order(id.clone(), true), Ok(OrderStatus::Funded));
    assert_eq!(contract.get_order(id.clone()).unwrap().status, OrderStatus::Funded);
    assert!(!contract.has_transfer_in_flight(id));
}

#[test]
fn failed_deposit_leaves_the_order_pending() {
    let mut contract = contract();
    let id = order(&mut contract, "secret", 0);
    contract.fund_order(id.clone(), s("bob"), 1).unwrap();
    assert_eq!(contract.settle_order(id.clone(), false), Err(ContractError::TransferFailed));
    assert_eq!(contract.get_order(id.clone()).unwrap().status, OrderStatus::Pending);
    assert!(!contract.has_transfer_in_flight(id.clone()));
    assert!(contract.fund_order(id, s("bob"), 2).is_ok());
}

#[test]
fn fund_is_for_the_maker_of_a_pending_order() {
    let mut contract = contract();
    let id = order(&mut contract, "secret", 0);
    assert_eq!(
        contract.fund_order(s("order_9"), s("bob"), 1).unwrap_err(),
        ContractError::NotFound
    );
    assert_eq!(
        contract.fund_order(id.clone(), s("eugene"), 1).unwrap_err(),
        ContractError::Unauthorized
    );
    contract.fund_order(id.clone(), s("bob"), 1).unwrap();
    assert_eq!(
        contract.fund_order(id.clone(), s("bob"), 1).unwrap_err(),
        ContractError::InvalidState
    );
    contract.settle_order(id.clone(), true).unwrap();
    assert_eq!(
        contract.fund_order(id, s("bob"), 1).unwrap_err(),
        ContractError::InvalidState
    );
}

#[test]
fn unfunded_order_expires_with_its_timelock() {
    let mut contract = contract();
    let id = order(&mut contract, "secret", 0);
    let expiry = HOUR * NANOS;
    assert_eq!(contract.order_status(id.clone(), expiry - 1), Some(OrderStatus::Pending));
    assert_eq!(contract.order_status(id.clone(), expiry), Some(OrderStatus::Expired));
    assert_eq!(contract.order_status(s("order_9"), 0), None);
    assert_eq!(
        contract.fund_order(id.clone(), s("bob"), expiry).unwrap_err(),
        ContractError::InvalidState
    );
    assert_eq!(
        contract.claim_order(id.clone(), s("secret"), s("eugene")).unwrap_err(),
        ContractError::InvalidState
    );
    assert_eq!(
        contract.refund_order(id, s("bob"), expiry).unwrap_err(),
        ContractError::InvalidState
    );
}

#[test]
fn claim_pays_the_amount_less_the_fee() {
    let mut contract = contract();
    let id = funded(&mut contract, "secret", 0);
    let transfer = contract.claim_order(id.clone(), s("secret"), s("eugene")).unwrap();
    assert_eq!(transfer.token, "charlie");
    assert_eq!(transfer.sender, Party::Holder);
    assert_eq!(transfer.receiver, Party::Account(s("eugene")));
    assert_eq!(transfer.amount, 997);
    assert_eq!(transfer.memo, "Claim order order_0");
    assert_eq!(contract.get_order(id.clone()).unwrap().status, OrderStatus::Funded);
    assert_eq!(contract.get_statistics(), (0, 0, 0));
    assert_eq!(contract.settle_order(id.clone(), true), Ok(OrderStatus::Claimed));
    let stored = contract.get_order(id).unwrap();
    assert_eq!(stored.status, OrderStatus::Claimed);
    assert_eq!(stored.secret, Some(s("secret")));
    assert_eq!(contract.get_statistics(), (1, 1000, 3));
}

#[test]
fn claim_is_rejected_for_any_other_secret() {
    let mut contract = contract();
    let id = funded(&mut contract, "secret", 0);
    for wrong in ["", "Secret", "secret ", "secre", "another"] {
        assert_eq!(
            contract.claim_order(id.clone(), s(wrong), s("eugene")).unwrap_err(),
            ContractError::CryptoMismatch
        );
    }
    assert_eq!(contract.get_order(id.clone()).unwrap().status, OrderStatus::Funded);
    assert!(!contract.has_transfer_in_flight(id.clone()));
    assert!(contract.claim_order(id, s("secret"), s("eugene")).is_ok());
}

#[test]
fn claim_is_accepted_exactly_once() {
    let mut contract = contract();
    let id = funded(&mut contract, "secret", 0);
    contract.claim_order(id.clone(), s("secret"), s("eugene")).unwrap();
    assert_eq!(
        contract.claim_order(id.clone(), s("secret"), s("eugene")).unwrap_err(),
        ContractError::InvalidState
    );
    contract.settle_order(id.clone(), true).unwrap();
    assert_eq!(
        contract.claim_order(id.clone(), s("secret"), s("eugene")).unwrap_err(),
        ContractError::InvalidState
    );
    assert_eq!(contract.settle_order(id, true), Err(ContractError::InvalidState));
    assert_eq!(contract.get_statistics(), (1, 1000, 3));
}

#[test]
fn claim_is_for_the_taker_of_a_funded_order() {
    let mut contract = contract();
    let id = order(&mut contract, "secret", 0);
    assert_eq!(
        contract.claim_order(s("order_9"), s("secret"), s("eugene")).unwrap_err(),
        ContractError::NotFound
    );
    assert_eq!(
        contract.claim_order(id.clone(), s("secret"), s("eugene")).unwrap_err(),
        ContractError::InvalidState
    );
    contract.fund_order(id.clone(), s("bob"), 0).unwrap();
    contract.settle_order(id.clone(), true).unwrap();
    assert_eq!(
        contract.claim_order(id.clone(), s("secret"), s("bob")).unwrap_err(),
        ContractError::Unauthorized
    );
    assert_eq!(
        contract.claim_order(id, s("wrong"), s("bob")).unwrap_err(),
        ContractError::Unauthorized
    );
}

#[test]
fn claim_with_digest_compares_the_digest_with_the_hashlock() {
    let mut contract = contract();
    let hashlock = s("000fa0ff");
    let id = contract
        .create_order(
            s("eugene"),
            s("charlie"),
            s("danny"),
            1000,
            950,
            hashlock,
            HOUR,
            s("bob"),
            0,
        )
        .unwrap();
    contract.fund_order(id.clone(), s("bob"), 0).unwrap();
    contract.settle_order(id.clone(), true).unwrap();
    assert_eq!(
        contract
            .claim_with_digest(id.clone(), s("x"), &[0x00, 0x0f, 0xa0, 0xfe], s("eugene"))
            .unwrap_err(),
        ContractError::CryptoMismatch
    );
    let transfer = contract
        .claim_with_digest(id, s("x"), &[0x00, 0x0f, 0xa0, 0xff], s("eugene"))
        .unwrap();
    assert_eq!(transfer.amount, 997);
}

#[test]
fn failed_payout_leaves_the_order_funded() {
    let mut contract = contract();
    let id = funded(&mut contract, "secret", 0);
    contract.claim_order(id.clone(), s("secret"), s("eugene")).unwrap();
    assert_eq!(contract.settle_order(id.clone(), false), Err(ContractError::TransferFailed));
    let stored = contract.get_order(id.clone()).unwrap();
    assert_eq!(stored.status, OrderStatus::Funded);
    assert_eq!(stored.secret, None);
    assert_eq!(contract.get_statistics(), (0, 0, 0));
    assert!(contract.claim_order(id, s("secret"), s("eugene")).is_ok());
}

#[test]
fn claim_is_still_taken_after_the_timelock() {
    let mut contract = contract();
    let id = funded(&mut contract, "secret", 0);
    assert_eq!(
        contract.order_status(id.clone(), HOUR * NANOS + 1),
        Some(OrderStatus::Funded)
    );
    assert!(contract.claim_order(id, s("secret"), s("eugene")).is_ok());
}

#[test]
fn refund_waits_for_the_timelock() {
    let mut contract = contract();
    let id = funded(&mut contract, "secret", 10);
    let expiry = 10 + HOUR * NANOS;
    assert_eq!(
        contract.refund_order(id.clone(), s("bob"), 10).unwrap_err(),
        ContractError::TimelockViolation
    );
    assert_eq!(
        contract.refund_order(id.clone(), s("bob"), expiry - 1).unwrap_err(),
        ContractError::TimelockViolation
    );
    assert_eq!(contract.get_order(id.clone()).unwrap().status, OrderStatus::Funded);
    assert!(contract.refund_order(id, s("bob"), expiry).is_ok());
}

#[test]
fn refund_returns_the_full_amount_and_excludes_a_claim() {
    let mut contract = contract();
    let id = funded(&mut contract, "secret", 0);
    let transfer = contract.refund_order(id.clone(), s("bob"), HOUR * NANOS + 1).unwrap();
    assert_eq!(transfer.token, "charlie");
    assert_eq!(transfer.sender, Party::Holder);
    assert_eq!(transfer.receiver, Party::Account(s("bob")));
    assert_eq!(transfer.amount, 1000);
    assert_eq!(transfer.memo, "Refund order order_0");
    assert_eq!(
        contract.claim_order(id.clone(), s("secret"), s("eugene")).unwrap_err(),
        ContractError::InvalidState
    );
    assert_eq!(contract.settle_order(id.clone(), true), Ok(OrderStatus::Refunded));
    assert_eq!(contract.get_order(id.clone()).unwrap().status, OrderStatus::Refunded);
    assert_eq!(
        contract.claim_order(id.clone(), s("secret"), s("eugene")).unwrap_err(),
        ContractError::InvalidState
    );
    assert_eq!(
        contract.refund_order(id, s("bob"), HOUR * NANOS + 2).unwrap_err(),
        ContractError::InvalidState
    );
    assert_eq!(contract.get_statistics(), (0, 0, 0));
}

#[test]
fn refund_is_for_the_maker_of_a_funded_order() {
    let mut contract = contract();
    let id = funded(&mut contract, "secret", 0);
    let late = HOUR * NANOS;
    assert_eq!(
        contract.refund_order(s("order_9"), s("bob"), late).unwrap_err(),
        ContractError::NotFound
    );
    assert_eq!(
        contract.refund_order(id.clone(), s("eugene"), late).unwrap_err(),
        ContractError::Unauthorized
    );
    contract.claim_order(id.clone(), s("secret"), s("eugene")).unwrap();
    contract.settle_order(id.clone(), true).unwrap();
    assert_eq!(
        contract.refund_order(id, s("bob"), late).unwrap_err(),
        ContractError::InvalidState
    );
}

#[test]
fn settle_needs_a_transfer_in_flight() {
    let mut contract = contract();
    let id = order(&mut contract, "secret", 0);
    assert_eq!(contract.settle_order(s("order_9"), true), Err(ContractError::NotFound));
    assert_eq!(contract.settle_order(id.clone(), true), Err(ContractError::InvalidState));
    assert_eq!(contract.settle_order(id, false), Err(ContractError::InvalidState));
}

#[test]
fn fee_and_payout_make_up_the_amount() {
    for (amount, rate) in [
        (0u128, 30u32),
        (1, 30),
        (333, 30),
        (334, 30),
        (1000, 30),
        (1000, 0),
        (1000, 1000),
        (1000, 10_000),
        (u128::MAX, 30),
        (u128::MAX, 10_000),
    ] {
        let (fee, payout) = split_fee(amount, rate);
        assert_eq!(fee + payout, amount);
        assert!(payout <= amount);
    }
    assert_eq!(split_fee(1000, 30), (3, 997));
    assert_eq!(split_fee(333, 30), (0, 333));
    assert_eq!(split_fee(334, 30), (1, 333));
    assert_eq!(split_fee(1000, 10_000), (1000, 0));
}

#[test]
fn fee_follows_the_configured_rate() {
    let mut contract = contract();
    contract.set_fee_rate(250, s("alice")).unwrap();
    let id = funded(&mut contract, "secret", 0);
    let transfer = contract.claim_order(id.clone(), s("secret"), s("eugene")).unwrap();
    assert_eq!(transfer.amount, 975);
    contract.settle_order(id, true).unwrap();
    assert_eq!(contract.get_statistics(), (1, 1000, 25));
}

#[test]
fn admin_operations_are_for_the_owner() {
    let mut contract = contract();
    assert_eq!(
        contract.add_supported_token(s("fargo"), s("bob")),
        Err(ContractError::Unauthorized)
    );
    assert!(!contract.is_supported_token(s("fargo")));
    assert_eq!(
        contract.remove_supported_token(s("charlie"), s("bob")),
        Err(ContractError::Unauthorized)
    );
    assert!(contract.is_supported_token(s("charlie")));
    assert_eq!(contract.set_fee_rate(10, s("bob")), Err(ContractError::Unauthorized));
    assert_eq!(
        contract.set_timelock_limits(1, 2, s("bob")),
        Err(ContractError::Unauthorized)
    );
    assert_eq!(contract.get_config(), (30, 3600, 86400));
}

#[test]
fn fee_rate_and_timelock_limits_are_bounded() {
    let mut contract = contract();
    assert_eq!(contract.set_fee_rate(1001, s("alice")), Err(ContractError::PreconditionFailed));
    assert_eq!(contract.set_fee_rate(1000, s("alice")), Ok(()));
    assert_eq!(
        contract.set_timelock_limits(60, 60, s("alice")),
        Err(ContractError::PreconditionFailed)
    );
    assert_eq!(
        contract.set_timelock_limits(61, 60, s("alice")),
        Err(ContractError::PreconditionFailed)
    );
    assert_eq!(contract.set_timelock_limits(60, 120, s("alice")), Ok(()));
    assert_eq!(contract.get_config(), (1000, 60, 120));
}

#[test]
fn swap_is_tracked_under_a_fresh_id() {
    let mut contract = contract();
    let create = |contract: &mut FusionEscrow| {
        contract
            .create_cross_chain_swap(
                s("0xabc"),
                s("0xdef"),
                s("ethereum"),
                s("near"),
                s("usdc"),
                s("wnear"),
                1000,
                950,
                s("hashlock123"),
                7200,
                s("bob"),
                100,
            )
            .unwrap()
    };
    let first = create(&mut contract);
    let second = create(&mut contract);
    assert_eq!(first, "swap_0");
    assert_eq!(second, "swap_1");
    let swap = contract.get_swap(first.clone()).unwrap();
    assert_eq!(swap.evm_order_hash, "0xabc");
    assert_eq!(swap.near_order_id, "");
    assert_eq!(swap.evm_address, "0xdef");
    assert_eq!(swap.near_account, "bob");
    assert_eq!(swap.from_chain, "ethereum");
    assert_eq!(swap.to_chain, "near");
    assert_eq!(swap.from_token, "usdc");
    assert_eq!(swap.to_token, "wnear");
    assert_eq!(swap.from_amount, 1000);
    assert_eq!(swap.to_amount, 950);
    assert_eq!(swap.hashlock, "hashlock123");
    assert_eq!(swap.secret, None);
    assert_eq!(swap.timelock, 7200);
    assert_eq!(swap.status, SwapStatus::Initiated);
    assert_eq!(swap.created_at, 100);
    assert_eq!(swap.expires_at, 100 + 7200 * NANOS);
    assert!(contract.get_swap(s("swap_2")).is_none());
}

#[test]
fn swap_status_is_updated_by_the_owner() {
    let mut contract = contract();
    let id = contract
        .create_cross_chain_swap(
            s("0xabc"),
            s("0xdef"),
            s("ethereum"),
            s("near"),
            s("usdc"),
            s("wnear"),
            1000,
            950,
            s("hashlock123"),
            7200,
            s("bob"),
            0,
        )
        .unwrap();
    assert_eq!(
        contract.update_swap_status(id.clone(), SwapStatus::EVMOrderFilled, s("bob")),
        Err(ContractError::Unauthorized)
    );
    assert_eq!(
        contract.update_swap_status(s("swap_9"), SwapStatus::EVMOrderFilled, s("alice")),
        Err(ContractError::NotFound)
    );
    assert_eq!(contract.get_swap(id.clone()).unwrap().status, SwapStatus::Initiated);
    for status in [
        SwapStatus::EVMOrderFilled,
        SwapStatus::NEAROrderFunded,
        SwapStatus::Completed,
    ] {
        assert_eq!(contract.update_swap_status(id.clone(), status, s("alice")), Ok(()));
        assert_eq!(contract.get_swap(id.clone()).unwrap().status, status);
    }
    assert_eq!(contract.get_swap(id).unwrap().hashlock, "hashlock123");
}

#[test]
fn swap_with_an_expiry_out_of_range_is_rejected() {
    let mut contract = contract();
    let result = contract.create_cross_chain_swap(
        s("0xabc"),
        s("0xdef"),
        s("ethereum"),
        s("near"),
        s("usdc"),
        s("wnear"),
        1000,
        950,
        s("hashlock123"),
        u64::MAX,
        s("bob"),
        0,
    );
    assert_eq!(result, Err(ContractError::Overflow));
}

#[test]
fn notified_transfer_hands_nothing_back() {
    let mut contract = contract();
    assert_eq!(contract.ft_on_transfer(s("bob"), 500, s("")), 0);
}
