//! The escrow contract and its operations.

use crate::errors::ContractError;
use crate::escrow::records::{
    CrossChainSwap,
    EscrowOrder,
    FusionQuote,
    OrderEntry,
    OrderStatus,
    Settlement,
    SwapRoute,
    SwapStatus,
};
use crate::escrow::rules::{
    claim_check,
    create_order_check,
    create_swap_check,
    expiry,
    fee_of,
    fund_check,
    order_entry_wf,
    owner_check,
    payout_of,
    quoted_amount,
    refund_check,
    settle_check,
    settled_order,
    split_fee,
    status_at,
    step_dropped,
    step_issued,
    step_settled,
    update_swap_check,
    EscrowLedger,
    MAX_FEE_RATE,
    NANOS_PER_SECOND,
};
use crate::hashing::{commitment_of, digest_matches, hex_text, sha256};
use crate::ids::{lemma_next_id_is_fresh, make_id, tagged_id};
use crate::math::part;
use crate::registry::{lemma_listed_grows, listed, texts, Index, Registry};
use crate::transfer::{Party, Transfer};
use vstd::prelude::*;

verus! {

/// The escrow contract: its orders and swaps, the index of orders by maker,
/// the token allow-list, the counters and the configuration.
pub struct FusionEscrow {
    owner: String,
    fee_rate: u32,
    min_timelock: u64,
    max_timelock: u64,
    orders: Registry<OrderEntry>,
    cross_chain_swaps: Registry<CrossChainSwap>,
    user_orders: Index,
    supported_tokens: Registry<bool>,
    total_swaps: u64,
    total_volume: u128,
    total_fees: u128,
    next_order: u64,
    next_swap: u64,
}

impl View for FusionEscrow {
    type V = EscrowLedger;

    closed spec fn view(&self) -> EscrowLedger {
        EscrowLedger {
            owner: self.owner,
            fee_rate: self.fee_rate,
            min_timelock: self.min_timelock,
            max_timelock: self.max_timelock,
            orders: self.orders@,
            swaps: self.cross_chain_swaps@,
            user_orders: self.user_orders@,
            supported_tokens: self.supported_tokens@,
            total_swaps: self.total_swaps,
            total_volume: self.total_volume,
            total_fees: self.total_fees,
            next_order: self.next_order,
            next_swap: self.next_swap,
        }
    }
}

impl FusionEscrow {
    /// The contract-wide invariant.
    pub closed spec fn wf(&self) -> bool {
        &&& self.orders.wf()
        &&& self.cross_chain_swaps.wf()
        &&& self.user_orders.wf()
        &&& self.supported_tokens.wf()
        &&& self@.wf()
    }

    /// A well-formed contract has a well-formed ledger.
    pub proof fn lemma_ledger_wf(&self)
        requires
            self.wf(),
        ensures
            self@.wf(),
    {
    }

    /// A contract without orders: a fee of 0.3%, timelocks between one hour
    /// and one day, no token on the allow-list.
    pub fn new(owner: String) -> (contract: Self)
        ensures
            contract.wf(),
            contract@ == (EscrowLedger {
                owner,
                fee_rate: 30,
                min_timelock: 3600,
                max_timelock: 86400,
                orders: Map::empty(),
                swaps: Map::empty(),
                user_orders: Map::empty(),
                supported_tokens: Map::empty(),
                total_swaps: 0,
                total_volume: 0,
                total_fees: 0,
                next_order: 0,
                next_swap: 0,
            }),
    {
        FusionEscrow {
            owner,
            fee_rate: 30,
            min_timelock: 3600,
            max_timelock: 86400,
            orders: Registry::new(),
            cross_chain_swaps: Registry::new(),
            user_orders: Index::new(),
            supported_tokens: Registry::new(),
            total_swaps: 0,
            total_volume: 0,
            total_fees: 0,
            next_order: 0,
            next_swap: 0,
        }
    }

    /// Whether `token` is on the allow-list.
    fn supports(&self, token: &String) -> (supported: bool)
        requires
            self.wf(),
        ensures
            supported == self@.supports(token@),
    {
        match self.supported_tokens.get(token) {
            Some(flag) => *flag,
            None => false,
        }
    }

    /// Opens an order by `caller` as maker, in status `Pending`, under a
    /// fresh id. The timelock must lie within the configured window and
    /// both tokens must be on the allow-list. The order expires `timelock`
    /// seconds after `now`.
    pub fn create_order(
        &mut self,
        taker: String,
        from_token: String,
        to_token: String,
        from_amount: u128,
        to_amount: u128,
        hashlock: String,
        timelock: u64,
        caller: String,
        now: u64,
    ) -> (result: Result<String, ContractError>)
        requires
            old(self).wf(),
        ensures
            final(self).wf(),
            match result {
                Ok(order_id) => {
                    let before = old(self)@;
                    let after = final(self)@;
                    &&& create_order_check(before, now, from_token@, to_token@, timelock) is Ok
                    &&& order_id@ == tagged_id("order_"@, before.next_order as nat)
                    &&& !before.orders.contains_key(order_id@)
                    &&& after.orders == before.orders.insert(order_id@, after.orders[order_id@])
                    &&& after.orders[order_id@].in_flight is None
                    &&& after.orders[order_id@].order == (EscrowOrder {
                        id: order_id,
                        maker: caller,
                        taker,
                        from_token,
                        to_token,
                        from_amount,
                        to_amount,
                        hashlock,
                        secret: None,
                        timelock,
                        status: OrderStatus::Pending,
                        created_at: now,
                        expires_at: expiry(now, timelock) as u64,
                    })
                    &&& after == (EscrowLedger {
                        orders: after.orders,
                        user_orders: before.user_orders.insert(
                            caller@,
                            listed(before.user_orders, caller@).push(order_id@),
                        ),
                        next_order: (before.next_order + 1) as u64,
                        ..before
                    })
                },
                Err(error) => {
                    &&& *final(self) == *old(self)
                    &&& create_order_check(old(self)@, now, from_token@, to_token@, timelock)
                        == Err::<(), ContractError>(error)
                },
            },
    {
        if timelock < self.min_timelock || timelock > self.max_timelock {
            return Err(ContractError::PreconditionFailed);
        }
        if !self.supports(&from_token) || !self.supports(&to_token) {
            return Err(ContractError::PreconditionFailed);
        }
        let expires_at = match timelock.checked_mul(NANOS_PER_SECOND) {
            Some(span) => match now.checked_add(span) {
                Some(at) => at,
                None => {
                    return Err(ContractError::Overflow);
                },
            },
            None => {
                return Err(ContractError::Overflow);
            },
        };
        if self.next_order == u64::MAX {
            return Err(ContractError::Overflow);
        }
        let order_id = make_id("order_", self.next_order);
        proof {
            lemma_next_id_is_fresh(old(self)@.orders.dom(), "order_"@, self.next_order as nat);
        }
        let order = EscrowOrder {
            id: order_id.clone(),
            maker: caller.clone(),
            taker,
            from_token,
            to_token,
            from_amount,
            to_amount,
            hashlock,
            secret: None,
            timelock,
            status: OrderStatus::Pending,
            created_at: now,
            expires_at,
        };
        let entry = OrderEntry { order, in_flight: None };
        self.orders.insert(order_id.clone(), entry);
        self.user_orders.add(caller, order_id.clone());
        self.next_order = self.next_order + 1;
        proof {
            let before = old(self)@;
            let after = self@;
            assert(after.orders =~= before.orders.insert(order_id@, entry));
            assert(after.orders.dom() =~= before.orders.dom().insert(order_id@));
            lemma_listed_grows(before.user_orders, caller@, order_id@);
            assert forall|id: Seq<char>| #[trigger] after.orders.contains_key(id) implies {
                &&& order_entry_wf(after.orders[id])
                &&& after.orders[id].order.id@ == id
                &&& listed(after.user_orders, after.orders[id].order.maker@).contains(id)
            } by {
                if id != order_id@ {
                    assert(before.orders.contains_key(id));
                }
            }
            assert forall|maker: Seq<char>, i: int|
                0 <= i < listed(after.user_orders, maker).len() implies {
                let id = #[trigger] listed(after.user_orders, maker)[i];
                after.orders.contains_key(id) && after.orders[id].order.maker@ == maker
            } by {
                let old_list = listed(before.user_orders, maker);
                if maker == caller@ && i == old_list.len() {
                } else {
                    let id = old_list[i];
                    assert(before.orders.contains_key(id));
                }
            }
        }
        Ok(order_id)
    }
    /// Stores `entry` under `order_id`, where the order's id and maker are
    /// those of the entry it replaces.
    fn store(&mut self, order_id: String, entry: OrderEntry, Ghost(before): Ghost<EscrowLedger>)
        requires
            old(self).orders.wf(),
            old(self).cross_chain_swaps.wf(),
            old(self).user_orders.wf(),
            old(self).supported_tokens.wf(),
            before.wf(),
            before.orders.contains_key(order_id@),
            old(self)@ == (EscrowLedger { orders: before.orders.remove(order_id@), ..before }),
            order_entry_wf(entry),
            entry.order.id == before.orders[order_id@].order.id,
            entry.order.maker == before.orders[order_id@].order.maker,
        ensures
            final(self).wf(),
            final(self)@ == (EscrowLedger { orders: before.orders.insert(order_id@, entry), ..before }),
    {
        self.orders.insert(order_id, entry);
        proof {
            let after = self@;
            assert(after.orders =~= before.orders.insert(order_id@, entry));
            assert(after.orders.dom() =~= before.orders.dom());
            assert forall|id: Seq<char>| #[trigger] after.orders.contains_key(id) implies {
                &&& order_entry_wf(after.orders[id])
                &&& after.orders[id].order.id@ == id
                &&& listed(after.user_orders, after.orders[id].order.maker@).contains(id)
            } by {
                assert(before.orders.contains_key(id));
            }
            assert forall|maker: Seq<char>, i: int|
                0 <= i < listed(after.user_orders, maker).len() implies {
                let id = #[trigger] listed(after.user_orders, maker)[i];
                after.orders.contains_key(id) && after.orders[id].order.maker@ == maker
            } by {
                let id = listed(before.user_orders, maker)[i];
                assert(before.orders.contains_key(id));
            }
        }
    }

    /// Puts `step` in flight for the order. Nothing else changes.
    fn issue(&mut self, order_id: String, step: Settlement)
        requires
            old(self).wf(),
            old(self)@.orders.contains_key(order_id@),
            order_entry_wf(
                OrderEntry { in_flight: Some(step), ..old(self)@.orders[order_id@] },
            ),
        ensures
            final(self).wf(),
            step_issued(old(self)@, final(self)@, order_id@, step),
    {
        let ghost before = self@;
        let mut entry = self.orders.remove(&order_id).unwrap();
        entry.in_flight = Some(step);
        self.store(order_id, entry, Ghost(before));
    }

    /// Asks for the transfer of the order's amount from its maker into
    /// escrow. The order becomes `Funded` when `settle_order` reports the
    /// transfer as done, and stays `Pending` if it failed. An order whose
    /// timelock has run out before it was funded can no longer be funded.
    pub fn fund_order(&mut self, order_id: String, caller: String, now: u64) -> (result: Result<
        Transfer,
        ContractError,
    >)
        requires
            old(self).wf(),
        ensures
            final(self).wf(),
            match (result, fund_check(old(self)@, order_id@, caller@, now)) {
                (Ok(transfer), Ok(_)) => {
                    let order = old(self)@.orders[order_id@].order;
                    &&& step_issued(old(self)@, final(self)@, order_id@, Settlement::Fund)
                    &&& transfer.token == order.from_token
                    &&& transfer.sender == Party::Account(order.maker)
                    &&& transfer.receiver == Party::Holder
                    &&& transfer.amount == order.from_amount
                    &&& transfer.memo@ == "Fund order "@ + order_id@
                },
                (Err(error), Err(expected)) => error == expected && *final(self) == *old(self),
                _ => false,
            },
    {
        let entry = match self.orders.get(&order_id) {
            Some(entry) => entry,
            None => {
                return Err(ContractError::NotFound);
            },
        };
        let pending = match entry.order.status {
            OrderStatus::Pending => now < entry.order.expires_at,
            _ => false,
        };
        if !pending || entry.in_flight.is_some() {
            return Err(ContractError::InvalidState);
        }
        if entry.order.maker != caller {
            return Err(ContractError::Unauthorized);
        }
        let transfer = Transfer {
            token: entry.order.from_token.clone(),
            sender: Party::Account(entry.order.maker.clone()),
            receiver: Party::Holder,
            amount: entry.order.from_amount,
            memo: String::from_str("Fund order ").concat(order_id.as_str()),
        };
        self.issue(order_id, Settlement::Fund);
        Ok(transfer)
    }

    /// The claim of a funded order by its taker, given the SHA-256 digest of
    /// the secret's bytes: the digest in lowercase hex must be the order's
    /// hashlock. Asks for the payout of the amount less the fee to the
    /// taker. The order becomes `Claimed`, with the secret on record, when
    /// `settle_order` reports the transfer as done. A claim is taken also
    /// after the timelock has run out, as long as no refund was asked for.
    pub fn claim_with_digest(
        &mut self,
        order_id: String,
        secret: String,
        digest: &[u8],
        caller: String,
    ) -> (result: Result<Transfer, ContractError>)
        requires
            old(self).wf(),
        ensures
            final(self).wf(),
            match (
                result,
                claim_check(
                    old(self)@,
                    order_id@,
                    caller@,
                    old(self)@.orders.contains_key(order_id@) && hex_text(digest@)
                        == old(self)@.orders[order_id@].order.hashlock@,
                ),
            ) {
                (Ok(transfer), Ok(_)) => {
                    let order = old(self)@.orders[order_id@].order;
                    let fee = fee_of(order.from_amount, old(self)@.fee_rate);
                    &&& step_issued(
                        old(self)@,
                        final(self)@,
                        order_id@,
                        Settlement::Claim { secret, fee: fee as u128 },
                    )
                    &&& transfer.token == order.from_token
                    &&& transfer.sender == Party::Holder
                    &&& transfer.receiver == Party::Account(order.taker)
                    &&& transfer.amount == payout_of(order.from_amount, old(self)@.fee_rate)
                    &&& transfer.amount + fee == order.from_amount
                    &&& transfer.memo@ == "Claim order "@ + order_id@
                },
                (Err(error), Err(expected)) => error == expected && *final(self) == *old(self),
                _ => false,
            },
    {
        let entry = match self.orders.get(&order_id) {
            Some(entry) => entry,
            None => {
                return Err(ContractError::NotFound);
            },
        };
        let funded = match entry.order.status {
            OrderStatus::Funded => true,
            _ => false,
        };
        if !funded || entry.in_flight.is_some() {
            return Err(ContractError::InvalidState);
        }
        if entry.order.taker != caller {
            return Err(ContractError::Unauthorized);
        }
        if !digest_matches(digest, &entry.order.hashlock) {
            return Err(ContractError::CryptoMismatch);
        }
        let (fee, payout) = split_fee(entry.order.from_amount, self.fee_rate);
        let transfer = Transfer {
            token: entry.order.from_token.clone(),
            sender: Party::Holder,
            receiver: Party::Account(entry.order.taker.clone()),
            amount: payout,
            memo: String::from_str("Claim order ").concat(order_id.as_str()),
        };
        self.issue(order_id, Settlement::Claim { secret, fee });
        Ok(transfer)
    }

    /// The claim of a funded order by its taker with the secret: the SHA-256
    /// digest of the secret's UTF-8 bytes, in lowercase hex, must be the
    /// order's hashlock. See `claim_with_digest` for what follows.
    pub fn claim_order(&mut self, order_id: String, secret: String, caller: String) -> (result:
        Result<Transfer, ContractError>)
        requires
            old(self).wf(),
        ensures
            final(self).wf(),
            match (
                result,
                claim_check(
                    old(self)@,
                    order_id@,
                    caller@,
                    old(self)@.orders.contains_key(order_id@) && commitment_of(secret@)
                        == old(self)@.orders[order_id@].order.hashlock@,
                ),
            ) {
                (Ok(transfer), Ok(_)) => {
                    let order = old(self)@.orders[order_id@].order;
                    let fee = fee_of(order.from_amount, old(self)@.fee_rate);
                    &&& step_issued(
                        old(self)@,
                        final(self)@,
                        order_id@,
                        Settlement::Claim { secret, fee: fee as u128 },
                    )
                    &&& transfer.token == order.from_token
                    &&& transfer.sender == Party::Holder
                    &&& transfer.receiver == Party::Account(order.taker)
                    &&& transfer.amount == payout_of(order.from_amount, old(self)@.fee_rate)
                    &&& transfer.amount + fee == order.from_amount
                    &&& transfer.memo@ == "Claim order "@ + order_id@
                },
                (Err(error), Err(expected)) => error == expected && *final(self) == *old(self),
                _ => false,
            },
    {
        let digest = sha256(secret.as_str().as_bytes());
        self.claim_with_digest(order_id, secret, digest.as_slice(), caller)
    }

    /// Asks for the return of a funded order's full amount to its maker,
    /// once the timelock has run out. The order becomes `Refunded` when
    /// `settle_order` reports the transfer as done.
    pub fn refund_order(&mut self, order_id: String, caller: String, now: u64) -> (result: Result<
        Transfer,
        ContractError,
    >)
        requires
            old(self).wf(),
        ensures
            final(self).wf(),
            match (result, refund_check(old(self)@, order_id@, caller@, now)) {
                (Ok(transfer), Ok(_)) => {
                    let order = old(self)@.orders[order_id@].order;
                    &&& now >= order.expires_at
                    &&& step_issued(old(self)@, final(self)@, order_id@, Settlement::Refund)
                    &&& transfer.token == order.from_token
                    &&& transfer.sender == Party::Holder
                    &&& transfer.receiver == Party::Account(order.maker)
                    &&& transfer.amount == order.from_amount
                    &&& transfer.memo@ == "Refund order "@ + order_id@
                },
                (Err(error), Err(expected)) => error == expected && *final(self) == *old(self),
                _ => false,
            },
    {
        let entry = match self.orders.get(&order_id) {
            Some(entry) => entry,
            None => {
                return Err(ContractError::NotFound);
            },
        };
        let funded = match entry.order.status {
            OrderStatus::Funded => true,
            _ => false,
        };
        if !funded || entry.in_flight.is_some() {
            return Err(ContractError::InvalidState);
        }
        if entry.order.maker != caller {
            return Err(ContractError::Unauthorized);
        }
        if now < entry.order.expires_at {
            return Err(ContractError::TimelockViolation);
        }
        let transfer = Transfer {
            token: entry.order.from_token.clone(),
            sender: Party::Holder,
            receiver: Party::Account(entry.order.maker.clone()),
            amount: entry.order.from_amount,
            memo: String::from_str("Refund order ").concat(order_id.as_str()),
        };
        self.issue(order_id, Settlement::Refund);
        Ok(transfer)
    }

    /// Settles the step in flight for the order once the asset ledger has
    /// reported on its transfer. A transfer that succeeded moves the order
    /// to its new status, which is returned; a claim also counts towards
    /// the totals. A transfer that failed is dropped, which leaves the order
    /// as it was before the step was asked for, and is answered with
    /// `TransferFailed`.
    pub fn settle_order(&mut self, order_id: String, success: bool) -> (result: Result<
        OrderStatus,
        ContractError,
    >)
        requires
            old(self).wf(),
        ensures
            final(self).wf(),
            match settle_check(old(self)@, order_id@) {
                Err(error) => result == Err::<OrderStatus, ContractError>(error) && *final(self)
                    == *old(self),
                Ok(step) => if !success {
                    &&& result == Err::<OrderStatus, ContractError>(
                        ContractError::TransferFailed,
                    )
                    &&& step_dropped(old(self)@, final(self)@, order_id@)
                } else {
                    &&& result == Ok::<OrderStatus, ContractError>(
                        settled_order(old(self)@.orders[order_id@].order, step).status,
                    )
                    &&& step_settled(old(self)@, final(self)@, order_id@, step)
                },
            },
    {
        match self.orders.get(&order_id) {
            Some(entry) => {
                if entry.in_flight.is_none() {
                    return Err(ContractError::InvalidState);
                }
            },
            None => {
                return Err(ContractError::NotFound);
            },
        }
        let ghost before = self@;
        let OrderEntry { order, in_flight } = self.orders.remove(&order_id).unwrap();
        let step = in_flight.unwrap();
        if !success {
            self.store(order_id, OrderEntry { order, in_flight: None }, Ghost(before));
            return Err(ContractError::TransferFailed);
        }
        let mut order = order;
        let status = match step {
            Settlement::Fund => OrderStatus::Funded,
            Settlement::Claim { secret, fee } => {
                order.secret = Some(secret);
                self.total_swaps = self.total_swaps.saturating_add(1);
                self.total_volume = self.total_volume.saturating_add(order.from_amount);
                self.total_fees = self.total_fees.saturating_add(fee);
                OrderStatus::Claimed
            },
            Settlement::Refund => OrderStatus::Refunded,
        };
        order.status = status;
        let ghost staged = EscrowLedger {
            total_swaps: self@.total_swaps,
            total_volume: self@.total_volume,
            total_fees: self@.total_fees,
            ..before
        };
        self.store(order_id, OrderEntry { order, in_flight: None }, Ghost(staged));
        Ok(status)
    }
    /// Opens the record of a swap across two ledgers for `caller`, in status
    /// `Initiated`, under a fresh id. The swap expires `timelock` seconds
    /// after `now`.
    pub fn create_cross_chain_swap(
        &mut self,
        evm_order_hash: String,
        evm_address: String,
        from_chain: String,
        to_chain: String,
        from_token: String,
        to_token: String,
        from_amount: u128,
        to_amount: u128,
        hashlock: String,
        timelock: u64,
        caller: String,
        now: u64,
    ) -> (result: Result<String, ContractError>)
        requires
            old(self).wf(),
        ensures
            final(self).wf(),
            match result {
                Ok(swap_id) => {
                    let before = old(self)@;
                    let after = final(self)@;
                    let swap = after.swaps[swap_id@];
                    &&& create_swap_check(before, now, timelock) is Ok
                    &&& swap_id@ == tagged_id("swap_"@, before.next_swap as nat)
                    &&& !before.swaps.contains_key(swap_id@)
                    &&& after == (EscrowLedger {
                        swaps: before.swaps.insert(swap_id@, swap),
                        next_swap: (before.next_swap + 1) as u64,
                        ..before
                    })
                    &&& swap.evm_order_hash == evm_order_hash
                    &&& swap.near_order_id@ == Seq::<char>::empty()
                    &&& swap.evm_address == evm_address
                    &&& swap.near_account == caller
                    &&& swap.from_chain == from_chain
                    &&& swap.to_chain == to_chain
                    &&& swap.from_token == from_token
                    &&& swap.to_token == to_token
                    &&& swap.from_amount == from_amount
                    &&& swap.to_amount == to_amount
                    &&& swap.hashlock == hashlock
                    &&& swap.secret is None
                    &&& swap.timelock == timelock
                    &&& swap.status == SwapStatus::Initiated
                    &&& swap.created_at == now
                    &&& swap.expires_at == expiry(now, timelock)
                },
                Err(error) => {
                    &&& *final(self) == *old(self)
                    &&& create_swap_check(old(self)@, now, timelock) == Err::<(), ContractError>(
                        error,
                    )
                },
            },
    {
        let expires_at = match timelock.checked_mul(NANOS_PER_SECOND) {
            Some(span) => match now.checked_add(span) {
                Some(at) => at,
                None => {
                    return Err(ContractError::Overflow);
                },
            },
            None => {
                return Err(ContractError::Overflow);
            },
        };
        if self.next_swap == u64::MAX {
            return Err(ContractError::Overflow);
        }
        let swap_id = make_id("swap_", self.next_swap);
        proof {
            lemma_next_id_is_fresh(old(self)@.swaps.dom(), "swap_"@, self.next_swap as nat);
        }
        let swap = CrossChainSwap {
            evm_order_hash,
            near_order_id: String::new(),
            evm_address,
            near_account: caller,
            from_chain,
            to_chain,
            from_token,
            to_token,
            from_amount,
            to_amount,
            hashlock,
            secret: None,
            timelock,
            status: SwapStatus::Initiated,
            created_at: now,
            expires_at,
        };
        self.cross_chain_swaps.insert(swap_id.clone(), swap);
        self.next_swap = self.next_swap + 1;
        proof {
            assert(self@.swaps.dom() =~= old(self)@.swaps.dom().insert(swap_id@));
        }
        Ok(swap_id)
    }

    /// Records the progress of a swap as the owner, who relays what happened
    /// on the other ledger, reports it.
    pub fn update_swap_status(&mut self, swap_id: String, status: SwapStatus, caller: String) -> (result:
        Result<(), ContractError>)
        requires
            old(self).wf(),
        ensures
            final(self).wf(),
            result == update_swap_check(old(self)@, swap_id@, caller@),
            match result {
                Ok(_) => final(self)@ == (EscrowLedger {
                    swaps: old(self)@.swaps.insert(
                        swap_id@,
                        CrossChainSwap { status, ..old(self)@.swaps[swap_id@] },
                    ),
                    ..old(self)@
                }),
                Err(_) => *final(self) == *old(self),
            },
    {
        if caller != self.owner {
            return Err(ContractError::Unauthorized);
        }
        if !self.cross_chain_swaps.contains_key(&swap_id) {
            return Err(ContractError::NotFound);
        }
        let mut swap = self.cross_chain_swaps.remove(&swap_id).unwrap();
        swap.status = status;
        self.cross_chain_swaps.insert(swap_id, swap);
        proof {
            assert(self@.swaps =~= old(self)@.swaps.insert(
                swap_id@,
                CrossChainSwap { status, ..old(self)@.swaps[swap_id@] },
            ));
            assert(self@.swaps.dom() =~= old(self)@.swaps.dom());
        }
        Ok(())
    }

    /// An indicative quote over one hop: 98% of the amount, rounded down.
    pub fn get_quote(&self, from_token: String, to_token: String, from_amount: u128) -> (quote:
        FusionQuote)
        ensures
            quote.from_token == from_token,
            quote.to_token == to_token,
            quote.from_amount == from_amount,
            quote.to_amount == quoted_amount(from_amount),
            quote.price@ == "1.0"@,
            quote.gas_estimate == 30_000_000_000_000,
            quote.protocols@.len() == 1,
            quote.protocols@[0]@ == "ref-finance"@,
            quote.route@.len() == 1,
            quote.route@[0].protocol@ == "ref-finance"@,
            quote.route@[0].from_token == from_token,
            quote.route@[0].to_token == to_token,
            quote.route@[0].amount == from_amount,
            quote.route@[0].fee@ == "0.003"@,
            quote.route@[0].pool_id matches Some(id) && id@ == "1"@,
    {
        let to_amount = part(from_amount, 98, 100);
        let hop = SwapRoute {
            protocol: String::from_str("ref-finance"),
            from_token: from_token.clone(),
            to_token: to_token.clone(),
            amount: from_amount,
            fee: String::from_str("0.003"),
            pool_id: Some(String::from_str("1")),
        };
        let mut protocols: Vec<String> = Vec::new();
        protocols.push(String::from_str("ref-finance"));
        let mut route: Vec<SwapRoute> = Vec::new();
        route.push(hop);
        FusionQuote {
            from_token,
            to_token,
            from_amount,
            to_amount,
            price: String::from_str("1.0"),
            gas_estimate: 30_000_000_000_000,
            protocols,
            route,
        }
    }

    /// The order stored under `order_id`, with its stored status.
    pub fn get_order(&self, order_id: String) -> (order: Option<EscrowOrder>)
        requires
            self.wf(),
        ensures
            order == if self@.orders.contains_key(order_id@) {
                Some(self@.orders[order_id@].order)
            } else {
                None
            },
    {
        match self.orders.get(&order_id) {
            Some(entry) => Some(entry.order.clone()),
            None => None,
        }
    }

    /// The status that the order shows at `now`: a pending order whose
    /// timelock has run out shows as `Expired`.
    pub fn order_status(&self, order_id: String, now: u64) -> (status: Option<OrderStatus>)
        requires
            self.wf(),
        ensures
            status == if self@.orders.contains_key(order_id@) {
                Some(status_at(self@.orders[order_id@].order, now))
            } else {
                None
            },
    {
        match self.orders.get(&order_id) {
            Some(entry) => match entry.order.status {
                OrderStatus::Pending => if now >= entry.order.expires_at {
                    Some(OrderStatus::Expired)
                } else {
                    Some(OrderStatus::Pending)
                },
                status => Some(status),
            },
            None => None,
        }
    }

    /// Whether a transfer is in flight for the order.
    pub fn has_transfer_in_flight(&self, order_id: String) -> (busy: bool)
        requires
            self.wf(),
        ensures
            busy == (self@.orders.contains_key(order_id@)
                && self@.orders[order_id@].in_flight is Some),
    {
        match self.orders.get(&order_id) {
            Some(entry) => entry.in_flight.is_some(),
            None => false,
        }
    }

    /// The swap stored under `swap_id`.
    pub fn get_swap(&self, swap_id: String) -> (swap: Option<CrossChainSwap>)
        requires
            self.wf(),
        ensures
            swap == if self@.swaps.contains_key(swap_id@) {
                Some(self@.swaps[swap_id@])
            } else {
                None
            },
    {
        match self.cross_chain_swaps.get(&swap_id) {
            Some(swap) => Some(swap.clone()),
            None => None,
        }
    }

    /// The ids of the orders that `account_id` made, oldest first.
    pub fn get_user_orders(&self, account_id: String) -> (ids: Vec<String>)
        requires
            self.wf(),
        ensures
            texts(ids@) == listed(self@.user_orders, account_id@),
    {
        self.user_orders.list(&account_id)
    }

    /// The totals over all claimed orders: their number, volume and fees.
    pub fn get_statistics(&self) -> (totals: (u64, u128, u128))
        ensures
            totals == (self@.total_swaps, self@.total_volume, self@.total_fees),
    {
        (self.total_swaps, self.total_volume, self.total_fees)
    }

    /// The fee rate in basis points and the timelock window in seconds.
    pub fn get_config(&self) -> (config: (u32, u64, u64))
        ensures
            config == (self@.fee_rate, self@.min_timelock, self@.max_timelock),
    {
        (self.fee_rate, self.min_timelock, self.max_timelock)
    }

    /// Whether `token` is on the allow-list.
    pub fn is_supported_token(&self, token: String) -> (supported: bool)
        requires
            self.wf(),
        ensures
            supported == self@.supports(token@),
    {
        self.supports(&token)
    }

    /// Puts `token` on the allow-list. Only the owner may do so.
    pub fn add_supported_token(&mut self, token: String, caller: String) -> (result: Result<
        (),
        ContractError,
    >)
        requires
            old(self).wf(),
        ensures
            final(self).wf(),
            result == owner_check(old(self)@, caller@),
            match result {
                Ok(_) => final(self)@ == (EscrowLedger {
                    supported_tokens: old(self)@.supported_tokens.insert(token@, true),
                    ..old(self)@
                }),
                Err(_) => *final(self) == *old(self),
            },
    {
        if caller != self.owner {
            return Err(ContractError::Unauthorized);
        }
        self.supported_tokens.insert(token, true);
        Ok(())
    }

    /// Takes `token` off the allow-list. Only the owner may do so.
    pub fn remove_supported_token(&mut self, token: String, caller: String) -> (result: Result<
        (),
        ContractError,
    >)
        requires
            old(self).wf(),
        ensures
            final(self).wf(),
            result == owner_check(old(self)@, caller@),
            match result {
                Ok(_) => final(self)@ == (EscrowLedger {
                    supported_tokens: old(self)@.supported_tokens.remove(token@),
                    ..old(self)@
                }),
                Err(_) => *final(self) == *old(self),
            },
    {
        if caller != self.owner {
            return Err(ContractError::Unauthorized);
        }
        self.supported_tokens.remove(&token);
        Ok(())
    }

    /// Sets the fee rate, in basis points and at most 10%. Only the owner
    /// may do so.
    pub fn set_fee_rate(&mut self, fee_rate: u32, caller: String) -> (result: Result<
        (),
        ContractError,
    >)
        requires
            old(self).wf(),
        ensures
            final(self).wf(),
            result == if caller@ != old(self)@.owner@ {
                Err::<(), ContractError>(ContractError::Unauthorized)
            } else if fee_rate > MAX_FEE_RATE {
                Err(ContractError::PreconditionFailed)
            } else {
                Ok(())
            },
            match result {
                Ok(_) => final(self)@ == (EscrowLedger { fee_rate, ..old(self)@ }),
                Err(_) => *final(self) == *old(self),
            },
    {
        if caller != self.owner {
            return Err(ContractError::Unauthorized);
        }
        if fee_rate > MAX_FEE_RATE {
            return Err(ContractError::PreconditionFailed);
        }
        self.fee_rate = fee_rate;
        Ok(())
    }

    /// Sets the window that an order's timelock must lie in; the lower end
    /// must be below the upper. Only the owner may do so.
    pub fn set_timelock_limits(&mut self, min_timelock: u64, max_timelock: u64, caller: String) -> (result:
        Result<(), ContractError>)
        requires
            old(self).wf(),
        ensures
            final(self).wf(),
            result == if caller@ != old(self)@.owner@ {
                Err::<(), ContractError>(ContractError::Unauthorized)
            } else if min_timelock >= max_timelock {
                Err(ContractError::PreconditionFailed)
            } else {
                Ok(())
            },
            match result {
                Ok(_) => final(self)@ == (EscrowLedger {
                    min_timelock,
                    max_timelock,
                    ..old(self)@
                }),
                Err(_) => *final(self) == *old(self),
            },
    {
        if caller != self.owner {
            return Err(ContractError::Unauthorized);
        }
        if min_timelock >= max_timelock {
            return Err(ContractError::PreconditionFailed);
        }
        self.min_timelock = min_timelock;
        self.max_timelock = max_timelock;
        Ok(())
    }

    /// Answers a token contract that notifies of a transfer to this one:
    /// none of the amount is handed back.
    pub fn ft_on_transfer(&mut self, sender_id: String, amount: u128, msg: String) -> (unused: u128)
        ensures
            unused == 0,
            *final(self) == *old(self),
    {
        0
    }
}

} // verus!
