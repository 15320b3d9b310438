//! The rules of the escrow contract over its ledger: the fee arithmetic,
//! the invariants, and for each operation what it answers and what it changes.

use crate::errors::ContractError;
use crate::escrow::records::{CrossChainSwap, EscrowOrder, OrderEntry, OrderStatus, Settlement};
use crate::ids::issued_below;
use crate::math::{bumped, lemma_part_bounds, part, part_of, raised};
use crate::registry::listed;
use vstd::prelude::*;

verus! {

/// Fee rates are in basis points: ten thousand make the whole.
pub const BASIS_POINTS: u32 = 10_000;

/// The highest fee rate the owner may set: 10%.
pub const MAX_FEE_RATE: u32 = 1_000;

/// Timelocks count seconds, timestamps nanoseconds.
pub const NANOS_PER_SECOND: u64 = 1_000_000_000;

/// The fee on a claimed amount: the rate's part of it, rounded down.
pub open spec fn fee_of(from_amount: u128, fee_rate: u32) -> int {
    part_of(from_amount, fee_rate, BASIS_POINTS)
}

/// What the taker receives: the amount less the fee.
pub open spec fn payout_of(from_amount: u128, fee_rate: u32) -> int {
    from_amount - fee_of(from_amount, fee_rate)
}

/// Fee and payout make up the amount exactly, and neither exceeds it.
pub proof fn lemma_fee_and_payout(from_amount: u128, fee_rate: u32)
    requires
        fee_rate <= BASIS_POINTS,
    ensures
        fee_of(from_amount, fee_rate) + payout_of(from_amount, fee_rate) == from_amount,
        0 <= fee_of(from_amount, fee_rate) <= from_amount,
        0 <= payout_of(from_amount, fee_rate) <= from_amount,
{
    lemma_part_bounds(from_amount, fee_rate, BASIS_POINTS);
}

/// Splits a claimed amount into the fee and the payout.
pub fn split_fee(from_amount: u128, fee_rate: u32) -> (parts: (u128, u128))
    requires
        fee_rate <= BASIS_POINTS,
    ensures
        parts.0 == fee_of(from_amount, fee_rate),
        parts.1 == payout_of(from_amount, fee_rate),
        parts.0 + parts.1 == from_amount,
{
    let fee = part(from_amount, fee_rate, BASIS_POINTS);
    (fee, from_amount - fee)
}

/// When an order created at `now` with the given timelock expires.
pub open spec fn expiry(now: u64, timelock: u64) -> int {
    now + timelock * NANOS_PER_SECOND
}

/// The status that an order shows at `now`: a pending order whose timelock
/// has run out shows as expired.
pub open spec fn status_at(order: EscrowOrder, now: u64) -> OrderStatus {
    if order.status == OrderStatus::Pending && now >= order.expires_at {
        OrderStatus::Expired
    } else {
        order.status
    }
}

/// An order expires its timelock after it was made, its secret is on record
/// exactly when it is claimed, and `Expired` is shown, never stored.
pub open spec fn order_wf(order: EscrowOrder) -> bool {
    &&& order.expires_at == expiry(order.created_at, order.timelock)
    &&& (order.secret is Some <==> order.status == OrderStatus::Claimed)
    &&& order.status != OrderStatus::Expired
}

/// The order is well formed, and a transfer in flight fits its status: a
/// deposit is in flight only for a pending order, a payout or a refund only
/// for a funded one, and a payout's fee is within the amount.
pub open spec fn order_entry_wf(entry: OrderEntry) -> bool {
    &&& order_wf(entry.order)
    &&& match entry.in_flight {
        None => true,
        Some(Settlement::Fund) => entry.order.status == OrderStatus::Pending,
        Some(Settlement::Claim { secret, fee }) => entry.order.status == OrderStatus::Funded && fee
            <= entry.order.from_amount,
        Some(Settlement::Refund) => entry.order.status == OrderStatus::Funded,
    }
}

/// The state of the escrow contract as contracts speak of it.
pub struct EscrowLedger {
    pub owner: String,
    /// In basis points.
    pub fee_rate: u32,
    pub min_timelock: u64,
    pub max_timelock: u64,
    /// By order id.
    pub orders: Map<Seq<char>, OrderEntry>,
    /// By swap id.
    pub swaps: Map<Seq<char>, CrossChainSwap>,
    /// For each maker, the ids of its orders.
    pub user_orders: Map<Seq<char>, Seq<Seq<char>>>,
    /// The tokens on the allow-list map to `true`.
    pub supported_tokens: Map<Seq<char>, bool>,
    pub total_swaps: u64,
    pub total_volume: u128,
    pub total_fees: u128,
    /// The counter that the next order id is drawn from.
    pub next_order: u64,
    /// The counter that the next swap id is drawn from.
    pub next_swap: u64,
}

impl EscrowLedger {
    /// Whether `token` is on the allow-list.
    pub open spec fn supports(self, token: Seq<char>) -> bool {
        self.supported_tokens.contains_key(token) && self.supported_tokens[token]
    }

    /// The fee rate is at most 10%, the timelock window is not empty, every
    /// id was drawn from its counter, every order is stored under its own
    /// id, fits its transfer in flight and is listed under its maker, and
    /// every id listed under a maker is that of one of its orders.
    pub open spec fn wf(self) -> bool {
        &&& self.fee_rate <= MAX_FEE_RATE
        &&& self.min_timelock < self.max_timelock
        &&& issued_below(self.orders.dom(), "order_"@, self.next_order as nat)
        &&& issued_below(self.swaps.dom(), "swap_"@, self.next_swap as nat)
        &&& forall|id: Seq<char>| #[trigger]
            self.orders.contains_key(id) ==> {
                &&& order_entry_wf(self.orders[id])
                &&& self.orders[id].order.id@ == id
                &&& listed(self.user_orders, self.orders[id].order.maker@).contains(id)
            }
        &&& forall|maker: Seq<char>, i: int|
            0 <= i < listed(self.user_orders, maker).len() ==> {
                let id = #[trigger] listed(self.user_orders, maker)[i];
                self.orders.contains_key(id) && self.orders[id].order.maker@ == maker
            }
    }
}

/// What an owner-only operation answers to `caller`.
pub open spec fn owner_check(ledger: EscrowLedger, caller: Seq<char>) -> Result<(), ContractError> {
    if caller == ledger.owner@ {
        Ok(())
    } else {
        Err(ContractError::Unauthorized)
    }
}

/// Whether `create_order` accepts its arguments, and the error if not.
pub open spec fn create_order_check(
    ledger: EscrowLedger,
    now: u64,
    from_token: Seq<char>,
    to_token: Seq<char>,
    timelock: u64,
) -> Result<(), ContractError> {
    if timelock < ledger.min_timelock || timelock > ledger.max_timelock {
        Err(ContractError::PreconditionFailed)
    } else if !ledger.supports(from_token) || !ledger.supports(to_token) {
        Err(ContractError::PreconditionFailed)
    } else if expiry(now, timelock) > u64::MAX || ledger.next_order == u64::MAX {
        Err(ContractError::Overflow)
    } else {
        Ok(())
    }
}

/// What `fund_order` answers at `now`: the order must exist, show as
/// pending with no transfer in flight, and the caller must be its maker.
pub open spec fn fund_check(
    ledger: EscrowLedger,
    order_id: Seq<char>,
    caller: Seq<char>,
    now: u64,
) -> Result<(), ContractError> {
    if !ledger.orders.contains_key(order_id) {
        Err(ContractError::NotFound)
    } else {
        let entry = ledger.orders[order_id];
        if status_at(entry.order, now) != OrderStatus::Pending || entry.in_flight is Some {
            Err(ContractError::InvalidState)
        } else if entry.order.maker@ != caller {
            Err(ContractError::Unauthorized)
        } else {
            Ok(())
        }
    }
}

/// What a claim answers: the order must exist and be funded with no
/// transfer in flight, the caller must be its taker, and the secret must
/// open the hashlock.
pub open spec fn claim_check(
    ledger: EscrowLedger,
    order_id: Seq<char>,
    caller: Seq<char>,
    opens: bool,
) -> Result<(), ContractError> {
    if !ledger.orders.contains_key(order_id) {
        Err(ContractError::NotFound)
    } else {
        let entry = ledger.orders[order_id];
        if entry.order.status != OrderStatus::Funded || entry.in_flight is Some {
            Err(ContractError::InvalidState)
        } else if entry.order.taker@ != caller {
            Err(ContractError::Unauthorized)
        } else if !opens {
            Err(ContractError::CryptoMismatch)
        } else {
            Ok(())
        }
    }
}

/// What `refund_order` answers at `now`: the order must exist and be funded
/// with no transfer in flight, the caller must be its maker, and the
/// timelock must have run out.
pub open spec fn refund_check(
    ledger: EscrowLedger,
    order_id: Seq<char>,
    caller: Seq<char>,
    now: u64,
) -> Result<(), ContractError> {
    if !ledger.orders.contains_key(order_id) {
        Err(ContractError::NotFound)
    } else {
        let entry = ledger.orders[order_id];
        if entry.order.status != OrderStatus::Funded || entry.in_flight is Some {
            Err(ContractError::InvalidState)
        } else if entry.order.maker@ != caller {
            Err(ContractError::Unauthorized)
        } else if now < entry.order.expires_at {
            Err(ContractError::TimelockViolation)
        } else {
            Ok(())
        }
    }
}

/// The step that `settle_order` settles, or the error it is rejected with.
pub open spec fn settle_check(ledger: EscrowLedger, order_id: Seq<char>) -> Result<
    Settlement,
    ContractError,
> {
    if !ledger.orders.contains_key(order_id) {
        Err(ContractError::NotFound)
    } else {
        match ledger.orders[order_id].in_flight {
            Some(step) => Ok(step),
            None => Err(ContractError::InvalidState),
        }
    }
}

/// The only change is that `step` is now in flight for the order.
pub open spec fn step_issued(
    before: EscrowLedger,
    after: EscrowLedger,
    order_id: Seq<char>,
    step: Settlement,
) -> bool {
    after == (EscrowLedger {
        orders: before.orders.insert(
            order_id,
            OrderEntry { in_flight: Some(step), ..before.orders[order_id] },
        ),
        ..before
    })
}

/// The only change is that nothing is in flight for the order any more.
pub open spec fn step_dropped(before: EscrowLedger, after: EscrowLedger, order_id: Seq<char>) -> bool {
    after == (EscrowLedger {
        orders: before.orders.insert(
            order_id,
            OrderEntry { in_flight: None, ..before.orders[order_id] },
        ),
        ..before
    })
}

/// The order once `step` is settled: funded after a deposit, claimed with
/// the secret on record after a payout, refunded after a refund.
pub open spec fn settled_order(order: EscrowOrder, step: Settlement) -> EscrowOrder {
    match step {
        Settlement::Fund => EscrowOrder { status: OrderStatus::Funded, ..order },
        Settlement::Claim { secret, fee } => EscrowOrder {
            status: OrderStatus::Claimed,
            secret: Some(secret),
            ..order
        },
        Settlement::Refund => EscrowOrder { status: OrderStatus::Refunded, ..order },
    }
}

/// What settling a confirmed step changes: the order takes its new status,
/// and a claim also counts towards the swap, volume and fee totals.
pub open spec fn step_settled(
    before: EscrowLedger,
    after: EscrowLedger,
    order_id: Seq<char>,
    step: Settlement,
) -> bool {
    let order = before.orders[order_id].order;
    let orders = before.orders.insert(
        order_id,
        OrderEntry { order: settled_order(order, step), in_flight: None },
    );
    match step {
        Settlement::Claim { secret, fee } => after == (EscrowLedger {
            orders,
            total_swaps: bumped(before.total_swaps),
            total_volume: raised(before.total_volume, order.from_amount),
            total_fees: raised(before.total_fees, fee),
            ..before
        }),
        _ => after == (EscrowLedger { orders, ..before }),
    }
}

/// Whether `create_cross_chain_swap` accepts its arguments, and the error
/// if not.
pub open spec fn create_swap_check(ledger: EscrowLedger, now: u64, timelock: u64) -> Result<
    (),
    ContractError,
> {
    if expiry(now, timelock) > u64::MAX || ledger.next_swap == u64::MAX {
        Err(ContractError::Overflow)
    } else {
        Ok(())
    }
}

/// What `update_swap_status` answers: only the owner may call it, and the
/// swap must exist.
pub open spec fn update_swap_check(
    ledger: EscrowLedger,
    swap_id: Seq<char>,
    caller: Seq<char>,
) -> Result<(), ContractError> {
    if caller != ledger.owner@ {
        Err(ContractError::Unauthorized)
    } else if !ledger.swaps.contains_key(swap_id) {
        Err(ContractError::NotFound)
    } else {
        Ok(())
    }
}

/// What the indicative quote pays for `from_amount`: 98% of it, rounded down.
pub open spec fn quoted_amount(from_amount: u128) -> int {
    part_of(from_amount, 98, 100)
}

/// A settled step moves an order one step along the protocol and never
/// back: a deposit from `Pending` to `Funded`, a payout from `Funded` to
/// `Claimed`, a refund from `Funded` to `Refunded`.
pub proof fn lemma_settlement_follows_the_protocol(entry: OrderEntry, step: Settlement)
    requires
        order_entry_wf(entry),
        entry.in_flight == Some(step),
    ensures
        ({
            let from = entry.order.status;
            let to = settled_order(entry.order, step).status;
            ||| from == OrderStatus::Pending && to == OrderStatus::Funded
            ||| from == OrderStatus::Funded && to == OrderStatus::Claimed
            ||| from == OrderStatus::Funded && to == OrderStatus::Refunded
        }),
        order_entry_wf(OrderEntry { order: settled_order(entry.order, step), in_flight: None }),
{
}

/// A claim with the right secret is accepted once: while its payout is in
/// flight, and after the order has become `Claimed`, the same claim is
/// rejected with `InvalidState`.
pub proof fn lemma_claim_is_accepted_once(
    before: EscrowLedger,
    issued: EscrowLedger,
    settled: EscrowLedger,
    order_id: Seq<char>,
    caller: Seq<char>,
    step: Settlement,
)
    requires
        claim_check(before, order_id, caller, true) is Ok,
        step is Claim,
        step_issued(before, issued, order_id, step),
        step_settled(issued, settled, order_id, step),
    ensures
        claim_check(issued, order_id, caller, true) == Err::<(), ContractError>(
            ContractError::InvalidState,
        ),
        settled.orders[order_id].order.status == OrderStatus::Claimed,
        claim_check(settled, order_id, caller, true) == Err::<(), ContractError>(
            ContractError::InvalidState,
        ),
{
}

/// A claim is accepted only with a secret that opens the hashlock: every
/// other secret is rejected.
pub proof fn lemma_claim_needs_the_secret(
    ledger: EscrowLedger,
    order_id: Seq<char>,
    caller: Seq<char>,
    opens: bool,
)
    ensures
        claim_check(ledger, order_id, caller, opens) is Ok ==> opens,
        claim_check(ledger, order_id, caller, true) is Ok && !opens ==> claim_check(
            ledger,
            order_id,
            caller,
            opens,
        ) == Err::<(), ContractError>(ContractError::CryptoMismatch),
{
}

/// A refund is never accepted before the order's timelock has run out.
pub proof fn lemma_refund_waits_for_expiry(
    ledger: EscrowLedger,
    order_id: Seq<char>,
    caller: Seq<char>,
    now: u64,
)
    requires
        refund_check(ledger, order_id, caller, now) is Ok,
    ensures
        now >= ledger.orders[order_id].order.expires_at,
{
}

/// Claim and refund exclude each other, and no step leaves a terminal
/// status: once an order of a well-formed ledger is `Claimed` or `Refunded`,
/// or shows as `Expired`, funding, claiming, refunding and settling it are
/// all rejected with `InvalidState`.
pub proof fn lemma_terminal_status_is_final(
    ledger: EscrowLedger,
    order_id: Seq<char>,
    caller: Seq<char>,
    opens: bool,
    now: u64,
)
    requires
        ledger.wf(),
        ledger.orders.contains_key(order_id),
        ({
            let status = status_at(ledger.orders[order_id].order, now);
            status == OrderStatus::Claimed || status == OrderStatus::Refunded || status
                == OrderStatus::Expired
        }),
    ensures
        fund_check(ledger, order_id, caller, now) == Err::<(), ContractError>(
            ContractError::InvalidState,
        ),
        claim_check(ledger, order_id, caller, opens) == Err::<(), ContractError>(
            ContractError::InvalidState,
        ),
        refund_check(ledger, order_id, caller, now) == Err::<(), ContractError>(
            ContractError::InvalidState,
        ),
        ledger.orders[order_id].order.status != OrderStatus::Pending ==> settle_check(
            ledger,
            order_id,
        ) == Err::<Settlement, ContractError>(ContractError::InvalidState),
{
    assert(order_entry_wf(ledger.orders[order_id]));
}

} // verus!
