//! What holds of every ledger, whatever calls were made on it: the
//! invariants of the state machine, and the proof that every call keeps
//! them.

use vstd::prelude::*;
use crate::identity::Pubkey;
use crate::model::{Call, Event, LedgerState, Order};
use crate::records::{OrderStatus, MAX_SYMBOL_LEN};

verus! {

/// The shares of `symbol` that `event` reports as purchased.
pub open spec fn shares_purchased_by(event: Event, symbol: Seq<char>) -> nat {
    match event {
        Event::BuyOrderFulfilled(settled) => if settled.stock_symbol@ == symbol {
            settled.shares_purchased as nat
        } else {
            0
        },
        _ => 0,
    }
}

/// The shares of `symbol` that `event` reports as sold.
pub open spec fn shares_sold_by(event: Event, symbol: Seq<char>) -> nat {
    match event {
        Event::SellOrderFulfilled(settled) => if settled.stock_symbol@ == symbol {
            settled.shares_sold as nat
        } else {
            0
        },
        _ => 0,
    }
}

/// The sum of the shares of `symbol` that the settlements in `events`
/// purchased.
pub open spec fn total_purchased(events: Seq<Event>, symbol: Seq<char>) -> nat
    decreases events.len(),
{
    if events.len() == 0 {
        0
    } else {
        total_purchased(events.drop_last(), symbol) + shares_purchased_by(events.last(), symbol)
    }
}

/// The sum of the shares of `symbol` that the settlements in `events` sold.
pub open spec fn total_sold(events: Seq<Event>, symbol: Seq<char>) -> nat
    decreases events.len(),
{
    if events.len() == 0 {
        0
    } else {
        total_sold(events.drop_last(), symbol) + shares_sold_by(events.last(), symbol)
    }
}

/// One more event adds what it purchased and what it sold to the sums.
pub proof fn lemma_totals_push(events: Seq<Event>, event: Event, symbol: Seq<char>)
    ensures
        total_purchased(events.push(event), symbol) == total_purchased(events, symbol)
            + shares_purchased_by(event, symbol),
        total_sold(events.push(event), symbol) == total_sold(events, symbol) + shares_sold_by(
            event,
            symbol,
        ),
{
    assert(events.push(event).drop_last() =~= events);
}

/// The status of an order of either kind.
pub open spec fn status_of(order: Order) -> OrderStatus {
    match order {
        Order::Buy(order) => order.status,
        Order::Sell(order) => order.status,
    }
}

/// The shares of `symbol` that `order` holds in escrow: what a pending sell
/// order of that symbol offers.
pub open spec fn pending_shares_of(order: Order, symbol: Seq<char>) -> nat {
    match order {
        Order::Sell(order) => if order.status == OrderStatus::Pending && order.stock_symbol@
            == symbol {
            order.shares_to_sell as nat
        } else {
            0
        },
        Order::Buy(_) => 0,
    }
}

/// The sum of the shares of `symbol` that the pending sell orders among
/// `orders` offer.
pub open spec fn pending_shares(orders: Seq<Order>, symbol: Seq<char>) -> nat
    decreases orders.len(),
{
    if orders.len() == 0 {
        0
    } else {
        pending_shares(orders.drop_last(), symbol) + pending_shares_of(orders.last(), symbol)
    }
}

/// One more order adds what it offers to the sum.
pub proof fn lemma_pending_push(orders: Seq<Order>, order: Order, symbol: Seq<char>)
    ensures
        pending_shares(orders.push(order), symbol) == pending_shares(orders, symbol)
            + pending_shares_of(order, symbol),
{
    assert(orders.push(order).drop_last() =~= orders);
}

/// An order that is replaced takes what it offered out of the sum and puts
/// in what its replacement offers.
pub proof fn lemma_pending_update(orders: Seq<Order>, i: int, order: Order, symbol: Seq<char>)
    requires
        0 <= i < orders.len(),
    ensures
        pending_shares(orders.update(i, order), symbol) == pending_shares(orders, symbol)
            - pending_shares_of(orders[i], symbol) + pending_shares_of(order, symbol),
        pending_shares(orders, symbol) >= pending_shares_of(orders[i], symbol),
    decreases orders.len(),
{
    if i == orders.len() - 1 {
        assert(orders.update(i, order).drop_last() =~= orders.drop_last());
    } else {
        lemma_pending_update(orders.drop_last(), i, order, symbol);
        assert(orders.update(i, order).drop_last() =~= orders.drop_last().update(i, order));
    }
}

/// The shares of `symbol` that `owner` holds according to `holdings`.
pub open spec fn held_in(
    holdings: Map<(Pubkey, Seq<char>), u64>,
    owner: Pubkey,
    symbol: Seq<char>,
) -> nat {
    if holdings.contains_key((owner, symbol)) {
        holdings[(owner, symbol)] as nat
    } else {
        0
    }
}

/// The sum of the shares of `symbol` that the identities in `owners` hold
/// according to `holdings`.
pub open spec fn held_by(
    holdings: Map<(Pubkey, Seq<char>), u64>,
    owners: Seq<Pubkey>,
    symbol: Seq<char>,
) -> nat
    decreases owners.len(),
{
    if owners.len() == 0 {
        0
    } else {
        held_by(holdings, owners.drop_last(), symbol) + held_in(holdings, owners.last(), symbol)
    }
}

/// What a change of one holding does to the sum over identities that are
/// each counted once.
pub proof fn lemma_held_after_change(
    holdings: Map<(Pubkey, Seq<char>), u64>,
    owner: Pubkey,
    symbol: Seq<char>,
    amount: u64,
    owners: Seq<Pubkey>,
    summed: Seq<char>,
)
    requires
        owners.no_duplicates(),
    ensures
        summed == symbol && owners.contains(owner) ==> held_by(
            holdings.insert((owner, symbol), amount),
            owners,
            summed,
        ) == held_by(holdings, owners, summed) - held_in(holdings, owner, symbol) + amount,
        !(summed == symbol && owners.contains(owner)) ==> held_by(
            holdings.insert((owner, symbol), amount),
            owners,
            summed,
        ) == held_by(holdings, owners, summed),
        owners.contains(owner) ==> held_by(holdings, owners, symbol) >= held_in(
            holdings,
            owner,
            symbol,
        ),
    decreases owners.len(),
{
    if owners.len() > 0 {
        let rest = owners.drop_last();
        assert forall|i: int, j: int| 0 <= i < rest.len() && 0 <= j < rest.len() && i
            != j implies rest[i] != rest[j] by {
            assert(rest[i] == owners[i] && rest[j] == owners[j]);
        }
        lemma_held_after_change(holdings, owner, symbol, amount, rest, summed);
        if rest.contains(owner) {
            let i = choose|i: int| 0 <= i < rest.len() && rest[i] == owner;
            assert(owners[i] == owner);
            assert(owners.last() != owner);
            assert(owners.contains(owner));
        } else if owners.last() == owner {
            assert(owners[owners.len() - 1] == owner);
            assert(owners.contains(owner));
        } else {
            assert forall|i: int| 0 <= i < owners.len() implies owners[i] != owner by {
                if i < rest.len() {
                    assert(rest[i] == owners[i]);
                }
            }
        }
    }
}

/// One more identity, not counted yet, adds what it holds to the sum.
proof fn lemma_held_with_one_more(
    holdings: Map<(Pubkey, Seq<char>), u64>,
    owners: Seq<Pubkey>,
    owner: Pubkey,
    symbol: Seq<char>,
)
    requires
        owners.no_duplicates(),
        !owners.contains(owner),
    ensures
        owners.push(owner).no_duplicates(),
        held_by(holdings, owners.push(owner), symbol) == held_by(holdings, owners, symbol)
            + held_in(holdings, owner, symbol),
{
    assert(owners.push(owner).drop_last() =~= owners);
    assert forall|i: int, j: int|
        0 <= i < owners.len() + 1 && 0 <= j < owners.len() + 1 && i != j implies owners.push(
        owner,
    )[i] != owners.push(owner)[j] by {
        if i < owners.len() && j < owners.len() {
            assert(owners[i] != owners[j]);
        } else if i < owners.len() {
            assert(owners[i] != owner);
        } else {
            assert(owners[j] != owner);
        }
    }
}

/// Where nobody holds anything, every sum is zero.
proof fn lemma_nothing_held(owners: Seq<Pubkey>, symbol: Seq<char>)
    ensures
        held_by(Map::empty(), owners, symbol) == 0,
    decreases owners.len(),
{
    if owners.len() > 0 {
        lemma_nothing_held(owners.drop_last(), symbol);
    }
}

impl LedgerState {
    /// Whether the order that a settlement event speaks of stands in the
    /// ledger as settled, with figures that account for what it escrowed.
    pub open spec fn accounted(self, event: Event) -> bool {
        match event {
            Event::BuyOrderFulfilled(settled) => {
                &&& self.has_buy_order(settled.order_id)
                &&& self.orders[settled.order_id as int]->Buy_0.status == OrderStatus::Fulfilled
                &&& settled.total_cost + settled.refund_amount
                    <= self.orders[settled.order_id as int]->Buy_0.sol_amount
            },
            Event::SellOrderFulfilled(settled) => {
                &&& self.has_sell_order(settled.order_id)
                &&& self.orders[settled.order_id as int]->Sell_0.status == OrderStatus::Fulfilled
                &&& settled.shares_sold + settled.shares_returned
                    == self.orders[settled.order_id as int]->Sell_0.shares_to_sell
            },
            _ => true,
        }
    }

    /// What holds of every ledger that calls have made of the empty one.
    ///
    /// The order counter is the number of orders, and each order stands under
    /// its own number. No order is cancelled, and the symbol of each sell
    /// order is registered. Each symbol's supply is what the
    /// settlements in the audit log purchased less what they sold. Each
    /// symbol's escrow holds what its pending sell orders offer. Each
    /// settlement in the audit log accounts for what its order escrowed.
    pub open spec fn consistent(self) -> bool {
        &&& self.total_orders() == self.orders.len()
        &&& forall|i: int|
            0 <= i < self.orders.len() ==> (#[trigger] self.orders[i]).id() == i && status_of(
                self.orders[i],
            ) != OrderStatus::Cancelled && (self.orders[i] is Sell ==> self.symbols.contains_key(
                self.orders[i]->Sell_0.stock_symbol@,
            ))
        &&& forall|symbol: Seq<char>| #[trigger]
            self.supply_of(symbol) == total_purchased(self.events, symbol) - total_sold(
                self.events,
                symbol,
            )
        &&& forall|symbol: Seq<char>| #[trigger]
            self.escrow_of(symbol) == pending_shares(self.orders, symbol)
        &&& forall|j: int| 0 <= j < self.events.len() ==> self.accounted(#[trigger] self.events[j])
    }
}

impl LedgerState {
    /// Whether every share that is held or escrowed is part of the supply:
    /// for each symbol, the supply is at least what is in escrow and what
    /// any identities, each counted once, hold together.
    pub open spec fn backed(self) -> bool {
        forall|owners: Seq<Pubkey>, symbol: Seq<char>|
            owners.no_duplicates() ==> self.supply_of(symbol) >= self.escrow_of(symbol)
                + #[trigger] held_by(self.holdings, owners, symbol)
    }
}

/// What `event` adds to the collateral in the vault, or takes out of it.
pub open spec fn vault_change(event: Event) -> int {
    match event {
        Event::BuyOrderPlaced(placed) => placed.sol_amount as int,
        Event::BuyOrderFulfilled(settled) => -(settled.refund_amount as int),
        Event::SellOrderFulfilled(settled) => if settled.shares_sold > 0 {
            -(settled.total_proceeds as int)
        } else {
            0
        },
        Event::VaultFundsDeposited(deposited) => deposited.amount as int,
        Event::VaultFundsWithdrawn(withdrawn) => -(withdrawn.amount as int),
        _ => 0,
    }
}

/// What `event` adds to the shares of `symbol` in escrow, or takes out.
pub open spec fn escrow_change(event: Event, symbol: Seq<char>) -> int {
    match event {
        Event::SellOrderPlaced(placed) => if placed.stock_symbol@ == symbol {
            placed.shares_to_sell as int
        } else {
            0
        },
        Event::SellOrderFulfilled(settled) => if settled.stock_symbol@ == symbol {
            -(settled.shares_sold + settled.shares_returned)
        } else {
            0
        },
        _ => 0,
    }
}

/// What `event` adds to the shares of `symbol` that `owner` holds, or takes
/// away.
pub open spec fn holding_change(event: Event, owner: Pubkey, symbol: Seq<char>) -> int {
    match event {
        Event::BuyOrderFulfilled(settled) => if settled.user == owner && settled.stock_symbol@
            == symbol {
            settled.shares_purchased as int
        } else {
            0
        },
        Event::SellOrderPlaced(placed) => if placed.user == owner && placed.stock_symbol@
            == symbol {
            -(placed.shares_to_sell as int)
        } else {
            0
        },
        Event::SellOrderFulfilled(settled) => if settled.user == owner && settled.stock_symbol@
            == symbol {
            settled.shares_returned as int
        } else {
            0
        },
        _ => 0,
    }
}

/// The collateral that the vault holds according to `events`.
pub open spec fn vault_by_log(events: Seq<Event>) -> int
    decreases events.len(),
{
    if events.len() == 0 {
        0
    } else {
        vault_by_log(events.drop_last()) + vault_change(events.last())
    }
}

/// The shares of `symbol` that are in escrow according to `events`.
pub open spec fn escrow_by_log(events: Seq<Event>, symbol: Seq<char>) -> int
    decreases events.len(),
{
    if events.len() == 0 {
        0
    } else {
        escrow_by_log(events.drop_last(), symbol) + escrow_change(events.last(), symbol)
    }
}

/// The shares of `symbol` that `owner` holds according to `events`.
pub open spec fn holding_by_log(events: Seq<Event>, owner: Pubkey, symbol: Seq<char>) -> int
    decreases events.len(),
{
    if events.len() == 0 {
        0
    } else {
        holding_by_log(events.drop_last(), owner, symbol) + holding_change(
            events.last(),
            owner,
            symbol,
        )
    }
}

/// One more event adds its changes to what the log accounts for.
pub proof fn lemma_log_push(events: Seq<Event>, event: Event, owner: Pubkey, symbol: Seq<char>)
    ensures
        vault_by_log(events.push(event)) == vault_by_log(events) + vault_change(event),
        escrow_by_log(events.push(event), symbol) == escrow_by_log(events, symbol) + escrow_change(
            event,
            symbol,
        ),
        holding_by_log(events.push(event), owner, symbol) == holding_by_log(
            events,
            owner,
            symbol,
        ) + holding_change(event, owner, symbol),
{
    assert(events.push(event).drop_last() =~= events);
}

impl LedgerState {
    /// Whether the audit log accounts for what the ledger keeps: the vault,
    /// each escrow and each holding are what the events say went in less
    /// what they say went out.
    pub open spec fn audited(self) -> bool {
        &&& self.vault.lamports == vault_by_log(self.events)
        &&& forall|symbol: Seq<char>| #[trigger]
            self.escrow_of(symbol) == escrow_by_log(self.events, symbol)
        &&& forall|owner: Pubkey, symbol: Seq<char>| #[trigger]
            self.shares_of(owner, symbol) == holding_by_log(self.events, owner, symbol)
    }
}

/// The empty ledger is audited.
pub proof fn lemma_empty_audited()
    ensures
        LedgerState::empty().audited(),
{
}

/// Whatever a call makes of an audited ledger is audited.
pub proof fn lemma_step_audited(state: LedgerState, call: Call)
    requires
        state.audited(),
    ensures
        state.after(call).audited(),
{
    let next = state.after(call);
    if state.step(call) is Ok && next.events != state.events {
        let event = next.events.last();
        assert(next.events =~= state.events.push(event));
        assert(next.vault.lamports == vault_by_log(next.events)) by {
            lemma_log_push(state.events, event, arbitrary(), arbitrary());
        }
        assert forall|symbol: Seq<char>| #[trigger]
            next.escrow_of(symbol) == escrow_by_log(next.events, symbol) by {
            lemma_log_push(state.events, event, arbitrary(), symbol);
            assert(state.escrow_of(symbol) == escrow_by_log(state.events, symbol));
        }
        assert forall|owner: Pubkey, symbol: Seq<char>| #[trigger]
            next.shares_of(owner, symbol) == holding_by_log(next.events, owner, symbol) by {
            lemma_log_push(state.events, event, owner, symbol);
            assert(state.shares_of(owner, symbol) == holding_by_log(
                state.events,
                owner,
                symbol,
            ));
        }
    } else {
        assert forall|symbol: Seq<char>| #[trigger]
            next.escrow_of(symbol) == escrow_by_log(next.events, symbol) by {
            assert(state.escrow_of(symbol) == escrow_by_log(state.events, symbol));
        }
        assert forall|owner: Pubkey, symbol: Seq<char>| #[trigger]
            next.shares_of(owner, symbol) == holding_by_log(next.events, owner, symbol) by {
            assert(state.shares_of(owner, symbol) == holding_by_log(
                state.events,
                owner,
                symbol,
            ));
        }
    }
}

impl LedgerState {
    /// Whether the records are within the limits that they were taken in
    /// under: each registry stands under its own symbol, no symbol of a
    /// registry or an order has more than ten characters, no order is for
    /// nothing, and an order that is pending records no settlement.
    pub open spec fn within_limits(self) -> bool {
        &&& forall|symbol: Seq<char>| #[trigger]
            self.symbols.contains_key(symbol) ==> self.symbols[symbol].info.stock_symbol@
                == symbol && symbol.len() <= MAX_SYMBOL_LEN
        &&& forall|i: int|
            0 <= i < self.orders.len() ==> match #[trigger] self.orders[i] {
                Order::Buy(order) => {
                    &&& order.stock_symbol@.len() <= MAX_SYMBOL_LEN
                    &&& order.sol_amount > 0
                    &&& order.status == OrderStatus::Pending ==> order.shares_received == 0
                        && order.actual_price_per_share == 0
                },
                Order::Sell(order) => {
                    &&& order.stock_symbol@.len() <= MAX_SYMBOL_LEN
                    &&& order.shares_to_sell > 0
                    &&& order.status == OrderStatus::Pending ==> order.sol_received == 0
                        && order.actual_price_per_share == 0
                },
            }
    }

    /// What holds of every ledger that calls have made of the empty one: it
    /// is consistent, backed and audited, and its records are within their
    /// limits.
    pub open spec fn sound(self) -> bool {
        self.consistent() && self.backed() && self.audited() && self.within_limits()
    }
}

/// The empty ledger is consistent.
pub proof fn lemma_empty_consistent()
    ensures
        LedgerState::empty().consistent(),
{
}

/// A call that leaves the orders and the supplies alone and adds at most an
/// event that is no settlement keeps the ledger consistent.
proof fn lemma_bookkeeping_consistent(before: LedgerState, next: LedgerState)
    requires
        before.consistent(),
        next.total_orders() == before.total_orders(),
        next.orders == before.orders,
        forall|symbol: Seq<char>| next.supply_of(symbol) == before.supply_of(symbol),
        forall|symbol: Seq<char>| next.escrow_of(symbol) == before.escrow_of(symbol),
        forall|symbol: Seq<char>|
            before.symbols.contains_key(symbol) ==> next.symbols.contains_key(symbol),
        next.events == before.events || (next.events.len() > 0 && next.events.drop_last()
            == before.events && !(next.events.last() is BuyOrderFulfilled) && !(
        next.events.last() is SellOrderFulfilled)),
    ensures
        next.consistent(),
{
    assert forall|symbol: Seq<char>| #[trigger]
        next.escrow_of(symbol) == pending_shares(next.orders, symbol) by {
        assert(before.escrow_of(symbol) == pending_shares(before.orders, symbol));
    }
    assert forall|symbol: Seq<char>| #[trigger]
        next.supply_of(symbol) == total_purchased(next.events, symbol) - total_sold(
            next.events,
            symbol,
        ) by {
        assert(before.supply_of(symbol) == total_purchased(before.events, symbol) - total_sold(
            before.events,
            symbol,
        ));
    }
    assert forall|j: int| 0 <= j < next.events.len() implies next.accounted(
        #[trigger] next.events[j],
    ) by {
        if j < before.events.len() {
            assert(next.events[j] == before.events[j]);
            assert(before.accounted(before.events[j]));
        }
    }
}

/// Placing an order keeps the ledger consistent.
proof fn lemma_placement_consistent(
    before: LedgerState,
    next: LedgerState,
    order: Order,
    event: Event,
)
    requires
        before.consistent(),
        before.total_orders() < u64::MAX,
        next.total_orders() == before.total_orders() + 1,
        next.orders == before.orders.push(order),
        order.id() == before.total_orders(),
        status_of(order) == OrderStatus::Pending,
        forall|symbol: Seq<char>| next.supply_of(symbol) == before.supply_of(symbol),
        forall|symbol: Seq<char>|
            next.escrow_of(symbol) == before.escrow_of(symbol) + pending_shares_of(order, symbol),
        forall|symbol: Seq<char>|
            before.symbols.contains_key(symbol) ==> next.symbols.contains_key(symbol),
        order is Sell ==> next.symbols.contains_key(order->Sell_0.stock_symbol@),
        next.events == before.events.push(event),
        event is BuyOrderPlaced || event is SellOrderPlaced,
    ensures
        next.consistent(),
{
    assert forall|symbol: Seq<char>| #[trigger]
        next.escrow_of(symbol) == pending_shares(next.orders, symbol) by {
        lemma_pending_push(before.orders, order, symbol);
        assert(before.escrow_of(symbol) == pending_shares(before.orders, symbol));
    }
    assert forall|symbol: Seq<char>| #[trigger]
        next.supply_of(symbol) == total_purchased(next.events, symbol) - total_sold(
            next.events,
            symbol,
        ) by {
        lemma_totals_push(before.events, event, symbol);
        assert(before.supply_of(symbol) == total_purchased(before.events, symbol) - total_sold(
            before.events,
            symbol,
        ));
    }
    assert forall|j: int| 0 <= j < next.events.len() implies next.accounted(
        #[trigger] next.events[j],
    ) by {
        if j < before.events.len() {
            assert(next.events[j] == before.events[j]);
            assert(before.accounted(before.events[j]));
        }
    }
}

/// Settling an order keeps the ledger consistent.
proof fn lemma_settlement_consistent(
    before: LedgerState,
    next: LedgerState,
    order_id: u64,
    settled: Order,
    event: Event,
    symbol: Seq<char>,
)
    requires
        before.consistent(),
        order_id < before.orders.len(),
        status_of(before.orders[order_id as int]) == OrderStatus::Pending,
        next.total_orders() == before.total_orders(),
        next.orders == before.orders.update(order_id as int, settled),
        settled.id() == order_id,
        status_of(settled) == OrderStatus::Fulfilled,
        before.orders[order_id as int] is Buy <==> settled is Buy,
        forall|other: Seq<char>|
            other != symbol ==> next.supply_of(other) == before.supply_of(other),
        next.supply_of(symbol) == before.supply_of(symbol) + shares_purchased_by(event, symbol)
            - shares_sold_by(event, symbol),
        forall|other: Seq<char>|
            other != symbol ==> shares_purchased_by(event, other) == 0 && shares_sold_by(
                event,
                other,
            ) == 0,
        forall|other: Seq<char>|
            next.escrow_of(other) == before.escrow_of(other) - pending_shares_of(
                before.orders[order_id as int],
                other,
            ),
        forall|other: Seq<char>|
            before.symbols.contains_key(other) ==> next.symbols.contains_key(other),
        settled is Sell ==> settled->Sell_0.stock_symbol
            == before.orders[order_id as int]->Sell_0.stock_symbol,
        next.events == before.events.push(event),
        next.accounted(event),
    ensures
        next.consistent(),
{
    assert forall|other: Seq<char>| #[trigger]
        next.escrow_of(other) == pending_shares(next.orders, other) by {
        lemma_pending_update(before.orders, order_id as int, settled, other);
        assert(before.escrow_of(other) == pending_shares(before.orders, other));
    }
    assert forall|other: Seq<char>| #[trigger]
        next.supply_of(other) == total_purchased(next.events, other) - total_sold(
            next.events,
            other,
        ) by {
        lemma_totals_push(before.events, event, other);
        assert(before.supply_of(other) == total_purchased(before.events, other) - total_sold(
            before.events,
            other,
        ));
    }
    assert forall|j: int| 0 <= j < next.events.len() implies next.accounted(
        #[trigger] next.events[j],
    ) by {
        if j < before.events.len() {
            assert(next.events[j] == before.events[j]);
            assert(before.accounted(before.events[j]));
        }
    }
    assert forall|i: int| 0 <= i < next.orders.len() implies (#[trigger] next.orders[i]).id() == i
        && status_of(next.orders[i]) != OrderStatus::Cancelled && (next.orders[i] is Sell
        ==> next.symbols.contains_key(next.orders[i]->Sell_0.stock_symbol@)) by {
        assert(before.orders[i].id() == i);
        if i != order_id {
            assert(next.orders[i] == before.orders[i]);
        }
    }
}

/// Whatever a call makes of a consistent ledger is consistent.
pub proof fn lemma_step_consistent(state: LedgerState, call: Call)
    requires
        state.consistent(),
    ensures
        state.after(call).consistent(),
{
    let next = state.after(call);
    if state.step(call) is Ok {
        match call {
            Call::InitializeTradingPool { .. } => {
                lemma_bookkeeping_consistent(state, next);
            },
            Call::CreateStockMint { stock_symbol, .. } => {
                assert(next.events.drop_last() =~= state.events);
                lemma_bookkeeping_consistent(state, next);
            },
            Call::PlaceBuyOrder { .. } => {
                lemma_placement_consistent(state, next, next.orders.last(), next.events.last());
            },
            Call::PlaceSellOrder { .. } => {
                lemma_placement_consistent(state, next, next.orders.last(), next.events.last());
            },
            Call::FulfillBuyOrder { caller, order_id, .. } => {
                let symbol = state.fulfill_buy_order_records(
                    caller,
                    order_id,
                ).buy_order.stock_symbol@;
                assert(state.orders[order_id as int].id() == order_id);
                lemma_settlement_consistent(
                    state,
                    next,
                    order_id,
                    next.orders[order_id as int],
                    next.events.last(),
                    symbol,
                );
            },
            Call::FulfillSellOrder { caller, order_id, .. } => {
                let symbol = state.fulfill_sell_order_records(
                    caller,
                    order_id,
                ).sell_order.stock_symbol@;
                assert(state.orders[order_id as int].id() == order_id);
                lemma_settlement_consistent(
                    state,
                    next,
                    order_id,
                    next.orders[order_id as int],
                    next.events.last(),
                    symbol,
                );
            },
            Call::WithdrawVaultFunds { .. } => {
                assert(next.events.drop_last() =~= state.events);
                lemma_bookkeeping_consistent(state, next);
            },
            Call::DepositVaultFunds { .. } => {
                assert(next.events.drop_last() =~= state.events);
                lemma_bookkeeping_consistent(state, next);
            },
            Call::UpdateAuthorities { .. } => {
                assert(next.events.drop_last() =~= state.events);
                lemma_bookkeeping_consistent(state, next);
            },
            Call::CreditWallet { .. } => {
                lemma_bookkeeping_consistent(state, next);
            },
        }
    }
}

/// Whatever a sequence of calls makes of a consistent ledger is consistent.
pub proof fn lemma_run_consistent(state: LedgerState, calls: Seq<Call>)
    requires
        state.consistent(),
    ensures
        state.run(calls).consistent(),
    decreases calls.len(),
{
    if calls.len() > 0 {
        lemma_run_consistent(state, calls.drop_last());
        lemma_step_consistent(state.run(calls.drop_last()), calls.last());
    }
}

/// The empty ledger is backed.
pub proof fn lemma_empty_backed()
    ensures
        LedgerState::empty().backed(),
{
    assert forall|owners: Seq<Pubkey>, symbol: Seq<char>| owners.no_duplicates() implies 0
        == #[trigger] held_by(LedgerState::empty().holdings, owners, symbol) by {
        lemma_nothing_held(owners, symbol);
    }
}

/// Whatever a call makes of a backed ledger is backed.
pub proof fn lemma_step_backed(state: LedgerState, call: Call)
    requires
        state.backed(),
    ensures
        state.after(call).backed(),
{
    let next = state.after(call);
    if state.step(call) is Ok {
        assert forall|owners: Seq<Pubkey>, symbol: Seq<char>|
            owners.no_duplicates() implies next.supply_of(symbol) >= next.escrow_of(symbol)
            + #[trigger] held_by(next.holdings, owners, symbol) by {
            assert(state.supply_of(symbol) >= state.escrow_of(symbol) + held_by(
                state.holdings,
                owners,
                symbol,
            ));
            match call {
                Call::FulfillBuyOrder { caller, order_id, .. } => {
                    let records = state.fulfill_buy_order_records(caller, order_id);
                    lemma_held_after_change(
                        state.holdings,
                        records.user.key,
                        records.buy_order.stock_symbol@,
                        next.holdings[(records.user.key, records.buy_order.stock_symbol@)],
                        owners,
                        symbol,
                    );
                },
                Call::FulfillSellOrder { caller, order_id, .. } => {
                    let records = state.fulfill_sell_order_records(caller, order_id);
                    lemma_held_after_change(
                        state.holdings,
                        records.user.key,
                        records.sell_order.stock_symbol@,
                        next.holdings[(records.user.key, records.sell_order.stock_symbol@)],
                        owners,
                        symbol,
                    );
                },
                Call::PlaceSellOrder { user, stock_symbol, .. } => {
                    lemma_held_after_change(
                        state.holdings,
                        user,
                        stock_symbol@,
                        next.holdings[(user, stock_symbol@)],
                        owners,
                        symbol,
                    );
                    if symbol == stock_symbol@ && !owners.contains(user) {
                        lemma_held_with_one_more(state.holdings, owners, user, symbol);
                        assert(state.supply_of(symbol) >= state.escrow_of(symbol) + held_by(
                            state.holdings,
                            owners.push(user),
                            symbol,
                        ));
                    }
                },
                _ => {},
            }
        }
    }
}

/// Whatever a sequence of calls makes of a backed ledger is backed.
pub proof fn lemma_run_backed(state: LedgerState, calls: Seq<Call>)
    requires
        state.backed(),
    ensures
        state.run(calls).backed(),
    decreases calls.len(),
{
    if calls.len() > 0 {
        lemma_run_backed(state, calls.drop_last());
        lemma_step_backed(state.run(calls.drop_last()), calls.last());
    }
}

/// Whatever a call makes of a ledger whose records are within their limits
/// has its records within their limits.
pub proof fn lemma_step_within_limits(state: LedgerState, call: Call)
    requires
        state.within_limits(),
    ensures
        state.after(call).within_limits(),
{
    let next = state.after(call);
    if state.step(call) is Ok {
        assert forall|i: int| 0 <= i < next.orders.len() implies match #[trigger] next.orders[i] {
            Order::Buy(order) => {
                &&& order.stock_symbol@.len() <= MAX_SYMBOL_LEN
                &&& order.sol_amount > 0
                &&& order.status == OrderStatus::Pending ==> order.shares_received == 0
                    && order.actual_price_per_share == 0
            },
            Order::Sell(order) => {
                &&& order.stock_symbol@.len() <= MAX_SYMBOL_LEN
                &&& order.shares_to_sell > 0
                &&& order.status == OrderStatus::Pending ==> order.sol_received == 0
                    && order.actual_price_per_share == 0
            },
        } by {
            if i < state.orders.len() {
                let before = state.orders[i];
                assert(match before {
                    Order::Buy(order) => order.stock_symbol@.len() <= MAX_SYMBOL_LEN
                        && order.sol_amount > 0,
                    Order::Sell(order) => order.stock_symbol@.len() <= MAX_SYMBOL_LEN
                        && order.shares_to_sell > 0,
                });
            }
        }
    }
}

/// The empty ledger is sound.
pub proof fn lemma_empty_sound()
    ensures
        LedgerState::empty().sound(),
{
    lemma_empty_consistent();
    lemma_empty_backed();
    lemma_empty_audited();
}

/// Whatever a call makes of a sound ledger is sound.
pub proof fn lemma_step_sound(state: LedgerState, call: Call)
    requires
        state.sound(),
    ensures
        state.after(call).sound(),
{
    lemma_step_consistent(state, call);
    lemma_step_backed(state, call);
    lemma_step_audited(state, call);
    lemma_step_within_limits(state, call);
}

/// Whatever a sequence of calls makes of a sound ledger is sound.
pub proof fn lemma_run_sound(state: LedgerState, calls: Seq<Call>)
    requires
        state.sound(),
    ensures
        state.run(calls).sound(),
    decreases calls.len(),
{
    if calls.len() > 0 {
        lemma_run_sound(state, calls.drop_last());
        lemma_step_sound(state.run(calls.drop_last()), calls.last());
    }
}

} // verus!
