//! The laws of the ledger: what its operations guarantee to users, to the
//! authorities and to an auditor, stated over the state machine and proved.

use vstd::prelude::*;
use crate::error::StockTradingError;
use crate::identity::Pubkey;
use crate::invariants::{
    escrow_by_log, held_by, held_in, holding_by_log, lemma_empty_consistent, lemma_empty_sound,
    lemma_pending_update, lemma_run_consistent, lemma_run_sound, pending_shares, status_of,
    total_purchased, total_sold, vault_by_log,
};
use crate::model::{Call, LedgerError, LedgerState, Order};
use crate::records::OrderStatus;

verus! {

/// Whether `call` places an order.
pub open spec fn places_order(call: Call) -> bool {
    call is PlaceBuyOrder || call is PlaceSellOrder
}

/// How many of `calls`, made one after the other from `state` on, placed an
/// order.
pub open spec fn orders_placed(state: LedgerState, calls: Seq<Call>) -> nat
    decreases calls.len(),
{
    if calls.len() == 0 {
        0
    } else {
        let before = state.run(calls.drop_last());
        let placed: nat = if places_order(calls.last()) && before.step(calls.last()) is Ok {
            1
        } else {
            0
        };
        orders_placed(state, calls.drop_last()) + placed
    }
}

/// A call that places an order advances the order counter by one; any other
/// call, and any call that is refused, leaves the counter as it was.
pub proof fn lemma_counter_after(state: LedgerState, call: Call)
    ensures
        places_order(call) && state.step(call) is Ok ==> state.after(call).total_orders()
            == state.total_orders() + 1,
        !(places_order(call) && state.step(call) is Ok) ==> state.after(call).total_orders()
            == state.total_orders(),
{
}

/// Over any sequence of calls the order counter never decreases: it grows
/// by the number of orders that the calls placed.
pub proof fn lemma_counter_run(state: LedgerState, calls: Seq<Call>)
    ensures
        state.run(calls).total_orders() == state.total_orders() + orders_placed(state, calls),
        state.run(calls).total_orders() >= state.total_orders(),
    decreases calls.len(),
{
    if calls.len() > 0 {
        lemma_counter_run(state, calls.drop_last());
        lemma_counter_after(state.run(calls.drop_last()), calls.last());
    }
}

/// After any sequence of calls on a new ledger, the supply of each symbol
/// is the sum of the shares that the settlements in the audit log purchased
/// less the sum of those that they sold.
pub proof fn lemma_supply_is_net_of_settlements(calls: Seq<Call>, symbol: Seq<char>)
    ensures
        LedgerState::empty().run(calls).supply_of(symbol) == total_purchased(
            LedgerState::empty().run(calls).events,
            symbol,
        ) - total_sold(LedgerState::empty().run(calls).events, symbol),
{
    lemma_empty_consistent();
    lemma_run_consistent(LedgerState::empty(), calls);
}

/// After any sequence of calls on a new ledger, the audit log accounts for
/// what the ledger keeps: the vault holds the collateral that the events say
/// went in less what they say went out, and so do each escrow and each
/// holding for shares.
pub proof fn lemma_log_accounts_for_balances(calls: Seq<Call>, owner: Pubkey, symbol: Seq<char>)
    ensures
        LedgerState::empty().run(calls).vault.lamports == vault_by_log(
            LedgerState::empty().run(calls).events,
        ),
        LedgerState::empty().run(calls).escrow_of(symbol) == escrow_by_log(
            LedgerState::empty().run(calls).events,
            symbol,
        ),
        LedgerState::empty().run(calls).shares_of(owner, symbol) == holding_by_log(
            LedgerState::empty().run(calls).events,
            owner,
            symbol,
        ),
{
    lemma_empty_sound();
    lemma_run_sound(LedgerState::empty(), calls);
}

/// After any sequence of calls on a new ledger, each settlement of a buy
/// order in the audit log spent and refunded no more than its order
/// escrowed, and each settlement of a sell order sold or returned exactly
/// the shares that its order escrowed.
pub proof fn lemma_settlements_account(calls: Seq<Call>, j: int)
    requires
        0 <= j < LedgerState::empty().run(calls).events.len(),
    ensures
        LedgerState::empty().run(calls).accounted(LedgerState::empty().run(calls).events[j]),
{
    lemma_empty_consistent();
    lemma_run_consistent(LedgerState::empty(), calls);
}

/// A settled buy order spent and refunded no more than it escrowed. The
/// vault gave up exactly the refund, which the buyer received; the shares
/// purchased joined the buyer's holding and the symbol's supply.
pub proof fn lemma_buy_settlement_conserves(
    state: LedgerState,
    caller: Pubkey,
    order_id: u64,
    shares_purchased: u64,
    price_per_share: u64,
    total_cost: u64,
    refund_amount: u64,
    unix_timestamp: i64,
)
    requires
        state.fulfill_buy_order(
            caller,
            order_id,
            shares_purchased,
            price_per_share,
            total_cost,
            refund_amount,
            unix_timestamp,
        ) is Ok,
    ensures
        ({
            let next = state.fulfill_buy_order(
                caller,
                order_id,
                shares_purchased,
                price_per_share,
                total_cost,
                refund_amount,
                unix_timestamp,
            )->Ok_0;
            let order = state.orders[order_id as int]->Buy_0;
            let symbol = order.stock_symbol@;
            &&& state.has_buy_order(order_id)
            &&& order.status == OrderStatus::Pending
            &&& price_per_share <= order.max_price_per_share
            &&& total_cost + refund_amount <= order.sol_amount
            &&& next.vault.lamports == state.vault.lamports - refund_amount
            &&& next.lamports_of(order.user) == state.lamports_of(order.user) + refund_amount
            &&& next.shares_of(order.user, symbol) == state.shares_of(order.user, symbol)
                + shares_purchased
            &&& next.supply_of(symbol) == state.supply_of(symbol) + shares_purchased
            &&& next.escrow_of(symbol) == state.escrow_of(symbol)
            &&& next.total_orders() == state.total_orders()
            &&& next.has_buy_order(order_id)
            &&& next.orders[order_id as int]->Buy_0.status == OrderStatus::Fulfilled
            &&& next.orders[order_id as int]->Buy_0.shares_received == shares_purchased
            &&& next.orders[order_id as int]->Buy_0.actual_price_per_share == price_per_share
            &&& next.orders[order_id as int]->Buy_0.sol_amount == order.sol_amount
        }),
{
}

/// A settled sell order sold or returned exactly the shares that it
/// escrowed. The escrow gave up those shares; the shares sold left the
/// symbol's supply, those returned went back to the seller, and the vault
/// paid the seller the proceeds where shares were sold.
pub proof fn lemma_sell_settlement_accounts(
    state: LedgerState,
    caller: Pubkey,
    order_id: u64,
    shares_sold: u64,
    price_per_share: u64,
    total_proceeds: u64,
    shares_returned: u64,
    unix_timestamp: i64,
)
    requires
        state.fulfill_sell_order(
            caller,
            order_id,
            shares_sold,
            price_per_share,
            total_proceeds,
            shares_returned,
            unix_timestamp,
        ) is Ok,
    ensures
        ({
            let next = state.fulfill_sell_order(
                caller,
                order_id,
                shares_sold,
                price_per_share,
                total_proceeds,
                shares_returned,
                unix_timestamp,
            )->Ok_0;
            let order = state.orders[order_id as int]->Sell_0;
            let symbol = order.stock_symbol@;
            let paid: int = if shares_sold > 0 {
                total_proceeds as int
            } else {
                0
            };
            &&& state.has_sell_order(order_id)
            &&& order.status == OrderStatus::Pending
            &&& price_per_share >= order.min_price_per_share
            &&& shares_sold + shares_returned == order.shares_to_sell
            &&& next.escrow_of(symbol) == state.escrow_of(symbol) - order.shares_to_sell
            &&& next.supply_of(symbol) == state.supply_of(symbol) - shares_sold
            &&& next.shares_of(order.user, symbol) == state.shares_of(order.user, symbol)
                + shares_returned
            &&& next.vault.lamports == state.vault.lamports - paid
            &&& next.lamports_of(order.user) == state.lamports_of(order.user) + paid
            &&& next.total_orders() == state.total_orders()
            &&& next.has_sell_order(order_id)
            &&& next.orders[order_id as int]->Sell_0.status == OrderStatus::Fulfilled
            &&& next.orders[order_id as int]->Sell_0.sol_received == total_proceeds
            &&& next.orders[order_id as int]->Sell_0.actual_price_per_share == price_per_share
            &&& next.orders[order_id as int]->Sell_0.shares_to_sell == order.shares_to_sell
        }),
{
}

/// A buy order that is placed and then settled leaves in the vault the
/// collateral it escrowed less the refund, and has cost the buyer as much.
/// With everything refunded and nothing purchased, the buyer holds what they
/// held before the order, and the supply is what it was.
pub proof fn lemma_buy_order_round_trip(
    state: LedgerState,
    user: Pubkey,
    stock_symbol: String,
    sol_amount: u64,
    max_price_per_share: u64,
    placed_at: i64,
    caller: Pubkey,
    shares_purchased: u64,
    price_per_share: u64,
    total_cost: u64,
    refund_amount: u64,
    settled_at: i64,
)
    requires
        state.consistent(),
        state.place_buy_order(user, stock_symbol, sol_amount, max_price_per_share, placed_at) is Ok,
        state.place_buy_order(
            user,
            stock_symbol,
            sol_amount,
            max_price_per_share,
            placed_at,
        )->Ok_0.fulfill_buy_order(
            caller,
            state.total_orders(),
            shares_purchased,
            price_per_share,
            total_cost,
            refund_amount,
            settled_at,
        ) is Ok,
    ensures
        ({
            let placed = state.place_buy_order(
                user,
                stock_symbol,
                sol_amount,
                max_price_per_share,
                placed_at,
            )->Ok_0;
            let settled = placed.fulfill_buy_order(
                caller,
                state.total_orders(),
                shares_purchased,
                price_per_share,
                total_cost,
                refund_amount,
                settled_at,
            )->Ok_0;
            &&& placed.vault.lamports == state.vault.lamports + sol_amount
            &&& placed.lamports_of(user) == state.lamports_of(user) - sol_amount
            &&& refund_amount <= sol_amount
            &&& settled.vault.lamports == state.vault.lamports + (sol_amount - refund_amount)
            &&& settled.lamports_of(user) == state.lamports_of(user) - (sol_amount
                - refund_amount)
            &&& settled.supply_of(stock_symbol@) == state.supply_of(stock_symbol@)
                + shares_purchased
            &&& settled.shares_of(user, stock_symbol@) == state.shares_of(user, stock_symbol@)
                + shares_purchased
            &&& settled.total_orders() == state.total_orders() + 1
        }),
{
}

/// Only the backend authority settles orders: a settlement that anyone else
/// attempts is refused as unauthorized, whatever else holds of it, and
/// changes nothing.
pub proof fn lemma_settlement_needs_backend_authority(
    state: LedgerState,
    caller: Pubkey,
    order_id: u64,
    shares: u64,
    price_per_share: u64,
    collateral: u64,
    remainder: u64,
    unix_timestamp: i64,
)
    requires
        state.pool is Some,
        caller != state.pool->Some_0.backend_authority,
    ensures
        state.fulfill_buy_order(
            caller,
            order_id,
            shares,
            price_per_share,
            collateral,
            remainder,
            unix_timestamp,
        ) == Err::<LedgerState, LedgerError>(
            LedgerError::Rejected(StockTradingError::UnauthorizedBackend),
        ),
        state.fulfill_sell_order(
            caller,
            order_id,
            shares,
            price_per_share,
            collateral,
            remainder,
            unix_timestamp,
        ) == Err::<LedgerState, LedgerError>(
            LedgerError::Rejected(StockTradingError::UnauthorizedBackend),
        ),
        state.after(
            Call::FulfillBuyOrder {
                caller,
                order_id,
                shares_purchased: shares,
                price_per_share,
                total_cost: collateral,
                refund_amount: remainder,
                unix_timestamp,
            },
        ) == state,
        state.after(
            Call::FulfillSellOrder {
                caller,
                order_id,
                shares_sold: shares,
                price_per_share,
                total_proceeds: collateral,
                shares_returned: remainder,
                unix_timestamp,
            },
        ) == state,
{
}

/// The limits that a user sets bind the backend authority: a pending buy
/// order is not settled above its highest price, nor a pending sell order
/// below its lowest. The attempt is refused and the order stays pending.
pub proof fn lemma_price_limits_bind(
    state: LedgerState,
    order_id: u64,
    shares: u64,
    price_per_share: u64,
    collateral: u64,
    remainder: u64,
    unix_timestamp: i64,
)
    requires
        state.pool is Some,
        order_id < state.orders.len(),
        status_of(state.orders[order_id as int]) == OrderStatus::Pending,
        match state.orders[order_id as int] {
            Order::Buy(order) => state.symbols.contains_key(order.stock_symbol@) && price_per_share
                > order.max_price_per_share,
            Order::Sell(order) => state.symbols.contains_key(order.stock_symbol@) && price_per_share
                < order.min_price_per_share,
        },
    ensures
        state.orders[order_id as int] is Buy ==> state.fulfill_buy_order(
            state.pool->Some_0.backend_authority,
            order_id,
            shares,
            price_per_share,
            collateral,
            remainder,
            unix_timestamp,
        ) == Err::<LedgerState, LedgerError>(
            LedgerError::Rejected(StockTradingError::PriceExceedsLimit),
        ),
        state.orders[order_id as int] is Sell ==> state.fulfill_sell_order(
            state.pool->Some_0.backend_authority,
            order_id,
            shares,
            price_per_share,
            collateral,
            remainder,
            unix_timestamp,
        ) == Err::<LedgerState, LedgerError>(
            LedgerError::Rejected(StockTradingError::PriceBelowMinimum),
        ),
{
}

/// A settled order is final: settling it again is refused.
pub proof fn lemma_settled_order_is_final(
    state: LedgerState,
    caller: Pubkey,
    order_id: u64,
    shares: u64,
    price_per_share: u64,
    collateral: u64,
    remainder: u64,
    unix_timestamp: i64,
)
    requires
        order_id < state.orders.len(),
        status_of(state.orders[order_id as int]) != OrderStatus::Pending,
    ensures
        state.fulfill_buy_order(
            caller,
            order_id,
            shares,
            price_per_share,
            collateral,
            remainder,
            unix_timestamp,
        ) is Err,
        state.fulfill_sell_order(
            caller,
            order_id,
            shares,
            price_per_share,
            collateral,
            remainder,
            unix_timestamp,
        ) is Err,
{
}

/// While a sell order is pending, the shares that it offers are held in its
/// symbol's escrow: the escrow holds at least as many.
pub proof fn lemma_escrow_backs_pending_sell_order(state: LedgerState, order_id: u64)
    requires
        state.consistent(),
        state.has_sell_order(order_id),
        state.orders[order_id as int]->Sell_0.status == OrderStatus::Pending,
    ensures
        state.escrow_of(state.orders[order_id as int]->Sell_0.stock_symbol@)
            >= state.orders[order_id as int]->Sell_0.shares_to_sell,
{
    let order = state.orders[order_id as int];
    let symbol = order->Sell_0.stock_symbol@;
    lemma_pending_update(state.orders, order_id as int, order, symbol);
    assert(state.escrow_of(symbol) == pending_shares(state.orders, symbol));
}

/// In a ledger that calls have made of the empty one, a pending sell order
/// can always be settled as far as shares go: the escrow holds the shares
/// that it offers, and the supply covers the escrow. Settlement is refused
/// for want of something only where the vault lacks the proceeds.
pub proof fn lemma_sell_settlement_finds_its_shares(
    state: LedgerState,
    caller: Pubkey,
    order_id: u64,
    shares_sold: u64,
    price_per_share: u64,
    total_proceeds: u64,
    shares_returned: u64,
    unix_timestamp: i64,
)
    requires
        state.consistent(),
        state.backed(),
        state.fulfill_sell_order(
            caller,
            order_id,
            shares_sold,
            price_per_share,
            total_proceeds,
            shares_returned,
            unix_timestamp,
        ) == Err::<LedgerState, LedgerError>(LedgerError::Rejected(StockTradingError::Underflow)),
    ensures
        shares_sold > 0,
        state.vault.lamports < total_proceeds,
{
    let order = state.orders[order_id as int]->Sell_0;
    let symbol = order.stock_symbol@;
    lemma_escrow_backs_pending_sell_order(state, order_id);
    assert(state.supply_of(symbol) >= state.escrow_of(symbol) + held_by(
        state.holdings,
        Seq::<Pubkey>::empty(),
        symbol,
    ));
}

/// In a ledger that calls have made of the empty one, nobody holds shares
/// of a symbol that is not registered.
pub proof fn lemma_unregistered_symbols_are_not_held(
    state: LedgerState,
    owner: Pubkey,
    symbol: Seq<char>,
)
    requires
        state.sound(),
        !state.symbols.contains_key(symbol),
    ensures
        state.shares_of(owner, symbol) == 0,
{
    let owners = seq![owner];
    assert(owners.drop_last() =~= Seq::<Pubkey>::empty());
    assert(held_by(state.holdings, owners, symbol) == held_in(state.holdings, owner, symbol)) by {
        assert(owners.last() == owner);
        assert(held_by(state.holdings, owners.drop_last(), symbol) == 0);
    }
    assert(state.supply_of(symbol) >= state.escrow_of(symbol) + held_by(
        state.holdings,
        owners,
        symbol,
    ));
}

/// In a ledger that calls have made of the empty one, an order is never
/// refused for want of its symbol's registry where it is a sell order: one
/// for a symbol that is not registered is placed by nobody, since nobody
/// holds such shares, and one that was placed finds its registry.
pub proof fn lemma_sell_orders_find_their_registry(
    state: LedgerState,
    user: Pubkey,
    stock_symbol: String,
    shares_to_sell: u64,
    min_price_per_share: u64,
    caller: Pubkey,
    order_id: u64,
    shares_sold: u64,
    price_per_share: u64,
    total_proceeds: u64,
    shares_returned: u64,
    unix_timestamp: i64,
)
    requires
        state.sound(),
    ensures
        state.place_sell_order(
            user,
            stock_symbol,
            shares_to_sell,
            min_price_per_share,
            unix_timestamp,
        ) != Err::<LedgerState, LedgerError>(LedgerError::UnknownSymbol),
        state.fulfill_sell_order(
            caller,
            order_id,
            shares_sold,
            price_per_share,
            total_proceeds,
            shares_returned,
            unix_timestamp,
        ) != Err::<LedgerState, LedgerError>(LedgerError::UnknownSymbol),
{
    if !state.symbols.contains_key(stock_symbol@) {
        lemma_unregistered_symbols_are_not_held(state, user, stock_symbol@);
    }
    if state.has_sell_order(order_id) {
        assert(state.orders[order_id as int] is Sell);
    }
}

/// Orders are only ever added and settled. A call keeps every order under
/// its number, with the user, the symbol, the amount and the limit that it
/// was placed with; an order that is settled stays as it is.
pub proof fn lemma_orders_are_kept(state: LedgerState, call: Call, order_id: int)
    requires
        0 <= order_id < state.orders.len(),
    ensures
        order_id < state.after(call).orders.len(),
        status_of(state.orders[order_id]) != OrderStatus::Pending ==> state.after(
            call,
        ).orders[order_id] == state.orders[order_id],
        match state.orders[order_id] {
            Order::Buy(before) => state.after(call).orders[order_id] is Buy && ({
                let after = state.after(call).orders[order_id]->Buy_0;
                &&& after.user == before.user
                &&& after.stock_symbol == before.stock_symbol
                &&& after.sol_amount == before.sol_amount
                &&& after.max_price_per_share == before.max_price_per_share
                &&& after.order_id == before.order_id
                &&& after.timestamp == before.timestamp
            }),
            Order::Sell(before) => state.after(call).orders[order_id] is Sell && ({
                let after = state.after(call).orders[order_id]->Sell_0;
                &&& after.user == before.user
                &&& after.stock_symbol == before.stock_symbol
                &&& after.shares_to_sell == before.shares_to_sell
                &&& after.min_price_per_share == before.min_price_per_share
                &&& after.order_id == before.order_id
                &&& after.timestamp == before.timestamp
            }),
        },
{
}

/// The audit log only grows: a call keeps every event where it stands and
/// adds at most one.
pub proof fn lemma_audit_log_only_grows(state: LedgerState, call: Call)
    ensures
        state.after(call).events == state.events || (state.after(call).events.len()
            == state.events.len() + 1 && state.after(call).events.drop_last() == state.events),
        state.step(call) is Err ==> state.after(call).events == state.events,
{
    if state.step(call) is Ok && state.after(call).events != state.events {
        assert(state.after(call).events.drop_last() =~= state.events);
    }
}

/// The authorities are appointed when the pool registry is created and
/// changed by the vault authority alone: any other call leaves them as they
/// are.
pub proof fn lemma_authorities_change_by_vault_authority_alone(state: LedgerState, call: Call)
    requires
        state.pool is Some,
    ensures
        state.after(call).pool is Some,
        (call matches Call::UpdateAuthorities { caller, .. } && caller
            == state.pool->Some_0.vault_authority) || (state.after(
            call,
        ).pool->Some_0.vault_authority == state.pool->Some_0.vault_authority && state.after(
            call,
        ).pool->Some_0.backend_authority == state.pool->Some_0.backend_authority),
{
}

/// A call that is refused changes nothing.
pub proof fn lemma_refused_call_changes_nothing(state: LedgerState, call: Call)
    requires
        state.step(call) is Err,
    ensures
        state.after(call) == state,
{
}

/// No two orders share a number.
pub proof fn lemma_order_numbers_are_unique(state: LedgerState, i: int, j: int)
    requires
        state.consistent(),
        0 <= i < state.orders.len(),
        0 <= j < state.orders.len(),
        i != j,
    ensures
        state.orders[i].id() != state.orders[j].id(),
{
}

/// Who placed an order benefits from it, but only the backend authority
/// finalizes it: a call that changes an order is a settlement of that order
/// by the backend authority.
pub proof fn lemma_orders_change_by_settlement_alone(state: LedgerState, call: Call, order_id: int)
    requires
        0 <= order_id < state.orders.len(),
        state.after(call).orders[order_id] != state.orders[order_id],
    ensures
        state.pool is Some,
        match call {
            Call::FulfillBuyOrder { caller, order_id: settled, .. } => caller
                == state.pool->Some_0.backend_authority && settled == order_id
                && state.orders[order_id] is Buy,
            Call::FulfillSellOrder { caller, order_id: settled, .. } => caller
                == state.pool->Some_0.backend_authority && settled == order_id
                && state.orders[order_id] is Sell,
            _ => false,
        },
        status_of(state.orders[order_id]) == OrderStatus::Pending,
        status_of(state.after(call).orders[order_id]) == OrderStatus::Fulfilled,
{
}

/// The vault pays out to authorized calls alone: a call after which the
/// vault holds less is a settlement by the backend authority or a
/// withdrawal by the vault authority.
pub proof fn lemma_vault_pays_out_by_authority_alone(state: LedgerState, call: Call)
    requires
        state.after(call).vault.lamports < state.vault.lamports,
    ensures
        state.pool is Some,
        match call {
            Call::FulfillBuyOrder { caller, .. } => caller
                == state.pool->Some_0.backend_authority,
            Call::FulfillSellOrder { caller, .. } => caller
                == state.pool->Some_0.backend_authority,
            Call::WithdrawVaultFunds { caller, .. } => caller
                == state.pool->Some_0.vault_authority,
            _ => false,
        },
{
}

/// Nobody spends what another holds. A call after which `owner` holds less
/// collateral is their own: a buy order that they placed, or a deposit that
/// they made as the vault authority. A call after which `owner` holds fewer
/// shares of a symbol is a sell order that they placed.
pub proof fn lemma_holders_spend_their_own(
    state: LedgerState,
    call: Call,
    owner: Pubkey,
    symbol: Seq<char>,
)
    ensures
        state.after(call).lamports_of(owner) < state.lamports_of(owner) ==> match call {
            Call::PlaceBuyOrder { user, sol_amount, .. } => user == owner && state.after(
                call,
            ).lamports_of(owner) == state.lamports_of(owner) - sol_amount,
            Call::DepositVaultFunds { caller, amount, .. } => caller == owner && state.after(
                call,
            ).lamports_of(owner) == state.lamports_of(owner) - amount,
            _ => false,
        },
        state.after(call).shares_of(owner, symbol) < state.shares_of(owner, symbol)
            ==> match call {
            Call::PlaceSellOrder { user, stock_symbol, shares_to_sell, .. } => user == owner
                && stock_symbol@ == symbol && state.after(call).shares_of(owner, symbol)
                == state.shares_of(owner, symbol) - shares_to_sell,
            _ => false,
        },
{
}

} // verus!
