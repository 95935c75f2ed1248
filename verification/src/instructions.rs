//! The operations of the settlement program, each on the records that one
//! transaction touches.
//!
//! An operation either applies all of its changes and yields its audit event,
//! or rejects the transaction and leaves every record as it was. Each one
//! states, over the records before the call, which rejection comes first
//! (`rejection`) and what the records are after success (`settled`,
//! `placed`, and the like).

use vstd::prelude::*;
use vstd::string::StrSliceExecFns;
use crate::error::StockTradingError;
use crate::events::{
    AuthoritiesUpdated, BuyOrderFulfilled, BuyOrderPlaced, SellOrderFulfilled, SellOrderPlaced,
    StockMintCreated, VaultFundsDeposited, VaultFundsWithdrawn,
};
use crate::identity::Pubkey;
use crate::records::{
    BuyOrder, EscrowBalance, OrderStatus, SellOrder, StockMintInfo, SystemAccount, TokenAccount,
    TradingPool, Vault, MAX_SYMBOL_LEN,
};

verus! {

/// The records that settling a sell order touches.
#[derive(Debug, PartialEq, Eq)]
pub struct FulfillSellOrder {
    /// The order to settle.
    pub sell_order: SellOrder,
    /// The registry of the order's symbol.
    pub stock_mint_info: StockMintInfo,
    /// The seller's shares of the symbol.
    pub user_stock_token_account: TokenAccount,
    /// The escrowed shares of the symbol.
    pub escrow_token_account: EscrowBalance,
    /// The pool registry.
    pub trading_pool: TradingPool,
    /// The vault.
    pub trading_pool_vault: Vault,
    /// The seller's collateral.
    pub user: SystemAccount,
    /// The caller.
    pub backend_authority: Pubkey,
}

impl FulfillSellOrder {
    /// The first reason, if any, for which settling with these figures is
    /// rejected.
    pub open spec fn rejection(
        &self,
        shares_sold: u64,
        price_per_share: u64,
        total_proceeds: u64,
        shares_returned: u64,
    ) -> Option<StockTradingError> {
        if self.backend_authority != self.trading_pool.backend_authority {
            Some(StockTradingError::UnauthorizedBackend)
        } else if self.sell_order.status != OrderStatus::Pending {
            Some(StockTradingError::InvalidOrderStatus)
        } else if price_per_share < self.sell_order.min_price_per_share {
            Some(StockTradingError::PriceBelowMinimum)
        } else if shares_sold + shares_returned != self.sell_order.shares_to_sell {
            Some(StockTradingError::InvalidCalculation)
        } else if shares_sold > 0 && self.escrow_token_account.amount < shares_sold {
            Some(StockTradingError::Underflow)
        } else if shares_sold > 0 && self.stock_mint_info.total_supply < shares_sold {
            Some(StockTradingError::Underflow)
        } else if shares_sold > 0 && self.trading_pool_vault.lamports < total_proceeds {
            Some(StockTradingError::Underflow)
        } else if shares_sold > 0 && self.user.lamports + total_proceeds > u64::MAX {
            Some(StockTradingError::Overflow)
        } else if self.escrow_token_account.amount < shares_sold + shares_returned {
            Some(StockTradingError::Underflow)
        } else if self.user_stock_token_account.amount + shares_returned > u64::MAX {
            Some(StockTradingError::Overflow)
        } else {
            None
        }
    }

    /// The collateral that settlement pays out: the proceeds where shares
    /// were sold, nothing where none were.
    pub open spec fn payout(shares_sold: u64, total_proceeds: u64) -> int {
        if shares_sold > 0 {
            total_proceeds as int
        } else {
            0
        }
    }

    /// The records after the order was settled with these figures.
    pub open spec fn settled(
        &self,
        shares_sold: u64,
        price_per_share: u64,
        total_proceeds: u64,
        shares_returned: u64,
    ) -> FulfillSellOrder {
        FulfillSellOrder {
            sell_order: SellOrder {
                status: OrderStatus::Fulfilled,
                sol_received: total_proceeds,
                actual_price_per_share: price_per_share,
                ..self.sell_order
            },
            stock_mint_info: StockMintInfo {
                total_supply: (self.stock_mint_info.total_supply - shares_sold) as u64,
                ..self.stock_mint_info
            },
            user_stock_token_account: TokenAccount {
                amount: (self.user_stock_token_account.amount + shares_returned) as u64,
            },
            escrow_token_account: EscrowBalance {
                amount: (self.escrow_token_account.amount - shares_sold - shares_returned) as u64,
            },
            trading_pool: self.trading_pool,
            trading_pool_vault: Vault {
                lamports: (self.trading_pool_vault.lamports - Self::payout(
                    shares_sold,
                    total_proceeds,
                )) as u64,
            },
            user: SystemAccount {
                key: self.user.key,
                lamports: (self.user.lamports + Self::payout(shares_sold, total_proceeds)) as u64,
            },
            backend_authority: self.backend_authority,
        }
    }

    /// The audit event of the settlement.
    pub open spec fn event(
        &self,
        shares_sold: u64,
        price_per_share: u64,
        total_proceeds: u64,
        shares_returned: u64,
        unix_timestamp: i64,
    ) -> SellOrderFulfilled {
        SellOrderFulfilled {
            order_id: self.sell_order.order_id,
            user: self.sell_order.user,
            stock_symbol: self.sell_order.stock_symbol,
            shares_sold,
            price_per_share,
            total_proceeds,
            shares_returned,
            timestamp: unix_timestamp,
        }
    }
}

/// Settles a pending sell order. Only the backend authority may do so. The
/// price must reach the seller's limit, and every escrowed share is either
/// sold or returned. Sold shares are burned from the escrow and leave the
/// symbol's supply, and the proceeds go from the vault to the seller; the
/// shares returned go from the escrow back to the seller.
pub fn fulfill_sell_order(
    ctx: &mut FulfillSellOrder,
    shares_sold: u64,
    price_per_share: u64,
    total_proceeds: u64,
    shares_returned: u64,
    unix_timestamp: i64,
) -> (result: Result<SellOrderFulfilled, StockTradingError>)
    ensures
        match old(ctx).rejection(shares_sold, price_per_share, total_proceeds, shares_returned) {
            Some(reason) => result == Err::<SellOrderFulfilled, StockTradingError>(reason)
                && *final(ctx) == *old(ctx),
            None => result == Ok::<SellOrderFulfilled, StockTradingError>(
                old(ctx).event(
                    shares_sold,
                    price_per_share,
                    total_proceeds,
                    shares_returned,
                    unix_timestamp,
                ),
            ) && *final(ctx) == old(ctx).settled(
                shares_sold,
                price_per_share,
                total_proceeds,
                shares_returned,
            ),
        },
        result is Ok ==> shares_sold + shares_returned == old(ctx).sell_order.shares_to_sell,
{
    if !(ctx.backend_authority == ctx.trading_pool.backend_authority) {
        return Err(StockTradingError::UnauthorizedBackend);
    }
    if ctx.sell_order.status != OrderStatus::Pending {
        return Err(StockTradingError::InvalidOrderStatus);
    }
    if price_per_share < ctx.sell_order.min_price_per_share {
        return Err(StockTradingError::PriceBelowMinimum);
    }
    let accounted: bool = match shares_sold.checked_add(shares_returned) {
        Some(sum) => sum == ctx.sell_order.shares_to_sell,
        None => false,
    };
    if !accounted {
        return Err(StockTradingError::InvalidCalculation);
    }
    let mut escrow: u64 = ctx.escrow_token_account.amount;
    let mut supply: u64 = ctx.stock_mint_info.total_supply;
    let mut vault: u64 = ctx.trading_pool_vault.lamports;
    let mut collateral: u64 = ctx.user.lamports;
    if shares_sold > 0 {
        escrow = match escrow.checked_sub(shares_sold) {
            Some(rest) => rest,
            None => {
                return Err(StockTradingError::Underflow);
            },
        };
        supply = match supply.checked_sub(shares_sold) {
            Some(rest) => rest,
            None => {
                return Err(StockTradingError::Underflow);
            },
        };
        vault = match vault.checked_sub(total_proceeds) {
            Some(rest) => rest,
            None => {
                return Err(StockTradingError::Underflow);
            },
        };
        collateral = match collateral.checked_add(total_proceeds) {
            Some(sum) => sum,
            None => {
                return Err(StockTradingError::Overflow);
            },
        };
    }
    escrow = match escrow.checked_sub(shares_returned) {
        Some(rest) => rest,
        None => {
            return Err(StockTradingError::Underflow);
        },
    };
    let shares: u64 = match ctx.user_stock_token_account.amount.checked_add(shares_returned) {
        Some(sum) => sum,
        None => {
            return Err(StockTradingError::Overflow);
        },
    };
    ctx.escrow_token_account.amount = escrow;
    ctx.stock_mint_info.total_supply = supply;
    ctx.trading_pool_vault.lamports = vault;
    ctx.user.lamports = collateral;
    ctx.user_stock_token_account.amount = shares;
    ctx.sell_order.status = OrderStatus::Fulfilled;
    ctx.sell_order.sol_received = total_proceeds;
    ctx.sell_order.actual_price_per_share = price_per_share;
    Ok(
        SellOrderFulfilled {
            order_id: ctx.sell_order.order_id,
            user: ctx.sell_order.user,
            stock_symbol: ctx.sell_order.stock_symbol.clone(),
            shares_sold,
            price_per_share,
            total_proceeds,
            shares_returned,
            timestamp: unix_timestamp,
        },
    )
}


/// The records that settling a buy order touches.
#[derive(Debug, PartialEq, Eq)]
pub struct FulfillBuyOrder {
    /// The order to settle.
    pub buy_order: BuyOrder,
    /// The registry of the order's symbol.
    pub stock_mint_info: StockMintInfo,
    /// The buyer's shares of the symbol.
    pub user_stock_token_account: TokenAccount,
    /// The pool registry.
    pub trading_pool: TradingPool,
    /// The vault.
    pub trading_pool_vault: Vault,
    /// The buyer's collateral.
    pub user: SystemAccount,
    /// The caller.
    pub backend_authority: Pubkey,
}

impl FulfillBuyOrder {
    /// The first reason, if any, for which settling with these figures is
    /// rejected.
    pub open spec fn rejection(
        &self,
        shares_purchased: u64,
        price_per_share: u64,
        total_cost: u64,
        refund_amount: u64,
    ) -> Option<StockTradingError> {
        if self.backend_authority != self.trading_pool.backend_authority {
            Some(StockTradingError::UnauthorizedBackend)
        } else if self.buy_order.status != OrderStatus::Pending {
            Some(StockTradingError::InvalidOrderStatus)
        } else if price_per_share > self.buy_order.max_price_per_share {
            Some(StockTradingError::PriceExceedsLimit)
        } else if total_cost + refund_amount > self.buy_order.sol_amount {
            Some(StockTradingError::InvalidCalculation)
        } else if self.user_stock_token_account.amount + shares_purchased > u64::MAX {
            Some(StockTradingError::Overflow)
        } else if self.stock_mint_info.total_supply + shares_purchased > u64::MAX {
            Some(StockTradingError::Overflow)
        } else if self.trading_pool_vault.lamports < refund_amount {
            Some(StockTradingError::Underflow)
        } else if self.user.lamports + refund_amount > u64::MAX {
            Some(StockTradingError::Overflow)
        } else {
            None
        }
    }

    /// The records after the order was settled with these figures.
    pub open spec fn settled(
        &self,
        shares_purchased: u64,
        price_per_share: u64,
        refund_amount: u64,
    ) -> FulfillBuyOrder {
        FulfillBuyOrder {
            buy_order: BuyOrder {
                status: OrderStatus::Fulfilled,
                shares_received: shares_purchased,
                actual_price_per_share: price_per_share,
                ..self.buy_order
            },
            stock_mint_info: StockMintInfo {
                total_supply: (self.stock_mint_info.total_supply + shares_purchased) as u64,
                ..self.stock_mint_info
            },
            user_stock_token_account: TokenAccount {
                amount: (self.user_stock_token_account.amount + shares_purchased) as u64,
            },
            trading_pool: self.trading_pool,
            trading_pool_vault: Vault {
                lamports: (self.trading_pool_vault.lamports - refund_amount) as u64,
            },
            user: SystemAccount {
                key: self.user.key,
                lamports: (self.user.lamports + refund_amount) as u64,
            },
            backend_authority: self.backend_authority,
        }
    }

    /// The audit event of the settlement.
    pub open spec fn event(
        &self,
        shares_purchased: u64,
        price_per_share: u64,
        total_cost: u64,
        refund_amount: u64,
        unix_timestamp: i64,
    ) -> BuyOrderFulfilled {
        BuyOrderFulfilled {
            order_id: self.buy_order.order_id,
            user: self.buy_order.user,
            stock_symbol: self.buy_order.stock_symbol,
            shares_purchased,
            price_per_share,
            total_cost,
            refund_amount,
            timestamp: unix_timestamp,
        }
    }
}

/// Settles a pending buy order. Only the backend authority may do so. The
/// price must not exceed the buyer's limit, and cost and refund together
/// must not exceed the collateral that the order escrowed. The shares
/// purchased are minted to the buyer and join the symbol's supply; the refund
/// goes from the vault back to the buyer.
pub fn fulfill_buy_order(
    ctx: &mut FulfillBuyOrder,
    shares_purchased: u64,
    price_per_share: u64,
    total_cost: u64,
    refund_amount: u64,
    unix_timestamp: i64,
) -> (result: Result<BuyOrderFulfilled, StockTradingError>)
    ensures
        match old(ctx).rejection(shares_purchased, price_per_share, total_cost, refund_amount) {
            Some(reason) => result == Err::<BuyOrderFulfilled, StockTradingError>(reason)
                && *final(ctx) == *old(ctx),
            None => result == Ok::<BuyOrderFulfilled, StockTradingError>(
                old(ctx).event(
                    shares_purchased,
                    price_per_share,
                    total_cost,
                    refund_amount,
                    unix_timestamp,
                ),
            ) && *final(ctx) == old(ctx).settled(shares_purchased, price_per_share, refund_amount),
        },
        result is Ok ==> total_cost + refund_amount <= old(ctx).buy_order.sol_amount,
        result is Ok ==> final(ctx).trading_pool_vault.lamports == old(
            ctx,
        ).trading_pool_vault.lamports - refund_amount,
{
    if !(ctx.backend_authority == ctx.trading_pool.backend_authority) {
        return Err(StockTradingError::UnauthorizedBackend);
    }
    if ctx.buy_order.status != OrderStatus::Pending {
        return Err(StockTradingError::InvalidOrderStatus);
    }
    if price_per_share > ctx.buy_order.max_price_per_share {
        return Err(StockTradingError::PriceExceedsLimit);
    }
    let covered: bool = match total_cost.checked_add(refund_amount) {
        Some(sum) => sum <= ctx.buy_order.sol_amount,
        None => false,
    };
    if !covered {
        return Err(StockTradingError::InvalidCalculation);
    }
    let shares: u64 = match ctx.user_stock_token_account.amount.checked_add(shares_purchased) {
        Some(sum) => sum,
        None => {
            return Err(StockTradingError::Overflow);
        },
    };
    let supply: u64 = match ctx.stock_mint_info.total_supply.checked_add(shares_purchased) {
        Some(sum) => sum,
        None => {
            return Err(StockTradingError::Overflow);
        },
    };
    let vault: u64 = match ctx.trading_pool_vault.lamports.checked_sub(refund_amount) {
        Some(rest) => rest,
        None => {
            return Err(StockTradingError::Underflow);
        },
    };
    let collateral: u64 = match ctx.user.lamports.checked_add(refund_amount) {
        Some(sum) => sum,
        None => {
            return Err(StockTradingError::Overflow);
        },
    };
    ctx.user_stock_token_account.amount = shares;
    ctx.stock_mint_info.total_supply = supply;
    ctx.trading_pool_vault.lamports = vault;
    ctx.user.lamports = collateral;
    ctx.buy_order.status = OrderStatus::Fulfilled;
    ctx.buy_order.shares_received = shares_purchased;
    ctx.buy_order.actual_price_per_share = price_per_share;
    Ok(
        BuyOrderFulfilled {
            order_id: ctx.buy_order.order_id,
            user: ctx.buy_order.user,
            stock_symbol: ctx.buy_order.stock_symbol.clone(),
            shares_purchased,
            price_per_share,
            total_cost,
            refund_amount,
            timestamp: unix_timestamp,
        },
    )
}

/// The records that placing a sell order touches.
#[derive(Debug, PartialEq, Eq)]
pub struct PlaceSellOrder {
    /// The record that the new order is written to.
    pub sell_order: SellOrder,
    /// The seller's shares of the symbol.
    pub user_stock_token_account: TokenAccount,
    /// The escrowed shares of the symbol.
    pub escrow_token_account: EscrowBalance,
    /// The pool registry.
    pub trading_pool: TradingPool,
    /// The caller, who places the order.
    pub user: Pubkey,
}

impl PlaceSellOrder {
    /// The first reason, if any, for which placing this order is rejected.
    pub open spec fn rejection(&self, stock_symbol: Seq<char>, shares_to_sell: u64) -> Option<
        StockTradingError,
    > {
        if stock_symbol.len() > MAX_SYMBOL_LEN {
            Some(StockTradingError::StockSymbolTooLong)
        } else if shares_to_sell == 0 {
            Some(StockTradingError::InvalidAmount)
        } else if self.user_stock_token_account.amount < shares_to_sell {
            Some(StockTradingError::InsufficientTokens)
        } else if self.escrow_token_account.amount + shares_to_sell > u64::MAX {
            Some(StockTradingError::Overflow)
        } else if self.trading_pool.total_orders == u64::MAX {
            Some(StockTradingError::Overflow)
        } else {
            None
        }
    }

    /// The order that is written.
    pub open spec fn order(
        &self,
        stock_symbol: String,
        shares_to_sell: u64,
        min_price_per_share: u64,
        unix_timestamp: i64,
    ) -> SellOrder {
        SellOrder {
            user: self.user,
            stock_symbol,
            shares_to_sell,
            min_price_per_share,
            order_id: self.trading_pool.total_orders,
            status: OrderStatus::Pending,
            timestamp: unix_timestamp,
            sol_received: 0,
            actual_price_per_share: 0,
        }
    }

    /// The records after the order was placed.
    pub open spec fn placed(
        &self,
        stock_symbol: String,
        shares_to_sell: u64,
        min_price_per_share: u64,
        unix_timestamp: i64,
    ) -> PlaceSellOrder {
        PlaceSellOrder {
            sell_order: self.order(
                stock_symbol,
                shares_to_sell,
                min_price_per_share,
                unix_timestamp,
            ),
            user_stock_token_account: TokenAccount {
                amount: (self.user_stock_token_account.amount - shares_to_sell) as u64,
            },
            escrow_token_account: EscrowBalance {
                amount: (self.escrow_token_account.amount + shares_to_sell) as u64,
            },
            trading_pool: TradingPool {
                total_orders: (self.trading_pool.total_orders + 1) as u64,
                ..self.trading_pool
            },
            user: self.user,
        }
    }

    /// The audit event of the placement.
    pub open spec fn event(
        &self,
        stock_symbol: String,
        shares_to_sell: u64,
        min_price_per_share: u64,
        unix_timestamp: i64,
    ) -> SellOrderPlaced {
        SellOrderPlaced {
            order_id: self.trading_pool.total_orders,
            user: self.user,
            stock_symbol,
            shares_to_sell,
            min_price_per_share,
            timestamp: unix_timestamp,
        }
    }
}

/// Places a sell order: moves the shares offered from the seller into the
/// symbol's escrow, writes the order as pending under the pool's next order
/// number, and advances the counter.
pub fn place_sell_order(
    ctx: &mut PlaceSellOrder,
    stock_symbol: String,
    shares_to_sell: u64,
    min_price_per_share: u64,
    unix_timestamp: i64,
) -> (result: Result<SellOrderPlaced, StockTradingError>)
    ensures
        match old(ctx).rejection(stock_symbol@, shares_to_sell) {
            Some(reason) => result == Err::<SellOrderPlaced, StockTradingError>(reason)
                && *final(ctx) == *old(ctx),
            None => result == Ok::<SellOrderPlaced, StockTradingError>(
                old(ctx).event(stock_symbol, shares_to_sell, min_price_per_share, unix_timestamp),
            ) && *final(ctx) == old(ctx).placed(
                stock_symbol,
                shares_to_sell,
                min_price_per_share,
                unix_timestamp,
            ),
        },
        result is Ok ==> final(ctx).trading_pool.total_orders == old(ctx).trading_pool.total_orders
            + 1,
        result is Err ==> final(ctx).trading_pool.total_orders == old(
            ctx,
        ).trading_pool.total_orders,
{
    if stock_symbol.as_str().unicode_len() > MAX_SYMBOL_LEN {
        return Err(StockTradingError::StockSymbolTooLong);
    }
    if shares_to_sell == 0 {
        return Err(StockTradingError::InvalidAmount);
    }
    if ctx.user_stock_token_account.amount < shares_to_sell {
        return Err(StockTradingError::InsufficientTokens);
    }
    let escrow: u64 = match ctx.escrow_token_account.amount.checked_add(shares_to_sell) {
        Some(sum) => sum,
        None => {
            return Err(StockTradingError::Overflow);
        },
    };
    let order_id: u64 = ctx.trading_pool.total_orders;
    let next: u64 = match order_id.checked_add(1) {
        Some(sum) => sum,
        None => {
            return Err(StockTradingError::Overflow);
        },
    };
    ctx.user_stock_token_account.amount = ctx.user_stock_token_account.amount - shares_to_sell;
    ctx.escrow_token_account.amount = escrow;
    ctx.sell_order =
    SellOrder {
        user: ctx.user,
        stock_symbol: stock_symbol.clone(),
        shares_to_sell,
        min_price_per_share,
        order_id,
        status: OrderStatus::Pending,
        timestamp: unix_timestamp,
        sol_received: 0,
        actual_price_per_share: 0,
    };
    ctx.trading_pool.total_orders = next;
    Ok(
        SellOrderPlaced {
            order_id,
            user: ctx.user,
            stock_symbol,
            shares_to_sell,
            min_price_per_share,
            timestamp: unix_timestamp,
        },
    )
}

/// The records that placing a buy order touches.
#[derive(Debug, PartialEq, Eq)]
pub struct PlaceBuyOrder {
    /// The record that the new order is written to.
    pub buy_order: BuyOrder,
    /// The pool registry.
    pub trading_pool: TradingPool,
    /// The vault.
    pub trading_pool_vault: Vault,
    /// The caller, who places the order, with their collateral.
    pub user: SystemAccount,
}

impl PlaceBuyOrder {
    /// The first reason, if any, for which placing this order is rejected.
    pub open spec fn rejection(&self, stock_symbol: Seq<char>, sol_amount: u64) -> Option<
        StockTradingError,
    > {
        if stock_symbol.len() > MAX_SYMBOL_LEN {
            Some(StockTradingError::StockSymbolTooLong)
        } else if sol_amount == 0 {
            Some(StockTradingError::InvalidAmount)
        } else if self.user.lamports < sol_amount {
            Some(StockTradingError::Underflow)
        } else if self.trading_pool_vault.lamports + sol_amount > u64::MAX {
            Some(StockTradingError::Overflow)
        } else if self.trading_pool.total_orders == u64::MAX {
            Some(StockTradingError::Overflow)
        } else {
            None
        }
    }

    /// The order that is written.
    pub open spec fn order(
        &self,
        stock_symbol: String,
        sol_amount: u64,
        max_price_per_share: u64,
        unix_timestamp: i64,
    ) -> BuyOrder {
        BuyOrder {
            user: self.user.key,
            stock_symbol,
            sol_amount,
            max_price_per_share,
            order_id: self.trading_pool.total_orders,
            status: OrderStatus::Pending,
            timestamp: unix_timestamp,
            shares_received: 0,
            actual_price_per_share: 0,
        }
    }

    /// The records after the order was placed.
    pub open spec fn placed(
        &self,
        stock_symbol: String,
        sol_amount: u64,
        max_price_per_share: u64,
        unix_timestamp: i64,
    ) -> PlaceBuyOrder {
        PlaceBuyOrder {
            buy_order: self.order(stock_symbol, sol_amount, max_price_per_share, unix_timestamp),
            trading_pool: TradingPool {
                total_orders: (self.trading_pool.total_orders + 1) as u64,
                ..self.trading_pool
            },
            trading_pool_vault: Vault {
                lamports: (self.trading_pool_vault.lamports + sol_amount) as u64,
            },
            user: SystemAccount {
                key: self.user.key,
                lamports: (self.user.lamports - sol_amount) as u64,
            },
        }
    }

    /// The audit event of the placement.
    pub open spec fn event(
        &self,
        stock_symbol: String,
        sol_amount: u64,
        max_price_per_share: u64,
        unix_timestamp: i64,
    ) -> BuyOrderPlaced {
        BuyOrderPlaced {
            order_id: self.trading_pool.total_orders,
            user: self.user.key,
            stock_symbol,
            sol_amount,
            max_price_per_share,
            timestamp: unix_timestamp,
        }
    }
}

/// Places a buy order: moves the collateral from the buyer into the vault,
/// writes the order as pending under the pool's next order number, and
/// advances the counter.
pub fn place_buy_order(
    ctx: &mut PlaceBuyOrder,
    stock_symbol: String,
    sol_amount: u64,
    max_price_per_share: u64,
    unix_timestamp: i64,
) -> (result: Result<BuyOrderPlaced, StockTradingError>)
    ensures
        match old(ctx).rejection(stock_symbol@, sol_amount) {
            Some(reason) => result == Err::<BuyOrderPlaced, StockTradingError>(reason)
                && *final(ctx) == *old(ctx),
            None => result == Ok::<BuyOrderPlaced, StockTradingError>(
                old(ctx).event(stock_symbol, sol_amount, max_price_per_share, unix_timestamp),
            ) && *final(ctx) == old(ctx).placed(
                stock_symbol,
                sol_amount,
                max_price_per_share,
                unix_timestamp,
            ),
        },
        result is Ok ==> final(ctx).trading_pool.total_orders == old(ctx).trading_pool.total_orders
            + 1,
        result is Err ==> final(ctx).trading_pool.total_orders == old(
            ctx,
        ).trading_pool.total_orders,
{
    if stock_symbol.as_str().unicode_len() > MAX_SYMBOL_LEN {
        return Err(StockTradingError::StockSymbolTooLong);
    }
    if sol_amount == 0 {
        return Err(StockTradingError::InvalidAmount);
    }
    if ctx.user.lamports < sol_amount {
        return Err(StockTradingError::Underflow);
    }
    let vault: u64 = match ctx.trading_pool_vault.lamports.checked_add(sol_amount) {
        Some(sum) => sum,
        None => {
            return Err(StockTradingError::Overflow);
        },
    };
    let order_id: u64 = ctx.trading_pool.total_orders;
    let next: u64 = match order_id.checked_add(1) {
        Some(sum) => sum,
        None => {
            return Err(StockTradingError::Overflow);
        },
    };
    ctx.user.lamports = ctx.user.lamports - sol_amount;
    ctx.trading_pool_vault.lamports = vault;
    ctx.buy_order =
    BuyOrder {
        user: ctx.user.key,
        stock_symbol: stock_symbol.clone(),
        sol_amount,
        max_price_per_share,
        order_id,
        status: OrderStatus::Pending,
        timestamp: unix_timestamp,
        shares_received: 0,
        actual_price_per_share: 0,
    };
    ctx.trading_pool.total_orders = next;
    Ok(
        BuyOrderPlaced {
            order_id,
            user: ctx.user.key,
            stock_symbol,
            sol_amount,
            max_price_per_share,
            timestamp: unix_timestamp,
        },
    )
}

/// The records that a withdrawal from the vault touches.
#[derive(Clone, Copy, Debug, PartialEq, Eq)]
pub struct WithdrawVaultFunds {
    /// The pool registry.
    pub trading_pool: TradingPool,
    /// The vault.
    pub trading_pool_vault: Vault,
    /// The caller, who receives the funds.
    pub vault_authority: SystemAccount,
}

impl WithdrawVaultFunds {
    /// The first reason, if any, for which withdrawing `amount` is rejected.
    pub open spec fn rejection(&self, amount: u64) -> Option<StockTradingError> {
        if self.vault_authority.key != self.trading_pool.vault_authority {
            Some(StockTradingError::UnauthorizedVaultAccess)
        } else if self.trading_pool_vault.lamports < amount {
            Some(StockTradingError::Underflow)
        } else if self.vault_authority.lamports + amount > u64::MAX {
            Some(StockTradingError::Overflow)
        } else {
            None
        }
    }

    /// The records after `amount` was withdrawn.
    pub open spec fn withdrawn(&self, amount: u64) -> WithdrawVaultFunds {
        WithdrawVaultFunds {
            trading_pool: self.trading_pool,
            trading_pool_vault: Vault {
                lamports: (self.trading_pool_vault.lamports - amount) as u64,
            },
            vault_authority: SystemAccount {
                key: self.vault_authority.key,
                lamports: (self.vault_authority.lamports + amount) as u64,
            },
        }
    }
}

/// Moves `amount` of collateral from the vault to the vault authority, who
/// must be the caller. What pending orders may still be owed is not looked at.
pub fn withdraw_vault_funds(
    ctx: &mut WithdrawVaultFunds,
    amount: u64,
    unix_timestamp: i64,
) -> (result: Result<VaultFundsWithdrawn, StockTradingError>)
    ensures
        match old(ctx).rejection(amount) {
            Some(reason) => result == Err::<VaultFundsWithdrawn, StockTradingError>(reason)
                && *final(ctx) == *old(ctx),
            None => result == Ok::<VaultFundsWithdrawn, StockTradingError>(
                (VaultFundsWithdrawn {
                    authority: old(ctx).vault_authority.key,
                    amount,
                    timestamp: unix_timestamp,
                }),
            ) && *final(ctx) == old(ctx).withdrawn(amount),
        },
{
    if !(ctx.vault_authority.key == ctx.trading_pool.vault_authority) {
        return Err(StockTradingError::UnauthorizedVaultAccess);
    }
    let vault: u64 = match ctx.trading_pool_vault.lamports.checked_sub(amount) {
        Some(rest) => rest,
        None => {
            return Err(StockTradingError::Underflow);
        },
    };
    let collateral: u64 = match ctx.vault_authority.lamports.checked_add(amount) {
        Some(sum) => sum,
        None => {
            return Err(StockTradingError::Overflow);
        },
    };
    ctx.trading_pool_vault.lamports = vault;
    ctx.vault_authority.lamports = collateral;
    Ok(
        VaultFundsWithdrawn {
            authority: ctx.vault_authority.key,
            amount,
            timestamp: unix_timestamp,
        },
    )
}

/// The records that a change of authorities touches.
#[derive(Clone, Copy, Debug, PartialEq, Eq)]
pub struct UpdateAuthorities {
    /// The pool registry.
    pub trading_pool: TradingPool,
    /// The caller.
    pub current_vault_authority: Pubkey,
}

impl UpdateAuthorities {
    /// The pool registry after the change: what is given replaces, what is
    /// absent stays.
    pub open spec fn updated(
        &self,
        new_vault_authority: Option<Pubkey>,
        new_backend_authority: Option<Pubkey>,
    ) -> TradingPool {
        TradingPool {
            vault_authority: match new_vault_authority {
                Some(key) => key,
                None => self.trading_pool.vault_authority,
            },
            backend_authority: match new_backend_authority {
                Some(key) => key,
                None => self.trading_pool.backend_authority,
            },
            total_orders: self.trading_pool.total_orders,
        }
    }
}

/// Appoints new authorities. The caller must be the current vault authority.
/// An authority that is given replaces the current one; one that is absent
/// stays.
pub fn update_authorities(
    ctx: &mut UpdateAuthorities,
    new_vault_authority: Option<Pubkey>,
    new_backend_authority: Option<Pubkey>,
    unix_timestamp: i64,
) -> (result: Result<AuthoritiesUpdated, StockTradingError>)
    ensures
        final(ctx).current_vault_authority == old(ctx).current_vault_authority,
        old(ctx).current_vault_authority != old(ctx).trading_pool.vault_authority ==> result
            == Err::<AuthoritiesUpdated, StockTradingError>(
            StockTradingError::UnauthorizedVaultAccess,
        ) && *final(ctx) == *old(ctx),
        old(ctx).current_vault_authority == old(ctx).trading_pool.vault_authority ==> result
            == Ok::<AuthoritiesUpdated, StockTradingError>(
            (AuthoritiesUpdated {
                vault_authority: final(ctx).trading_pool.vault_authority,
                backend_authority: final(ctx).trading_pool.backend_authority,
                timestamp: unix_timestamp,
            }),
        ) && final(ctx).trading_pool == old(ctx).updated(
            new_vault_authority,
            new_backend_authority,
        ),
{
    if !(ctx.current_vault_authority == ctx.trading_pool.vault_authority) {
        return Err(StockTradingError::UnauthorizedVaultAccess);
    }
    match new_vault_authority {
        Some(key) => {
            ctx.trading_pool.vault_authority = key;
        },
        None => {},
    }
    match new_backend_authority {
        Some(key) => {
            ctx.trading_pool.backend_authority = key;
        },
        None => {},
    }
    Ok(
        AuthoritiesUpdated {
            vault_authority: ctx.trading_pool.vault_authority,
            backend_authority: ctx.trading_pool.backend_authority,
            timestamp: unix_timestamp,
        },
    )
}

/// The records that a deposit into the vault touches.
#[derive(Clone, Copy, Debug, PartialEq, Eq)]
pub struct DepositVaultFunds {
    /// The pool registry.
    pub trading_pool: TradingPool,
    /// The vault.
    pub trading_pool_vault: Vault,
    /// The caller, who provides the funds.
    pub vault_authority: SystemAccount,
}

impl DepositVaultFunds {
    /// The first reason, if any, for which depositing `amount` is rejected.
    pub open spec fn rejection(&self, amount: u64) -> Option<StockTradingError> {
        if self.vault_authority.key != self.trading_pool.vault_authority {
            Some(StockTradingError::UnauthorizedVaultAccess)
        } else if self.vault_authority.lamports < amount {
            Some(StockTradingError::Underflow)
        } else if self.trading_pool_vault.lamports + amount > u64::MAX {
            Some(StockTradingError::Overflow)
        } else {
            None
        }
    }

    /// The records after `amount` was deposited.
    pub open spec fn deposited(&self, amount: u64) -> DepositVaultFunds {
        DepositVaultFunds {
            trading_pool: self.trading_pool,
            trading_pool_vault: Vault {
                lamports: (self.trading_pool_vault.lamports + amount) as u64,
            },
            vault_authority: SystemAccount {
                key: self.vault_authority.key,
                lamports: (self.vault_authority.lamports - amount) as u64,
            },
        }
    }
}

/// Moves `amount` of collateral from the vault authority, who must be the
/// caller, into the vault.
pub fn deposit_vault_funds(
    ctx: &mut DepositVaultFunds,
    amount: u64,
    unix_timestamp: i64,
) -> (result: Result<VaultFundsDeposited, StockTradingError>)
    ensures
        match old(ctx).rejection(amount) {
            Some(reason) => result == Err::<VaultFundsDeposited, StockTradingError>(reason)
                && *final(ctx) == *old(ctx),
            None => result == Ok::<VaultFundsDeposited, StockTradingError>(
                (VaultFundsDeposited {
                    authority: old(ctx).vault_authority.key,
                    amount,
                    timestamp: unix_timestamp,
                }),
            ) && *final(ctx) == old(ctx).deposited(amount),
        },
{
    if !(ctx.vault_authority.key == ctx.trading_pool.vault_authority) {
        return Err(StockTradingError::UnauthorizedVaultAccess);
    }
    let collateral: u64 = match ctx.vault_authority.lamports.checked_sub(amount) {
        Some(rest) => rest,
        None => {
            return Err(StockTradingError::Underflow);
        },
    };
    let vault: u64 = match ctx.trading_pool_vault.lamports.checked_add(amount) {
        Some(sum) => sum,
        None => {
            return Err(StockTradingError::Overflow);
        },
    };
    ctx.vault_authority.lamports = collateral;
    ctx.trading_pool_vault.lamports = vault;
    Ok(
        VaultFundsDeposited {
            authority: ctx.vault_authority.key,
            amount,
            timestamp: unix_timestamp,
        },
    )
}

/// The records that registering a symbol touches.
#[derive(Debug, PartialEq, Eq)]
pub struct CreateStockMint {
    /// The address under which the symbol's shares are issued.
    pub stock_mint: Pubkey,
    /// The record that the new registry is written to.
    pub stock_mint_info: StockMintInfo,
    /// The pool registry.
    pub trading_pool: TradingPool,
    /// The caller.
    pub vault_authority: Pubkey,
}

impl CreateStockMint {
    /// The first reason, if any, for which registering this symbol is
    /// rejected.
    pub open spec fn rejection(&self, stock_symbol: Seq<char>) -> Option<StockTradingError> {
        if self.vault_authority != self.trading_pool.vault_authority {
            Some(StockTradingError::UnauthorizedVaultAccess)
        } else if stock_symbol.len() > MAX_SYMBOL_LEN {
            Some(StockTradingError::StockSymbolTooLong)
        } else {
            None
        }
    }

    /// The registry that is written: the symbol with no shares outstanding.
    pub open spec fn registry(&self, stock_symbol: String) -> StockMintInfo {
        StockMintInfo { stock_symbol, mint: self.stock_mint, total_supply: 0 }
    }
}

/// Registers a symbol with no shares outstanding. The caller must be the
/// vault authority. `decimals` is passed on to the audit event for display;
/// shares are whole units.
pub fn create_stock_mint(
    ctx: &mut CreateStockMint,
    stock_symbol: String,
    decimals: u8,
) -> (result: Result<StockMintCreated, StockTradingError>)
    ensures
        final(ctx).stock_mint == old(ctx).stock_mint,
        final(ctx).trading_pool == old(ctx).trading_pool,
        final(ctx).vault_authority == old(ctx).vault_authority,
        match old(ctx).rejection(stock_symbol@) {
            Some(reason) => result == Err::<StockMintCreated, StockTradingError>(reason)
                && *final(ctx) == *old(ctx),
            None => result == Ok::<StockMintCreated, StockTradingError>(
                (StockMintCreated { stock_symbol, mint: old(ctx).stock_mint, decimals }),
            ) && final(ctx).stock_mint_info == old(ctx).registry(stock_symbol),
        },
{
    if !(ctx.vault_authority == ctx.trading_pool.vault_authority) {
        return Err(StockTradingError::UnauthorizedVaultAccess);
    }
    if stock_symbol.as_str().unicode_len() > MAX_SYMBOL_LEN {
        return Err(StockTradingError::StockSymbolTooLong);
    }
    ctx.stock_mint_info =
    StockMintInfo { stock_symbol: stock_symbol.clone(), mint: ctx.stock_mint, total_supply: 0 };
    Ok(StockMintCreated { stock_symbol, mint: ctx.stock_mint, decimals })
}

/// The records that creating the pool registry touches.
#[derive(Clone, Copy, Debug, PartialEq, Eq)]
pub struct InitializeTradingPool {
    /// The record that the registry is written to.
    pub trading_pool: TradingPool,
}

/// Writes the pool registry of a new deployment: the two authorities, and no
/// order placed yet. This cannot be rejected.
pub fn initialize_trading_pool(
    ctx: &mut InitializeTradingPool,
    vault_authority: Pubkey,
    backend_authority: Pubkey,
) -> (result: Result<(), StockTradingError>)
    ensures
        result is Ok,
        final(ctx).trading_pool == (TradingPool {
            vault_authority,
            backend_authority,
            total_orders: 0,
        }),
{
    ctx.trading_pool.vault_authority = vault_authority;
    ctx.trading_pool.backend_authority = backend_authority;
    ctx.trading_pool.total_orders = 0;
    Ok(())
}

} // verus!
