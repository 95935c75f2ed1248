//! The records that the ledger keeps: the pool registry, the symbol
//! registries, the orders, and the balances that a transaction touches.

use vstd::prelude::*;
use crate::identity::Pubkey;

verus! {

/// The longest symbol that can be registered or traded, in characters.
pub const MAX_SYMBOL_LEN: usize = 10;

/// Where an order stands. An order starts pending and is settled once.
#[derive(Clone, Copy, Debug, PartialEq, Eq, Structural, Hash)]
pub enum OrderStatus {
    /// Placed; what it escrowed is locked until settlement.
    Pending,
    /// Settled by the backend authority. Final.
    Fulfilled,
    /// Withdrawn. Final. No operation leads here.
    Cancelled,
}

/// The pool registry: the two authorities and the order counter.
#[derive(Clone, Copy, Debug, PartialEq, Eq)]
pub struct TradingPool {
    /// Who may move the vault's funds and appoint the authorities.
    pub vault_authority: Pubkey,
    /// Who may settle orders.
    pub backend_authority: Pubkey,
    /// How many orders were placed so far; the next order's number.
    pub total_orders: u64,
}

/// The registry of one symbol.
#[derive(Debug, PartialEq, Eq)]
pub struct StockMintInfo {
    /// The symbol, at most ten characters.
    pub stock_symbol: String,
    /// The address under which the symbol's shares are issued.
    pub mint: Pubkey,
    /// The shares of this symbol that are outstanding.
    pub total_supply: u64,
}

/// An order to buy shares with escrowed collateral.
#[derive(Debug, PartialEq, Eq)]
pub struct BuyOrder {
    /// Who placed the order.
    pub user: Pubkey,
    /// The symbol to buy.
    pub stock_symbol: String,
    /// The collateral that was escrowed when the order was placed.
    pub sol_amount: u64,
    /// The highest price per share that the buyer accepts.
    pub max_price_per_share: u64,
    /// The order's number, the pool's counter when it was placed.
    pub order_id: u64,
    /// Where the order stands.
    pub status: OrderStatus,
    /// When the order was placed.
    pub timestamp: i64,
    /// The shares that settlement gave the buyer.
    pub shares_received: u64,
    /// The price per share at which the order was settled.
    pub actual_price_per_share: u64,
}

/// An order to sell escrowed shares for collateral.
#[derive(Debug, PartialEq, Eq)]
pub struct SellOrder {
    /// Who placed the order.
    pub user: Pubkey,
    /// The symbol to sell.
    pub stock_symbol: String,
    /// The shares that were escrowed when the order was placed.
    pub shares_to_sell: u64,
    /// The lowest price per share that the seller accepts.
    pub min_price_per_share: u64,
    /// The order's number, the pool's counter when it was placed.
    pub order_id: u64,
    /// Where the order stands.
    pub status: OrderStatus,
    /// When the order was placed.
    pub timestamp: i64,
    /// The collateral that settlement paid the seller.
    pub sol_received: u64,
    /// The price per share at which the order was settled.
    pub actual_price_per_share: u64,
}

/// The custodial collateral of the deployment.
#[derive(Clone, Copy, Debug, PartialEq, Eq, Structural)]
pub struct Vault {
    /// The collateral held.
    pub lamports: u64,
}

/// The shares of one symbol that pending sell orders have surrendered.
#[derive(Clone, Copy, Debug, PartialEq, Eq, Structural)]
pub struct EscrowBalance {
    /// The shares held.
    pub amount: u64,
}

/// The shares of one symbol that one user holds.
#[derive(Clone, Copy, Debug, PartialEq, Eq, Structural)]
pub struct TokenAccount {
    /// The shares held.
    pub amount: u64,
}

/// A user's or an authority's own collateral.
#[derive(Clone, Copy, Debug, PartialEq, Eq)]
pub struct SystemAccount {
    /// Whose collateral it is.
    pub key: Pubkey,
    /// The collateral held.
    pub lamports: u64,
}

impl Clone for StockMintInfo {
    fn clone(&self) -> (copy: Self)
        ensures
            copy == *self,
    {
        StockMintInfo {
            stock_symbol: self.stock_symbol.clone(),
            mint: self.mint,
            total_supply: self.total_supply,
        }
    }
}

impl Clone for BuyOrder {
    fn clone(&self) -> (copy: Self)
        ensures
            copy == *self,
    {
        BuyOrder {
            user: self.user,
            stock_symbol: self.stock_symbol.clone(),
            sol_amount: self.sol_amount,
            max_price_per_share: self.max_price_per_share,
            order_id: self.order_id,
            status: self.status,
            timestamp: self.timestamp,
            shares_received: self.shares_received,
            actual_price_per_share: self.actual_price_per_share,
        }
    }
}

impl Clone for SellOrder {
    fn clone(&self) -> (copy: Self)
        ensures
            copy == *self,
    {
        SellOrder {
            user: self.user,
            stock_symbol: self.stock_symbol.clone(),
            shares_to_sell: self.shares_to_sell,
            min_price_per_share: self.min_price_per_share,
            order_id: self.order_id,
            status: self.status,
            timestamp: self.timestamp,
            sol_received: self.sol_received,
            actual_price_per_share: self.actual_price_per_share,
        }
    }
}

} // verus!
