//! The audit events. Every operation that changes the ledger yields one; an
//! event is never revised.

use vstd::prelude::*;
use crate::identity::Pubkey;

verus! {

/// A symbol was registered.
#[derive(Debug, PartialEq, Eq)]
pub struct StockMintCreated {
    pub stock_symbol: String,
    pub mint: Pubkey,
    pub decimals: u8,
}

/// A buy order was placed and its collateral escrowed.
#[derive(Debug, PartialEq, Eq)]
pub struct BuyOrderPlaced {
    pub order_id: u64,
    pub user: Pubkey,
    pub stock_symbol: String,
    pub sol_amount: u64,
    pub max_price_per_share: u64,
    pub timestamp: i64,
}

/// A buy order was settled.
#[derive(Debug, PartialEq, Eq)]
pub struct BuyOrderFulfilled {
    pub order_id: u64,
    pub user: Pubkey,
    pub stock_symbol: String,
    pub shares_purchased: u64,
    pub price_per_share: u64,
    pub total_cost: u64,
    pub refund_amount: u64,
    pub timestamp: i64,
}

/// A sell order was placed and its shares escrowed.
#[derive(Debug, PartialEq, Eq)]
pub struct SellOrderPlaced {
    pub order_id: u64,
    pub user: Pubkey,
    pub stock_symbol: String,
    pub shares_to_sell: u64,
    pub min_price_per_share: u64,
    pub timestamp: i64,
}

/// A sell order was settled.
#[derive(Debug, PartialEq, Eq)]
pub struct SellOrderFulfilled {
    pub order_id: u64,
    pub user: Pubkey,
    pub stock_symbol: String,
    pub shares_sold: u64,
    pub price_per_share: u64,
    pub total_proceeds: u64,
    pub shares_returned: u64,
    pub timestamp: i64,
}

/// The vault authority took collateral out of the vault.
#[derive(Clone, Copy, Debug, PartialEq, Eq)]
pub struct VaultFundsWithdrawn {
    pub authority: Pubkey,
    pub amount: u64,
    pub timestamp: i64,
}

/// The vault authority put collateral into the vault.
#[derive(Clone, Copy, Debug, PartialEq, Eq)]
pub struct VaultFundsDeposited {
    pub authority: Pubkey,
    pub amount: u64,
    pub timestamp: i64,
}

/// The authorities were appointed anew; the event carries the resulting pair.
#[derive(Clone, Copy, Debug, PartialEq, Eq)]
pub struct AuthoritiesUpdated {
    pub vault_authority: Pubkey,
    pub backend_authority: Pubkey,
    pub timestamp: i64,
}

impl Clone for StockMintCreated {
    fn clone(&self) -> (copy: Self)
        ensures
            copy == *self,
    {
        StockMintCreated {
            stock_symbol: self.stock_symbol.clone(),
            mint: self.mint,
            decimals: self.decimals,
        }
    }
}

impl Clone for BuyOrderPlaced {
    fn clone(&self) -> (copy: Self)
        ensures
            copy == *self,
    {
        BuyOrderPlaced {
            order_id: self.order_id,
            user: self.user,
            stock_symbol: self.stock_symbol.clone(),
            sol_amount: self.sol_amount,
            max_price_per_share: self.max_price_per_share,
            timestamp: self.timestamp,
        }
    }
}

impl Clone for BuyOrderFulfilled {
    fn clone(&self) -> (copy: Self)
        ensures
            copy == *self,
    {
        BuyOrderFulfilled {
            order_id: self.order_id,
            user: self.user,
            stock_symbol: self.stock_symbol.clone(),
            shares_purchased: self.shares_purchased,
            price_per_share: self.price_per_share,
            total_cost: self.total_cost,
            refund_amount: self.refund_amount,
            timestamp: self.timestamp,
        }
    }
}

impl Clone for SellOrderPlaced {
    fn clone(&self) -> (copy: Self)
        ensures
            copy == *self,
    {
        SellOrderPlaced {
            order_id: self.order_id,
            user: self.user,
            stock_symbol: self.stock_symbol.clone(),
            shares_to_sell: self.shares_to_sell,
            min_price_per_share: self.min_price_per_share,
            timestamp: self.timestamp,
        }
    }
}

impl Clone for SellOrderFulfilled {
    fn clone(&self) -> (copy: Self)
        ensures
            copy == *self,
    {
        SellOrderFulfilled {
            order_id: self.order_id,
            user: self.user,
            stock_symbol: self.stock_symbol.clone(),
            shares_sold: self.shares_sold,
            price_per_share: self.price_per_share,
            total_proceeds: self.total_proceeds,
            shares_returned: self.shares_returned,
            timestamp: self.timestamp,
        }
    }
}

} // verus!
