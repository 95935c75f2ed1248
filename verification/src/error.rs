//! The reasons for which the settlement program rejects a transaction.

use vstd::prelude::*;

verus! {

/// Why a transaction was rejected. A rejected transaction changes nothing.
#[derive(Clone, Copy, Debug, PartialEq, Eq, Structural, Hash)]
pub enum StockTradingError {
    /// The symbol has more than ten characters.
    StockSymbolTooLong,
    /// An amount of zero was given where a positive one is needed.
    InvalidAmount,
    /// The order is not pending any more.
    InvalidOrderStatus,
    /// The settlement price lies above the buyer's limit.
    PriceExceedsLimit,
    /// The settlement price lies below the seller's limit.
    PriceBelowMinimum,
    /// The settlement figures do not account for what was escrowed.
    InvalidCalculation,
    /// The caller is not the backend authority.
    UnauthorizedBackend,
    /// The caller is not the vault authority.
    UnauthorizedVaultAccess,
    /// The seller holds fewer shares than the order offers.
    InsufficientTokens,
    /// A supply or a balance would exceed the largest amount that can be held.
    Overflow,
    /// A supply or a balance would fall below zero.
    Underflow,
}

impl StockTradingError {
    /// The text that describes each rejection.
    pub open spec fn message_text(self) -> Seq<char> {
        match self {
            StockTradingError::StockSymbolTooLong => "Stock symbol too long"@,
            StockTradingError::InvalidAmount => "Invalid amount"@,
            StockTradingError::InvalidOrderStatus => "Invalid order status"@,
            StockTradingError::PriceExceedsLimit => "Price exceeds maximum limit"@,
            StockTradingError::PriceBelowMinimum => "Price below minimum limit"@,
            StockTradingError::InvalidCalculation => "Invalid calculation"@,
            StockTradingError::UnauthorizedBackend => "Unauthorized backend access"@,
            StockTradingError::UnauthorizedVaultAccess => "Unauthorized vault access"@,
            StockTradingError::InsufficientTokens => "Insufficient tokens"@,
            StockTradingError::Overflow => "Arithmetic overflow"@,
            StockTradingError::Underflow => "Arithmetic underflow"@,
        }
    }

    /// The description of this rejection, as shown to a caller.
    pub fn message(&self) -> (text: String)
        ensures
            text@ == self.message_text(),
    {
        match self {
            StockTradingError::StockSymbolTooLong => "Stock symbol too long".to_owned(),
            StockTradingError::InvalidAmount => "Invalid amount".to_owned(),
            StockTradingError::InvalidOrderStatus => "Invalid order status".to_owned(),
            StockTradingError::PriceExceedsLimit => "Price exceeds maximum limit".to_owned(),
            StockTradingError::PriceBelowMinimum => "Price below minimum limit".to_owned(),
            StockTradingError::InvalidCalculation => "Invalid calculation".to_owned(),
            StockTradingError::UnauthorizedBackend => "Unauthorized backend access".to_owned(),
            StockTradingError::UnauthorizedVaultAccess => "Unauthorized vault access".to_owned(),
            StockTradingError::InsufficientTokens => "Insufficient tokens".to_owned(),
            StockTradingError::Overflow => "Arithmetic overflow".to_owned(),
            StockTradingError::Underflow => "Arithmetic underflow".to_owned(),
        }
    }
}

} // verus!
