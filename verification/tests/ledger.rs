use stockswap::error::StockTradingError;
use stockswap::events::{BuyOrderFulfilled, SellOrderFulfilled};
use stockswap::identity::Pubkey;
use stockswap::ledger::Ledger;
use stockswap::model::{Call, Event, LedgerError, Order};
use stockswap::records::OrderStatus;

fn key(n: u8) -> Pubkey {
    Pubkey::new_from_array([n; 32])
}

const VAULT_AUTHORITY: u8 = 1;
const BACKEND: u8 = 2;
const USER: u8 = 3;
const OTHER: u8 = 4;
const MINT: u8 = 9;

/// A deployment with the symbol ACME registered and a user who holds
/// `lamports` of collateral.
fn deployment(lamports: u64) -> Ledger {
    let mut ledger = Ledger::new();
    ledger.initialize_trading_pool(key(VAULT_AUTHORITY), key(BACKEND)).unwrap();
    ledger.create_stock_mint(key(VAULT_AUTHORITY), key(MINT), "ACME".to_string(), 0).unwrap();
    ledger.credit_wallet(key(USER), lamports).unwrap();
    ledger
}

/// A deployment in which the user holds `shares` of ACME, bought at 10 each.
fn deployment_with_shares(shares: u64) -> Ledger {
    let mut ledger = deployment(shares * 10);
    if shares > 0 {
        ledger.place_buy_order(key(USER), "ACME".to_string(), shares * 10, 10, 1).unwrap();
        ledger.fulfill_buy_order(key(BACKEND), 0, shares, 10, shares * 10, 0, 2).unwrap();
    }
    ledger
}

fn rejected<T>(reason: StockTradingError) -> Result<T, LedgerError> {
    Err(LedgerError::Rejected(reason))
}

#[test]
fn new_ledger_is_empty() {
    let ledger = Ledger::new();
    assert_eq!(ledger.trading_pool(), None);
    assert_eq!(ledger.vault().lamports, 0);
    assert_eq!(ledger.total_orders(), 0);
    assert_eq!(ledger.events().len(), 0);
    assert_eq!(ledger.order(0), None);
    assert_eq!(ledger.balance_of(&key(USER)), 0);
    assert_eq!(ledger.shares_of(&key(USER), "ACME"), 0);
    assert_eq!(ledger.stock_mint_info("ACME"), None);
    assert_eq!(ledger.escrow_balance("ACME").amount, 0);
}

#[test]
fn initialize_sets_authorities_and_zero_counter() {
    let mut ledger = Ledger::new();
    assert_eq!(ledger.initialize_trading_pool(key(VAULT_AUTHORITY), key(BACKEND)), Ok(()));
    let pool = ledger.trading_pool().unwrap();
    assert_eq!(pool.vault_authority, key(VAULT_AUTHORITY));
    assert_eq!(pool.backend_authority, key(BACKEND));
    assert_eq!(pool.total_orders, 0);
    assert_eq!(ledger.events().len(), 0);
}

#[test]
fn initialize_twice_is_refused() {
    let mut ledger = Ledger::new();
    ledger.initialize_trading_pool(key(VAULT_AUTHORITY), key(BACKEND)).unwrap();
    assert_eq!(
        ledger.initialize_trading_pool(key(OTHER), key(OTHER)),
        Err(LedgerError::AlreadyInitialized)
    );
    assert_eq!(ledger.trading_pool().unwrap().vault_authority, key(VAULT_AUTHORITY));
}

#[test]
fn operations_before_initialization_are_refused() {
    let mut ledger = Ledger::new();
    ledger.credit_wallet(key(USER), 100).unwrap();
    assert_eq!(
        ledger.create_stock_mint(key(VAULT_AUTHORITY), key(MINT), "ACME".to_string(), 0),
        Err(LedgerError::NotInitialized)
    );
    assert_eq!(
        ledger.place_buy_order(key(USER), "ACME".to_string(), 10, 1, 0),
        Err(LedgerError::NotInitialized)
    );
    assert_eq!(
        ledger.place_sell_order(key(USER), "ACME".to_string(), 10, 1, 0),
        Err(LedgerError::NotInitialized)
    );
    assert_eq!(
        ledger.fulfill_buy_order(key(BACKEND), 0, 1, 1, 1, 0, 0),
        Err(LedgerError::NotInitialized)
    );
    assert_eq!(
        ledger.fulfill_sell_order(key(BACKEND), 0, 1, 1, 1, 0, 0),
        Err(LedgerError::NotInitialized)
    );
    assert_eq!(
        ledger.withdraw_vault_funds(key(VAULT_AUTHORITY), 1, 0),
        Err(LedgerError::NotInitialized)
    );
    assert_eq!(
        ledger.deposit_vault_funds(key(VAULT_AUTHORITY), 1, 0),
        Err(LedgerError::NotInitialized)
    );
    assert_eq!(
        ledger.update_authorities(key(VAULT_AUTHORITY), None, None, 0),
        Err(LedgerError::NotInitialized)
    );
    assert_eq!(ledger.balance_of(&key(USER)), 100);
    assert_eq!(ledger.events().len(), 0);
}

#[test]
fn create_symbol_registers_with_zero_supply() {
    let mut ledger = Ledger::new();
    ledger.initialize_trading_pool(key(VAULT_AUTHORITY), key(BACKEND)).unwrap();
    let event =
        ledger.create_stock_mint(key(VAULT_AUTHORITY), key(MINT), "ACME".to_string(), 6).unwrap();
    assert_eq!(event.stock_symbol, "ACME");
    assert_eq!(event.mint, key(MINT));
    assert_eq!(event.decimals, 6);
    let info = ledger.stock_mint_info("ACME").unwrap();
    assert_eq!(info.stock_symbol, "ACME");
    assert_eq!(info.mint, key(MINT));
    assert_eq!(info.total_supply, 0);
    assert_eq!(ledger.escrow_balance("ACME").amount, 0);
    assert_eq!(ledger.events().len(), 1);
    assert_eq!(ledger.events()[0], Event::StockMintCreated(event));
}

#[test]
fn create_symbol_twice_is_refused() {
    let mut ledger = deployment(0);
    assert_eq!(
        ledger.create_stock_mint(key(VAULT_AUTHORITY), key(MINT), "ACME".to_string(), 0),
        Err(LedgerError::SymbolAlreadyExists)
    );
    assert_eq!(ledger.events().len(), 1);
}

#[test]
fn create_symbol_needs_vault_authority() {
    let mut ledger = Ledger::new();
    ledger.initialize_trading_pool(key(VAULT_AUTHORITY), key(BACKEND)).unwrap();
    assert_eq!(
        ledger.create_stock_mint(key(BACKEND), key(MINT), "ACME".to_string(), 0),
        rejected(StockTradingError::UnauthorizedVaultAccess)
    );
    assert_eq!(ledger.stock_mint_info("ACME"), None);
}

#[test]
fn create_symbol_length_limit_is_ten_characters() {
    let mut ledger = Ledger::new();
    ledger.initialize_trading_pool(key(VAULT_AUTHORITY), key(BACKEND)).unwrap();
    assert!(ledger
        .create_stock_mint(key(VAULT_AUTHORITY), key(MINT), "ABCDEFGHIJ".to_string(), 0)
        .is_ok());
    assert_eq!(
        ledger.create_stock_mint(key(VAULT_AUTHORITY), key(MINT), "ABCDEFGHIJK".to_string(), 0),
        rejected(StockTradingError::StockSymbolTooLong)
    );
    assert!(ledger.create_stock_mint(key(VAULT_AUTHORITY), key(MINT), String::new(), 0).is_ok());
    assert!(ledger
        .create_stock_mint(key(VAULT_AUTHORITY), key(MINT), "ÄÖÜÄÖÜÄÖÜÄ".to_string(), 0)
        .is_ok());
}

#[test]
fn place_buy_order_escrows_collateral() {
    let mut ledger = deployment(1_000);
    let event = ledger.place_buy_order(key(USER), "ACME".to_string(), 500, 100, 77).unwrap();
    assert_eq!(event.order_id, 0);
    assert_eq!(event.user, key(USER));
    assert_eq!(event.stock_symbol, "ACME");
    assert_eq!(event.sol_amount, 500);
    assert_eq!(event.max_price_per_share, 100);
    assert_eq!(event.timestamp, 77);
    assert_eq!(ledger.balance_of(&key(USER)), 500);
    assert_eq!(ledger.vault().lamports, 500);
    assert_eq!(ledger.total_orders(), 1);
    match ledger.order(0) {
        Some(Order::Buy(order)) => {
            assert_eq!(order.user, key(USER));
            assert_eq!(order.stock_symbol, "ACME");
            assert_eq!(order.sol_amount, 500);
            assert_eq!(order.max_price_per_share, 100);
            assert_eq!(order.order_id, 0);
            assert_eq!(order.status, OrderStatus::Pending);
            assert_eq!(order.timestamp, 77);
            assert_eq!(order.shares_received, 0);
            assert_eq!(order.actual_price_per_share, 0);
        }
        other => panic!("no buy order under 0: {:?}", other),
    }
    assert_eq!(ledger.events()[1], Event::BuyOrderPlaced(event));
}

#[test]
fn place_buy_order_rejects_zero_amount() {
    let mut ledger = deployment(1_000);
    assert_eq!(
        ledger.place_buy_order(key(USER), "ACME".to_string(), 0, 100, 0),
        rejected(StockTradingError::InvalidAmount)
    );
    assert_eq!(ledger.total_orders(), 0);
}

#[test]
fn place_buy_order_rejects_long_symbol() {
    let mut ledger = deployment(1_000);
    assert_eq!(
        ledger.place_buy_order(key(USER), "ABCDEFGHIJK".to_string(), 10, 100, 0),
        rejected(StockTradingError::StockSymbolTooLong)
    );
    assert_eq!(
        ledger.place_buy_order(key(USER), "ABCDEFGHIJK".to_string(), 0, 100, 0),
        rejected(StockTradingError::StockSymbolTooLong)
    );
    assert_eq!(ledger.total_orders(), 0);
    assert_eq!(ledger.balance_of(&key(USER)), 1_000);
}

#[test]
fn place_buy_order_needs_the_collateral() {
    let mut ledger = deployment(499);
    assert_eq!(
        ledger.place_buy_order(key(USER), "ACME".to_string(), 500, 100, 0),
        rejected(StockTradingError::Underflow)
    );
    assert_eq!(ledger.balance_of(&key(USER)), 499);
    assert_eq!(ledger.vault().lamports, 0);
    assert_eq!(ledger.total_orders(), 0);
    assert_eq!(ledger.order(0), None);
}

#[test]
fn place_buy_order_for_unregistered_symbol_is_accepted() {
    let mut ledger = deployment(100);
    assert!(ledger.place_buy_order(key(USER), "NOPE".to_string(), 100, 1, 0).is_ok());
    assert_eq!(
        ledger.fulfill_buy_order(key(BACKEND), 0, 1, 1, 1, 99, 0),
        Err(LedgerError::UnknownSymbol)
    );
    assert_eq!(ledger.vault().lamports, 100);
}

#[test]
fn vault_overflow_rejects_placement() {
    let mut ledger = deployment(u64::MAX);
    ledger.credit_wallet(key(OTHER), 10).unwrap();
    ledger.place_buy_order(key(USER), "ACME".to_string(), u64::MAX, 1, 0).unwrap();
    assert_eq!(
        ledger.place_buy_order(key(OTHER), "ACME".to_string(), 1, 1, 0),
        rejected(StockTradingError::Overflow)
    );
    assert_eq!(ledger.vault().lamports, u64::MAX);
    assert_eq!(ledger.balance_of(&key(OTHER)), 10);
    assert_eq!(ledger.total_orders(), 1);
}

#[test]
fn order_counter_advances_by_one_per_placed_order() {
    let mut ledger = deployment_with_shares(50);
    ledger.credit_wallet(key(USER), 1_000).unwrap();
    assert_eq!(ledger.total_orders(), 1);
    let first = ledger.place_buy_order(key(USER), "ACME".to_string(), 10, 1, 0).unwrap();
    assert_eq!(first.order_id, 1);
    assert_eq!(ledger.total_orders(), 2);
    assert!(ledger.place_buy_order(key(USER), "ACME".to_string(), 0, 1, 0).is_err());
    assert_eq!(ledger.total_orders(), 2);
    let second = ledger.place_sell_order(key(USER), "ACME".to_string(), 5, 1, 0).unwrap();
    assert_eq!(second.order_id, 2);
    assert_eq!(ledger.total_orders(), 3);
    assert!(ledger.place_sell_order(key(USER), "ACME".to_string(), 500, 1, 0).is_err());
    assert_eq!(ledger.total_orders(), 3);
    ledger.fulfill_buy_order(key(BACKEND), 1, 1, 1, 10, 0, 0).unwrap();
    ledger.fulfill_sell_order(key(BACKEND), 2, 5, 1, 0, 0, 0).unwrap();
    ledger.deposit_vault_funds(key(VAULT_AUTHORITY), 0, 0).unwrap();
    ledger.withdraw_vault_funds(key(VAULT_AUTHORITY), 1, 0).unwrap();
    ledger.update_authorities(key(VAULT_AUTHORITY), Some(key(OTHER)), None, 0).unwrap();
    assert_eq!(ledger.total_orders(), 3);
    let third = ledger.place_buy_order(key(USER), "ACME".to_string(), 10, 1, 0).unwrap();
    assert_eq!(third.order_id, 3);
    assert_eq!(ledger.total_orders(), 4);
}

#[test]
fn buy_order_settles_with_shares_and_no_refund() {
    let mut ledger = deployment(500);
    ledger.place_buy_order(key(USER), "ACME".to_string(), 500, 100, 10).unwrap();
    let vault_after_placement = ledger.vault().lamports;
    let event = ledger.fulfill_buy_order(key(BACKEND), 0, 5, 100, 500, 0, 20).unwrap();
    assert_eq!(
        event,
        BuyOrderFulfilled {
            order_id: 0,
            user: key(USER),
            stock_symbol: "ACME".to_string(),
            shares_purchased: 5,
            price_per_share: 100,
            total_cost: 500,
            refund_amount: 0,
            timestamp: 20,
        }
    );
    match ledger.order(0) {
        Some(Order::Buy(order)) => {
            assert_eq!(order.status, OrderStatus::Fulfilled);
            assert_eq!(order.shares_received, 5);
            assert_eq!(order.actual_price_per_share, 100);
            assert_eq!(order.sol_amount, 500);
        }
        other => panic!("no buy order under 0: {:?}", other),
    }
    assert_eq!(ledger.stock_mint_info("ACME").unwrap().total_supply, 5);
    assert_eq!(ledger.shares_of(&key(USER), "ACME"), 5);
    assert_eq!(ledger.vault().lamports, vault_after_placement);
    assert_eq!(ledger.vault().lamports, 500);
    assert_eq!(ledger.balance_of(&key(USER)), 0);
    assert_eq!(ledger.events()[2], Event::BuyOrderFulfilled(event));
}

#[test]
fn full_refund_returns_the_buyer_to_their_balance() {
    let mut ledger = deployment(1_234);
    let supply_before = ledger.stock_mint_info("ACME").unwrap().total_supply;
    ledger.place_buy_order(key(USER), "ACME".to_string(), 1_000, 100, 10).unwrap();
    assert_eq!(ledger.balance_of(&key(USER)), 234);
    ledger.fulfill_buy_order(key(BACKEND), 0, 0, 0, 0, 1_000, 20).unwrap();
    assert_eq!(ledger.balance_of(&key(USER)), 1_234);
    assert_eq!(ledger.vault().lamports, 0);
    assert_eq!(ledger.stock_mint_info("ACME").unwrap().total_supply, supply_before);
    assert_eq!(ledger.shares_of(&key(USER), "ACME"), 0);
    match ledger.order(0) {
        Some(Order::Buy(order)) => assert_eq!(order.status, OrderStatus::Fulfilled),
        other => panic!("no buy order under 0: {:?}", other),
    }
}

#[test]
fn partial_refund_leaves_the_rest_in_the_vault() {
    let mut ledger = deployment(1_000);
    ledger.place_buy_order(key(USER), "ACME".to_string(), 1_000, 100, 10).unwrap();
    ledger.fulfill_buy_order(key(BACKEND), 0, 7, 90, 630, 370, 20).unwrap();
    assert_eq!(ledger.vault().lamports, 630);
    assert_eq!(ledger.balance_of(&key(USER)), 370);
    assert_eq!(ledger.shares_of(&key(USER), "ACME"), 7);
    assert_eq!(ledger.stock_mint_info("ACME").unwrap().total_supply, 7);
}

#[test]
fn settlement_by_another_caller_is_unauthorized_and_changes_nothing() {
    let mut ledger = deployment(500);
    ledger.place_buy_order(key(USER), "ACME".to_string(), 500, 100, 10).unwrap();
    for caller in [key(VAULT_AUTHORITY), key(USER), key(OTHER)] {
        assert_eq!(
            ledger.fulfill_buy_order(caller, 0, 5, 100, 500, 0, 20),
            rejected(StockTradingError::UnauthorizedBackend)
        );
        assert_eq!(
            ledger.fulfill_sell_order(caller, 0, 5, 100, 500, 0, 20),
            rejected(StockTradingError::UnauthorizedBackend)
        );
        assert_eq!(
            ledger.fulfill_buy_order(caller, 17, 5, 100, 500, 0, 20),
            rejected(StockTradingError::UnauthorizedBackend)
        );
    }
    match ledger.order(0) {
        Some(Order::Buy(order)) => {
            assert_eq!(order.status, OrderStatus::Pending);
            assert_eq!(order.shares_received, 0);
        }
        other => panic!("no buy order under 0: {:?}", other),
    }
    assert_eq!(ledger.vault().lamports, 500);
    assert_eq!(ledger.balance_of(&key(USER)), 0);
    assert_eq!(ledger.shares_of(&key(USER), "ACME"), 0);
    assert_eq!(ledger.stock_mint_info("ACME").unwrap().total_supply, 0);
    assert_eq!(ledger.total_orders(), 1);
    assert_eq!(ledger.events().len(), 2);
}

#[test]
fn price_above_the_limit_is_rejected_and_the_order_stays_pending() {
    let mut ledger = deployment(500);
    ledger.place_buy_order(key(USER), "ACME".to_string(), 500, 100, 10).unwrap();
    assert_eq!(
        ledger.fulfill_buy_order(key(BACKEND), 0, 4, 101, 404, 96, 20),
        rejected(StockTradingError::PriceExceedsLimit)
    );
    match ledger.order(0) {
        Some(Order::Buy(order)) => assert_eq!(order.status, OrderStatus::Pending),
        other => panic!("no buy order under 0: {:?}", other),
    }
    assert_eq!(ledger.vault().lamports, 500);
    assert_eq!(ledger.stock_mint_info("ACME").unwrap().total_supply, 0);
    assert!(ledger.fulfill_buy_order(key(BACKEND), 0, 5, 100, 500, 0, 20).is_ok());
}

#[test]
fn cost_and_refund_may_not_exceed_the_escrowed_collateral() {
    let mut ledger = deployment(500);
    ledger.place_buy_order(key(USER), "ACME".to_string(), 500, 100, 10).unwrap();
    assert_eq!(
        ledger.fulfill_buy_order(key(BACKEND), 0, 5, 100, 500, 1, 20),
        rejected(StockTradingError::InvalidCalculation)
    );
    assert_eq!(
        ledger.fulfill_buy_order(key(BACKEND), 0, 5, 100, u64::MAX, 2, 20),
        rejected(StockTradingError::InvalidCalculation)
    );
    assert_eq!(ledger.vault().lamports, 500);
    assert!(ledger.fulfill_buy_order(key(BACKEND), 0, 5, 100, 400, 100, 20).is_ok());
}

#[test]
fn settled_order_cannot_be_settled_again() {
    let mut ledger = deployment(500);
    ledger.place_buy_order(key(USER), "ACME".to_string(), 500, 100, 10).unwrap();
    ledger.fulfill_buy_order(key(BACKEND), 0, 5, 100, 500, 0, 20).unwrap();
    assert_eq!(
        ledger.fulfill_buy_order(key(BACKEND), 0, 5, 100, 500, 0, 30),
        rejected(StockTradingError::InvalidOrderStatus)
    );
    assert_eq!(ledger.stock_mint_info("ACME").unwrap().total_supply, 5);
    assert_eq!(ledger.shares_of(&key(USER), "ACME"), 5);
}

#[test]
fn unknown_orders_are_refused() {
    let mut ledger = deployment_with_shares(10);
    ledger.place_sell_order(key(USER), "ACME".to_string(), 4, 1, 0).unwrap();
    assert_eq!(
        ledger.fulfill_buy_order(key(BACKEND), 2, 0, 0, 0, 0, 0),
        Err(LedgerError::UnknownOrder)
    );
    assert_eq!(
        ledger.fulfill_sell_order(key(BACKEND), 2, 0, 0, 0, 0, 0),
        Err(LedgerError::UnknownOrder)
    );
    assert_eq!(
        ledger.fulfill_buy_order(key(BACKEND), 1, 0, 0, 0, 0, 0),
        Err(LedgerError::UnknownOrder)
    );
    assert_eq!(
        ledger.fulfill_sell_order(key(BACKEND), 0, 0, 0, 0, 0, 0),
        Err(LedgerError::UnknownOrder)
    );
    assert_eq!(
        ledger.fulfill_buy_order(key(BACKEND), u64::MAX, 0, 0, 0, 0, 0),
        Err(LedgerError::UnknownOrder)
    );
}

#[test]
fn refund_needs_funds_in_the_vault() {
    let mut ledger = deployment(500);
    ledger.place_buy_order(key(USER), "ACME".to_string(), 500, 100, 10).unwrap();
    ledger.withdraw_vault_funds(key(VAULT_AUTHORITY), 500, 15).unwrap();
    assert_eq!(
        ledger.fulfill_buy_order(key(BACKEND), 0, 0, 0, 0, 500, 20),
        rejected(StockTradingError::Underflow)
    );
    match ledger.order(0) {
        Some(Order::Buy(order)) => assert_eq!(order.status, OrderStatus::Pending),
        other => panic!("no buy order under 0: {:?}", other),
    }
}

#[test]
fn supply_overflow_rejects_settlement() {
    let mut ledger = deployment(20);
    ledger.credit_wallet(key(OTHER), 20).unwrap();
    ledger.place_buy_order(key(USER), "ACME".to_string(), 10, 1, 0).unwrap();
    ledger.place_buy_order(key(OTHER), "ACME".to_string(), 10, 1, 0).unwrap();
    ledger.fulfill_buy_order(key(BACKEND), 0, u64::MAX, 1, 10, 0, 0).unwrap();
    assert_eq!(
        ledger.fulfill_buy_order(key(BACKEND), 1, 1, 1, 10, 0, 0),
        rejected(StockTradingError::Overflow)
    );
    assert_eq!(ledger.stock_mint_info("ACME").unwrap().total_supply, u64::MAX);
    assert_eq!(ledger.shares_of(&key(OTHER), "ACME"), 0);
}

#[test]
fn place_sell_order_escrows_shares() {
    let mut ledger = deployment_with_shares(10);
    let event = ledger.place_sell_order(key(USER), "ACME".to_string(), 4, 25, 33).unwrap();
    assert_eq!(event.order_id, 1);
    assert_eq!(event.user, key(USER));
    assert_eq!(event.stock_symbol, "ACME");
    assert_eq!(event.shares_to_sell, 4);
    assert_eq!(event.min_price_per_share, 25);
    assert_eq!(event.timestamp, 33);
    assert_eq!(ledger.shares_of(&key(USER), "ACME"), 6);
    assert_eq!(ledger.escrow_balance("ACME").amount, 4);
    assert_eq!(ledger.stock_mint_info("ACME").unwrap().total_supply, 10);
    assert_eq!(ledger.total_orders(), 2);
    match ledger.order(1) {
        Some(Order::Sell(order)) => {
            assert_eq!(order.user, key(USER));
            assert_eq!(order.stock_symbol, "ACME");
            assert_eq!(order.shares_to_sell, 4);
            assert_eq!(order.min_price_per_share, 25);
            assert_eq!(order.order_id, 1);
            assert_eq!(order.status, OrderStatus::Pending);
            assert_eq!(order.timestamp, 33);
            assert_eq!(order.sol_received, 0);
            assert_eq!(order.actual_price_per_share, 0);
        }
        other => panic!("no sell order under 1: {:?}", other),
    }
}

#[test]
fn place_sell_order_rejections() {
    let mut ledger = deployment_with_shares(10);
    assert_eq!(
        ledger.place_sell_order(key(USER), "ACME".to_string(), 0, 1, 0),
        rejected(StockTradingError::InvalidAmount)
    );
    assert_eq!(
        ledger.place_sell_order(key(USER), "ABCDEFGHIJK".to_string(), 1, 1, 0),
        rejected(StockTradingError::StockSymbolTooLong)
    );
    assert_eq!(
        ledger.place_sell_order(key(USER), "ACME".to_string(), 11, 1, 0),
        rejected(StockTradingError::InsufficientTokens)
    );
    assert_eq!(
        ledger.place_sell_order(key(OTHER), "ACME".to_string(), 1, 1, 0),
        rejected(StockTradingError::InsufficientTokens)
    );
    assert_eq!(
        ledger.place_sell_order(key(USER), "NOPE".to_string(), 1, 1, 0),
        rejected(StockTradingError::InsufficientTokens)
    );
    assert_eq!(ledger.shares_of(&key(USER), "ACME"), 10);
    assert_eq!(ledger.escrow_balance("ACME").amount, 0);
    assert_eq!(ledger.total_orders(), 1);
    assert!(ledger.place_sell_order(key(USER), "ACME".to_string(), 10, 1, 0).is_ok());
}

#[test]
fn sell_order_settles_with_sold_and_returned_shares() {
    let mut ledger = deployment_with_shares(10);
    ledger.place_sell_order(key(USER), "ACME".to_string(), 10, 20, 5).unwrap();
    assert_eq!(ledger.vault().lamports, 100);
    let event = ledger.fulfill_sell_order(key(BACKEND), 1, 3, 20, 60, 7, 9).unwrap();
    assert_eq!(
        event,
        SellOrderFulfilled {
            order_id: 1,
            user: key(USER),
            stock_symbol: "ACME".to_string(),
            shares_sold: 3,
            price_per_share: 20,
            total_proceeds: 60,
            shares_returned: 7,
            timestamp: 9,
        }
    );
    assert_eq!(ledger.escrow_balance("ACME").amount, 0);
    assert_eq!(ledger.shares_of(&key(USER), "ACME"), 7);
    assert_eq!(ledger.stock_mint_info("ACME").unwrap().total_supply, 7);
    assert_eq!(ledger.vault().lamports, 40);
    assert_eq!(ledger.balance_of(&key(USER)), 60);
    match ledger.order(1) {
        Some(Order::Sell(order)) => {
            assert_eq!(order.status, OrderStatus::Fulfilled);
            assert_eq!(order.sol_received, 60);
            assert_eq!(order.actual_price_per_share, 20);
            assert_eq!(order.shares_to_sell, 10);
        }
        other => panic!("no sell order under 1: {:?}", other),
    }
    assert_eq!(
        ledger.fulfill_sell_order(key(BACKEND), 1, 3, 20, 60, 7, 9),
        rejected(StockTradingError::InvalidOrderStatus)
    );
}

#[test]
fn sell_order_with_nothing_sold_returns_every_share_and_pays_nothing() {
    let mut ledger = deployment_with_shares(10);
    ledger.place_sell_order(key(USER), "ACME".to_string(), 10, 20, 5).unwrap();
    ledger.fulfill_sell_order(key(BACKEND), 1, 0, 20, 60, 10, 9).unwrap();
    assert_eq!(ledger.shares_of(&key(USER), "ACME"), 10);
    assert_eq!(ledger.escrow_balance("ACME").amount, 0);
    assert_eq!(ledger.stock_mint_info("ACME").unwrap().total_supply, 10);
    assert_eq!(ledger.vault().lamports, 100);
    assert_eq!(ledger.balance_of(&key(USER)), 0);
    match ledger.order(1) {
        Some(Order::Sell(order)) => assert_eq!(order.sol_received, 60),
        other => panic!("no sell order under 1: {:?}", other),
    }
}

#[test]
fn every_escrowed_share_is_sold_or_returned() {
    let mut ledger = deployment_with_shares(10);
    ledger.place_sell_order(key(USER), "ACME".to_string(), 10, 20, 5).unwrap();
    for (sold, returned) in [(3, 6), (3, 8), (0, 0), (10, 1), (u64::MAX, 11), (11, 0)] {
        assert_eq!(
            ledger.fulfill_sell_order(key(BACKEND), 1, sold, 20, 0, returned, 9),
            rejected(StockTradingError::InvalidCalculation)
        );
    }
    assert_eq!(ledger.escrow_balance("ACME").amount, 10);
    assert!(ledger.fulfill_sell_order(key(BACKEND), 1, 10, 20, 0, 0, 9).is_ok());
}

#[test]
fn price_below_the_minimum_is_rejected() {
    let mut ledger = deployment_with_shares(10);
    ledger.place_sell_order(key(USER), "ACME".to_string(), 10, 20, 5).unwrap();
    assert_eq!(
        ledger.fulfill_sell_order(key(BACKEND), 1, 10, 19, 190, 0, 9),
        rejected(StockTradingError::PriceBelowMinimum)
    );
    match ledger.order(1) {
        Some(Order::Sell(order)) => assert_eq!(order.status, OrderStatus::Pending),
        other => panic!("no sell order under 1: {:?}", other),
    }
    assert_eq!(ledger.escrow_balance("ACME").amount, 10);
}

#[test]
fn proceeds_need_funds_in_the_vault() {
    let mut ledger = deployment_with_shares(10);
    ledger.place_sell_order(key(USER), "ACME".to_string(), 10, 20, 5).unwrap();
    assert_eq!(
        ledger.fulfill_sell_order(key(BACKEND), 1, 10, 20, 101, 0, 9),
        rejected(StockTradingError::Underflow)
    );
    assert_eq!(ledger.vault().lamports, 100);
    assert_eq!(ledger.escrow_balance("ACME").amount, 10);
    assert_eq!(ledger.stock_mint_info("ACME").unwrap().total_supply, 10);
}

#[test]
fn supply_is_what_settlements_purchased_less_what_they_sold() {
    let mut ledger = deployment(10_000);
    ledger.create_stock_mint(key(VAULT_AUTHORITY), key(MINT), "BETA".to_string(), 0).unwrap();
    ledger.place_buy_order(key(USER), "ACME".to_string(), 100, 10, 0).unwrap();
    ledger.place_buy_order(key(USER), "BETA".to_string(), 100, 10, 0).unwrap();
    ledger.place_buy_order(key(USER), "ACME".to_string(), 100, 10, 0).unwrap();
    ledger.fulfill_buy_order(key(BACKEND), 0, 10, 10, 100, 0, 0).unwrap();
    ledger.fulfill_buy_order(key(BACKEND), 1, 3, 10, 30, 70, 0).unwrap();
    ledger.fulfill_buy_order(key(BACKEND), 2, 7, 10, 70, 30, 0).unwrap();
    ledger.place_sell_order(key(USER), "ACME".to_string(), 12, 1, 0).unwrap();
    ledger.fulfill_sell_order(key(BACKEND), 3, 9, 5, 45, 3, 0).unwrap();
    assert!(ledger.fulfill_buy_order(key(BACKEND), 2, 7, 10, 70, 30, 0).is_err());
    for symbol in ["ACME", "BETA"] {
        let mut purchased: u64 = 0;
        let mut sold: u64 = 0;
        for event in ledger.events().iter() {
            match event {
                Event::BuyOrderFulfilled(settled) if settled.stock_symbol == symbol => {
                    purchased += settled.shares_purchased;
                }
                Event::SellOrderFulfilled(settled) if settled.stock_symbol == symbol => {
                    sold += settled.shares_sold;
                }
                _ => {}
            }
        }
        assert_eq!(ledger.stock_mint_info(symbol).unwrap().total_supply, purchased - sold);
    }
    assert_eq!(ledger.stock_mint_info("ACME").unwrap().total_supply, 8);
    assert_eq!(ledger.stock_mint_info("BETA").unwrap().total_supply, 3);
    assert_eq!(ledger.shares_of(&key(USER), "ACME"), 8);
    assert_eq!(ledger.shares_of(&key(USER), "BETA"), 3);
    assert_eq!(ledger.escrow_balance("ACME").amount, 0);
}

#[test]
fn deposit_moves_funds_into_the_vault() {
    let mut ledger = deployment(0);
    ledger.credit_wallet(key(VAULT_AUTHORITY), 300).unwrap();
    let event = ledger.deposit_vault_funds(key(VAULT_AUTHORITY), 120, 8).unwrap();
    assert_eq!(event.authority, key(VAULT_AUTHORITY));
    assert_eq!(event.amount, 120);
    assert_eq!(event.timestamp, 8);
    assert_eq!(ledger.vault().lamports, 120);
    assert_eq!(ledger.balance_of(&key(VAULT_AUTHORITY)), 180);
    assert_eq!(ledger.events()[1], Event::VaultFundsDeposited(event));
    assert_eq!(
        ledger.deposit_vault_funds(key(VAULT_AUTHORITY), 181, 8),
        rejected(StockTradingError::Underflow)
    );
    assert_eq!(
        ledger.deposit_vault_funds(key(USER), 0, 8),
        rejected(StockTradingError::UnauthorizedVaultAccess)
    );
    assert_eq!(ledger.vault().lamports, 120);
}

#[test]
fn withdraw_moves_funds_out_of_the_vault() {
    let mut ledger = deployment(500);
    ledger.place_buy_order(key(USER), "ACME".to_string(), 500, 100, 10).unwrap();
    assert_eq!(
        ledger.withdraw_vault_funds(key(BACKEND), 1, 0),
        rejected(StockTradingError::UnauthorizedVaultAccess)
    );
    assert_eq!(
        ledger.withdraw_vault_funds(key(VAULT_AUTHORITY), 501, 0),
        rejected(StockTradingError::Underflow)
    );
    assert_eq!(ledger.vault().lamports, 500);
    let event = ledger.withdraw_vault_funds(key(VAULT_AUTHORITY), 200, 12).unwrap();
    assert_eq!(event.authority, key(VAULT_AUTHORITY));
    assert_eq!(event.amount, 200);
    assert_eq!(event.timestamp, 12);
    assert_eq!(ledger.vault().lamports, 300);
    assert_eq!(ledger.balance_of(&key(VAULT_AUTHORITY)), 200);
    assert_eq!(ledger.events()[2], Event::VaultFundsWithdrawn(event));
}

#[test]
fn withdraw_rejects_what_the_authority_cannot_hold() {
    let mut ledger = deployment(10);
    ledger.credit_wallet(key(VAULT_AUTHORITY), u64::MAX).unwrap();
    ledger.place_buy_order(key(USER), "ACME".to_string(), 10, 1, 0).unwrap();
    assert_eq!(
        ledger.withdraw_vault_funds(key(VAULT_AUTHORITY), 1, 0),
        rejected(StockTradingError::Overflow)
    );
    assert_eq!(ledger.vault().lamports, 10);
}

#[test]
fn update_authorities_overwrites_what_is_given() {
    let mut ledger = deployment(0);
    let event = ledger.update_authorities(key(VAULT_AUTHORITY), None, Some(key(OTHER)), 5).unwrap();
    assert_eq!(event.vault_authority, key(VAULT_AUTHORITY));
    assert_eq!(event.backend_authority, key(OTHER));
    assert_eq!(event.timestamp, 5);
    assert_eq!(ledger.events()[1], Event::AuthoritiesUpdated(event));
    let pool = ledger.trading_pool().unwrap();
    assert_eq!(pool.vault_authority, key(VAULT_AUTHORITY));
    assert_eq!(pool.backend_authority, key(OTHER));

    let event = ledger.update_authorities(key(VAULT_AUTHORITY), Some(key(USER)), None, 6).unwrap();
    assert_eq!(event.vault_authority, key(USER));
    assert_eq!(event.backend_authority, key(OTHER));
    assert_eq!(
        ledger.update_authorities(key(VAULT_AUTHORITY), None, None, 7),
        rejected(StockTradingError::UnauthorizedVaultAccess)
    );
    let event = ledger.update_authorities(key(USER), None, None, 8).unwrap();
    assert_eq!(event.vault_authority, key(USER));
    assert_eq!(event.backend_authority, key(OTHER));
    let event =
        ledger.update_authorities(key(USER), Some(key(BACKEND)), Some(key(BACKEND)), 9).unwrap();
    assert_eq!(event.vault_authority, key(BACKEND));
    assert_eq!(event.backend_authority, key(BACKEND));
    assert_eq!(ledger.total_orders(), 0);
}

#[test]
fn new_backend_authority_takes_over_settlement() {
    let mut ledger = deployment(500);
    ledger.place_buy_order(key(USER), "ACME".to_string(), 500, 100, 10).unwrap();
    ledger.update_authorities(key(VAULT_AUTHORITY), None, Some(key(OTHER)), 5).unwrap();
    assert_eq!(
        ledger.fulfill_buy_order(key(BACKEND), 0, 5, 100, 500, 0, 20),
        rejected(StockTradingError::UnauthorizedBackend)
    );
    assert!(ledger.fulfill_buy_order(key(OTHER), 0, 5, 100, 500, 0, 20).is_ok());
}

#[test]
fn credit_wallet_adds_collateral() {
    let mut ledger = Ledger::new();
    assert_eq!(ledger.credit_wallet(key(USER), 5), Ok(()));
    assert_eq!(ledger.credit_wallet(key(USER), 7), Ok(()));
    assert_eq!(ledger.credit_wallet(key(OTHER), 1), Ok(()));
    assert_eq!(ledger.balance_of(&key(USER)), 12);
    assert_eq!(ledger.balance_of(&key(OTHER)), 1);
    assert_eq!(
        ledger.credit_wallet(key(USER), u64::MAX - 11),
        rejected(StockTradingError::Overflow)
    );
    assert_eq!(ledger.balance_of(&key(USER)), 12);
    assert_eq!(ledger.credit_wallet(key(USER), u64::MAX - 12), Ok(()));
    assert_eq!(ledger.balance_of(&key(USER)), u64::MAX);
    assert_eq!(ledger.events().len(), 0);
}

#[test]
fn holdings_are_kept_per_user_and_symbol() {
    let mut ledger = deployment(100);
    ledger.create_stock_mint(key(VAULT_AUTHORITY), key(MINT), "BETA".to_string(), 0).unwrap();
    ledger.credit_wallet(key(OTHER), 100).unwrap();
    ledger.place_buy_order(key(USER), "ACME".to_string(), 50, 10, 0).unwrap();
    ledger.place_buy_order(key(OTHER), "ACME".to_string(), 50, 10, 0).unwrap();
    ledger.place_buy_order(key(USER), "BETA".to_string(), 50, 10, 0).unwrap();
    ledger.fulfill_buy_order(key(BACKEND), 0, 1, 10, 10, 40, 0).unwrap();
    ledger.fulfill_buy_order(key(BACKEND), 1, 2, 10, 20, 30, 0).unwrap();
    ledger.fulfill_buy_order(key(BACKEND), 2, 3, 10, 30, 20, 0).unwrap();
    assert_eq!(ledger.shares_of(&key(USER), "ACME"), 1);
    assert_eq!(ledger.shares_of(&key(OTHER), "ACME"), 2);
    assert_eq!(ledger.shares_of(&key(USER), "BETA"), 3);
    assert_eq!(ledger.shares_of(&key(OTHER), "BETA"), 0);
    assert_eq!(ledger.balance_of(&key(USER)), 60);
    assert_eq!(ledger.balance_of(&key(OTHER)), 80);
    assert_eq!(ledger.vault().lamports, 60);
}

#[test]
fn apply_makes_each_call_as_its_operation_does() {
    let mut ledger = Ledger::new();
    assert_eq!(
        ledger.apply(Call::InitializeTradingPool {
            vault_authority: key(VAULT_AUTHORITY),
            backend_authority: key(BACKEND),
        }),
        Ok(None)
    );
    assert_eq!(ledger.apply(Call::CreditWallet { owner: key(USER), lamports: 1_000 }), Ok(None));
    assert_eq!(
        ledger.apply(Call::CreditWallet { owner: key(VAULT_AUTHORITY), lamports: 50 }),
        Ok(None)
    );
    let created = ledger
        .apply(Call::CreateStockMint {
            caller: key(VAULT_AUTHORITY),
            stock_mint: key(MINT),
            stock_symbol: "ACME".to_string(),
            decimals: 0,
        })
        .unwrap();
    assert!(matches!(created, Some(Event::StockMintCreated(_))));
    let placed = ledger
        .apply(Call::PlaceBuyOrder {
            user: key(USER),
            stock_symbol: "ACME".to_string(),
            sol_amount: 600,
            max_price_per_share: 100,
            unix_timestamp: 1,
        })
        .unwrap();
    assert!(matches!(placed, Some(Event::BuyOrderPlaced(_))));
    assert_eq!(
        ledger.apply(Call::FulfillBuyOrder {
            caller: key(USER),
            order_id: 0,
            shares_purchased: 6,
            price_per_share: 100,
            total_cost: 600,
            refund_amount: 0,
            unix_timestamp: 2,
        }),
        rejected(StockTradingError::UnauthorizedBackend)
    );
    let settled = ledger
        .apply(Call::FulfillBuyOrder {
            caller: key(BACKEND),
            order_id: 0,
            shares_purchased: 6,
            price_per_share: 100,
            total_cost: 600,
            refund_amount: 0,
            unix_timestamp: 2,
        })
        .unwrap();
    assert!(matches!(settled, Some(Event::BuyOrderFulfilled(_))));
    let offered = ledger
        .apply(Call::PlaceSellOrder {
            user: key(USER),
            stock_symbol: "ACME".to_string(),
            shares_to_sell: 4,
            min_price_per_share: 90,
            unix_timestamp: 3,
        })
        .unwrap();
    assert!(matches!(offered, Some(Event::SellOrderPlaced(_))));
    let sold = ledger
        .apply(Call::FulfillSellOrder {
            caller: key(BACKEND),
            order_id: 1,
            shares_sold: 3,
            price_per_share: 95,
            total_proceeds: 285,
            shares_returned: 1,
            unix_timestamp: 4,
        })
        .unwrap();
    assert!(matches!(sold, Some(Event::SellOrderFulfilled(_))));
    let deposited = ledger
        .apply(Call::DepositVaultFunds { caller: key(VAULT_AUTHORITY), amount: 50, unix_timestamp: 5 })
        .unwrap();
    assert!(matches!(deposited, Some(Event::VaultFundsDeposited(_))));
    let withdrawn = ledger
        .apply(Call::WithdrawVaultFunds {
            caller: key(VAULT_AUTHORITY),
            amount: 65,
            unix_timestamp: 6,
        })
        .unwrap();
    assert!(matches!(withdrawn, Some(Event::VaultFundsWithdrawn(_))));
    let updated = ledger
        .apply(Call::UpdateAuthorities {
            caller: key(VAULT_AUTHORITY),
            new_vault_authority: None,
            new_backend_authority: Some(key(OTHER)),
            unix_timestamp: 7,
        })
        .unwrap();
    assert!(matches!(updated, Some(Event::AuthoritiesUpdated(_))));

    assert_eq!(ledger.events().len(), 8);
    assert_eq!(ledger.total_orders(), 2);
    assert_eq!(ledger.vault().lamports, 600 - 285 + 50 - 65);
    assert_eq!(ledger.balance_of(&key(USER)), 1_000 - 600 + 285);
    assert_eq!(ledger.balance_of(&key(VAULT_AUTHORITY)), 65);
    assert_eq!(ledger.shares_of(&key(USER), "ACME"), 6 - 4 + 1);
    assert_eq!(ledger.escrow_balance("ACME").amount, 0);
    assert_eq!(ledger.stock_mint_info("ACME").unwrap().total_supply, 3);
    assert_eq!(ledger.trading_pool().unwrap().backend_authority, key(OTHER));
}

#[test]
fn audit_log_accounts_for_vault_escrow_and_holdings() {
    let mut ledger = deployment(5_000);
    ledger.credit_wallet(key(OTHER), 5_000).unwrap();
    ledger.credit_wallet(key(VAULT_AUTHORITY), 500).unwrap();
    ledger.place_buy_order(key(USER), "ACME".to_string(), 1_000, 10, 1).unwrap();
    ledger.place_buy_order(key(OTHER), "ACME".to_string(), 2_000, 10, 2).unwrap();
    ledger.fulfill_buy_order(key(BACKEND), 0, 90, 10, 900, 100, 3).unwrap();
    ledger.fulfill_buy_order(key(BACKEND), 1, 200, 10, 2_000, 0, 4).unwrap();
    ledger.place_sell_order(key(USER), "ACME".to_string(), 50, 5, 5).unwrap();
    ledger.place_sell_order(key(OTHER), "ACME".to_string(), 20, 5, 6).unwrap();
    ledger.fulfill_sell_order(key(BACKEND), 2, 30, 8, 240, 20, 7).unwrap();
    ledger.deposit_vault_funds(key(VAULT_AUTHORITY), 400, 8).unwrap();
    ledger.withdraw_vault_funds(key(VAULT_AUTHORITY), 150, 9).unwrap();
    assert!(ledger.fulfill_sell_order(key(BACKEND), 3, 30, 8, 240, 20, 10).is_err());

    let mut vault: i128 = 0;
    let mut escrow: i128 = 0;
    let mut held_by_user: i128 = 0;
    let mut held_by_other: i128 = 0;
    for event in ledger.events().iter() {
        match event {
            Event::BuyOrderPlaced(placed) => vault += placed.sol_amount as i128,
            Event::BuyOrderFulfilled(settled) => {
                vault -= settled.refund_amount as i128;
                if settled.user == key(USER) {
                    held_by_user += settled.shares_purchased as i128;
                } else {
                    held_by_other += settled.shares_purchased as i128;
                }
            }
            Event::SellOrderPlaced(placed) => {
                escrow += placed.shares_to_sell as i128;
                if placed.user == key(USER) {
                    held_by_user -= placed.shares_to_sell as i128;
                } else {
                    held_by_other -= placed.shares_to_sell as i128;
                }
            }
            Event::SellOrderFulfilled(settled) => {
                escrow -= (settled.shares_sold + settled.shares_returned) as i128;
                if settled.shares_sold > 0 {
                    vault -= settled.total_proceeds as i128;
                }
                if settled.user == key(USER) {
                    held_by_user += settled.shares_returned as i128;
                } else {
                    held_by_other += settled.shares_returned as i128;
                }
            }
            Event::VaultFundsDeposited(deposited) => vault += deposited.amount as i128,
            Event::VaultFundsWithdrawn(withdrawn) => vault -= withdrawn.amount as i128,
            _ => {}
        }
    }
    assert_eq!(ledger.vault().lamports as i128, vault);
    assert_eq!(ledger.escrow_balance("ACME").amount as i128, escrow);
    assert_eq!(ledger.shares_of(&key(USER), "ACME") as i128, held_by_user);
    assert_eq!(ledger.shares_of(&key(OTHER), "ACME") as i128, held_by_other);
    assert_eq!(ledger.vault().lamports, 1_000 + 2_000 - 100 - 240 + 400 - 150);
    assert_eq!(ledger.escrow_balance("ACME").amount, 20);
    assert_eq!(ledger.shares_of(&key(USER), "ACME"), 90 - 50 + 20);
    assert_eq!(ledger.shares_of(&key(OTHER), "ACME"), 200 - 20);
    let supply = ledger.stock_mint_info("ACME").unwrap().total_supply;
    assert_eq!(supply, 90 + 200 - 30);
    assert_eq!(
        supply,
        ledger.escrow_balance("ACME").amount
            + ledger.shares_of(&key(USER), "ACME")
            + ledger.shares_of(&key(OTHER), "ACME")
    );
}

#[test]
fn orders_keep_what_they_were_placed_with() {
    let mut ledger = deployment(1_000);
    ledger.place_buy_order(key(USER), "ACME".to_string(), 500, 100, 10).unwrap();
    let placed = ledger.order(0).unwrap();
    ledger.place_buy_order(key(USER), "ACME".to_string(), 100, 100, 11).unwrap();
    ledger.deposit_vault_funds(key(VAULT_AUTHORITY), 0, 12).unwrap();
    ledger.fulfill_buy_order(key(BACKEND), 1, 1, 100, 100, 0, 13).unwrap();
    assert_eq!(ledger.order(0), Some(placed));
    ledger.fulfill_buy_order(key(BACKEND), 0, 5, 100, 500, 0, 14).unwrap();
    let settled = ledger.order(0).unwrap();
    ledger.place_sell_order(key(USER), "ACME".to_string(), 6, 1, 15).unwrap();
    ledger.fulfill_sell_order(key(BACKEND), 2, 6, 1, 6, 0, 16).unwrap();
    assert!(ledger.fulfill_buy_order(key(BACKEND), 0, 5, 100, 500, 0, 17).is_err());
    assert_eq!(ledger.order(0), Some(settled));
    match ledger.order(0) {
        Some(Order::Buy(order)) => {
            assert_eq!(order.user, key(USER));
            assert_eq!(order.stock_symbol, "ACME");
            assert_eq!(order.sol_amount, 500);
            assert_eq!(order.max_price_per_share, 100);
            assert_eq!(order.order_id, 0);
            assert_eq!(order.timestamp, 10);
        }
        other => panic!("no buy order under 0: {:?}", other),
    }
}
