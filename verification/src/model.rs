//! The ledger as a state machine: its state as mathematical maps and
//! sequences, and what each operation makes of a state.
//!
//! An operation first finds the records that it touches, by the keys that the
//! caller names; then the rules of `instructions` decide on those records;
//! then the changed records are written back. A call that is refused changes
//! nothing.

use vstd::prelude::*;
use crate::error::StockTradingError;
use crate::events::{
    AuthoritiesUpdated, BuyOrderFulfilled, BuyOrderPlaced, SellOrderFulfilled, SellOrderPlaced,
    StockMintCreated, VaultFundsDeposited, VaultFundsWithdrawn,
};
use crate::identity::Pubkey;
use crate::instructions::{
    CreateStockMint, DepositVaultFunds, FulfillBuyOrder, FulfillSellOrder, PlaceBuyOrder,
    PlaceSellOrder, UpdateAuthorities, WithdrawVaultFunds,
};
use crate::records::{
    BuyOrder, EscrowBalance, SellOrder, StockMintInfo, SystemAccount, TokenAccount, TradingPool,
    Vault,
};

verus! {

/// Why the ledger refused a call.
#[derive(Clone, Copy, Debug, PartialEq, Eq, Structural, Hash)]
pub enum LedgerError {
    /// The pool registry does not exist yet.
    NotInitialized,
    /// The pool registry exists already.
    AlreadyInitialized,
    /// The symbol is registered already.
    SymbolAlreadyExists,
    /// The symbol is not registered.
    UnknownSymbol,
    /// There is no order of that kind under that number.
    UnknownOrder,
    /// A rule of the settlement program rejected the transaction.
    Rejected(StockTradingError),
}

/// What the ledger keeps of one registered symbol.
#[derive(Debug, PartialEq, Eq)]
pub struct SymbolEntry {
    /// The symbol's registry.
    pub info: StockMintInfo,
    /// The shares that pending sell orders have surrendered.
    pub escrow: EscrowBalance,
}

/// An order of either kind.
#[derive(Debug, PartialEq, Eq)]
pub enum Order {
    Buy(BuyOrder),
    Sell(SellOrder),
}

impl Clone for Order {
    fn clone(&self) -> (copy: Self)
        ensures
            copy == *self,
    {
        match self {
            Order::Buy(order) => Order::Buy(order.clone()),
            Order::Sell(order) => Order::Sell(order.clone()),
        }
    }
}

impl Clone for Event {
    fn clone(&self) -> (copy: Self)
        ensures
            copy == *self,
    {
        match self {
            Event::StockMintCreated(event) => Event::StockMintCreated(event.clone()),
            Event::BuyOrderPlaced(event) => Event::BuyOrderPlaced(event.clone()),
            Event::BuyOrderFulfilled(event) => Event::BuyOrderFulfilled(event.clone()),
            Event::SellOrderPlaced(event) => Event::SellOrderPlaced(event.clone()),
            Event::SellOrderFulfilled(event) => Event::SellOrderFulfilled(event.clone()),
            Event::VaultFundsWithdrawn(event) => Event::VaultFundsWithdrawn(*event),
            Event::VaultFundsDeposited(event) => Event::VaultFundsDeposited(*event),
            Event::AuthoritiesUpdated(event) => Event::AuthoritiesUpdated(*event),
        }
    }
}

impl Order {
    /// The order's number.
    pub open spec fn id(self) -> u64 {
        match self {
            Order::Buy(order) => order.order_id,
            Order::Sell(order) => order.order_id,
        }
    }
}

/// An entry of the audit log.
#[derive(Debug, PartialEq, Eq)]
pub enum Event {
    StockMintCreated(StockMintCreated),
    BuyOrderPlaced(BuyOrderPlaced),
    BuyOrderFulfilled(BuyOrderFulfilled),
    SellOrderPlaced(SellOrderPlaced),
    SellOrderFulfilled(SellOrderFulfilled),
    VaultFundsWithdrawn(VaultFundsWithdrawn),
    VaultFundsDeposited(VaultFundsDeposited),
    AuthoritiesUpdated(AuthoritiesUpdated),
}

/// A call of one operation, with the caller and the time where the
/// operation looks at them.
#[derive(Debug, PartialEq, Eq)]
pub enum Call {
    InitializeTradingPool { vault_authority: Pubkey, backend_authority: Pubkey },
    CreateStockMint { caller: Pubkey, stock_mint: Pubkey, stock_symbol: String, decimals: u8 },
    PlaceBuyOrder {
        user: Pubkey,
        stock_symbol: String,
        sol_amount: u64,
        max_price_per_share: u64,
        unix_timestamp: i64,
    },
    FulfillBuyOrder {
        caller: Pubkey,
        order_id: u64,
        shares_purchased: u64,
        price_per_share: u64,
        total_cost: u64,
        refund_amount: u64,
        unix_timestamp: i64,
    },
    PlaceSellOrder {
        user: Pubkey,
        stock_symbol: String,
        shares_to_sell: u64,
        min_price_per_share: u64,
        unix_timestamp: i64,
    },
    FulfillSellOrder {
        caller: Pubkey,
        order_id: u64,
        shares_sold: u64,
        price_per_share: u64,
        total_proceeds: u64,
        shares_returned: u64,
        unix_timestamp: i64,
    },
    WithdrawVaultFunds { caller: Pubkey, amount: u64, unix_timestamp: i64 },
    DepositVaultFunds { caller: Pubkey, amount: u64, unix_timestamp: i64 },
    UpdateAuthorities {
        caller: Pubkey,
        new_vault_authority: Option<Pubkey>,
        new_backend_authority: Option<Pubkey>,
        unix_timestamp: i64,
    },
    CreditWallet { owner: Pubkey, lamports: u64 },
}

/// The state of the ledger.
#[verifier::ext_equal]
pub struct LedgerState {
    /// The pool registry, once the deployment is initialized.
    pub pool: Option<TradingPool>,
    /// The vault.
    pub vault: Vault,
    /// The registered symbols, by symbol.
    pub symbols: Map<Seq<char>, SymbolEntry>,
    /// All orders ever placed, by order number.
    pub orders: Seq<Order>,
    /// The collateral that each identity holds outside the vault.
    pub wallets: Map<Pubkey, u64>,
    /// The shares that each identity holds, by identity and symbol.
    pub holdings: Map<(Pubkey, Seq<char>), u64>,
    /// The audit log, oldest event first.
    pub events: Seq<Event>,
}

impl LedgerState {
    /// The state of a new deployment: nothing registered, nothing held.
    pub open spec fn empty() -> LedgerState {
        LedgerState {
            pool: None,
            vault: Vault { lamports: 0 },
            symbols: Map::empty(),
            orders: Seq::empty(),
            wallets: Map::empty(),
            holdings: Map::empty(),
            events: Seq::empty(),
        }
    }

    /// The collateral that `owner` holds outside the vault.
    pub open spec fn lamports_of(self, owner: Pubkey) -> u64 {
        if self.wallets.contains_key(owner) {
            self.wallets[owner]
        } else {
            0
        }
    }

    /// The shares of `symbol` that `owner` holds.
    pub open spec fn shares_of(self, owner: Pubkey, symbol: Seq<char>) -> u64 {
        if self.holdings.contains_key((owner, symbol)) {
            self.holdings[(owner, symbol)]
        } else {
            0
        }
    }

    /// The shares of `symbol` in escrow; none where it is not registered.
    pub open spec fn escrow_of(self, symbol: Seq<char>) -> u64 {
        if self.symbols.contains_key(symbol) {
            self.symbols[symbol].escrow.amount
        } else {
            0
        }
    }

    /// The shares of `symbol` outstanding; none where it is not registered.
    pub open spec fn supply_of(self, symbol: Seq<char>) -> u64 {
        if self.symbols.contains_key(symbol) {
            self.symbols[symbol].info.total_supply
        } else {
            0
        }
    }

    /// The order counter; zero before the deployment is initialized.
    pub open spec fn total_orders(self) -> u64 {
        match self.pool {
            Some(pool) => pool.total_orders,
            None => 0,
        }
    }

    /// Creates the pool registry. Refused where one exists.
    pub open spec fn initialize_trading_pool(
        self,
        vault_authority: Pubkey,
        backend_authority: Pubkey,
    ) -> Result<LedgerState, LedgerError> {
        if self.pool is Some {
            Err(LedgerError::AlreadyInitialized)
        } else {
            Ok(
                LedgerState {
                    pool: Some(TradingPool { vault_authority, backend_authority, total_orders: 0 }),
                    ..self
                },
            )
        }
    }

    /// The records that registering a symbol touches.
    pub open spec fn create_stock_mint_records(
        self,
        caller: Pubkey,
        stock_mint: Pubkey,
    ) -> CreateStockMint {
        CreateStockMint {
            stock_mint,
            stock_mint_info: arbitrary(),
            trading_pool: self.pool->Some_0,
            vault_authority: caller,
        }
    }

    /// Registers a symbol. Refused where the caller is not the vault
    /// authority, the symbol is too long, or the symbol is registered.
    pub open spec fn create_stock_mint(
        self,
        caller: Pubkey,
        stock_mint: Pubkey,
        stock_symbol: String,
        decimals: u8,
    ) -> Result<LedgerState, LedgerError> {
        let records = self.create_stock_mint_records(caller, stock_mint);
        if self.pool is None {
            Err(LedgerError::NotInitialized)
        } else if records.rejection(stock_symbol@) is Some {
            Err(LedgerError::Rejected(records.rejection(stock_symbol@)->Some_0))
        } else if self.symbols.contains_key(stock_symbol@) {
            Err(LedgerError::SymbolAlreadyExists)
        } else {
            Ok(
                LedgerState {
                    symbols: self.symbols.insert(
                        stock_symbol@,
                        SymbolEntry {
                            info: records.registry(stock_symbol),
                            escrow: EscrowBalance { amount: 0 },
                        },
                    ),
                    events: self.events.push(
                        Event::StockMintCreated(
                            StockMintCreated { stock_symbol, mint: stock_mint, decimals },
                        ),
                    ),
                    ..self
                },
            )
        }
    }

    /// The records that placing a buy order touches.
    pub open spec fn place_buy_order_records(self, user: Pubkey) -> PlaceBuyOrder {
        PlaceBuyOrder {
            buy_order: arbitrary(),
            trading_pool: self.pool->Some_0,
            trading_pool_vault: self.vault,
            user: SystemAccount { key: user, lamports: self.lamports_of(user) },
        }
    }

    /// Places a buy order for `user`.
    pub open spec fn place_buy_order(
        self,
        user: Pubkey,
        stock_symbol: String,
        sol_amount: u64,
        max_price_per_share: u64,
        unix_timestamp: i64,
    ) -> Result<LedgerState, LedgerError> {
        let records = self.place_buy_order_records(user);
        let placed = records.placed(stock_symbol, sol_amount, max_price_per_share, unix_timestamp);
        if self.pool is None {
            Err(LedgerError::NotInitialized)
        } else if records.rejection(stock_symbol@, sol_amount) is Some {
            Err(LedgerError::Rejected(records.rejection(stock_symbol@, sol_amount)->Some_0))
        } else {
            Ok(
                LedgerState {
                    pool: Some(placed.trading_pool),
                    vault: placed.trading_pool_vault,
                    wallets: self.wallets.insert(user, placed.user.lamports),
                    orders: self.orders.push(Order::Buy(placed.buy_order)),
                    events: self.events.push(
                        Event::BuyOrderPlaced(
                            records.event(
                                stock_symbol,
                                sol_amount,
                                max_price_per_share,
                                unix_timestamp,
                            ),
                        ),
                    ),
                    ..self
                },
            )
        }
    }

    /// Whether a buy order stands under `order_id`.
    pub open spec fn has_buy_order(self, order_id: u64) -> bool {
        order_id < self.orders.len() && self.orders[order_id as int] is Buy
    }

    /// Whether a sell order stands under `order_id`.
    pub open spec fn has_sell_order(self, order_id: u64) -> bool {
        order_id < self.orders.len() && self.orders[order_id as int] is Sell
    }

    /// The records that settling the buy order `order_id` touches.
    pub open spec fn fulfill_buy_order_records(
        self,
        caller: Pubkey,
        order_id: u64,
    ) -> FulfillBuyOrder {
        let order = self.orders[order_id as int]->Buy_0;
        FulfillBuyOrder {
            buy_order: order,
            stock_mint_info: self.symbols[order.stock_symbol@].info,
            user_stock_token_account: TokenAccount {
                amount: self.shares_of(order.user, order.stock_symbol@),
            },
            trading_pool: self.pool->Some_0,
            trading_pool_vault: self.vault,
            user: SystemAccount { key: order.user, lamports: self.lamports_of(order.user) },
            backend_authority: caller,
        }
    }

    /// Settles the buy order `order_id` on behalf of `caller`.
    pub open spec fn fulfill_buy_order(
        self,
        caller: Pubkey,
        order_id: u64,
        shares_purchased: u64,
        price_per_share: u64,
        total_cost: u64,
        refund_amount: u64,
        unix_timestamp: i64,
    ) -> Result<LedgerState, LedgerError> {
        let records = self.fulfill_buy_order_records(caller, order_id);
        let rejection = records.rejection(
            shares_purchased,
            price_per_share,
            total_cost,
            refund_amount,
        );
        let settled = records.settled(shares_purchased, price_per_share, refund_amount);
        let symbol = records.buy_order.stock_symbol@;
        if self.pool is None {
            Err(LedgerError::NotInitialized)
        } else if caller != self.pool->Some_0.backend_authority {
            Err(LedgerError::Rejected(StockTradingError::UnauthorizedBackend))
        } else if !self.has_buy_order(order_id) {
            Err(LedgerError::UnknownOrder)
        } else if !self.symbols.contains_key(symbol) {
            Err(LedgerError::UnknownSymbol)
        } else if rejection is Some {
            Err(LedgerError::Rejected(rejection->Some_0))
        } else {
            Ok(
                LedgerState {
                    vault: settled.trading_pool_vault,
                    symbols: self.symbols.insert(
                        symbol,
                        SymbolEntry {
                            info: settled.stock_mint_info,
                            escrow: self.symbols[symbol].escrow,
                        },
                    ),
                    orders: self.orders.update(order_id as int, Order::Buy(settled.buy_order)),
                    wallets: self.wallets.insert(records.user.key, settled.user.lamports),
                    holdings: self.holdings.insert(
                        (records.user.key, symbol),
                        settled.user_stock_token_account.amount,
                    ),
                    events: self.events.push(
                        Event::BuyOrderFulfilled(
                            records.event(
                                shares_purchased,
                                price_per_share,
                                total_cost,
                                refund_amount,
                                unix_timestamp,
                            ),
                        ),
                    ),
                    ..self
                },
            )
        }
    }

    /// The records that placing a sell order touches.
    pub open spec fn place_sell_order_records(
        self,
        user: Pubkey,
        symbol: Seq<char>,
    ) -> PlaceSellOrder {
        PlaceSellOrder {
            sell_order: arbitrary(),
            user_stock_token_account: TokenAccount { amount: self.shares_of(user, symbol) },
            escrow_token_account: EscrowBalance { amount: self.escrow_of(symbol) },
            trading_pool: self.pool->Some_0,
            user,
        }
    }

    /// Places a sell order for `user`. A symbol that is not registered has
    /// no escrow to hold the shares: the call is refused.
    pub open spec fn place_sell_order(
        self,
        user: Pubkey,
        stock_symbol: String,
        shares_to_sell: u64,
        min_price_per_share: u64,
        unix_timestamp: i64,
    ) -> Result<LedgerState, LedgerError> {
        let records = self.place_sell_order_records(user, stock_symbol@);
        let placed = records.placed(
            stock_symbol,
            shares_to_sell,
            min_price_per_share,
            unix_timestamp,
        );
        if self.pool is None {
            Err(LedgerError::NotInitialized)
        } else if records.rejection(stock_symbol@, shares_to_sell) is Some {
            Err(LedgerError::Rejected(records.rejection(stock_symbol@, shares_to_sell)->Some_0))
        } else if !self.symbols.contains_key(stock_symbol@) {
            Err(LedgerError::UnknownSymbol)
        } else {
            Ok(
                LedgerState {
                    pool: Some(placed.trading_pool),
                    symbols: self.symbols.insert(
                        stock_symbol@,
                        SymbolEntry {
                            info: self.symbols[stock_symbol@].info,
                            escrow: placed.escrow_token_account,
                        },
                    ),
                    holdings: self.holdings.insert(
                        (user, stock_symbol@),
                        placed.user_stock_token_account.amount,
                    ),
                    orders: self.orders.push(Order::Sell(placed.sell_order)),
                    events: self.events.push(
                        Event::SellOrderPlaced(
                            records.event(
                                stock_symbol,
                                shares_to_sell,
                                min_price_per_share,
                                unix_timestamp,
                            ),
                        ),
                    ),
                    ..self
                },
            )
        }
    }

    /// The records that settling the sell order `order_id` touches.
    pub open spec fn fulfill_sell_order_records(
        self,
        caller: Pubkey,
        order_id: u64,
    ) -> FulfillSellOrder {
        let order = self.orders[order_id as int]->Sell_0;
        FulfillSellOrder {
            sell_order: order,
            stock_mint_info: self.symbols[order.stock_symbol@].info,
            user_stock_token_account: TokenAccount {
                amount: self.shares_of(order.user, order.stock_symbol@),
            },
            escrow_token_account: self.symbols[order.stock_symbol@].escrow,
            trading_pool: self.pool->Some_0,
            trading_pool_vault: self.vault,
            user: SystemAccount { key: order.user, lamports: self.lamports_of(order.user) },
            backend_authority: caller,
        }
    }

    /// Settles the sell order `order_id` on behalf of `caller`.
    pub open spec fn fulfill_sell_order(
        self,
        caller: Pubkey,
        order_id: u64,
        shares_sold: u64,
        price_per_share: u64,
        total_proceeds: u64,
        shares_returned: u64,
        unix_timestamp: i64,
    ) -> Result<LedgerState, LedgerError> {
        let records = self.fulfill_sell_order_records(caller, order_id);
        let rejection = records.rejection(
            shares_sold,
            price_per_share,
            total_proceeds,
            shares_returned,
        );
        let settled = records.settled(
            shares_sold,
            price_per_share,
            total_proceeds,
            shares_returned,
        );
        let symbol = records.sell_order.stock_symbol@;
        if self.pool is None {
            Err(LedgerError::NotInitialized)
        } else if caller != self.pool->Some_0.backend_authority {
            Err(LedgerError::Rejected(StockTradingError::UnauthorizedBackend))
        } else if !self.has_sell_order(order_id) {
            Err(LedgerError::UnknownOrder)
        } else if !self.symbols.contains_key(symbol) {
            Err(LedgerError::UnknownSymbol)
        } else if rejection is Some {
            Err(LedgerError::Rejected(rejection->Some_0))
        } else {
            Ok(
                LedgerState {
                    vault: settled.trading_pool_vault,
                    symbols: self.symbols.insert(
                        symbol,
                        SymbolEntry {
                            info: settled.stock_mint_info,
                            escrow: settled.escrow_token_account,
                        },
                    ),
                    orders: self.orders.update(order_id as int, Order::Sell(settled.sell_order)),
                    wallets: self.wallets.insert(records.user.key, settled.user.lamports),
                    holdings: self.holdings.insert(
                        (records.user.key, symbol),
                        settled.user_stock_token_account.amount,
                    ),
                    events: self.events.push(
                        Event::SellOrderFulfilled(
                            records.event(
                                shares_sold,
                                price_per_share,
                                total_proceeds,
                                shares_returned,
                                unix_timestamp,
                            ),
                        ),
                    ),
                    ..self
                },
            )
        }
    }

    /// The records that a withdrawal from the vault touches.
    pub open spec fn withdraw_vault_funds_records(self, caller: Pubkey) -> WithdrawVaultFunds {
        WithdrawVaultFunds {
            trading_pool: self.pool->Some_0,
            trading_pool_vault: self.vault,
            vault_authority: SystemAccount { key: caller, lamports: self.lamports_of(caller) },
        }
    }

    /// Moves `amount` from the vault to `caller`.
    pub open spec fn withdraw_vault_funds(
        self,
        caller: Pubkey,
        amount: u64,
        unix_timestamp: i64,
    ) -> Result<LedgerState, LedgerError> {
        let records = self.withdraw_vault_funds_records(caller);
        let withdrawn = records.withdrawn(amount);
        if self.pool is None {
            Err(LedgerError::NotInitialized)
        } else if records.rejection(amount) is Some {
            Err(LedgerError::Rejected(records.rejection(amount)->Some_0))
        } else {
            Ok(
                LedgerState {
                    vault: withdrawn.trading_pool_vault,
                    wallets: self.wallets.insert(caller, withdrawn.vault_authority.lamports),
                    events: self.events.push(
                        Event::VaultFundsWithdrawn(
                            VaultFundsWithdrawn {
                                authority: caller,
                                amount,
                                timestamp: unix_timestamp,
                            },
                        ),
                    ),
                    ..self
                },
            )
        }
    }

    /// The records that a deposit into the vault touches.
    pub open spec fn deposit_vault_funds_records(self, caller: Pubkey) -> DepositVaultFunds {
        DepositVaultFunds {
            trading_pool: self.pool->Some_0,
            trading_pool_vault: self.vault,
            vault_authority: SystemAccount { key: caller, lamports: self.lamports_of(caller) },
        }
    }

    /// Moves `amount` from `caller` into the vault.
    pub open spec fn deposit_vault_funds(
        self,
        caller: Pubkey,
        amount: u64,
        unix_timestamp: i64,
    ) -> Result<LedgerState, LedgerError> {
        let records = self.deposit_vault_funds_records(caller);
        let deposited = records.deposited(amount);
        if self.pool is None {
            Err(LedgerError::NotInitialized)
        } else if records.rejection(amount) is Some {
            Err(LedgerError::Rejected(records.rejection(amount)->Some_0))
        } else {
            Ok(
                LedgerState {
                    vault: deposited.trading_pool_vault,
                    wallets: self.wallets.insert(caller, deposited.vault_authority.lamports),
                    events: self.events.push(
                        Event::VaultFundsDeposited(
                            VaultFundsDeposited {
                                authority: caller,
                                amount,
                                timestamp: unix_timestamp,
                            },
                        ),
                    ),
                    ..self
                },
            )
        }
    }

    /// Appoints new authorities on behalf of `caller`.
    pub open spec fn update_authorities(
        self,
        caller: Pubkey,
        new_vault_authority: Option<Pubkey>,
        new_backend_authority: Option<Pubkey>,
        unix_timestamp: i64,
    ) -> Result<LedgerState, LedgerError> {
        let records = UpdateAuthorities {
            trading_pool: self.pool->Some_0,
            current_vault_authority: caller,
        };
        let updated = records.updated(new_vault_authority, new_backend_authority);
        if self.pool is None {
            Err(LedgerError::NotInitialized)
        } else if caller != self.pool->Some_0.vault_authority {
            Err(LedgerError::Rejected(StockTradingError::UnauthorizedVaultAccess))
        } else {
            Ok(
                LedgerState {
                    pool: Some(updated),
                    events: self.events.push(
                        Event::AuthoritiesUpdated(
                            AuthoritiesUpdated {
                                vault_authority: updated.vault_authority,
                                backend_authority: updated.backend_authority,
                                timestamp: unix_timestamp,
                            },
                        ),
                    ),
                    ..self
                },
            )
        }
    }

    /// Adds `lamports` of collateral, which come from outside the ledger, to
    /// what `owner` holds.
    pub open spec fn credit_wallet(self, owner: Pubkey, lamports: u64) -> Result<
        LedgerState,
        LedgerError,
    > {
        if self.lamports_of(owner) + lamports > u64::MAX {
            Err(LedgerError::Rejected(StockTradingError::Overflow))
        } else {
            Ok(
                LedgerState {
                    wallets: self.wallets.insert(
                        owner,
                        (self.lamports_of(owner) + lamports) as u64,
                    ),
                    ..self
                },
            )
        }
    }

    /// What `call` makes of this state, or why it is refused.
    pub open spec fn step(self, call: Call) -> Result<LedgerState, LedgerError> {
        match call {
            Call::InitializeTradingPool { vault_authority, backend_authority } => {
                self.initialize_trading_pool(vault_authority, backend_authority)
            },
            Call::CreateStockMint { caller, stock_mint, stock_symbol, decimals } => {
                self.create_stock_mint(caller, stock_mint, stock_symbol, decimals)
            },
            Call::PlaceBuyOrder {
                user,
                stock_symbol,
                sol_amount,
                max_price_per_share,
                unix_timestamp,
            } => self.place_buy_order(
                user,
                stock_symbol,
                sol_amount,
                max_price_per_share,
                unix_timestamp,
            ),
            Call::FulfillBuyOrder {
                caller,
                order_id,
                shares_purchased,
                price_per_share,
                total_cost,
                refund_amount,
                unix_timestamp,
            } => self.fulfill_buy_order(
                caller,
                order_id,
                shares_purchased,
                price_per_share,
                total_cost,
                refund_amount,
                unix_timestamp,
            ),
            Call::PlaceSellOrder {
                user,
                stock_symbol,
                shares_to_sell,
                min_price_per_share,
                unix_timestamp,
            } => self.place_sell_order(
                user,
                stock_symbol,
                shares_to_sell,
                min_price_per_share,
                unix_timestamp,
            ),
            Call::FulfillSellOrder {
                caller,
                order_id,
                shares_sold,
                price_per_share,
                total_proceeds,
                shares_returned,
                unix_timestamp,
            } => self.fulfill_sell_order(
                caller,
                order_id,
                shares_sold,
                price_per_share,
                total_proceeds,
                shares_returned,
                unix_timestamp,
            ),
            Call::WithdrawVaultFunds { caller, amount, unix_timestamp } => {
                self.withdraw_vault_funds(caller, amount, unix_timestamp)
            },
            Call::DepositVaultFunds { caller, amount, unix_timestamp } => {
                self.deposit_vault_funds(caller, amount, unix_timestamp)
            },
            Call::UpdateAuthorities {
                caller,
                new_vault_authority,
                new_backend_authority,
                unix_timestamp,
            } => self.update_authorities(
                caller,
                new_vault_authority,
                new_backend_authority,
                unix_timestamp,
            ),
            Call::CreditWallet { owner, lamports } => self.credit_wallet(owner, lamports),
        }
    }

    /// The state after `call`: what the call makes of it, or this state
    /// where the call is refused.
    pub open spec fn after(self, call: Call) -> LedgerState {
        match self.step(call) {
            Ok(next) => next,
            Err(_) => self,
        }
    }

    /// The state after the calls of `calls`, one after the other.
    pub open spec fn run(self, calls: Seq<Call>) -> LedgerState
        decreases calls.len(),
    {
        if calls.len() == 0 {
            self
        } else {
            self.run(calls.drop_last()).after(calls.last())
        }
    }
}

} // verus!
