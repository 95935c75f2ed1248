//! The ledger: the pool registry, the symbol registries, the orders, the
//! vault, the escrows and the balances of one deployment, and the operations
//! on them. Each operation is one transaction: it applies all of its changes
//! or none.

use vstd::prelude::*;
use crate::error::StockTradingError;
use crate::events::{
    AuthoritiesUpdated, BuyOrderFulfilled, BuyOrderPlaced, SellOrderFulfilled, SellOrderPlaced,
    StockMintCreated, VaultFundsDeposited, VaultFundsWithdrawn,
};
use crate::identity::Pubkey;
use crate::instructions::{
    CreateStockMint, DepositVaultFunds, FulfillBuyOrder, FulfillSellOrder, InitializeTradingPool,
    PlaceBuyOrder, PlaceSellOrder, UpdateAuthorities, WithdrawVaultFunds,
};
use crate::invariants::{lemma_empty_sound, lemma_step_sound};
use crate::model::{Call, Event, LedgerError, LedgerState, Order, SymbolEntry};
use crate::records::{
    BuyOrder, EscrowBalance, OrderStatus, SellOrder, StockMintInfo, SystemAccount, TokenAccount,
    TradingPool, Vault,
};
use crate::table::{Key, Table};

verus! {

/// Who holds shares of which symbol: the key of a holding.
#[derive(Debug, PartialEq, Eq)]
pub struct Holder {
    pub owner: Pubkey,
    pub stock_symbol: String,
}

impl View for Holder {
    type V = (Pubkey, Seq<char>);

    open spec fn view(&self) -> (Pubkey, Seq<char>) {
        (self.owner, self.stock_symbol@)
    }
}

impl Key for Holder {
    fn same(&self, other: &Self) -> (result: bool) {
        self.owner == other.owner && self.stock_symbol == other.stock_symbol
    }
}

/// The ledger of one deployment.
pub struct Ledger {
    pool: Option<TradingPool>,
    vault: Vault,
    symbols: Table<String, SymbolEntry>,
    orders: Vec<Order>,
    wallets: Table<Pubkey, u64>,
    holdings: Table<Holder, u64>,
    events: Vec<Event>,
}

impl View for Ledger {
    type V = LedgerState;

    closed spec fn view(&self) -> LedgerState {
        LedgerState {
            pool: self.pool,
            vault: self.vault,
            symbols: self.symbols@,
            orders: self.orders@,
            wallets: self.wallets@,
            holdings: self.holdings@,
            events: self.events@,
        }
    }
}

impl Ledger {
    /// Whether the ledger is well formed. Every ledger that this library
    /// hands out is.
    pub closed spec fn wf(&self) -> bool {
        &&& self.symbols.wf()
        &&& self.wallets.wf()
        &&& self.holdings.wf()
        &&& self@.sound()
    }

    /// A well-formed ledger is sound: what holds of every ledger that calls
    /// have made of the empty one holds of it.
    pub proof fn lemma_sound(&self)
        requires
            self.wf(),
        ensures
            self@.sound(),
    {
    }

    /// The ledger of a new deployment.
    pub fn new() -> (ledger: Ledger)
        ensures
            ledger.wf(),
            ledger@ == LedgerState::empty(),
    {
        proof {
            lemma_empty_sound();
        }
        Ledger {
            pool: None,
            vault: Vault { lamports: 0 },
            symbols: Table::new(),
            orders: Vec::new(),
            wallets: Table::new(),
            holdings: Table::new(),
            events: Vec::new(),
        }
    }

    /// The pool registry, once the deployment is initialized.
    pub fn trading_pool(&self) -> (pool: Option<TradingPool>)
        ensures
            pool == self@.pool,
    {
        self.pool
    }

    /// The vault.
    pub fn vault(&self) -> (vault: Vault)
        ensures
            vault == self@.vault,
    {
        self.vault
    }

    /// The order counter: how many orders were placed.
    pub fn total_orders(&self) -> (count: u64)
        ensures
            count == self@.total_orders(),
    {
        match self.pool {
            Some(pool) => pool.total_orders,
            None => 0,
        }
    }

    /// The registry of `stock_symbol`, if the symbol is registered.
    pub fn stock_mint_info(&self, stock_symbol: &str) -> (info: Option<StockMintInfo>)
        requires
            self.wf(),
        ensures
            match info {
                Some(info) => self@.symbols.contains_key(stock_symbol@) && info
                    == self@.symbols[stock_symbol@].info,
                None => !self@.symbols.contains_key(stock_symbol@),
            },
    {
        match self.symbols.get(&stock_symbol.to_owned()) {
            Some(entry) => Some(entry.info.clone()),
            None => None,
        }
    }

    /// The shares of `stock_symbol` held in escrow for pending sell orders.
    pub fn escrow_balance(&self, stock_symbol: &str) -> (escrow: EscrowBalance)
        requires
            self.wf(),
        ensures
            escrow.amount == self@.escrow_of(stock_symbol@),
    {
        match self.symbols.get(&stock_symbol.to_owned()) {
            Some(entry) => entry.escrow,
            None => EscrowBalance { amount: 0 },
        }
    }

    /// The order under `order_id`, if one was placed under that number.
    pub fn order(&self, order_id: u64) -> (order: Option<Order>)
        ensures
            match order {
                Some(order) => order_id < self@.orders.len() && order
                    == self@.orders[order_id as int],
                None => order_id >= self@.orders.len(),
            },
    {
        if order_id < self.orders.len() as u64 {
            Some(self.orders[order_id as usize].clone())
        } else {
            None
        }
    }

    /// The audit log, oldest event first.
    pub fn events(&self) -> (events: &Vec<Event>)
        ensures
            events@ == self@.events,
    {
        &self.events
    }

    /// The collateral that `owner` holds outside the vault.
    pub fn balance_of(&self, owner: &Pubkey) -> (lamports: u64)
        requires
            self.wf(),
        ensures
            lamports == self@.lamports_of(*owner),
    {
        match self.wallets.get(owner) {
            Some(lamports) => *lamports,
            None => 0,
        }
    }

    /// The shares of `stock_symbol` that `owner` holds.
    pub fn shares_of(&self, owner: &Pubkey, stock_symbol: &str) -> (shares: u64)
        requires
            self.wf(),
        ensures
            shares == self@.shares_of(*owner, stock_symbol@),
    {
        let holder = Holder { owner: *owner, stock_symbol: stock_symbol.to_owned() };
        match self.holdings.get(&holder) {
            Some(shares) => *shares,
            None => 0,
        }
    }

    /// Settles the buy order `order_id` on behalf of `caller`, who must be
    /// the backend authority, and returns the audit event.
    pub fn fulfill_buy_order(
        &mut self,
        caller: Pubkey,
        order_id: u64,
        shares_purchased: u64,
        price_per_share: u64,
        total_cost: u64,
        refund_amount: u64,
        unix_timestamp: i64,
    ) -> (result: Result<BuyOrderFulfilled, LedgerError>)
        requires
            old(self).wf(),
        ensures
            final(self).wf(),
            match old(self)@.fulfill_buy_order(
                caller,
                order_id,
                shares_purchased,
                price_per_share,
                total_cost,
                refund_amount,
                unix_timestamp,
            ) {
                Ok(next) => final(self)@ == next && result is Ok && Event::BuyOrderFulfilled(
                    result->Ok_0,
                ) == next.events.last(),
                Err(reason) => final(self)@ == old(self)@ && result == Err::<
                    BuyOrderFulfilled,
                    LedgerError,
                >(reason),
            },
    {
        proof {
            lemma_step_sound(
                old(self)@,
                Call::FulfillBuyOrder {
                    caller,
                    order_id,
                    shares_purchased,
                    price_per_share,
                    total_cost,
                    refund_amount,
                    unix_timestamp,
                },
            );
        }
        let pool = match self.pool {
            Some(pool) => pool,
            None => {
                return Err(LedgerError::NotInitialized);
            },
        };
        if !(caller == pool.backend_authority) {
            return Err(LedgerError::Rejected(StockTradingError::UnauthorizedBackend));
        }
        if order_id >= self.orders.len() as u64 {
            return Err(LedgerError::UnknownOrder);
        }
        let index = order_id as usize;
        let order = match &self.orders[index] {
            Order::Buy(order) => order.clone(),
            Order::Sell(_) => {
                return Err(LedgerError::UnknownOrder);
            },
        };
        let (info, escrow) = match self.symbols.get(&order.stock_symbol) {
            Some(entry) => (entry.info.clone(), entry.escrow),
            None => {
                return Err(LedgerError::UnknownSymbol);
            },
        };
        let user = order.user;
        let holder = Holder { owner: user, stock_symbol: order.stock_symbol.clone() };
        let symbol = order.stock_symbol.clone();
        let shares = match self.holdings.get(&holder) {
            Some(shares) => *shares,
            None => 0,
        };
        let lamports = self.balance_of(&user);
        let mut ctx = FulfillBuyOrder {
            buy_order: order,
            stock_mint_info: info,
            user_stock_token_account: TokenAccount { amount: shares },
            trading_pool: pool,
            trading_pool_vault: self.vault,
            user: SystemAccount { key: user, lamports },
            backend_authority: caller,
        };
        match crate::instructions::fulfill_buy_order(
            &mut ctx,
            shares_purchased,
            price_per_share,
            total_cost,
            refund_amount,
            unix_timestamp,
        ) {
            Err(reason) => Err(LedgerError::Rejected(reason)),
            Ok(event) => {
                let FulfillBuyOrder {
                    buy_order,
                    stock_mint_info,
                    user_stock_token_account,
                    trading_pool: _,
                    trading_pool_vault,
                    user: payee,
                    backend_authority: _,
                } = ctx;
                self.vault = trading_pool_vault;
                self.symbols.insert(symbol, SymbolEntry { info: stock_mint_info, escrow });
                self.orders.set(index, Order::Buy(buy_order));
                self.wallets.insert(user, payee.lamports);
                self.holdings.insert(holder, user_stock_token_account.amount);
                self.events.push(Event::BuyOrderFulfilled(event.clone()));
                Ok(event)
            },
        }
    }

    /// Settles the sell order `order_id` on behalf of `caller`, who must be
    /// the backend authority, and returns the audit event.
    pub fn fulfill_sell_order(
        &mut self,
        caller: Pubkey,
        order_id: u64,
        shares_sold: u64,
        price_per_share: u64,
        total_proceeds: u64,
        shares_returned: u64,
        unix_timestamp: i64,
    ) -> (result: Result<SellOrderFulfilled, LedgerError>)
        requires
            old(self).wf(),
        ensures
            final(self).wf(),
            match old(self)@.fulfill_sell_order(
                caller,
                order_id,
                shares_sold,
                price_per_share,
                total_proceeds,
                shares_returned,
                unix_timestamp,
            ) {
                Ok(next) => final(self)@ == next && result is Ok && Event::SellOrderFulfilled(
                    result->Ok_0,
                ) == next.events.last(),
                Err(reason) => final(self)@ == old(self)@ && result == Err::<
                    SellOrderFulfilled,
                    LedgerError,
                >(reason),
            },
    {
        proof {
            lemma_step_sound(
                old(self)@,
                Call::FulfillSellOrder {
                    caller,
                    order_id,
                    shares_sold,
                    price_per_share,
                    total_proceeds,
                    shares_returned,
                    unix_timestamp,
                },
            );
        }
        let pool = match self.pool {
            Some(pool) => pool,
            None => {
                return Err(LedgerError::NotInitialized);
            },
        };
        if !(caller == pool.backend_authority) {
            return Err(LedgerError::Rejected(StockTradingError::UnauthorizedBackend));
        }
        if order_id >= self.orders.len() as u64 {
            return Err(LedgerError::UnknownOrder);
        }
        let index = order_id as usize;
        let order = match &self.orders[index] {
            Order::Sell(order) => order.clone(),
            Order::Buy(_) => {
                return Err(LedgerError::UnknownOrder);
            },
        };
        let (info, escrow) = match self.symbols.get(&order.stock_symbol) {
            Some(entry) => (entry.info.clone(), entry.escrow),
            None => {
                return Err(LedgerError::UnknownSymbol);
            },
        };
        let user = order.user;
        let holder = Holder { owner: user, stock_symbol: order.stock_symbol.clone() };
        let symbol = order.stock_symbol.clone();
        let shares = match self.holdings.get(&holder) {
            Some(shares) => *shares,
            None => 0,
        };
        let lamports = self.balance_of(&user);
        let mut ctx = FulfillSellOrder {
            sell_order: order,
            stock_mint_info: info,
            user_stock_token_account: TokenAccount { amount: shares },
            escrow_token_account: escrow,
            trading_pool: pool,
            trading_pool_vault: self.vault,
            user: SystemAccount { key: user, lamports },
            backend_authority: caller,
        };
        match crate::instructions::fulfill_sell_order(
            &mut ctx,
            shares_sold,
            price_per_share,
            total_proceeds,
            shares_returned,
            unix_timestamp,
        ) {
            Err(reason) => Err(LedgerError::Rejected(reason)),
            Ok(event) => {
                let FulfillSellOrder {
                    sell_order,
                    stock_mint_info,
                    user_stock_token_account,
                    escrow_token_account,
                    trading_pool: _,
                    trading_pool_vault,
                    user: payee,
                    backend_authority: _,
                } = ctx;
                self.vault = trading_pool_vault;
                self.symbols.insert(
                    symbol,
                    SymbolEntry { info: stock_mint_info, escrow: escrow_token_account },
                );
                self.orders.set(index, Order::Sell(sell_order));
                self.wallets.insert(user, payee.lamports);
                self.holdings.insert(holder, user_stock_token_account.amount);
                self.events.push(Event::SellOrderFulfilled(event.clone()));
                Ok(event)
            },
        }
    }

    /// Places a sell order for `user` and returns the audit event. The shares
    /// offered move from the seller into the symbol's escrow.
    pub fn place_sell_order(
        &mut self,
        user: Pubkey,
        stock_symbol: String,
        shares_to_sell: u64,
        min_price_per_share: u64,
        unix_timestamp: i64,
    ) -> (result: Result<SellOrderPlaced, LedgerError>)
        requires
            old(self).wf(),
        ensures
            final(self).wf(),
            match old(self)@.place_sell_order(
                user,
                stock_symbol,
                shares_to_sell,
                min_price_per_share,
                unix_timestamp,
            ) {
                Ok(next) => final(self)@ == next && result is Ok && Event::SellOrderPlaced(
                    result->Ok_0,
                ) == next.events.last(),
                Err(reason) => final(self)@ == old(self)@ && result == Err::<
                    SellOrderPlaced,
                    LedgerError,
                >(reason),
            },
    {
        proof {
            lemma_step_sound(
                old(self)@,
                Call::PlaceSellOrder {
                    user,
                    stock_symbol,
                    shares_to_sell,
                    min_price_per_share,
                    unix_timestamp,
                },
            );
        }
        let pool = match self.pool {
            Some(pool) => pool,
            None => {
                return Err(LedgerError::NotInitialized);
            },
        };
        let holder = Holder { owner: user, stock_symbol: stock_symbol.clone() };
        let symbol = stock_symbol.clone();
        let shares = match self.holdings.get(&holder) {
            Some(shares) => *shares,
            None => 0,
        };
        let registered = self.symbols.get(&symbol);
        let escrow = match registered {
            Some(entry) => entry.escrow,
            None => EscrowBalance { amount: 0 },
        };
        let mut ctx = PlaceSellOrder {
            sell_order: blank_sell_order(user),
            user_stock_token_account: TokenAccount { amount: shares },
            escrow_token_account: escrow,
            trading_pool: pool,
            user,
        };
        match crate::instructions::place_sell_order(
            &mut ctx,
            stock_symbol,
            shares_to_sell,
            min_price_per_share,
            unix_timestamp,
        ) {
            Err(reason) => Err(LedgerError::Rejected(reason)),
            Ok(event) => {
                let info = match registered {
                    Some(entry) => entry.info.clone(),
                    None => {
                        return Err(LedgerError::UnknownSymbol);
                    },
                };
                let PlaceSellOrder {
                    sell_order,
                    user_stock_token_account,
                    escrow_token_account,
                    trading_pool,
                    user: _,
                } = ctx;
                self.pool = Some(trading_pool);
                self.symbols.insert(symbol, SymbolEntry { info, escrow: escrow_token_account });
                self.holdings.insert(holder, user_stock_token_account.amount);
                self.orders.push(Order::Sell(sell_order));
                self.events.push(Event::SellOrderPlaced(event.clone()));
                Ok(event)
            },
        }
    }

    /// Places a buy order for `user` and returns the audit event. The
    /// collateral moves from the buyer into the vault.
    pub fn place_buy_order(
        &mut self,
        user: Pubkey,
        stock_symbol: String,
        sol_amount: u64,
        max_price_per_share: u64,
        unix_timestamp: i64,
    ) -> (result: Result<BuyOrderPlaced, LedgerError>)
        requires
            old(self).wf(),
        ensures
            final(self).wf(),
            match old(self)@.place_buy_order(
                user,
                stock_symbol,
                sol_amount,
                max_price_per_share,
                unix_timestamp,
            ) {
                Ok(next) => final(self)@ == next && result is Ok && Event::BuyOrderPlaced(
                    result->Ok_0,
                ) == next.events.last(),
                Err(reason) => final(self)@ == old(self)@ && result == Err::<
                    BuyOrderPlaced,
                    LedgerError,
                >(reason),
            },
    {
        proof {
            lemma_step_sound(
                old(self)@,
                Call::PlaceBuyOrder {
                    user,
                    stock_symbol,
                    sol_amount,
                    max_price_per_share,
                    unix_timestamp,
                },
            );
        }
        let pool = match self.pool {
            Some(pool) => pool,
            None => {
                return Err(LedgerError::NotInitialized);
            },
        };
        let lamports = self.balance_of(&user);
        let mut ctx = PlaceBuyOrder {
            buy_order: blank_buy_order(user),
            trading_pool: pool,
            trading_pool_vault: self.vault,
            user: SystemAccount { key: user, lamports },
        };
        match crate::instructions::place_buy_order(
            &mut ctx,
            stock_symbol,
            sol_amount,
            max_price_per_share,
            unix_timestamp,
        ) {
            Err(reason) => Err(LedgerError::Rejected(reason)),
            Ok(event) => {
                let PlaceBuyOrder { buy_order, trading_pool, trading_pool_vault, user: payer } =
                    ctx;
                self.pool = Some(trading_pool);
                self.vault = trading_pool_vault;
                self.wallets.insert(user, payer.lamports);
                self.orders.push(Order::Buy(buy_order));
                self.events.push(Event::BuyOrderPlaced(event.clone()));
                Ok(event)
            },
        }
    }

    /// Moves `amount` of collateral from the vault to `caller`, who must be
    /// the vault authority, and returns the audit event.
    pub fn withdraw_vault_funds(
        &mut self,
        caller: Pubkey,
        amount: u64,
        unix_timestamp: i64,
    ) -> (result: Result<VaultFundsWithdrawn, LedgerError>)
        requires
            old(self).wf(),
        ensures
            final(self).wf(),
            match old(self)@.withdraw_vault_funds(caller, amount, unix_timestamp) {
                Ok(next) => final(self)@ == next && result is Ok && Event::VaultFundsWithdrawn(
                    result->Ok_0,
                ) == next.events.last(),
                Err(reason) => final(self)@ == old(self)@ && result == Err::<
                    VaultFundsWithdrawn,
                    LedgerError,
                >(reason),
            },
    {
        proof {
            lemma_step_sound(
                old(self)@,
                Call::WithdrawVaultFunds { caller, amount, unix_timestamp },
            );
        }
        let pool = match self.pool {
            Some(pool) => pool,
            None => {
                return Err(LedgerError::NotInitialized);
            },
        };
        let lamports = self.balance_of(&caller);
        let mut ctx = WithdrawVaultFunds {
            trading_pool: pool,
            trading_pool_vault: self.vault,
            vault_authority: SystemAccount { key: caller, lamports },
        };
        match crate::instructions::withdraw_vault_funds(&mut ctx, amount, unix_timestamp) {
            Err(reason) => Err(LedgerError::Rejected(reason)),
            Ok(event) => {
                self.vault = ctx.trading_pool_vault;
                self.wallets.insert(caller, ctx.vault_authority.lamports);
                self.events.push(Event::VaultFundsWithdrawn(event));
                Ok(event)
            },
        }
    }

    /// Appoints new authorities on behalf of `caller`, who must be the
    /// current vault authority, and returns the audit event.
    pub fn update_authorities(
        &mut self,
        caller: Pubkey,
        new_vault_authority: Option<Pubkey>,
        new_backend_authority: Option<Pubkey>,
        unix_timestamp: i64,
    ) -> (result: Result<AuthoritiesUpdated, LedgerError>)
        requires
            old(self).wf(),
        ensures
            final(self).wf(),
            match old(self)@.update_authorities(
                caller,
                new_vault_authority,
                new_backend_authority,
                unix_timestamp,
            ) {
                Ok(next) => final(self)@ == next && result is Ok && Event::AuthoritiesUpdated(
                    result->Ok_0,
                ) == next.events.last(),
                Err(reason) => final(self)@ == old(self)@ && result == Err::<
                    AuthoritiesUpdated,
                    LedgerError,
                >(reason),
            },
    {
        proof {
            lemma_step_sound(
                old(self)@,
                Call::UpdateAuthorities {
                    caller,
                    new_vault_authority,
                    new_backend_authority,
                    unix_timestamp,
                },
            );
        }
        let pool = match self.pool {
            Some(pool) => pool,
            None => {
                return Err(LedgerError::NotInitialized);
            },
        };
        let mut ctx = UpdateAuthorities { trading_pool: pool, current_vault_authority: caller };
        match crate::instructions::update_authorities(
            &mut ctx,
            new_vault_authority,
            new_backend_authority,
            unix_timestamp,
        ) {
            Err(reason) => Err(LedgerError::Rejected(reason)),
            Ok(event) => {
                self.pool = Some(ctx.trading_pool);
                self.events.push(Event::AuthoritiesUpdated(event));
                Ok(event)
            },
        }
    }

    /// Moves `amount` of collateral from `caller`, who must be the vault
    /// authority, into the vault, and returns the audit event.
    pub fn deposit_vault_funds(
        &mut self,
        caller: Pubkey,
        amount: u64,
        unix_timestamp: i64,
    ) -> (result: Result<VaultFundsDeposited, LedgerError>)
        requires
            old(self).wf(),
        ensures
            final(self).wf(),
            match old(self)@.deposit_vault_funds(caller, amount, unix_timestamp) {
                Ok(next) => final(self)@ == next && result is Ok && Event::VaultFundsDeposited(
                    result->Ok_0,
                ) == next.events.last(),
                Err(reason) => final(self)@ == old(self)@ && result == Err::<
                    VaultFundsDeposited,
                    LedgerError,
                >(reason),
            },
    {
        proof {
            lemma_step_sound(
                old(self)@,
                Call::DepositVaultFunds { caller, amount, unix_timestamp },
            );
        }
        let pool = match self.pool {
            Some(pool) => pool,
            None => {
                return Err(LedgerError::NotInitialized);
            },
        };
        let lamports = self.balance_of(&caller);
        let mut ctx = DepositVaultFunds {
            trading_pool: pool,
            trading_pool_vault: self.vault,
            vault_authority: SystemAccount { key: caller, lamports },
        };
        match crate::instructions::deposit_vault_funds(&mut ctx, amount, unix_timestamp) {
            Err(reason) => Err(LedgerError::Rejected(reason)),
            Ok(event) => {
                self.vault = ctx.trading_pool_vault;
                self.wallets.insert(caller, ctx.vault_authority.lamports);
                self.events.push(Event::VaultFundsDeposited(event));
                Ok(event)
            },
        }
    }

    /// Registers `stock_symbol` on behalf of `caller`, who must be the vault
    /// authority, with no shares outstanding and none in escrow, and returns
    /// the audit event.
    pub fn create_stock_mint(
        &mut self,
        caller: Pubkey,
        stock_mint: Pubkey,
        stock_symbol: String,
        decimals: u8,
    ) -> (result: Result<StockMintCreated, LedgerError>)
        requires
            old(self).wf(),
        ensures
            final(self).wf(),
            match old(self)@.create_stock_mint(caller, stock_mint, stock_symbol, decimals) {
                Ok(next) => final(self)@ == next && result is Ok && Event::StockMintCreated(
                    result->Ok_0,
                ) == next.events.last(),
                Err(reason) => final(self)@ == old(self)@ && result == Err::<
                    StockMintCreated,
                    LedgerError,
                >(reason),
            },
    {
        proof {
            lemma_step_sound(
                old(self)@,
                Call::CreateStockMint { caller, stock_mint, stock_symbol, decimals },
            );
        }
        let pool = match self.pool {
            Some(pool) => pool,
            None => {
                return Err(LedgerError::NotInitialized);
            },
        };
        let symbol = stock_symbol.clone();
        let mut ctx = CreateStockMint {
            stock_mint,
            stock_mint_info: StockMintInfo {
                stock_symbol: String::new(),
                mint: stock_mint,
                total_supply: 0,
            },
            trading_pool: pool,
            vault_authority: caller,
        };
        match crate::instructions::create_stock_mint(&mut ctx, stock_symbol, decimals) {
            Err(reason) => Err(LedgerError::Rejected(reason)),
            Ok(event) => {
                if self.symbols.get(&symbol).is_some() {
                    return Err(LedgerError::SymbolAlreadyExists);
                }
                let CreateStockMint {
                    stock_mint: _,
                    stock_mint_info,
                    trading_pool: _,
                    vault_authority: _,
                } = ctx;
                self.symbols.insert(
                    symbol,
                    SymbolEntry { info: stock_mint_info, escrow: EscrowBalance { amount: 0 } },
                );
                self.events.push(Event::StockMintCreated(event.clone()));
                Ok(event)
            },
        }
    }

    /// Creates the pool registry of the deployment, with no order placed.
    /// Refused where the registry exists.
    pub fn initialize_trading_pool(
        &mut self,
        vault_authority: Pubkey,
        backend_authority: Pubkey,
    ) -> (result: Result<(), LedgerError>)
        requires
            old(self).wf(),
        ensures
            final(self).wf(),
            match old(self)@.initialize_trading_pool(vault_authority, backend_authority) {
                Ok(next) => final(self)@ == next && result is Ok,
                Err(reason) => final(self)@ == old(self)@ && result == Err::<(), LedgerError>(
                    reason,
                ),
            },
    {
        proof {
            lemma_step_sound(
                old(self)@,
                Call::InitializeTradingPool { vault_authority, backend_authority },
            );
        }
        if self.pool.is_some() {
            return Err(LedgerError::AlreadyInitialized);
        }
        let mut ctx = InitializeTradingPool {
            trading_pool: TradingPool {
                vault_authority,
                backend_authority,
                total_orders: 0,
            },
        };
        match crate::instructions::initialize_trading_pool(
            &mut ctx,
            vault_authority,
            backend_authority,
        ) {
            Err(reason) => Err(LedgerError::Rejected(reason)),
            Ok(()) => {
                self.pool = Some(ctx.trading_pool);
                Ok(())
            },
        }
    }

    /// Adds `lamports` of collateral, which come from outside the ledger, to
    /// what `owner` holds. Refused with `Overflow` where the sum cannot be
    /// held.
    pub fn credit_wallet(&mut self, owner: Pubkey, lamports: u64) -> (result: Result<
        (),
        LedgerError,
    >)
        requires
            old(self).wf(),
        ensures
            final(self).wf(),
            match old(self)@.credit_wallet(owner, lamports) {
                Ok(next) => final(self)@ == next && result is Ok,
                Err(reason) => final(self)@ == old(self)@ && result == Err::<(), LedgerError>(
                    reason,
                ),
            },
    {
        proof {
            lemma_step_sound(
                old(self)@,
                Call::CreditWallet { owner, lamports },
            );
        }
        match self.balance_of(&owner).checked_add(lamports) {
            Some(sum) => {
                self.wallets.insert(owner, sum);
                Ok(())
            },
            None => Err(LedgerError::Rejected(StockTradingError::Overflow)),
        }
    }

    /// Makes `call` as one transaction. Returns the audit event where the
    /// call yields one.
    pub fn apply(&mut self, call: Call) -> (result: Result<Option<Event>, LedgerError>)
        requires
            old(self).wf(),
        ensures
            final(self).wf(),
            final(self)@ == old(self)@.after(call),
            match old(self)@.step(call) {
                Ok(next) => result is Ok && match result->Ok_0 {
                    Some(event) => next.events == old(self)@.events.push(event),
                    None => next.events == old(self)@.events,
                },
                Err(reason) => result == Err::<Option<Event>, LedgerError>(reason),
            },
    {
        match call {
            Call::InitializeTradingPool { vault_authority, backend_authority } => {
                match self.initialize_trading_pool(vault_authority, backend_authority) {
                    Ok(()) => Ok(None),
                    Err(reason) => Err(reason),
                }
            },
            Call::CreateStockMint { caller, stock_mint, stock_symbol, decimals } => {
                match self.create_stock_mint(caller, stock_mint, stock_symbol, decimals) {
                    Ok(event) => Ok(Some(Event::StockMintCreated(event))),
                    Err(reason) => Err(reason),
                }
            },
            Call::PlaceBuyOrder {
                user,
                stock_symbol,
                sol_amount,
                max_price_per_share,
                unix_timestamp,
            } => {
                match self.place_buy_order(
                    user,
                    stock_symbol,
                    sol_amount,
                    max_price_per_share,
                    unix_timestamp,
                ) {
                    Ok(event) => Ok(Some(Event::BuyOrderPlaced(event))),
                    Err(reason) => Err(reason),
                }
            },
            Call::FulfillBuyOrder {
                caller,
                order_id,
                shares_purchased,
                price_per_share,
                total_cost,
                refund_amount,
                unix_timestamp,
            } => {
                match self.fulfill_buy_order(
                    caller,
                    order_id,
                    shares_purchased,
                    price_per_share,
                    total_cost,
                    refund_amount,
                    unix_timestamp,
                ) {
                    Ok(event) => Ok(Some(Event::BuyOrderFulfilled(event))),
                    Err(reason) => Err(reason),
                }
            },
            Call::PlaceSellOrder {
                user,
                stock_symbol,
                shares_to_sell,
                min_price_per_share,
                unix_timestamp,
            } => {
                match self.place_sell_order(
                    user,
                    stock_symbol,
                    shares_to_sell,
                    min_price_per_share,
                    unix_timestamp,
                ) {
                    Ok(event) => Ok(Some(Event::SellOrderPlaced(event))),
                    Err(reason) => Err(reason),
                }
            },
            Call::FulfillSellOrder {
                caller,
                order_id,
                shares_sold,
                price_per_share,
                total_proceeds,
                shares_returned,
                unix_timestamp,
            } => {
                match self.fulfill_sell_order(
                    caller,
                    order_id,
                    shares_sold,
                    price_per_share,
                    total_proceeds,
                    shares_returned,
                    unix_timestamp,
                ) {
                    Ok(event) => Ok(Some(Event::SellOrderFulfilled(event))),
                    Err(reason) => Err(reason),
                }
            },
            Call::WithdrawVaultFunds { caller, amount, unix_timestamp } => {
                match self.withdraw_vault_funds(caller, amount, unix_timestamp) {
                    Ok(event) => Ok(Some(Event::VaultFundsWithdrawn(event))),
                    Err(reason) => Err(reason),
                }
            },
            Call::DepositVaultFunds { caller, amount, unix_timestamp } => {
                match self.deposit_vault_funds(caller, amount, unix_timestamp) {
                    Ok(event) => Ok(Some(Event::VaultFundsDeposited(event))),
                    Err(reason) => Err(reason),
                }
            },
            Call::UpdateAuthorities {
                caller,
                new_vault_authority,
                new_backend_authority,
                unix_timestamp,
            } => {
                match self.update_authorities(
                    caller,
                    new_vault_authority,
                    new_backend_authority,
                    unix_timestamp,
                ) {
                    Ok(event) => Ok(Some(Event::AuthoritiesUpdated(event))),
                    Err(reason) => Err(reason),
                }
            },
            Call::CreditWallet { owner, lamports } => {
                match self.credit_wallet(owner, lamports) {
                    Ok(()) => Ok(None),
                    Err(reason) => Err(reason),
                }
            },
        }
    }
}

/// A buy order record that nothing was written to yet: it names `user`
/// and no symbol, is pending, and holds zero everywhere else.
fn blank_buy_order(user: Pubkey) -> (order: BuyOrder)
    ensures
        order.user == user,
        order.stock_symbol@ == Seq::<char>::empty(),
        order.sol_amount == 0,
        order.max_price_per_share == 0,
        order.order_id == 0,
        order.status == OrderStatus::Pending,
        order.timestamp == 0,
        order.shares_received == 0,
        order.actual_price_per_share == 0,
{
    BuyOrder {
        user,
        stock_symbol: String::new(),
        sol_amount: 0,
        max_price_per_share: 0,
        order_id: 0,
        status: OrderStatus::Pending,
        timestamp: 0,
        shares_received: 0,
        actual_price_per_share: 0,
    }
}

/// A sell order record that nothing was written to yet: it names `user`
/// and no symbol, is pending, and holds zero everywhere else.
fn blank_sell_order(user: Pubkey) -> (order: SellOrder)
    ensures
        order.user == user,
        order.stock_symbol@ == Seq::<char>::empty(),
        order.shares_to_sell == 0,
        order.min_price_per_share == 0,
        order.order_id == 0,
        order.status == OrderStatus::Pending,
        order.timestamp == 0,
        order.sol_received == 0,
        order.actual_price_per_share == 0,
{
    SellOrder {
        user,
        stock_symbol: String::new(),
        shares_to_sell: 0,
        min_price_per_share: 0,
        order_id: 0,
        status: OrderStatus::Pending,
        timestamp: 0,
        sol_received: 0,
        actual_price_per_share: 0,
    }
}

} // verus!
