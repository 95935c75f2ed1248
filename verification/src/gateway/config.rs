//! The gateway's configuration and the bodies of its own requests and
//! answers.

use vstd::prelude::*;

verus! {

/// The credentials and addresses of the two upstream services.
#[derive(Debug, PartialEq, Eq)]
pub struct Config {
    pub alpaca_api_key: String,
    pub alpaca_secret_key: String,
    pub alpaca_base_url: String,
    pub alpaca_data_url: String,
    pub okx_api_key: String,
    pub okx_secret_key: String,
    pub okx_passphrase: String,
    pub okx_project_id: String,
}

/// The price of one symbol, as the gateway answers.
#[derive(Debug, PartialEq, Eq)]
pub struct PriceResponse {
    pub symbol: String,
    pub price: String,
    pub timestamp: i64,
}

/// A request to swap one token for another.
#[derive(Debug, PartialEq, Eq)]
pub struct SwapRequest {
    pub from_token: String,
    pub to_token: String,
    pub amount: String,
    pub chain_id: String,
}

/// A request to buy a stock for an amount of dollars.
#[derive(Debug, PartialEq, Eq)]
pub struct StockOrderRequest {
    pub symbol: String,
    pub notional: String,
}

/// The setting that is given, or the fallback where none is.
pub open spec fn setting_or(given: Option<String>, fallback: Seq<char>) -> Seq<char> {
    match given {
        Some(value) => value@,
        None => fallback,
    }
}

fn or_fallback(given: Option<String>, fallback: &str) -> (value: String)
    ensures
        value@ == setting_or(given, fallback@),
{
    match given {
        Some(value) => value,
        None => fallback.to_owned(),
    }
}

impl Clone for Config {
    fn clone(&self) -> (copy: Self)
        ensures
            copy == *self,
    {
        Config {
            alpaca_api_key: self.alpaca_api_key.clone(),
            alpaca_secret_key: self.alpaca_secret_key.clone(),
            alpaca_base_url: self.alpaca_base_url.clone(),
            alpaca_data_url: self.alpaca_data_url.clone(),
            okx_api_key: self.okx_api_key.clone(),
            okx_secret_key: self.okx_secret_key.clone(),
            okx_passphrase: self.okx_passphrase.clone(),
            okx_project_id: self.okx_project_id.clone(),
        }
    }
}

impl Config {
    /// The configuration made of the settings that are given, with the
    /// fallback of each one that is not: test credentials, and the public
    /// addresses of the brokerage's paper-trading and market-data services.
    pub fn from_settings(
        alpaca_api_key: Option<String>,
        alpaca_secret_key: Option<String>,
        alpaca_base_url: Option<String>,
        alpaca_data_url: Option<String>,
        okx_api_key: Option<String>,
        okx_secret_key: Option<String>,
        okx_passphrase: Option<String>,
        okx_project_id: Option<String>,
    ) -> (config: Config)
        ensures
            config.alpaca_api_key@ == setting_or(alpaca_api_key, "test_key"@),
            config.alpaca_secret_key@ == setting_or(alpaca_secret_key, "test_secret"@),
            config.alpaca_base_url@ == setting_or(
                alpaca_base_url,
                "https://paper-api.alpaca.markets"@,
            ),
            config.alpaca_data_url@ == setting_or(alpaca_data_url, "https://data.alpaca.markets"@),
            config.okx_api_key@ == setting_or(okx_api_key, "test_key"@),
            config.okx_secret_key@ == setting_or(okx_secret_key, "test_secret"@),
            config.okx_passphrase@ == setting_or(okx_passphrase, "test_passphrase"@),
            config.okx_project_id@ == setting_or(okx_project_id, "test_project"@),
    {
        Config {
            alpaca_api_key: or_fallback(alpaca_api_key, "test_key"),
            alpaca_secret_key: or_fallback(alpaca_secret_key, "test_secret"),
            alpaca_base_url: or_fallback(alpaca_base_url, "https://paper-api.alpaca.markets"),
            alpaca_data_url: or_fallback(alpaca_data_url, "https://data.alpaca.markets"),
            okx_api_key: or_fallback(okx_api_key, "test_key"),
            okx_secret_key: or_fallback(okx_secret_key, "test_secret"),
            okx_passphrase: or_fallback(okx_passphrase, "test_passphrase"),
            okx_project_id: or_fallback(okx_project_id, "test_project"),
        }
    }
}

} // verus!
