//! The requests that the gateway sends upstream: their addresses, and the
//! keys under which it caches the answers.

use vstd::prelude::*;
use vstd::string::StringExecFns;

verus! {

/// The address of the exchange.
pub const OKX_BASE_URL: &'static str = "https://www.okx.com";

/// The exchange's path for quotes.
pub const OKX_QUOTE_ENDPOINT: &'static str = "/api/v5/dex/aggregator/quote";

/// The exchange's path for swaps.
pub const OKX_SWAP_ENDPOINT: &'static str = "/api/v5/dex/aggregator/swap";

/// The exchange's path for the list of tokens.
pub const OKX_TOKENS_ENDPOINT: &'static str = "/api/v5/dex/aggregator/all-tokens";

/// The chain that is asked about where a request names none.
pub const DEFAULT_CHAIN_ID: &'static str = "1";

/// The token that is priced where a request names none.
pub const DEFAULT_TOKEN_ADDRESS: &'static str = "0xa0b86991c6218b36c1d19d4a2e9eb0ce3606eb48";

/// The token in which prices are quoted.
pub const QUOTE_TOKEN_ADDRESS: &'static str = "0xdAC17F958D2ee523a2206206994597C13D831ec7";

/// The amount for which a price is quoted.
pub const QUOTE_AMOUNT: &'static str = "1000000";

/// The parameter that is given, or the fallback where none is.
pub open spec fn parameter_or(given: Option<Seq<char>>, fallback: Seq<char>) -> Seq<char> {
    match given {
        Some(value) => value,
        None => fallback,
    }
}

/// The chain that a request asks about: the one it names, else the default.
pub fn chain_id_or_default(chain_id: Option<&str>) -> (chosen: String)
    ensures
        chosen@ == parameter_or(
            match chain_id {
                Some(value) => Some(value@),
                None => None,
            },
            DEFAULT_CHAIN_ID@,
        ),
{
    match chain_id {
        Some(value) => value.to_owned(),
        None => DEFAULT_CHAIN_ID.to_owned(),
    }
}

/// The token that a request asks about: the one it names, else the default.
pub fn token_address_or_default(token_address: Option<&str>) -> (chosen: String)
    ensures
        chosen@ == parameter_or(
            match token_address {
                Some(value) => Some(value@),
                None => None,
            },
            DEFAULT_TOKEN_ADDRESS@,
        ),
{
    match token_address {
        Some(value) => value.to_owned(),
        None => DEFAULT_TOKEN_ADDRESS.to_owned(),
    }
}

/// The key under which the price of the stock `symbol` is cached.
pub fn stock_price_cache_key(symbol: &str) -> (key: String)
    ensures
        key@ == "stock_price_"@ + symbol@,
{
    let mut key = "stock_price_".to_owned();
    key.append(symbol);
    key
}

/// The key under which the price of a token is cached.
pub fn crypto_price_cache_key(chain_id: &str, token_address: &str) -> (key: String)
    ensures
        key@ == "crypto_price_"@ + chain_id@ + "_"@ + token_address@,
{
    let mut key = "crypto_price_".to_owned();
    key.append(chain_id);
    key.append("_");
    key.append(token_address);
    key
}

/// The address of `path` at the service under `base_url`.
pub fn endpoint_url(base_url: &str, path: &str) -> (url: String)
    ensures
        url@ == base_url@ + path@,
{
    let mut url = base_url.to_owned();
    url.append(path);
    url
}

/// The address of the market-data service's snapshot of the stock `symbol`.
pub fn stock_snapshot_url(alpaca_data_url: &str, symbol: &str) -> (url: String)
    ensures
        url@ == alpaca_data_url@ + "/v2/stocks/"@ + symbol@ + "/snapshot"@,
{
    let mut url = alpaca_data_url.to_owned();
    url.append("/v2/stocks/");
    url.append(symbol);
    url.append("/snapshot");
    url
}

/// The exchange's path, with its query, for the price of a token in the
/// quote token.
pub fn crypto_quote_path(chain_id: &str, token_address: &str) -> (path: String)
    ensures
        path@ == OKX_QUOTE_ENDPOINT@ + "?chainId="@ + chain_id@ + "&fromTokenAddress="@
            + token_address@ + "&toTokenAddress="@ + QUOTE_TOKEN_ADDRESS@ + "&amount="@
            + QUOTE_AMOUNT@,
{
    let mut path = OKX_QUOTE_ENDPOINT.to_owned();
    path.append("?chainId=");
    path.append(chain_id);
    path.append("&fromTokenAddress=");
    path.append(token_address);
    path.append("&toTokenAddress=");
    path.append(QUOTE_TOKEN_ADDRESS);
    path.append("&amount=");
    path.append(QUOTE_AMOUNT);
    path
}

/// The exchange's path for a quote with the query `params`, which is
/// already encoded.
pub fn swap_quote_path(params: &str) -> (path: String)
    ensures
        path@ == OKX_QUOTE_ENDPOINT@ + "?"@ + params@,
{
    let mut path = OKX_QUOTE_ENDPOINT.to_owned();
    path.append("?");
    path.append(params);
    path
}

/// The exchange's path, with its query, for the tokens of a chain.
pub fn token_list_path(chain_id: &str) -> (path: String)
    ensures
        path@ == OKX_TOKENS_ENDPOINT@ + "?chainId="@ + chain_id@,
{
    let mut path = OKX_TOKENS_ENDPOINT.to_owned();
    path.append("?chainId=");
    path.append(chain_id);
    path
}

} // verus!
