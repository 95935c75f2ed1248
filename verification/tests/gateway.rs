use stockswap::gateway::cache::{
    get_cache_file_path, get_current_timestamp, is_cache_valid, is_fresh_at,
    is_price_cache_valid, CACHE_DIR, CACHE_DURATION_HOURS, PRICE_CACHE_DURATION_HOURS,
};
use stockswap::gateway::config::{Config, PriceResponse, StockOrderRequest, SwapRequest};
use stockswap::gateway::quotes::{
    classify_status, extract_price, select_price, PriceField, PriceSource, Snapshot,
    UpstreamFailure,
};
use stockswap::gateway::requests::{
    chain_id_or_default, crypto_price_cache_key, crypto_quote_path, endpoint_url,
    stock_price_cache_key, stock_snapshot_url, swap_quote_path, token_address_or_default,
    token_list_path, OKX_BASE_URL, OKX_SWAP_ENDPOINT,
};
use stockswap::gateway::signing::{sign_message, sign_request};

#[test]
fn cache_durations() {
    assert_eq!(CACHE_DURATION_HOURS, 24);
    assert_eq!(PRICE_CACHE_DURATION_HOURS, 1);
    assert_eq!(CACHE_DIR, "cache");
}

#[test]
fn freshness_counts_whole_hours() {
    let now = 1_700_000_000;
    assert!(is_fresh_at(now, now, 24));
    assert!(is_fresh_at(now, now - 24 * 3600 + 1, 24));
    assert!(!is_fresh_at(now, now - 24 * 3600, 24));
    assert!(!is_fresh_at(now, now - 25 * 3600, 24));
    assert!(is_fresh_at(now, now - 3599, 1));
    assert!(!is_fresh_at(now, now - 3600, 1));
    assert!(!is_fresh_at(now, 0, 24));
    assert!(!is_fresh_at(now, now, 0));
    assert!(is_fresh_at(u64::MAX, 0, u64::MAX));
    assert!(is_fresh_at(0, 0, 1));
}

#[test]
fn entries_from_the_future_are_not_fresh() {
    assert!(!is_fresh_at(1_700_000_000, 1_700_000_001, 24));
    assert!(!is_fresh_at(0, u64::MAX, 24));
}

#[test]
fn clock_reads_a_time_after_2020() {
    let now = get_current_timestamp();
    assert!(now > 1_577_836_800);
    assert!(get_current_timestamp() >= now);
}

#[test]
fn cache_validity_follows_the_clock() {
    let now = get_current_timestamp();
    assert!(is_cache_valid(now));
    assert!(is_cache_valid(now - 23 * 3600));
    assert!(!is_cache_valid(now - 24 * 3600));
    assert!(!is_cache_valid(0));
    assert!(!is_cache_valid(now + 3600));
    assert!(is_price_cache_valid(now));
    assert!(is_price_cache_valid(now - 1800));
    assert!(!is_price_cache_valid(now - 3600));
    assert!(!is_price_cache_valid(now - 23 * 3600));
    assert!(!is_price_cache_valid(now + 3600));
}

#[test]
fn cache_file_paths() {
    assert_eq!(get_cache_file_path("top_stocks"), "cache/top_stocks.json");
    assert_eq!(get_cache_file_path("stock_price_AAPL"), "cache/stock_price_AAPL.json");
    assert_eq!(get_cache_file_path(""), "cache/.json");
}

#[test]
fn cache_keys() {
    assert_eq!(stock_price_cache_key("AAPL"), "stock_price_AAPL");
    assert_eq!(stock_price_cache_key(""), "stock_price_");
    assert_eq!(crypto_price_cache_key("1", "0xabc"), "crypto_price_1_0xabc");
}

#[test]
fn request_addresses() {
    assert_eq!(
        stock_snapshot_url("https://data.alpaca.markets", "AAPL"),
        "https://data.alpaca.markets/v2/stocks/AAPL/snapshot"
    );
    assert_eq!(
        endpoint_url("https://paper-api.alpaca.markets", "/v2/orders"),
        "https://paper-api.alpaca.markets/v2/orders"
    );
    assert_eq!(
        endpoint_url(OKX_BASE_URL, OKX_SWAP_ENDPOINT),
        "https://www.okx.com/api/v5/dex/aggregator/swap"
    );
    assert_eq!(
        crypto_quote_path("56", "0xabc"),
        "/api/v5/dex/aggregator/quote?chainId=56&fromTokenAddress=0xabc\
         &toTokenAddress=0xdAC17F958D2ee523a2206206994597C13D831ec7&amount=1000000"
    );
    assert_eq!(swap_quote_path("a=1&b=2"), "/api/v5/dex/aggregator/quote?a=1&b=2");
    assert_eq!(token_list_path("1"), "/api/v5/dex/aggregator/all-tokens?chainId=1");
}

#[test]
fn request_defaults() {
    assert_eq!(chain_id_or_default(None), "1");
    assert_eq!(chain_id_or_default(Some("56")), "56");
    assert_eq!(chain_id_or_default(Some("")), "");
    assert_eq!(token_address_or_default(None), "0xa0b86991c6218b36c1d19d4a2e9eb0ce3606eb48");
    assert_eq!(token_address_or_default(Some("0xabc")), "0xabc");
}

#[test]
fn signed_text_is_time_method_path_body() {
    assert_eq!(sign_message("T", "GET", "/p?q=1", ""), "TGET/p?q=1");
    assert_eq!(sign_message("T", "POST", "/p", "{}"), "TPOST/p{}");
    assert_eq!(sign_message("", "", "", ""), "");
}

#[test]
fn signatures_of_requests() {
    assert_eq!(
        sign_request(
            "test_secret",
            "1700000000000",
            "GET",
            "/api/v5/dex/aggregator/all-tokens?chainId=1",
            ""
        ),
        Ok("hOzwHYwT91Y1/Eqcr55s0vFdIoYKj88taUpTrXltZNo=".to_string())
    );
    assert_eq!(
        sign_request(
            "test_secret",
            "2024-01-01T00:00:00+00:00",
            "POST",
            "/api/v5/dex/aggregator/swap",
            "{\"a\":1}"
        ),
        Ok("VoJhZHy2CvlN99VnFc3ra5afe7PPfu+i6Z8ObDLARgw=".to_string())
    );
    assert_eq!(
        sign_request("my secret and secure key", "", "input message", "", ""),
        Ok("l9KlaQWbvNjq1ERP+ZBx9MAdAFvO/g01Z+G+Yo5f3Nk=".to_string())
    );
}

#[test]
fn signatures_with_unusual_keys_and_texts() {
    assert_eq!(
        sign_request("", "", "", "", ""),
        Ok("thNnmggU2ex3L5XXeMNfxf8Wl8STcVZTxscSFEKSxa0=".to_string())
    );
    let long_key = "k".repeat(100);
    assert_eq!(
        sign_request(&long_key, "t", "GET", "/p", ""),
        Ok("FuawoINxeW4BeJ8LXlDXaJUvARmZWiIAeyGKjzA1pnA=".to_string())
    );
    assert_eq!(
        sign_request("schlüssel", "zeit", "GET", "/pfad?q=ü", ""),
        Ok("J+ZTPCL20Zw8crrw9h80Km0UiFjTz0x/JXrvnCo+zIg=".to_string())
    );
}

#[test]
fn statuses_of_answers() {
    assert_eq!(classify_status(200), None);
    assert_eq!(classify_status(204), None);
    assert_eq!(classify_status(299), None);
    assert_eq!(classify_status(404), Some(UpstreamFailure::NotFound));
    assert_eq!(classify_status(401), Some(UpstreamFailure::Unauthorized));
    assert_eq!(classify_status(403), Some(UpstreamFailure::Unauthorized));
    assert_eq!(classify_status(429), Some(UpstreamFailure::TooManyRequests));
    assert_eq!(classify_status(500), Some(UpstreamFailure::BadGateway));
    assert_eq!(classify_status(503), Some(UpstreamFailure::BadGateway));
    assert_eq!(classify_status(599), Some(UpstreamFailure::BadGateway));
    assert_eq!(classify_status(600), Some(UpstreamFailure::BadRequest));
    assert_eq!(classify_status(400), Some(UpstreamFailure::BadRequest));
    assert_eq!(classify_status(300), Some(UpstreamFailure::BadRequest));
    assert_eq!(classify_status(199), Some(UpstreamFailure::BadRequest));
    assert_eq!(classify_status(0), Some(UpstreamFailure::BadRequest));
    assert_eq!(classify_status(u16::MAX), Some(UpstreamFailure::BadRequest));
}

#[test]
fn failure_messages() {
    assert_eq!(UpstreamFailure::NotFound.message("AAPL"), "Stock symbol 'AAPL' not found");
    assert_eq!(UpstreamFailure::Unauthorized.message("AAPL"), "Invalid API credentials");
    assert_eq!(UpstreamFailure::TooManyRequests.message("AAPL"), "Rate limit exceeded");
    assert_eq!(UpstreamFailure::BadGateway.message("AAPL"), "Alpaca API server error");
    assert_eq!(UpstreamFailure::BadRequest.message("AAPL"), "Invalid request to Alpaca API");
}

#[test]
fn prices_are_numbers_or_texts() {
    assert_eq!(
        extract_price(Some(PriceField::Number("187.5".to_string()))),
        Some("187.5".to_string())
    );
    assert_eq!(
        extract_price(Some(PriceField::Text("187.50".to_string()))),
        Some("187.50".to_string())
    );
    assert_eq!(extract_price(Some(PriceField::Other)), None);
    assert_eq!(extract_price(None), None);
}

#[test]
fn price_is_taken_from_the_first_source_that_has_one() {
    let number = |text: &str| Some(PriceField::Number(text.to_string()));
    assert_eq!(
        select_price(Snapshot {
            ask_price: number("1"),
            bid_price: number("2"),
            daily_close: number("3"),
            trade_price: number("4"),
        }),
        Some(("1".to_string(), PriceSource::Ask))
    );
    assert_eq!(
        select_price(Snapshot {
            ask_price: Some(PriceField::Other),
            bid_price: Some(PriceField::Text("2".to_string())),
            daily_close: number("3"),
            trade_price: number("4"),
        }),
        Some(("2".to_string(), PriceSource::Bid))
    );
    assert_eq!(
        select_price(Snapshot {
            ask_price: None,
            bid_price: None,
            daily_close: number("3"),
            trade_price: number("4"),
        }),
        Some(("3".to_string(), PriceSource::DailyClose))
    );
    assert_eq!(
        select_price(Snapshot {
            ask_price: None,
            bid_price: Some(PriceField::Other),
            daily_close: Some(PriceField::Other),
            trade_price: number("4"),
        }),
        Some(("4".to_string(), PriceSource::Trade))
    );
    assert_eq!(
        select_price(Snapshot {
            ask_price: None,
            bid_price: None,
            daily_close: None,
            trade_price: Some(PriceField::Other),
        }),
        None
    );
}

#[test]
fn price_source_names() {
    assert_eq!(PriceSource::Ask.name(), "ask");
    assert_eq!(PriceSource::Bid.name(), "bid");
    assert_eq!(PriceSource::DailyClose.name(), "daily close");
    assert_eq!(PriceSource::Trade.name(), "trade");
}

#[test]
fn configuration_falls_back_to_test_settings() {
    let config = Config::from_settings(None, None, None, None, None, None, None, None);
    assert_eq!(
        config,
        Config {
            alpaca_api_key: "test_key".to_string(),
            alpaca_secret_key: "test_secret".to_string(),
            alpaca_base_url: "https://paper-api.alpaca.markets".to_string(),
            alpaca_data_url: "https://data.alpaca.markets".to_string(),
            okx_api_key: "test_key".to_string(),
            okx_secret_key: "test_secret".to_string(),
            okx_passphrase: "test_passphrase".to_string(),
            okx_project_id: "test_project".to_string(),
        }
    );
    assert_eq!(config.clone(), config);
}

#[test]
fn configuration_takes_what_is_given() {
    let given = |text: &str| Some(text.to_string());
    let config = Config::from_settings(
        given("a"),
        given("b"),
        given("c"),
        None,
        given("e"),
        given(""),
        given("g"),
        given("h"),
    );
    assert_eq!(config.alpaca_api_key, "a");
    assert_eq!(config.alpaca_secret_key, "b");
    assert_eq!(config.alpaca_base_url, "c");
    assert_eq!(config.alpaca_data_url, "https://data.alpaca.markets");
    assert_eq!(config.okx_api_key, "e");
    assert_eq!(config.okx_secret_key, "");
    assert_eq!(config.okx_passphrase, "g");
    assert_eq!(config.okx_project_id, "h");
}

#[test]
fn request_and_answer_bodies_hold_their_fields() {
    let price =
        PriceResponse { symbol: "AAPL".to_string(), price: "187.5".to_string(), timestamp: 5 };
    assert_eq!(price.symbol, "AAPL");
    assert_eq!(price.price, "187.5");
    assert_eq!(price.timestamp, 5);
    let swap = SwapRequest {
        from_token: "a".to_string(),
        to_token: "b".to_string(),
        amount: "1".to_string(),
        chain_id: "1".to_string(),
    };
    assert_eq!(swap.from_token, "a");
    assert_eq!(swap.to_token, "b");
    assert_eq!(swap.amount, "1");
    assert_eq!(swap.chain_id, "1");
    let order = StockOrderRequest { symbol: "AAPL".to_string(), notional: "100".to_string() };
    assert_eq!(order.symbol, "AAPL");
    assert_eq!(order.notional, "100");
}
