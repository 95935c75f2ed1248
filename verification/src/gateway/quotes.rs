//! What the gateway makes of the market-data service's answers.

use vstd::prelude::*;
use vstd::string::StringExecFns;

verus! {

/// Why an answer of the market-data service is passed on as a failure.
#[derive(Clone, Copy, Debug, PartialEq, Eq, Structural)]
pub enum UpstreamFailure {
    /// The service does not know the symbol.
    NotFound,
    /// The service refused the gateway's credentials.
    Unauthorized,
    /// The service is asked too often.
    TooManyRequests,
    /// The service itself failed.
    BadGateway,
    /// The service refused the request for another reason.
    BadRequest,
}

/// Whether `status`, an HTTP status code, reports success.
pub open spec fn is_success(status: u16) -> bool {
    200 <= status < 300
}

/// The failure that the status of an answer stands for, if it is one.
pub open spec fn failure_of(status: u16) -> Option<UpstreamFailure> {
    if is_success(status) {
        None
    } else if status == 404 {
        Some(UpstreamFailure::NotFound)
    } else if status == 401 || status == 403 {
        Some(UpstreamFailure::Unauthorized)
    } else if status == 429 {
        Some(UpstreamFailure::TooManyRequests)
    } else if 500 <= status <= 599 {
        Some(UpstreamFailure::BadGateway)
    } else {
        Some(UpstreamFailure::BadRequest)
    }
}

/// Tells how the gateway passes on an answer with the HTTP status `status`:
/// as it is where the status reports success, else as the failure that the
/// status stands for.
pub fn classify_status(status: u16) -> (failure: Option<UpstreamFailure>)
    ensures
        failure == failure_of(status),
{
    if 200 <= status && status < 300 {
        None
    } else if status == 404 {
        Some(UpstreamFailure::NotFound)
    } else if status == 401 || status == 403 {
        Some(UpstreamFailure::Unauthorized)
    } else if status == 429 {
        Some(UpstreamFailure::TooManyRequests)
    } else if 500 <= status && status <= 599 {
        Some(UpstreamFailure::BadGateway)
    } else {
        Some(UpstreamFailure::BadRequest)
    }
}

impl UpstreamFailure {
    /// The text that tells a caller of this failure for the stock `symbol`.
    pub open spec fn message_text(self, symbol: Seq<char>) -> Seq<char> {
        match self {
            UpstreamFailure::NotFound => "Stock symbol '"@ + symbol + "' not found"@,
            UpstreamFailure::Unauthorized => "Invalid API credentials"@,
            UpstreamFailure::TooManyRequests => "Rate limit exceeded"@,
            UpstreamFailure::BadGateway => "Alpaca API server error"@,
            UpstreamFailure::BadRequest => "Invalid request to Alpaca API"@,
        }
    }

    /// The text that tells a caller of this failure for the stock `symbol`.
    pub fn message(&self, symbol: &str) -> (text: String)
        ensures
            text@ == self.message_text(symbol@),
    {
        match self {
            UpstreamFailure::NotFound => {
                let mut text = "Stock symbol '".to_owned();
                text.append(symbol);
                text.append("' not found");
                text
            },
            UpstreamFailure::Unauthorized => "Invalid API credentials".to_owned(),
            UpstreamFailure::TooManyRequests => "Rate limit exceeded".to_owned(),
            UpstreamFailure::BadGateway => "Alpaca API server error".to_owned(),
            UpstreamFailure::BadRequest => "Invalid request to Alpaca API".to_owned(),
        }
    }
}

/// One field of an answer in which a price is looked for.
#[derive(Debug, PartialEq, Eq)]
pub enum PriceField {
    /// A number, in the decimal text in which it was written.
    Number(String),
    /// A text.
    Text(String),
    /// Anything else.
    Other,
}

/// The price that a field holds: a number or a text is one, nothing else is.
pub open spec fn price_in(field: Option<PriceField>) -> Option<String> {
    match field {
        Some(PriceField::Number(price)) => Some(price),
        Some(PriceField::Text(price)) => Some(price),
        _ => None,
    }
}

/// Reads the price that a field holds.
pub fn extract_price(field: Option<PriceField>) -> (price: Option<String>)
    ensures
        price == price_in(field),
{
    match field {
        Some(PriceField::Number(price)) => Some(price),
        Some(PriceField::Text(price)) => Some(price),
        _ => None,
    }
}

/// Where a price was found in a snapshot.
#[derive(Clone, Copy, Debug, PartialEq, Eq, Structural)]
pub enum PriceSource {
    /// The asking price of the latest quote.
    Ask,
    /// The bid of the latest quote.
    Bid,
    /// The close of the day's bar.
    DailyClose,
    /// The price of the latest trade.
    Trade,
}

impl PriceSource {
    /// The name of the source.
    pub fn name(&self) -> (name: &'static str)
        ensures
            name@ == match self {
                PriceSource::Ask => "ask"@,
                PriceSource::Bid => "bid"@,
                PriceSource::DailyClose => "daily close"@,
                PriceSource::Trade => "trade"@,
            },
    {
        match self {
            PriceSource::Ask => "ask",
            PriceSource::Bid => "bid",
            PriceSource::DailyClose => "daily close",
            PriceSource::Trade => "trade",
        }
    }
}

/// The fields of a snapshot in which a price is looked for. A field is
/// absent where the snapshot lacks it, or lacks the part that holds it.
#[derive(Debug, PartialEq, Eq)]
pub struct Snapshot {
    /// The asking price of the latest quote.
    pub ask_price: Option<PriceField>,
    /// The bid of the latest quote.
    pub bid_price: Option<PriceField>,
    /// The close of the day's bar.
    pub daily_close: Option<PriceField>,
    /// The price of the latest trade.
    pub trade_price: Option<PriceField>,
}

/// The price that a snapshot gives, with its source: the first that is
/// there of the asking price, the bid, the day's close and the latest trade.
pub open spec fn quoted(snapshot: Snapshot) -> Option<(String, PriceSource)> {
    if price_in(snapshot.ask_price) is Some {
        Some((price_in(snapshot.ask_price)->Some_0, PriceSource::Ask))
    } else if price_in(snapshot.bid_price) is Some {
        Some((price_in(snapshot.bid_price)->Some_0, PriceSource::Bid))
    } else if price_in(snapshot.daily_close) is Some {
        Some((price_in(snapshot.daily_close)->Some_0, PriceSource::DailyClose))
    } else if price_in(snapshot.trade_price) is Some {
        Some((price_in(snapshot.trade_price)->Some_0, PriceSource::Trade))
    } else {
        None
    }
}

/// Picks the price that a snapshot gives, with its source. There is none
/// where no field holds a price.
pub fn select_price(snapshot: Snapshot) -> (price: Option<(String, PriceSource)>)
    ensures
        price == quoted(snapshot),
{
    let Snapshot { ask_price, bid_price, daily_close, trade_price } = snapshot;
    match extract_price(ask_price) {
        Some(price) => {
            return Some((price, PriceSource::Ask));
        },
        None => {},
    }
    match extract_price(bid_price) {
        Some(price) => {
            return Some((price, PriceSource::Bid));
        },
        None => {},
    }
    match extract_price(daily_close) {
        Some(price) => {
            return Some((price, PriceSource::DailyClose));
        },
        None => {},
    }
    match extract_price(trade_price) {
        Some(price) => Some((price, PriceSource::Trade)),
        None => None,
    }
}

} // verus!
