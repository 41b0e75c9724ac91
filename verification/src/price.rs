//! The request that asks the exchange for the price of the ledger's unit
//! around a point in time.

use vstd::prelude::*;
use crate::rpc::{header_is, HttpHeader, HttpMethod, OutboundRequest};
use crate::text::{decimal_digits, decimal_text};

verus! {

/// The most that the request for a price may cost.
pub const PRICE_REQUEST_COST: u128 = 1_603_114_800;

/// The seconds before and after the point in time that the request spans,
/// and the length of the candles that it asks for.
pub const PRICE_WINDOW: u64 = 60;

/// The address that gives the candles of one minute from a minute before a
/// point in time to a minute after it.
pub open spec fn price_url(timestamp: u64) -> Seq<char> {
    "https://api.exchange.coinbase.com/products/SOL-USD/candles?start="@ + decimal_digits(
        (timestamp - PRICE_WINDOW) as nat,
    ) + "&end="@ + decimal_digits((timestamp + PRICE_WINDOW) as nat) + "&granularity="@
        + decimal_digits(PRICE_WINDOW as nat)
}

/// `request` asks for the price around `timestamp`: a GET of the address
/// of the candles, with no body, under the name of the caller.
pub open spec fn asks_price(request: OutboundRequest, timestamp: u64) -> bool {
    &&& request.url@ == price_url(timestamp)
    &&& request.method == HttpMethod::Get
    &&& request.headers@.len() == 1
    &&& header_is(request.headers@[0], "User-Agent"@, "exchange_rate_canister"@)
    &&& request.body is None
    &&& request.max_response_bytes is None
    &&& request.max_cost == PRICE_REQUEST_COST
    &&& request.transform is None
    &&& !request.use_compression
}

/// The request that asks for the price around `timestamp`, in seconds. A
/// point in time less than a minute from either end of what a `u64` holds
/// has no such request.
pub fn price_request(timestamp: u64) -> (outcome: Option<OutboundRequest>)
    ensures
        PRICE_WINDOW <= timestamp <= u64::MAX - PRICE_WINDOW ==> outcome is Some && asks_price(
            outcome->Some_0,
            timestamp,
        ),
        !(PRICE_WINDOW <= timestamp <= u64::MAX - PRICE_WINDOW) ==> outcome is None,
{
    if timestamp < PRICE_WINDOW || timestamp > u64::MAX - PRICE_WINDOW {
        return None;
    }
    let mut url = String::from_str(
        "https://api.exchange.coinbase.com/products/SOL-USD/candles?start=",
    );
    url.append(decimal_text(timestamp - PRICE_WINDOW).as_str());
    url.append("&end=");
    url.append(decimal_text(timestamp + PRICE_WINDOW).as_str());
    url.append("&granularity=");
    url.append(decimal_text(PRICE_WINDOW).as_str());
    let mut headers: Vec<HttpHeader> = Vec::new();
    headers.push(
        HttpHeader {
            name: String::from_str("User-Agent"),
            value: String::from_str("exchange_rate_canister"),
        },
    );
    Some(
        OutboundRequest {
            url,
            method: HttpMethod::Get,
            headers,
            body: None,
            max_response_bytes: None,
            max_cost: PRICE_REQUEST_COST,
            transform: None,
            use_compression: false,
        },
    )
}

} // verus!
