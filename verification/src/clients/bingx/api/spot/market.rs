//! Calls of the spot market endpoints.

use crate::http::ApiRequest;
use crate::http::Method;
use crate::params::Entry;
use crate::params::Params;
use crate::params::put;
use crate::params::put_int;
use crate::params::put_text;
use crate::params::text_entry;
use crate::params::text_of;
use vstd::prelude::*;

verus! {

/// The parameters of `get_spot_symbols_like`.
pub open spec fn get_spot_symbols_like_entries(symbol: Option<Seq<char>>) -> Seq<Entry> {
    let p = Seq::<Entry>::empty();
    let p = put_text(p, "symbol"@, symbol);
    p
}

/// The spot symbols, or the one that is named.
pub fn get_spot_symbols_like(symbol: Option<&str>) -> (request: ApiRequest)
    ensures
        request.calls(
            Method::Get,
            "/openApi/spot/v1/common/symbols"@,
            false,
            Some(
                get_spot_symbols_like_entries(
                    text_of(symbol),
                ),
            ),
        ),
{
    let mut p = Params::new();
    p.set_text_opt("symbol", symbol);
    ApiRequest::new(Method::Get, "/openApi/spot/v1/common/symbols", Some(p), false)
}

/// The parameters of `get_spot_klines`.
pub open spec fn get_spot_klines_entries(
    symbol: Seq<char>,
    interval: Seq<char>,
    start_time: Option<u64>,
    end_time: Option<u64>,
    limit: Option<u32>,
) -> Seq<Entry> {
    let p = Seq::<Entry>::empty();
    let p = put(p, text_entry("symbol"@, symbol));
    let p = put(p, text_entry("interval"@, interval));
    let p = put_int(
        p,
        "startTime"@,
        match start_time {
            Some(n) => Some(n as int),
            None => None,
        },
    );
    let p = put_int(
        p,
        "endTime"@,
        match end_time {
            Some(n) => Some(n as int),
            None => None,
        },
    );
    let p = put_int(
        p,
        "limit"@,
        match limit {
            Some(n) => Some(n as int),
            None => None,
        },
    );
    p
}

/// The candles of a spot symbol at an interval.
pub fn get_spot_klines(
    symbol: &str,
    interval: &str,
    start_time: Option<u64>,
    end_time: Option<u64>,
    limit: Option<u32>,
) -> (request: ApiRequest)
    ensures
        request.calls(
            Method::Get,
            "/openApi/spot/v2/market/kline"@,
            false,
            Some(
                get_spot_klines_entries(
                    symbol@,
                    interval@,
                    start_time,
                    end_time,
                    limit,
                ),
            ),
        ),
{
    let mut p = Params::new();
    p.set_text("symbol", symbol);
    p.set_text("interval", interval);
    if let Some(n) = start_time {
        p.set_int("startTime", n as i128);
    }
    if let Some(n) = end_time {
        p.set_int("endTime", n as i128);
    }
    if let Some(n) = limit {
        p.set_int("limit", n as i128);
    }
    ApiRequest::new(Method::Get, "/openApi/spot/v2/market/kline", Some(p), false)
}
} // verus!
