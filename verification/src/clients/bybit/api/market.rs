//! Calls of the market endpoints.

use crate::bybit::types::AllCategories;
use crate::bybit::types::InstrumentStatus;
use crate::bybit::types::SymbolType;
use crate::http::ApiRequest;
use crate::http::deref_of;
use crate::http::Method;
use crate::params::Entry;
use crate::params::Params;
use crate::params::put;
use crate::params::put_text;
use crate::params::text_entry;
use crate::params::text_of;
use crate::text::decimal;
use crate::text::decimal_of;
use vstd::prelude::*;

verus! {

/// The time of the exchange.
pub fn get_server_time() -> (request: ApiRequest)
    ensures
        request.calls(
            Method::Get,
            "/v5/market/time"@,
            false,
            None,
        ),
{
    ApiRequest::new(Method::Get, "/v5/market/time", None, false)
}

/// The parameters of `get_kline`.
pub open spec fn get_kline_entries(
    symbol: Seq<char>,
    interval: Seq<char>,
    category: Option<AllCategories>,
    start: Option<i64>,
    end: Option<i64>,
    limit: Option<i32>,
) -> Seq<Entry> {
    let p = Seq::<Entry>::empty();
    let p = put(p, text_entry("symbol"@, symbol));
    let p = put(p, text_entry("interval"@, interval));
    let p = put_text(
        p,
        "category"@,
        match category {
            Some(word) => Some(word.wire_name()),
            None => None,
        },
    );
    let p = put_text(
        p,
        "start"@,
        match start {
            Some(n) => Some(decimal_of(n as int)),
            None => None,
        },
    );
    let p = put_text(
        p,
        "end"@,
        match end {
            Some(n) => Some(decimal_of(n as int)),
            None => None,
        },
    );
    let p = put_text(
        p,
        "limit"@,
        match limit {
            Some(n) => Some(decimal_of(n as int)),
            None => None,
        },
    );
    p
}

/// The candles of a symbol at an interval. Numbers go as decimal strings.
pub fn get_kline(
    symbol: &str,
    interval: &str,
    category: Option<&AllCategories>,
    start: Option<i64>,
    end: Option<i64>,
    limit: Option<i32>,
) -> (request: ApiRequest)
    ensures
        request.calls(
            Method::Get,
            "/v5/market/kline"@,
            false,
            Some(
                get_kline_entries(
                    symbol@,
                    interval@,
                    deref_of(category),
                    start,
                    end,
                    limit,
                ),
            ),
        ),
{
    let mut p = Params::new();
    p.set_text("symbol", symbol);
    p.set_text("interval", interval);
    if let Some(word) = category {
        p.set_text("category", word.as_str());
    }
    if let Some(n) = start {
        p.set_text("start", decimal(n as i128).as_str());
    }
    if let Some(n) = end {
        p.set_text("end", decimal(n as i128).as_str());
    }
    if let Some(n) = limit {
        p.set_text("limit", decimal(n as i128).as_str());
    }
    ApiRequest::new(Method::Get, "/v5/market/kline", Some(p), false)
}

/// The parameters of `get_instruments_info`.
pub open spec fn get_instruments_info_entries(
    category: AllCategories,
    symbol: Option<Seq<char>>,
    symbol_type: Option<SymbolType>,
    status: Option<InstrumentStatus>,
    base_coin: Option<Seq<char>>,
    limit: Option<i32>,
    cursor: Option<Seq<char>>,
) -> Seq<Entry> {
    let p = Seq::<Entry>::empty();
    let p = put(p, text_entry("category"@, category.wire_name()));
    let p = put_text(p, "symbol"@, symbol);
    let p = put_text(
        p,
        "symbolType"@,
        match symbol_type {
            Some(word) => Some(word.wire_name()),
            None => None,
        },
    );
    let p = put_text(
        p,
        "status"@,
        match status {
            Some(word) => Some(word.wire_name()),
            None => None,
        },
    );
    let p = put_text(p, "baseCoin"@, base_coin);
    let p = put_text(
        p,
        "limit"@,
        match limit {
            Some(n) => Some(decimal_of(n as int)),
            None => None,
        },
    );
    let p = put_text(p, "cursor"@, cursor);
    p
}

/// The instruments of a category. Numbers go as decimal strings.
pub fn get_instruments_info(
    category: AllCategories,
    symbol: Option<&str>,
    symbol_type: Option<&SymbolType>,
    status: Option<&InstrumentStatus>,
    base_coin: Option<&str>,
    limit: Option<i32>,
    cursor: Option<&str>,
) -> (request: ApiRequest)
    ensures
        request.calls(
            Method::Get,
            "/v5/market/instruments-info"@,
            false,
            Some(
                get_instruments_info_entries(
                    category,
                    text_of(symbol),
                    deref_of(symbol_type),
                    deref_of(status),
                    text_of(base_coin),
                    limit,
                    text_of(cursor),
                ),
            ),
        ),
{
    let mut p = Params::new();
    p.set_text("category", category.as_str());
    p.set_text_opt("symbol", symbol);
    if let Some(word) = symbol_type {
        p.set_text("symbolType", word.as_str());
    }
    if let Some(word) = status {
        p.set_text("status", word.as_str());
    }
    p.set_text_opt("baseCoin", base_coin);
    if let Some(n) = limit {
        p.set_text("limit", decimal(n as i128).as_str());
    }
    p.set_text_opt("cursor", cursor);
    ApiRequest::new(Method::Get, "/v5/market/instruments-info", Some(p), false)
}
} // verus!
