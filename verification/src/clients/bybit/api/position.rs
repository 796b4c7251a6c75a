//! Calls of the position endpoints.

use crate::bybit::types::AllCategories;
use crate::error::SdkError;
use crate::http::ApiRequest;
use crate::http::Method;
use crate::params::Entry;
use crate::params::int_entry;
use crate::params::merged;
use crate::params::Params;
use crate::params::put;
use crate::params::put_int;
use crate::params::put_text;
use crate::params::text_entry;
use crate::params::text_of;
use vstd::prelude::*;

verus! {

/// The parameters of `get_position_info`.
pub open spec fn get_position_info_entries(
    category: AllCategories,
    symbol: Option<Seq<char>>,
    base_coin: Option<Seq<char>>,
    settle_coin: Option<Seq<char>>,
    limit: Option<u32>,
    cursor: Option<Seq<char>>,
) -> Seq<Entry> {
    let p = Seq::<Entry>::empty();
    let p = put(p, text_entry("category"@, category.wire_name()));
    let p = put_text(p, "symbol"@, symbol);
    let p = put_text(p, "baseCoin"@, base_coin);
    let p = put_text(p, "settleCoin"@, settle_coin);
    let p = put_int(
        p,
        "limit"@,
        match limit {
            Some(n) => Some(n as int),
            None => None,
        },
    );
    let p = put_text(p, "cursor"@, cursor);
    p
}

/// The open positions of a category.
pub fn get_position_info(
    category: AllCategories,
    symbol: Option<&str>,
    base_coin: Option<&str>,
    settle_coin: Option<&str>,
    limit: Option<u32>,
    cursor: Option<&str>,
) -> (request: ApiRequest)
    ensures
        request.calls(
            Method::Get,
            "/v5/position/list"@,
            true,
            Some(
                get_position_info_entries(
                    category,
                    text_of(symbol),
                    text_of(base_coin),
                    text_of(settle_coin),
                    limit,
                    text_of(cursor),
                ),
            ),
        ),
{
    let mut p = Params::new();
    p.set_text("category", category.as_str());
    p.set_text_opt("symbol", symbol);
    p.set_text_opt("baseCoin", base_coin);
    p.set_text_opt("settleCoin", settle_coin);
    if let Some(n) = limit {
        p.set_int("limit", n as i128);
    }
    p.set_text_opt("cursor", cursor);
    ApiRequest::new(Method::Get, "/v5/position/list", Some(p), true)
}

/// The parameters of `set_leverage`.
pub open spec fn set_leverage_entries(
    category: AllCategories,
    symbol: Seq<char>,
    buy_leverage: u32,
    sell_leverage: u32,
) -> Seq<Entry> {
    let p = Seq::<Entry>::empty();
    let p = put(p, text_entry("category"@, category.wire_name()));
    let p = put(p, text_entry("symbol"@, symbol));
    let p = put(p, int_entry("buyLeverage"@, buy_leverage as int));
    let p = put(p, int_entry("sellLeverage"@, sell_leverage as int));
    p
}

/// Sets the leverage of both sides of a symbol.
pub fn set_leverage(
    category: AllCategories,
    symbol: &str,
    buy_leverage: u32,
    sell_leverage: u32,
) -> (request: ApiRequest)
    ensures
        request.calls(
            Method::Post,
            "/v5/position/set-leverage"@,
            true,
            Some(
                set_leverage_entries(
                    category,
                    symbol@,
                    buy_leverage,
                    sell_leverage,
                ),
            ),
        ),
{
    let mut p = Params::new();
    p.set_text("category", category.as_str());
    p.set_text("symbol", symbol);
    p.set_int("buyLeverage", buy_leverage as i128);
    p.set_int("sellLeverage", sell_leverage as i128);
    ApiRequest::new(Method::Post, "/v5/position/set-leverage", Some(p), true)
}

/// The parameters of `switch_position_mode`.
pub open spec fn switch_position_mode_entries(
    category: AllCategories,
    mode: u8,
    symbol: Option<Seq<char>>,
    coin: Option<Seq<char>>,
) -> Seq<Entry> {
    let p = Seq::<Entry>::empty();
    let p = put(p, text_entry("category"@, category.wire_name()));
    let p = put(p, int_entry("mode"@, mode as int));
    let p = put_text(p, "symbol"@, symbol);
    let p = put_text(p, "coin"@, coin);
    p
}

/// The message by which `switch_position_mode` refuses its arguments, if it does.
pub open spec fn switch_position_mode_refusal(
    symbol: Option<Seq<char>>,
    coin: Option<Seq<char>>,
) -> Option<Seq<char>> {
    if {
        &&& symbol is None
        &&& coin is None
    } {
        Some("Either symbol or coin must be provided"@)
    } else {
        None
    }
}

/// Switches the position mode of a symbol or of a coin. One of the two must
/// be named.
pub fn switch_position_mode(
    category: AllCategories,
    mode: u8,
    symbol: Option<&str>,
    coin: Option<&str>,
) -> (made: Result<ApiRequest, SdkError>)
    ensures
        match made {
            Ok(request) => {
                &&& switch_position_mode_refusal(
                    text_of(symbol),
                    text_of(coin),
                ) is None
                &&& request.calls(
                    Method::Post,
                    "/v5/position/switch-mode"@,
                    true,
                    Some(
                        switch_position_mode_entries(
                            category,
                            mode,
                            text_of(symbol),
                            text_of(coin),
                        ),
                    ),
                )
            },
            Err(e) => {
                &&& e matches SdkError::Validation(m)
                &&& switch_position_mode_refusal(
                    text_of(symbol),
                    text_of(coin),
                ) == Some(m@)
            },
        },
{
    if symbol.is_none()
        && coin.is_none()
    {
        return Err(
            SdkError::Validation(
                "Either symbol or coin must be provided".to_owned(),
            ),
        );
    }
    let mut p = Params::new();
    p.set_text("category", category.as_str());
    p.set_int("mode", mode as i128);
    p.set_text_opt("symbol", symbol);
    p.set_text_opt("coin", coin);
    Ok(ApiRequest::new(Method::Post, "/v5/position/switch-mode", Some(p), true))
}

/// The parameters of `set_trading_stop`.
pub open spec fn set_trading_stop_entries(
    category: AllCategories,
    fields: Seq<Entry>,
) -> Seq<Entry> {
    let p = Seq::<Entry>::empty();
    let p = put(p, text_entry("category"@, category.wire_name()));
    let p = merged(p, fields);
    p
}

/// Sets take profit, stop loss or trailing stop of a position. `fields` are
/// the members of the order; those without a value are left out.
pub fn set_trading_stop(category: AllCategories, fields: &Params) -> (request: ApiRequest)
    ensures
        request.calls(
            Method::Post,
            "/v5/position/trading-stop"@,
            true,
            Some(
                set_trading_stop_entries(
                    category,
                    fields@,
                ),
            ),
        ),
{
    let mut p = Params::new();
    p.set_text("category", category.as_str());
    p.merge(fields);
    ApiRequest::new(Method::Post, "/v5/position/trading-stop", Some(p), true)
}

/// The parameters of `get_closed_pnl`.
pub open spec fn get_closed_pnl_entries(
    category: AllCategories,
    symbol: Option<Seq<char>>,
    start_time: Option<u64>,
    end_time: Option<u64>,
    limit: Option<u32>,
    cursor: Option<Seq<char>>,
) -> Seq<Entry> {
    let p = Seq::<Entry>::empty();
    let p = put(p, text_entry("category"@, category.wire_name()));
    let p = put_text(p, "symbol"@, symbol);
    let p = put_int(
        p,
        "startTime"@,
        match start_time {
            Some(n) => Some(n as int),
            None => None,
        },
    );
    let p = put_int(
        p,
        "endTime"@,
        match end_time {
            Some(n) => Some(n as int),
            None => None,
        },
    );
    let p = put_int(
        p,
        "limit"@,
        match limit {
            Some(n) => Some(n as int),
            None => None,
        },
    );
    let p = put_text(p, "cursor"@, cursor);
    p
}

/// The closed profit and loss of a category.
pub fn get_closed_pnl(
    category: AllCategories,
    symbol: Option<&str>,
    start_time: Option<u64>,
    end_time: Option<u64>,
    limit: Option<u32>,
    cursor: Option<&str>,
) -> (request: ApiRequest)
    ensures
        request.calls(
            Method::Get,
            "/v5/position/closed-pnl"@,
            true,
            Some(
                get_closed_pnl_entries(
                    category,
                    text_of(symbol),
                    start_time,
                    end_time,
                    limit,
                    text_of(cursor),
                ),
            ),
        ),
{
    let mut p = Params::new();
    p.set_text("category", category.as_str());
    p.set_text_opt("symbol", symbol);
    if let Some(n) = start_time {
        p.set_int("startTime", n as i128);
    }
    if let Some(n) = end_time {
        p.set_int("endTime", n as i128);
    }
    if let Some(n) = limit {
        p.set_int("limit", n as i128);
    }
    p.set_text_opt("cursor", cursor);
    ApiRequest::new(Method::Get, "/v5/position/closed-pnl", Some(p), true)
}
} // verus!
