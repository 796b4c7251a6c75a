//! Calls of the swap trade endpoints.

use crate::bingx::types::MarginMode;
use crate::bingx::types::PositionSide;
use crate::bingx::types::QuoteCurrency;
use crate::bingx::types::SwapOrderType;
use crate::error::SdkError;
use crate::http::ApiRequest;
use crate::http::Method;
use crate::params::Entry;
use crate::params::int_entry;
use crate::params::merged;
use crate::params::Params;
use crate::params::put;
use crate::params::put_int;
use crate::params::put_text;
use crate::params::raw_entry;
use crate::params::text_entry;
use crate::params::text_of;
use crate::text::decimal;
use crate::text::decimal_of;
use crate::text::json_array;
use crate::text::json_array_of;
use crate::text::json_quote;
use crate::text::json_string_of;
use crate::text::texts_in;
use crate::utils::bool_word;
use vstd::prelude::*;

verus! {

/// The parameters of `place_swap_order`.
pub open spec fn place_swap_order_entries(fields: Seq<Entry>) -> Seq<Entry> {
    let p = Seq::<Entry>::empty();
    let p = merged(p, fields);
    p
}

/// Places a swap order. `fields` are the members of the order; those
/// without a value are left out.
pub fn place_swap_order(fields: &Params) -> (request: ApiRequest)
    ensures
        request.calls(
            Method::Post,
            "/openApi/swap/v2/trade/order"@,
            true,
            Some(
                place_swap_order_entries(
                    fields@,
                ),
            ),
        ),
{
    let mut p = Params::new();
    p.merge(fields);
    ApiRequest::new(Method::Post, "/openApi/swap/v2/trade/order", Some(p), true)
}

/// The parameters of `close_swap_position`.
pub open spec fn close_swap_position_entries(position_id: Seq<char>) -> Seq<Entry> {
    let p = Seq::<Entry>::empty();
    let p = put(p, text_entry("positionId"@, position_id));
    p
}

/// Closes a swap position at the market price.
pub fn close_swap_position(position_id: &str) -> (request: ApiRequest)
    ensures
        request.calls(
            Method::Post,
            "/openApi/swap/v1/trade/closePosition"@,
            true,
            Some(
                close_swap_position_entries(
                    position_id@,
                ),
            ),
        ),
{
    let mut p = Params::new();
    p.set_text("positionId", position_id);
    ApiRequest::new(Method::Post, "/openApi/swap/v1/trade/closePosition", Some(p), true)
}

/// The parameters of `get_swap_order_history`.
pub open spec fn get_swap_order_history_entries(
    symbol: Option<Seq<char>>,
    currency: Option<QuoteCurrency>,
    order_id: Option<i64>,
    start_time: Option<i64>,
    end_time: Option<i64>,
    limit: Option<u32>,
) -> Seq<Entry> {
    let p = Seq::<Entry>::empty();
    let p = put_text(p, "symbol"@, symbol);
    let p = put_text(
        p,
        "currency"@,
        match currency {
            Some(word) => Some(word.wire_name()),
            None => None,
        },
    );
    let p = put_int(
        p,
        "orderId"@,
        match order_id {
            Some(n) => Some(n as int),
            None => None,
        },
    );
    let p = put_int(
        p,
        "startTime"@,
        match start_time {
            Some(n) => Some(n as int),
            None => None,
        },
    );
    let p = put_int(
        p,
        "endTime"@,
        match end_time {
            Some(n) => Some(n as int),
            None => None,
        },
    );
    let p = put(
        p,
        int_entry(
            "limit"@,
            (match limit {
                Some(n) => n,
                None => 500u32,
            }) as int,
        ),
    );
    p
}

/// The swap orders that the arguments select, at most 500 where no limit is
/// given.
pub fn get_swap_order_history(
    symbol: Option<&str>,
    currency: Option<QuoteCurrency>,
    order_id: Option<i64>,
    start_time: Option<i64>,
    end_time: Option<i64>,
    limit: Option<u32>,
) -> (request: ApiRequest)
    ensures
        request.calls(
            Method::Get,
            "/openApi/swap/v2/trade/allOrders"@,
            true,
            Some(
                get_swap_order_history_entries(
                    text_of(symbol),
                    currency,
                    order_id,
                    start_time,
                    end_time,
                    limit,
                ),
            ),
        ),
{
    let mut p = Params::new();
    p.set_text_opt("symbol", symbol);
    if let Some(word) = currency {
        p.set_text("currency", word.as_str());
    }
    if let Some(n) = order_id {
        p.set_int("orderId", n as i128);
    }
    if let Some(n) = start_time {
        p.set_int("startTime", n as i128);
    }
    if let Some(n) = end_time {
        p.set_int("endTime", n as i128);
    }
    let n = match limit {
        Some(n) => n,
        None => 500u32,
    };
    p.set_int("limit", n as i128);
    ApiRequest::new(Method::Get, "/openApi/swap/v2/trade/allOrders", Some(p), true)
}

/// The parameters of `get_swap_order_details`.
pub open spec fn get_swap_order_details_entries(
    symbol: Seq<char>,
    order_id: Option<i64>,
    client_order_id: Option<Seq<char>>,
) -> Seq<Entry> {
    let p = Seq::<Entry>::empty();
    let p = put(p, text_entry("symbol"@, symbol));
    let p = put_int(
        p,
        "orderId"@,
        match order_id {
            Some(n) => Some(n as int),
            None => None,
        },
    );
    let p = put_text(p, "clientOrderId"@, client_order_id);
    p
}

/// One swap order, named by its identifier or by the caller's own.
pub fn get_swap_order_details(
    symbol: &str,
    order_id: Option<i64>,
    client_order_id: Option<&str>,
) -> (request: ApiRequest)
    ensures
        request.calls(
            Method::Get,
            "/openApi/swap/v2/trade/order"@,
            true,
            Some(
                get_swap_order_details_entries(
                    symbol@,
                    order_id,
                    text_of(client_order_id),
                ),
            ),
        ),
{
    let mut p = Params::new();
    p.set_text("symbol", symbol);
    if let Some(n) = order_id {
        p.set_int("orderId", n as i128);
    }
    p.set_text_opt("clientOrderId", client_order_id);
    ApiRequest::new(Method::Get, "/openApi/swap/v2/trade/order", Some(p), true)
}

/// The parameters of `get_swap_open_orders`.
pub open spec fn get_swap_open_orders_entries(
    symbol: Option<Seq<char>>,
    order_type: Option<SwapOrderType>,
) -> Seq<Entry> {
    let p = Seq::<Entry>::empty();
    let p = put_text(p, "symbol"@, symbol);
    let p = put_text(
        p,
        "type"@,
        match order_type {
            Some(word) => Some(word.wire_name()),
            None => None,
        },
    );
    p
}

/// The open swap orders that the arguments select.
pub fn get_swap_open_orders(
    symbol: Option<&str>,
    order_type: Option<SwapOrderType>,
) -> (request: ApiRequest)
    ensures
        request.calls(
            Method::Get,
            "/openApi/swap/v2/trade/openOrders"@,
            true,
            Some(
                get_swap_open_orders_entries(
                    text_of(symbol),
                    order_type,
                ),
            ),
        ),
{
    let mut p = Params::new();
    p.set_text_opt("symbol", symbol);
    if let Some(word) = order_type {
        p.set_text("type", word.as_str());
    }
    ApiRequest::new(Method::Get, "/openApi/swap/v2/trade/openOrders", Some(p), true)
}

/// The parameters of `get_swap_position_history`.
pub open spec fn get_swap_position_history_entries(
    symbol: Seq<char>,
    currency: Option<QuoteCurrency>,
    position_id: Option<i64>,
    start_ts: Option<i64>,
    end_ts: Option<i64>,
    page_index: Option<i32>,
    page_size: Option<i32>,
) -> Seq<Entry> {
    let p = Seq::<Entry>::empty();
    let p = put(p, text_entry("symbol"@, symbol));
    let p = put_text(
        p,
        "currency"@,
        match currency {
            Some(word) => Some(word.wire_name()),
            None => None,
        },
    );
    let p = put_int(
        p,
        "positionId"@,
        match position_id {
            Some(n) => Some(n as int),
            None => None,
        },
    );
    let p = put_int(
        p,
        "startTs"@,
        match start_ts {
            Some(n) => Some(n as int),
            None => None,
        },
    );
    let p = put_int(
        p,
        "endTs"@,
        match end_ts {
            Some(n) => Some(n as int),
            None => None,
        },
    );
    let p = put_int(
        p,
        "pageIndex"@,
        match page_index {
            Some(n) => Some(n as int),
            None => None,
        },
    );
    let p = put_int(
        p,
        "pageSize"@,
        match page_size {
            Some(n) => Some(n as int),
            None => None,
        },
    );
    p
}

/// The closed positions of a swap symbol.
pub fn get_swap_position_history(
    symbol: &str,
    currency: Option<QuoteCurrency>,
    position_id: Option<i64>,
    start_ts: Option<i64>,
    end_ts: Option<i64>,
    page_index: Option<i32>,
    page_size: Option<i32>,
) -> (request: ApiRequest)
    ensures
        request.calls(
            Method::Get,
            "/openApi/swap/v1/trade/positionHistory"@,
            true,
            Some(
                get_swap_position_history_entries(
                    symbol@,
                    currency,
                    position_id,
                    start_ts,
                    end_ts,
                    page_index,
                    page_size,
                ),
            ),
        ),
{
    let mut p = Params::new();
    p.set_text("symbol", symbol);
    if let Some(word) = currency {
        p.set_text("currency", word.as_str());
    }
    if let Some(n) = position_id {
        p.set_int("positionId", n as i128);
    }
    if let Some(n) = start_ts {
        p.set_int("startTs", n as i128);
    }
    if let Some(n) = end_ts {
        p.set_int("endTs", n as i128);
    }
    if let Some(n) = page_index {
        p.set_int("pageIndex", n as i128);
    }
    if let Some(n) = page_size {
        p.set_int("pageSize", n as i128);
    }
    ApiRequest::new(Method::Get, "/openApi/swap/v1/trade/positionHistory", Some(p), true)
}

/// The parameters of `set_swap_leverage`.
pub open spec fn set_swap_leverage_entries(
    symbol: Seq<char>,
    side: PositionSide,
    leverage: i32,
) -> Seq<Entry> {
    let p = Seq::<Entry>::empty();
    let p = put(p, text_entry("symbol"@, symbol));
    let p = put(p, text_entry("side"@, side.wire_name()));
    let p = put(p, int_entry("leverage"@, leverage as int));
    p
}

/// Sets the leverage of one side of a swap symbol.
pub fn set_swap_leverage(symbol: &str, side: PositionSide, leverage: i32) -> (request: ApiRequest)
    ensures
        request.calls(
            Method::Post,
            "/openApi/swap/v2/trade/leverage"@,
            true,
            Some(
                set_swap_leverage_entries(
                    symbol@,
                    side,
                    leverage,
                ),
            ),
        ),
{
    let mut p = Params::new();
    p.set_text("symbol", symbol);
    p.set_text("side", side.as_str());
    p.set_int("leverage", leverage as i128);
    ApiRequest::new(Method::Post, "/openApi/swap/v2/trade/leverage", Some(p), true)
}

/// The parameters of `set_swap_position_mode`.
pub open spec fn set_swap_position_mode_entries(dual_side_position: bool) -> Seq<Entry> {
    let p = Seq::<Entry>::empty();
    let p = put(p, text_entry("dualSidePosition"@, bool_word(dual_side_position)));
    p
}

/// Sets whether long and short positions are held apart. The choice goes as
/// the word `true` or `false`.
pub fn set_swap_position_mode(dual_side_position: bool) -> (request: ApiRequest)
    ensures
        request.calls(
            Method::Post,
            "/openApi/swap/v1/positionSide/dual"@,
            true,
            Some(
                set_swap_position_mode_entries(
                    dual_side_position,
                ),
            ),
        ),
{
    let mut p = Params::new();
    p.set_text("dualSidePosition", if dual_side_position {
        "true"
    } else {
        "false"
    });
    ApiRequest::new(Method::Post, "/openApi/swap/v1/positionSide/dual", Some(p), true)
}

/// Whether long and short positions are held apart.
pub fn get_swap_position_mode() -> (request: ApiRequest)
    ensures
        request.calls(
            Method::Get,
            "/openApi/swap/v1/positionSide/dual"@,
            true,
            None,
        ),
{
    ApiRequest::new(Method::Get, "/openApi/swap/v1/positionSide/dual", None, true)
}

/// The parameters of `get_swap_leverage_and_available_positions`.
pub open spec fn get_swap_leverage_and_available_positions_entries(
    symbol: Seq<char>,
) -> Seq<Entry> {
    let p = Seq::<Entry>::empty();
    let p = put(p, text_entry("symbol"@, symbol));
    p
}

/// The leverage of a swap symbol and the positions it allows.
pub fn get_swap_leverage_and_available_positions(symbol: &str) -> (request: ApiRequest)
    ensures
        request.calls(
            Method::Get,
            "/openApi/swap/v2/trade/leverage"@,
            true,
            Some(
                get_swap_leverage_and_available_positions_entries(
                    symbol@,
                ),
            ),
        ),
{
    let mut p = Params::new();
    p.set_text("symbol", symbol);
    ApiRequest::new(Method::Get, "/openApi/swap/v2/trade/leverage", Some(p), true)
}

/// The parameters of `cancel_all_swap_open_orders`.
pub open spec fn cancel_all_swap_open_orders_entries(
    symbol: Option<Seq<char>>,
    order_type: Option<SwapOrderType>,
) -> Seq<Entry> {
    let p = Seq::<Entry>::empty();
    let p = put_text(p, "symbol"@, symbol);
    let p = put_text(
        p,
        "type"@,
        match order_type {
            Some(word) => Some(word.wire_name()),
            None => None,
        },
    );
    p
}

/// Cancels the open swap orders that the arguments select.
pub fn cancel_all_swap_open_orders(
    symbol: Option<&str>,
    order_type: Option<SwapOrderType>,
) -> (request: ApiRequest)
    ensures
        request.calls(
            Method::Delete,
            "/openApi/swap/v2/trade/allOpenOrders"@,
            true,
            Some(
                cancel_all_swap_open_orders_entries(
                    text_of(symbol),
                    order_type,
                ),
            ),
        ),
{
    let mut p = Params::new();
    p.set_text_opt("symbol", symbol);
    if let Some(word) = order_type {
        p.set_text("type", word.as_str());
    }
    ApiRequest::new(Method::Delete, "/openApi/swap/v2/trade/allOpenOrders", Some(p), true)
}

/// The parameters of `change_swap_margin_type`.
pub open spec fn change_swap_margin_type_entries(
    symbol: Seq<char>,
    margin_type: MarginMode,
) -> Seq<Entry> {
    let p = Seq::<Entry>::empty();
    let p = put(p, text_entry("symbol"@, symbol));
    let p = put(p, text_entry("marginType"@, margin_type.wire_name()));
    p
}

/// Sets how the margin of a swap symbol is held.
pub fn change_swap_margin_type(symbol: &str, margin_type: MarginMode) -> (request: ApiRequest)
    ensures
        request.calls(
            Method::Post,
            "/openApi/swap/v2/trade/marginType"@,
            true,
            Some(
                change_swap_margin_type_entries(
                    symbol@,
                    margin_type,
                ),
            ),
        ),
{
    let mut p = Params::new();
    p.set_text("symbol", symbol);
    p.set_text("marginType", margin_type.as_str());
    ApiRequest::new(Method::Post, "/openApi/swap/v2/trade/marginType", Some(p), true)
}

/// The parameters of `get_swap_margin_type`.
pub open spec fn get_swap_margin_type_entries(symbol: Seq<char>) -> Seq<Entry> {
    let p = Seq::<Entry>::empty();
    let p = put(p, text_entry("symbol"@, symbol));
    p
}

/// How the margin of a swap symbol is held.
pub fn get_swap_margin_type(symbol: &str) -> (request: ApiRequest)
    ensures
        request.calls(
            Method::Get,
            "/openApi/swap/v2/trade/marginType"@,
            true,
            Some(
                get_swap_margin_type_entries(
                    symbol@,
                ),
            ),
        ),
{
    let mut p = Params::new();
    p.set_text("symbol", symbol);
    ApiRequest::new(Method::Get, "/openApi/swap/v2/trade/marginType", Some(p), true)
}

/// The identifiers of a list as a JSON array of numbers.
pub open spec fn number_array_of(ids: Option<&[i64]>) -> Option<Seq<char>> {
    match ids {
        Some(list) => Some(json_array_of(list@.map_values(|n: i64| decimal_of(n as int)))),
        None => None,
    }
}

/// The identifiers of a list as a JSON array of strings.
pub open spec fn string_array_of(ids: Option<&[&str]>) -> Option<Seq<char>> {
    match ids {
        Some(list) => Some(json_array_of(list@.map_values(|s: &str| json_string_of(s@)))),
        None => None,
    }
}

/// The entries with `name` set to the JSON text `json`, where there is one.
pub open spec fn put_raw(entries: Seq<Entry>, name: Seq<char>, json: Option<Seq<char>>) -> Seq<
    Entry,
> {
    match json {
        Some(j) => put(entries, raw_entry(name, j)),
        None => entries,
    }
}

/// The parameters of `cancel_swap_batch_orders`.
pub open spec fn cancel_swap_batch_orders_entries(
    symbol: Seq<char>,
    order_id_list: Option<Seq<char>>,
    client_order_id_list: Option<Seq<char>>,
) -> Seq<Entry> {
    let p = Seq::<Entry>::empty();
    let p = put(p, text_entry("symbol"@, symbol));
    let p = put_raw(p, "orderIdList"@, order_id_list);
    let p = put_raw(p, "clientOrderIdList"@, client_order_id_list);
    p
}

/// Cancels the swap orders of a symbol that the identifiers name. Each list
/// goes as a JSON array, and one of the two lists must be given.
pub fn cancel_swap_batch_orders(
    symbol: &str,
    order_id_list: Option<&[i64]>,
    client_order_id_list: Option<&[&str]>,
) -> (made: Result<ApiRequest, SdkError>)
    ensures
        match made {
            Ok(request) => {
                &&& !(order_id_list is None && client_order_id_list is None)
                &&& request.calls(
                    Method::Delete,
                    "/openApi/swap/v2/trade/batchOrders"@,
                    true,
                    Some(
                        cancel_swap_batch_orders_entries(
                            symbol@,
                            number_array_of(order_id_list),
                            string_array_of(client_order_id_list),
                        ),
                    ),
                )
            },
            Err(e) => {
                &&& e matches SdkError::Validation(m)
                &&& order_id_list is None && client_order_id_list is None
                &&& m@
                    == "At least one of order_id_list or client_order_id_list must be provided."@
            },
        },
{
    if order_id_list.is_none() && client_order_id_list.is_none() {
        return Err(
            SdkError::Validation(
                "At least one of order_id_list or client_order_id_list must be provided."
                    .to_owned(),
            ),
        );
    }
    let mut p = Params::new();
    p.set_text("symbol", symbol);
    if let Some(list) = order_id_list {
        let mut tokens: Vec<String> = Vec::new();
        let mut i: usize = 0;
        while i < list.len()
            invariant
                i <= list@.len(),
                tokens@.len() == i,
                forall|j: int|
                    0 <= j < i ==> (#[trigger] tokens@[j])@ == decimal_of(list@[j] as int),
            decreases list@.len() - i,
        {
            tokens.push(decimal(list[i] as i128));
            i += 1;
        }
        assert(texts_in(tokens@) =~= list@.map_values(|n: i64| decimal_of(n as int)));
        p.set_raw("orderIdList", json_array(&tokens));
    }
    if let Some(list) = client_order_id_list {
        let mut tokens: Vec<String> = Vec::new();
        let mut i: usize = 0;
        while i < list.len()
            invariant
                i <= list@.len(),
                tokens@.len() == i,
                forall|j: int| 0 <= j < i ==> (#[trigger] tokens@[j])@ == json_string_of(list@[j]@),
            decreases list@.len() - i,
        {
            tokens.push(json_quote(list[i]));
            i += 1;
        }
        assert(texts_in(tokens@) =~= list@.map_values(|s: &str| json_string_of(s@)));
        p.set_raw("clientOrderIdList", json_array(&tokens));
    }
    Ok(ApiRequest::new(Method::Delete, "/openApi/swap/v2/trade/batchOrders", Some(p), true))
}

} // verus!
