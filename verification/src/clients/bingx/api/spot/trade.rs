//! Calls of the spot trade endpoints.

use crate::bingx::types::SpotOrderStatus;
use crate::bingx::types::SpotOrderType;
use crate::error::SdkError;
use crate::http::ApiRequest;
use crate::http::Method;
use crate::params::Entry;
use crate::params::int_entry;
use crate::params::Params;
use crate::params::put;
use crate::params::put_int;
use crate::params::put_text;
use crate::params::text_entry;
use crate::params::text_of;
use crate::text::join_texts;
use crate::text::joined_texts;
use crate::text::texts_in;
use vstd::prelude::*;

verus! {

/// The parameters of `get_spot_order_history`.
pub open spec fn get_spot_order_history_entries(
    symbol: Option<Seq<char>>,
    order_id: Option<i64>,
    start_time: Option<i64>,
    end_time: Option<i64>,
    page_index: Option<i64>,
    page_size: Option<i64>,
    status: Option<SpotOrderStatus>,
    order_type: Option<SpotOrderType>,
) -> Seq<Entry> {
    let p = Seq::<Entry>::empty();
    let p = put_text(p, "symbol"@, symbol);
    let p = put_int(
        p,
        "orderId"@,
        match order_id {
            Some(n) => Some(n as int),
            None => None,
        },
    );
    let p = put_int(
        p,
        "startTime"@,
        match start_time {
            Some(n) => Some(n as int),
            None => None,
        },
    );
    let p = put_int(
        p,
        "endTime"@,
        match end_time {
            Some(n) => Some(n as int),
            None => None,
        },
    );
    let p = put_int(
        p,
        "pageIndex"@,
        match page_index {
            Some(n) => Some(n as int),
            None => None,
        },
    );
    let p = put_int(
        p,
        "pageSize"@,
        match page_size {
            Some(n) => Some(n as int),
            None => None,
        },
    );
    let p = put_text(
        p,
        "status"@,
        match status {
            Some(word) => Some(word.wire_name()),
            None => None,
        },
    );
    let p = put_text(
        p,
        "type"@,
        match order_type {
            Some(word) => Some(word.wire_name()),
            None => None,
        },
    );
    p
}

/// The spot orders that the arguments select.
pub fn get_spot_order_history(
    symbol: Option<&str>,
    order_id: Option<i64>,
    start_time: Option<i64>,
    end_time: Option<i64>,
    page_index: Option<i64>,
    page_size: Option<i64>,
    status: Option<SpotOrderStatus>,
    order_type: Option<SpotOrderType>,
) -> (request: ApiRequest)
    ensures
        request.calls(
            Method::Get,
            "/openApi/spot/v1/trade/historyOrders"@,
            true,
            Some(
                get_spot_order_history_entries(
                    text_of(symbol),
                    order_id,
                    start_time,
                    end_time,
                    page_index,
                    page_size,
                    status,
                    order_type,
                ),
            ),
        ),
{
    let mut p = Params::new();
    p.set_text_opt("symbol", symbol);
    if let Some(n) = order_id {
        p.set_int("orderId", n as i128);
    }
    if let Some(n) = start_time {
        p.set_int("startTime", n as i128);
    }
    if let Some(n) = end_time {
        p.set_int("endTime", n as i128);
    }
    if let Some(n) = page_index {
        p.set_int("pageIndex", n as i128);
    }
    if let Some(n) = page_size {
        p.set_int("pageSize", n as i128);
    }
    if let Some(word) = status {
        p.set_text("status", word.as_str());
    }
    if let Some(word) = order_type {
        p.set_text("type", word.as_str());
    }
    ApiRequest::new(Method::Get, "/openApi/spot/v1/trade/historyOrders", Some(p), true)
}

/// The parameters of `get_spot_order_details`.
pub open spec fn get_spot_order_details_entries(
    symbol: Seq<char>,
    order_id: Option<i64>,
    client_order_id: Option<Seq<char>>,
) -> Seq<Entry> {
    let p = Seq::<Entry>::empty();
    let p = put(p, text_entry("symbol"@, symbol));
    let p = put_int(
        p,
        "orderId"@,
        match order_id {
            Some(n) => Some(n as int),
            None => None,
        },
    );
    let p = put_text(p, "clientOrderID"@, client_order_id);
    p
}

/// One spot order, named by its identifier or by the caller's own.
pub fn get_spot_order_details(
    symbol: &str,
    order_id: Option<i64>,
    client_order_id: Option<&str>,
) -> (request: ApiRequest)
    ensures
        request.calls(
            Method::Get,
            "/openApi/spot/v1/trade/query"@,
            true,
            Some(
                get_spot_order_details_entries(
                    symbol@,
                    order_id,
                    text_of(client_order_id),
                ),
            ),
        ),
{
    let mut p = Params::new();
    p.set_text("symbol", symbol);
    if let Some(n) = order_id {
        p.set_int("orderId", n as i128);
    }
    p.set_text_opt("clientOrderID", client_order_id);
    ApiRequest::new(Method::Get, "/openApi/spot/v1/trade/query", Some(p), true)
}

/// The parameters of `get_spot_open_orders`.
pub open spec fn get_spot_open_orders_entries(symbol: Option<Seq<char>>) -> Seq<Entry> {
    let p = Seq::<Entry>::empty();
    let p = put_text(p, "symbol"@, symbol);
    p
}

/// The open spot orders, of one symbol or of all.
pub fn get_spot_open_orders(symbol: Option<&str>) -> (request: ApiRequest)
    ensures
        request.calls(
            Method::Get,
            "/openApi/spot/v1/trade/openOrders"@,
            true,
            Some(
                get_spot_open_orders_entries(
                    text_of(symbol),
                ),
            ),
        ),
{
    let mut p = Params::new();
    p.set_text_opt("symbol", symbol);
    ApiRequest::new(Method::Get, "/openApi/spot/v1/trade/openOrders", Some(p), true)
}

/// The parameters of `get_spot_trade_details`.
pub open spec fn get_spot_trade_details_entries(
    symbol: Seq<char>,
    order_id: Option<i64>,
    start_time: Option<i64>,
    end_time: Option<i64>,
    from_id: Option<i64>,
    limit: Option<i32>,
) -> Seq<Entry> {
    let p = Seq::<Entry>::empty();
    let p = put(p, text_entry("symbol"@, symbol));
    let p = put(
        p,
        int_entry(
            "limit"@,
            (match limit {
                Some(n) => n,
                None => 500i32,
            }) as int,
        ),
    );
    let p = put_int(
        p,
        "orderId"@,
        match order_id {
            Some(n) => Some(n as int),
            None => None,
        },
    );
    let p = put_int(
        p,
        "startTime"@,
        match start_time {
            Some(n) => Some(n as int),
            None => None,
        },
    );
    let p = put_int(
        p,
        "endTime"@,
        match end_time {
            Some(n) => Some(n as int),
            None => None,
        },
    );
    let p = put_int(
        p,
        "fromId"@,
        match from_id {
            Some(n) => Some(n as int),
            None => None,
        },
    );
    p
}

/// The fills of a spot symbol, at most 500 where no limit is given.
pub fn get_spot_trade_details(
    symbol: &str,
    order_id: Option<i64>,
    start_time: Option<i64>,
    end_time: Option<i64>,
    from_id: Option<i64>,
    limit: Option<i32>,
) -> (request: ApiRequest)
    ensures
        request.calls(
            Method::Get,
            "/openApi/spot/v1/trade/myTrades"@,
            true,
            Some(
                get_spot_trade_details_entries(
                    symbol@,
                    order_id,
                    start_time,
                    end_time,
                    from_id,
                    limit,
                ),
            ),
        ),
{
    let mut p = Params::new();
    p.set_text("symbol", symbol);
    let n = match limit {
        Some(n) => n,
        None => 500i32,
    };
    p.set_int("limit", n as i128);
    if let Some(n) = order_id {
        p.set_int("orderId", n as i128);
    }
    if let Some(n) = start_time {
        p.set_int("startTime", n as i128);
    }
    if let Some(n) = end_time {
        p.set_int("endTime", n as i128);
    }
    if let Some(n) = from_id {
        p.set_int("fromId", n as i128);
    }
    ApiRequest::new(Method::Get, "/openApi/spot/v1/trade/myTrades", Some(p), true)
}

/// The parameters of `cancel_all_spot_open_orders`.
pub open spec fn cancel_all_spot_open_orders_entries(symbol: Option<Seq<char>>) -> Seq<Entry> {
    let p = Seq::<Entry>::empty();
    let p = put_text(p, "symbol"@, symbol);
    p
}

/// Cancels the open spot orders, of one symbol or of all.
pub fn cancel_all_spot_open_orders(symbol: Option<&str>) -> (request: ApiRequest)
    ensures
        request.calls(
            Method::Post,
            "/openApi/spot/v1/trade/cancelOpenOrders"@,
            true,
            Some(
                cancel_all_spot_open_orders_entries(
                    text_of(symbol),
                ),
            ),
        ),
{
    let mut p = Params::new();
    p.set_text_opt("symbol", symbol);
    ApiRequest::new(Method::Post, "/openApi/spot/v1/trade/cancelOpenOrders", Some(p), true)
}

/// What the strings of a slice are, in their order.
pub open spec fn slices_in(items: Seq<&str>) -> Seq<Seq<char>> {
    items.map_values(|s: &str| s@)
}

/// What the strings of an optional slice are, joined by commas.
pub open spec fn comma_list_of(items: Option<&[&str]>) -> Option<Seq<char>> {
    match items {
        Some(list) => Some(joined_texts(slices_in(list@), ","@)),
        None => None,
    }
}

/// The strings of a slice, each in a string of its own.
pub fn owned_texts(items: &[&str]) -> (owned: Vec<String>)
    ensures
        texts_in(owned@) == slices_in(items@),
{
    let mut owned: Vec<String> = Vec::new();
    let mut i: usize = 0;
    while i < items.len()
        invariant
            i <= items@.len(),
            owned@.len() == i,
            forall|j: int| 0 <= j < i ==> (#[trigger] owned@[j])@ == items@[j]@,
        decreases items@.len() - i,
    {
        owned.push(items[i].to_owned());
        i += 1;
    }
    owned
}

/// The parameters of `cancel_spot_batch_orders`.
pub open spec fn cancel_spot_batch_orders_entries(
    symbol: Seq<char>,
    order_ids: Option<Seq<char>>,
    client_order_ids: Option<Seq<char>>,
    process: Option<i32>,
) -> Seq<Entry> {
    let p = Seq::<Entry>::empty();
    let p = put(p, text_entry("symbol"@, symbol));
    let p = put_text(p, "orderIds"@, order_ids);
    let p = put_text(p, "clientOrderIDs"@, client_order_ids);
    let p = put_int(
        p,
        "process"@,
        match process {
            Some(n) => Some(n as int),
            None => None,
        },
    );
    p
}

/// Cancels the spot orders of a symbol that the identifiers name. Each list
/// goes as one string with commas between the identifiers, and one of the
/// two lists must be given.
pub fn cancel_spot_batch_orders(
    symbol: &str,
    order_ids: Option<&[&str]>,
    client_order_ids: Option<&[&str]>,
    process: Option<i32>,
) -> (made: Result<ApiRequest, SdkError>)
    ensures
        match made {
            Ok(request) => {
                &&& !(order_ids is None && client_order_ids is None)
                &&& request.calls(
                    Method::Post,
                    "/openApi/spot/v1/trade/cancelOrders"@,
                    true,
                    Some(
                        cancel_spot_batch_orders_entries(
                            symbol@,
                            comma_list_of(order_ids),
                            comma_list_of(client_order_ids),
                            process,
                        ),
                    ),
                )
            },
            Err(e) => {
                &&& e matches SdkError::Validation(m)
                &&& order_ids is None && client_order_ids is None
                &&& m@ == "At least one of order_ids or client_order_ids must be provided."@
            },
        },
{
    if order_ids.is_none() && client_order_ids.is_none() {
        return Err(
            SdkError::Validation(
                "At least one of order_ids or client_order_ids must be provided.".to_owned(),
            ),
        );
    }
    let mut p = Params::new();
    p.set_text("symbol", symbol);
    if let Some(list) = order_ids {
        p.set_text("orderIds", join_texts(&owned_texts(list), ",").as_str());
    }
    if let Some(list) = client_order_ids {
        p.set_text("clientOrderIDs", join_texts(&owned_texts(list), ",").as_str());
    }
    if let Some(n) = process {
        p.set_int("process", n as i128);
    }
    Ok(ApiRequest::new(Method::Post, "/openApi/spot/v1/trade/cancelOrders", Some(p), true))
}

} // verus!
