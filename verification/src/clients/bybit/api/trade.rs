//! Calls of the trade endpoints.

use crate::bybit::types::AllCategories;
use crate::bybit::types::CancelOrderFilter;
use crate::bybit::types::CancelOrderParams;
use crate::bybit::types::GetOrderHistoryParams;
use crate::bybit::types::OrderFilter;
use crate::error::SdkError;
use crate::http::ApiRequest;
use crate::http::deref_of;
use crate::http::Method;
use crate::params::Entry;
use crate::params::json_object_of;
use crate::params::merged;
use crate::params::Params;
use crate::params::put;
use crate::params::put_bool;
use crate::params::put_int;
use crate::params::put_text;
use crate::params::raw_entry;
use crate::params::text_entry;
use crate::params::text_of;
use crate::text::decimal;
use crate::text::decimal_of;
use crate::text::json_array;
use crate::text::json_array_of;
use crate::text::texts_in;
use vstd::string::StringExecFns;
use vstd::prelude::*;

verus! {

/// The parameters of `place_order`.
pub open spec fn place_order_entries(category: AllCategories, fields: Seq<Entry>) -> Seq<Entry> {
    let p = Seq::<Entry>::empty();
    let p = put(p, text_entry("category"@, category.wire_name()));
    let p = merged(p, fields);
    p
}

/// Places an order. `fields` are the members of the order; those without a
/// value are left out.
pub fn place_order(category: AllCategories, fields: &Params) -> (request: ApiRequest)
    ensures
        request.calls(
            Method::Post,
            "/v5/order/create"@,
            true,
            Some(
                place_order_entries(
                    category,
                    fields@,
                ),
            ),
        ),
{
    let mut p = Params::new();
    p.set_text("category", category.as_str());
    p.merge(fields);
    ApiRequest::new(Method::Post, "/v5/order/create", Some(p), true)
}

/// The parameters of `cancel_order`.
pub open spec fn cancel_order_entries(
    category: AllCategories,
    symbol: Seq<char>,
    order_id: Option<Seq<char>>,
    order_link_id: Option<Seq<char>>,
    order_filter: Option<CancelOrderFilter>,
) -> Seq<Entry> {
    let p = Seq::<Entry>::empty();
    let p = put(p, text_entry("category"@, category.wire_name()));
    let p = put(p, text_entry("symbol"@, symbol));
    let p = put_text(p, "orderId"@, order_id);
    let p = put_text(p, "orderLinkId"@, order_link_id);
    let p = put_text(
        p,
        "orderFilter"@,
        match order_filter {
            Some(word) => Some(word.wire_name()),
            None => None,
        },
    );
    p
}

/// The message by which `cancel_order` refuses its arguments, if it does.
pub open spec fn cancel_order_refusal(
    order_id: Option<Seq<char>>,
    order_link_id: Option<Seq<char>>,
) -> Option<Seq<char>> {
    if {
        &&& order_id is None
        &&& order_link_id is None
    } {
        Some("Either order_id or order_link_id must be provided"@)
    } else {
        None
    }
}

/// Cancels an order, named by its identifier or by the caller's own. One of
/// the two must be given.
pub fn cancel_order(
    category: AllCategories,
    symbol: &str,
    order_id: Option<&str>,
    order_link_id: Option<&str>,
    order_filter: Option<&CancelOrderFilter>,
) -> (made: Result<ApiRequest, SdkError>)
    ensures
        match made {
            Ok(request) => {
                &&& cancel_order_refusal(
                    text_of(order_id),
                    text_of(order_link_id),
                ) is None
                &&& request.calls(
                    Method::Post,
                    "/v5/order/cancel"@,
                    true,
                    Some(
                        cancel_order_entries(
                            category,
                            symbol@,
                            text_of(order_id),
                            text_of(order_link_id),
                            deref_of(order_filter),
                        ),
                    ),
                )
            },
            Err(e) => {
                &&& e matches SdkError::Validation(m)
                &&& cancel_order_refusal(
                    text_of(order_id),
                    text_of(order_link_id),
                ) == Some(m@)
            },
        },
{
    if order_id.is_none()
        && order_link_id.is_none()
    {
        return Err(
            SdkError::Validation(
                "Either order_id or order_link_id must be provided".to_owned(),
            ),
        );
    }
    let mut p = Params::new();
    p.set_text("category", category.as_str());
    p.set_text("symbol", symbol);
    p.set_text_opt("orderId", order_id);
    p.set_text_opt("orderLinkId", order_link_id);
    if let Some(word) = order_filter {
        p.set_text("orderFilter", word.as_str());
    }
    Ok(ApiRequest::new(Method::Post, "/v5/order/cancel", Some(p), true))
}

/// The parameters of `get_open_and_closed_orders`.
pub open spec fn get_open_and_closed_orders_entries(
    category: AllCategories,
    symbol: Option<Seq<char>>,
    base_coin: Option<Seq<char>>,
    settle_coin: Option<Seq<char>>,
    order_id: Option<Seq<char>>,
    order_link_id: Option<Seq<char>>,
    open_only: Option<bool>,
    order_filter: Option<OrderFilter>,
    limit: Option<i32>,
    cursor: Option<Seq<char>>,
) -> Seq<Entry> {
    let p = Seq::<Entry>::empty();
    let p = put(p, text_entry("category"@, category.wire_name()));
    let p = put_text(p, "symbol"@, symbol);
    let p = put_text(p, "baseCoin"@, base_coin);
    let p = put_text(p, "settleCoin"@, settle_coin);
    let p = put_text(p, "orderId"@, order_id);
    let p = put_text(p, "orderLinkId"@, order_link_id);
    let p = put_bool(p, "openOnly"@, open_only);
    let p = put_text(
        p,
        "orderFilter"@,
        match order_filter {
            Some(word) => Some(word.wire_name()),
            None => None,
        },
    );
    let p = put_int(
        p,
        "limit"@,
        match limit {
            Some(n) => Some(n as int),
            None => None,
        },
    );
    let p = put_text(p, "cursor"@, cursor);
    p
}

/// The open orders of a category and those closed of late.
pub fn get_open_and_closed_orders(
    category: AllCategories,
    symbol: Option<&str>,
    base_coin: Option<&str>,
    settle_coin: Option<&str>,
    order_id: Option<&str>,
    order_link_id: Option<&str>,
    open_only: Option<bool>,
    order_filter: Option<&OrderFilter>,
    limit: Option<i32>,
    cursor: Option<&str>,
) -> (request: ApiRequest)
    ensures
        request.calls(
            Method::Get,
            "/v5/order/realtime"@,
            true,
            Some(
                get_open_and_closed_orders_entries(
                    category,
                    text_of(symbol),
                    text_of(base_coin),
                    text_of(settle_coin),
                    text_of(order_id),
                    text_of(order_link_id),
                    open_only,
                    deref_of(order_filter),
                    limit,
                    text_of(cursor),
                ),
            ),
        ),
{
    let mut p = Params::new();
    p.set_text("category", category.as_str());
    p.set_text_opt("symbol", symbol);
    p.set_text_opt("baseCoin", base_coin);
    p.set_text_opt("settleCoin", settle_coin);
    p.set_text_opt("orderId", order_id);
    p.set_text_opt("orderLinkId", order_link_id);
    if let Some(b) = open_only {
        p.set_bool("openOnly", b);
    }
    if let Some(word) = order_filter {
        p.set_text("orderFilter", word.as_str());
    }
    if let Some(n) = limit {
        p.set_int("limit", n as i128);
    }
    p.set_text_opt("cursor", cursor);
    ApiRequest::new(Method::Get, "/v5/order/realtime", Some(p), true)
}

/// The parameters of `cancel_all_orders`.
pub open spec fn cancel_all_orders_entries(
    category: AllCategories,
    symbol: Option<Seq<char>>,
    base_coin: Option<Seq<char>>,
    settle_coin: Option<Seq<char>>,
    order_filter: Option<OrderFilter>,
    stop_order_type: Option<Seq<char>>,
) -> Seq<Entry> {
    let p = Seq::<Entry>::empty();
    let p = put(p, text_entry("category"@, category.wire_name()));
    let p = put_text(p, "symbol"@, symbol);
    let p = put_text(p, "baseCoin"@, base_coin);
    let p = put_text(p, "settleCoin"@, settle_coin);
    let p = put_text(
        p,
        "orderFilter"@,
        match order_filter {
            Some(word) => Some(word.wire_name()),
            None => None,
        },
    );
    let p = put_text(p, "stopOrderType"@, stop_order_type);
    p
}

/// The message by which `cancel_all_orders` refuses its arguments, if it does.
pub open spec fn cancel_all_orders_refusal(
    category: AllCategories,
    symbol: Option<Seq<char>>,
    base_coin: Option<Seq<char>>,
    settle_coin: Option<Seq<char>>,
) -> Option<Seq<char>> {
    if {
        &&& category == AllCategories::Linear || category == AllCategories::Inverse
        &&& symbol is None
        &&& base_coin is None
        &&& settle_coin is None
    } {
        Some("For linear/inverse, provide symbol or base_coin or settle_coin"@)
    } else if {
        &&& category == AllCategories::Option
        &&& symbol is None
        &&& base_coin is None
        &&& settle_coin is None
    } {
        Some("For option, provide symbol or base_coin or settle_coin"@)
    } else {
        None
    }
}

/// Cancels every order of a category that the arguments select. For linear,
/// inverse and option a symbol, a base coin or a settle coin must be named.
pub fn cancel_all_orders(
    category: AllCategories,
    symbol: Option<&str>,
    base_coin: Option<&str>,
    settle_coin: Option<&str>,
    order_filter: Option<&OrderFilter>,
    stop_order_type: Option<&str>,
) -> (made: Result<ApiRequest, SdkError>)
    ensures
        match made {
            Ok(request) => {
                &&& cancel_all_orders_refusal(
                    category,
                    text_of(symbol),
                    text_of(base_coin),
                    text_of(settle_coin),
                ) is None
                &&& request.calls(
                    Method::Post,
                    "/v5/order/cancel-all"@,
                    true,
                    Some(
                        cancel_all_orders_entries(
                            category,
                            text_of(symbol),
                            text_of(base_coin),
                            text_of(settle_coin),
                            deref_of(order_filter),
                            text_of(stop_order_type),
                        ),
                    ),
                )
            },
            Err(e) => {
                &&& e matches SdkError::Validation(m)
                &&& cancel_all_orders_refusal(
                    category,
                    text_of(symbol),
                    text_of(base_coin),
                    text_of(settle_coin),
                ) == Some(m@)
            },
        },
{
    if (category == AllCategories::Linear || category == AllCategories::Inverse)
        && symbol.is_none()
        && base_coin.is_none()
        && settle_coin.is_none()
    {
        return Err(
            SdkError::Validation(
                "For linear/inverse, provide symbol or base_coin or settle_coin".to_owned(),
            ),
        );
    }
    if category == AllCategories::Option
        && symbol.is_none()
        && base_coin.is_none()
        && settle_coin.is_none()
    {
        return Err(
            SdkError::Validation(
                "For option, provide symbol or base_coin or settle_coin".to_owned(),
            ),
        );
    }
    let mut p = Params::new();
    p.set_text("category", category.as_str());
    p.set_text_opt("symbol", symbol);
    p.set_text_opt("baseCoin", base_coin);
    p.set_text_opt("settleCoin", settle_coin);
    if let Some(word) = order_filter {
        p.set_text("orderFilter", word.as_str());
    }
    p.set_text_opt("stopOrderType", stop_order_type);
    Ok(ApiRequest::new(Method::Post, "/v5/order/cancel-all", Some(p), true))
}

/// The parameters of `get_order_history`.
pub open spec fn get_order_history_entries(
    category: AllCategories,
    filter: Option<GetOrderHistoryParams>,
) -> Seq<Entry> {
    let p = Seq::<Entry>::empty();
    let p = put(p, text_entry("category"@, category.wire_name()));
    match filter {
        Some(f) => merged(p, f.entries()),
        None => p,
    }
}

/// The orders of a category that `params` selects, of the last days.
pub fn get_order_history(
    category: AllCategories,
    params: Option<&GetOrderHistoryParams>,
) -> (request: ApiRequest)
    ensures
        request.calls(
            Method::Get,
            "/v5/order/history"@,
            true,
            Some(get_order_history_entries(category, deref_of(params))),
        ),
{
    let mut p = Params::new();
    p.set_text("category", category.as_str());
    if let Some(filter) = params {
        p.merge(&filter.to_params());
    }
    ApiRequest::new(Method::Get, "/v5/order/history", Some(p), true)
}

/// The parameters of a call on a batch of orders: the category, and the
/// orders as a JSON array of objects under `request`.
pub open spec fn batch_entries(category: AllCategories, objects: Seq<Seq<char>>) -> Seq<Entry> {
    let p = Seq::<Entry>::empty();
    let p = put(p, text_entry("category"@, category.wire_name()));
    let p = put(p, raw_entry("request"@, json_array_of(objects)));
    p
}

/// The orders of a batch as JSON objects.
pub open spec fn order_objects(orders: Seq<Params>) -> Seq<Seq<char>> {
    orders.map_values(|o: Params| json_object_of(o@, true))
}

/// The cancellations of a batch as JSON objects.
pub open spec fn cancel_objects(orders: Seq<CancelOrderParams>) -> Seq<Seq<char>> {
    orders.map_values(|o: CancelOrderParams| json_object_of(o.entries(), true))
}

/// The place of the first cancellation at or after `from` that names no
/// order.
pub open spec fn first_unnamed(orders: Seq<CancelOrderParams>, from: int) -> Option<int>
    decreases orders.len() - from + 1,
{
    if from < 0 || from >= orders.len() {
        None
    } else if !orders[from].names_order() {
        Some(from)
    } else {
        first_unnamed(orders, from + 1)
    }
}

/// The message for a cancellation that names no order.
pub open spec fn unnamed_message(index: int) -> Seq<char> {
    "Order at index "@ + decimal_of(index) + " must have either order_id or order_link_id"@
}

/// Places a batch of orders. Each of `orders` holds the members of one
/// order.
pub fn batch_place_order(category: AllCategories, orders: &Vec<Params>) -> (request: ApiRequest)
    ensures
        request.calls(
            Method::Post,
            "/v5/order/create-batch"@,
            true,
            Some(batch_entries(category, order_objects(orders@))),
        ),
{
    let mut objects: Vec<String> = Vec::new();
    let mut i: usize = 0;
    while i < orders.len()
        invariant
            i <= orders@.len(),
            objects@.len() == i,
            forall|j: int|
                0 <= j < i ==> (#[trigger] objects@[j])@ == json_object_of(orders@[j]@, true),
        decreases orders@.len() - i,
    {
        objects.push(orders[i].to_json(true));
        i += 1;
    }
    assert(texts_in(objects@) =~= order_objects(orders@));
    let mut p = Params::new();
    p.set_text("category", category.as_str());
    p.set_raw("request", json_array(&objects));
    ApiRequest::new(Method::Post, "/v5/order/create-batch", Some(p), true)
}

/// Cancels a batch of orders. Every cancellation must name its order; the
/// first that does not is named in the error.
pub fn batch_cancel_order(
    category: AllCategories,
    orders: &Vec<CancelOrderParams>,
) -> (made: Result<ApiRequest, SdkError>)
    ensures
        match made {
            Ok(request) => {
                &&& first_unnamed(orders@, 0) is None
                &&& request.calls(
                    Method::Post,
                    "/v5/order/cancel-batch"@,
                    true,
                    Some(batch_entries(category, cancel_objects(orders@))),
                )
            },
            Err(e) => {
                &&& first_unnamed(orders@, 0) matches Some(index)
                &&& e matches SdkError::Validation(m)
                &&& m@ == unnamed_message(index)
            },
        },
{
    let mut i: usize = 0;
    while i < orders.len()
        invariant
            i <= orders@.len(),
            first_unnamed(orders@, 0) == first_unnamed(orders@, i as int),
        decreases orders@.len() - i,
    {
        if orders[i].order_id.is_none() && orders[i].order_link_id.is_none() {
            let mut message = "Order at index ".to_owned();
            message.append(decimal(i as i128).as_str());
            message.append(" must have either order_id or order_link_id");
            return Err(SdkError::Validation(message));
        }
        i += 1;
    }
    let mut objects: Vec<String> = Vec::new();
    let mut k: usize = 0;
    while k < orders.len()
        invariant
            k <= orders@.len(),
            objects@.len() == k,
            forall|j: int|
                0 <= j < k ==> (#[trigger] objects@[j])@ == json_object_of(
                    orders@[j].entries(),
                    true,
                ),
        decreases orders@.len() - k,
    {
        objects.push(orders[k].to_params().to_json(true));
        k += 1;
    }
    assert(texts_in(objects@) =~= cancel_objects(orders@));
    let mut p = Params::new();
    p.set_text("category", category.as_str());
    p.set_raw("request", json_array(&objects));
    Ok(ApiRequest::new(Method::Post, "/v5/order/cancel-batch", Some(p), true))
}

} // verus!
