//! The calls of the Bybit endpoints, each as the request that it sends.

pub mod account;
pub mod market;
pub mod position;
pub mod trade;

use vstd::prelude::*;

verus! {

/// The names of the Bybit calls that the library makes.
pub open spec fn implemented_names() -> Seq<Seq<char>> {
    seq![
        "get_wallet_balance"@,
        "get_account_info"@,
        "set_margin_mode"@,
        "get_server_time"@,
        "get_kline"@,
        "get_instruments_info"@,
        "get_position_info"@,
        "set_leverage"@,
        "switch_position_mode"@,
        "set_trading_stop"@,
        "get_closed_pnl"@,
        "place_order"@,
        "cancel_order"@,
        "get_open_and_closed_orders"@,
        "cancel_all_orders"@,
        "get_order_history"@,
        "batch_place_order"@,
        "batch_cancel_order"@,
    ]
}

/// The names of the Bybit calls that the library makes.
pub fn implemented() -> (names: Vec<&'static str>)
    ensures
        names@.map_values(|n: &'static str| n@) == implemented_names(),
{
    let mut names: Vec<&'static str> = Vec::new();
    names.push("get_wallet_balance");
    names.push("get_account_info");
    names.push("set_margin_mode");
    names.push("get_server_time");
    names.push("get_kline");
    names.push("get_instruments_info");
    names.push("get_position_info");
    names.push("set_leverage");
    names.push("switch_position_mode");
    names.push("set_trading_stop");
    names.push("get_closed_pnl");
    names.push("place_order");
    names.push("cancel_order");
    names.push("get_open_and_closed_orders");
    names.push("cancel_all_orders");
    names.push("get_order_history");
    names.push("batch_place_order");
    names.push("batch_cancel_order");
    names
}

} // verus!
