//! The calls of the BingX endpoints, each as the request that it sends.

pub mod account;
pub mod common;
pub mod spot;
pub mod swap;

use vstd::prelude::*;

verus! {

/// The names of the BingX calls that the library makes.
pub open spec fn implemented_names() -> Seq<Seq<char>> {
    seq![
        "get_api_permissions"@,
        "get_server_time"@,
        "get_spot_account_assets"@,
        "get_account_asset_overview"@,
        "get_spot_symbols_like"@,
        "get_spot_klines"@,
        "get_spot_order_history"@,
        "get_spot_order_details"@,
        "get_spot_open_orders"@,
        "cancel_spot_batch_orders"@,
        "get_spot_trade_details"@,
        "cancel_all_spot_open_orders"@,
        "get_swap_positions"@,
        "get_swap_account_balance"@,
        "get_swap_contracts"@,
        "get_swap_klines"@,
        "place_swap_order"@,
        "close_swap_position"@,
        "get_swap_order_history"@,
        "get_swap_order_details"@,
        "get_swap_open_orders"@,
        "cancel_swap_batch_orders"@,
        "get_swap_position_history"@,
        "set_swap_leverage"@,
        "set_swap_position_mode"@,
        "get_swap_position_mode"@,
        "get_swap_leverage_and_available_positions"@,
        "cancel_all_swap_open_orders"@,
        "change_swap_margin_type"@,
        "get_swap_margin_type"@,
    ]
}

/// The names of the BingX calls that the library makes.
pub fn implemented() -> (names: Vec<&'static str>)
    ensures
        names@.map_values(|n: &'static str| n@) == implemented_names(),
{
    let mut names: Vec<&'static str> = Vec::new();
    names.push("get_api_permissions");
    names.push("get_server_time");
    names.push("get_spot_account_assets");
    names.push("get_account_asset_overview");
    names.push("get_spot_symbols_like");
    names.push("get_spot_klines");
    names.push("get_spot_order_history");
    names.push("get_spot_order_details");
    names.push("get_spot_open_orders");
    names.push("cancel_spot_batch_orders");
    names.push("get_spot_trade_details");
    names.push("cancel_all_spot_open_orders");
    names.push("get_swap_positions");
    names.push("get_swap_account_balance");
    names.push("get_swap_contracts");
    names.push("get_swap_klines");
    names.push("place_swap_order");
    names.push("close_swap_position");
    names.push("get_swap_order_history");
    names.push("get_swap_order_details");
    names.push("get_swap_open_orders");
    names.push("cancel_swap_batch_orders");
    names.push("get_swap_position_history");
    names.push("set_swap_leverage");
    names.push("set_swap_position_mode");
    names.push("get_swap_position_mode");
    names.push("get_swap_leverage_and_available_positions");
    names.push("cancel_all_swap_open_orders");
    names.push("change_swap_margin_type");
    names.push("get_swap_margin_type");
    names
}

} // verus!
