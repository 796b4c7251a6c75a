use trade_sdk::bingx::api as bingx;
use trade_sdk::bingx::types::AccountType as BingxAccountType;
use trade_sdk::bingx::types::MarginMode as BingxMarginMode;
use trade_sdk::bingx::types::PositionSide;
use trade_sdk::bingx::types::QuoteCurrency;
use trade_sdk::bingx::types::SpotOrderStatus;
use trade_sdk::bingx::types::SpotOrderType;
use trade_sdk::bingx::types::SwapOrderType;
use trade_sdk::bybit::api as bybit;
use trade_sdk::bybit::types::AccountType;
use trade_sdk::bybit::types::AllCategories;
use trade_sdk::bybit::types::CancelOrderFilter;
use trade_sdk::bybit::types::CancelOrderParams;
use trade_sdk::bybit::types::GetOrderHistoryParams;
use trade_sdk::bybit::types::InstrumentStatus;
use trade_sdk::bybit::types::MarginMode;
use trade_sdk::bybit::types::OrderFilter;
use trade_sdk::bybit::types::OrderStatus;
use trade_sdk::bybit::types::SymbolType;
use trade_sdk::error::SdkError;
use trade_sdk::http::ApiRequest;
use trade_sdk::http::Method;
use trade_sdk::params::ParamValue;
use trade_sdk::params::Params;

fn check(request: ApiRequest, method: Method, endpoint: &str, auth: bool, json: Option<&str>) {
    assert_eq!(request.method, method);
    assert_eq!(request.endpoint, endpoint);
    assert_eq!(request.auth, auth);
    assert_eq!(request.params.map(|p| p.to_json(true)).as_deref(), json);
}

fn refused(made: Result<ApiRequest, SdkError>) -> String {
    match made {
        Err(SdkError::Validation(m)) => m,
        other => panic!("not refused: {:?}", other),
    }
}

#[test]
fn bybit_account_calls() {
    check(
        bybit::account::get_wallet_balance(None, None),
        Method::Get,
        "/v5/account/wallet-balance",
        true,
        Some("{\"accountType\":\"UNIFIED\"}"),
    );
    check(
        bybit::account::get_wallet_balance(Some(AccountType::Fund), Some("BTC")),
        Method::Get,
        "/v5/account/wallet-balance",
        true,
        Some("{\"accountType\":\"FUND\",\"coin\":\"BTC\"}"),
    );
    check(bybit::account::get_account_info(), Method::Get, "/v5/account/info", true, None);
    check(
        bybit::account::set_margin_mode(MarginMode::PortfolioMargin),
        Method::Post,
        "/v5/account/set-margin-mode",
        true,
        Some("{\"setMarginMode\":\"PORTFOLIO_MARGIN\"}"),
    );
}

#[test]
fn bybit_market_calls() {
    check(bybit::market::get_server_time(), Method::Get, "/v5/market/time", false, None);
    check(
        bybit::market::get_kline("BTCUSDT", "15", None, None, None, None),
        Method::Get,
        "/v5/market/kline",
        false,
        Some("{\"interval\":\"15\",\"symbol\":\"BTCUSDT\"}"),
    );
    check(
        bybit::market::get_kline("BTCUSDT", "D", Some(&AllCategories::Spot), Some(1), Some(-2), Some(200)),
        Method::Get,
        "/v5/market/kline",
        false,
        Some("{\"category\":\"spot\",\"end\":\"-2\",\"interval\":\"D\",\"limit\":\"200\",\"start\":\"1\",\"symbol\":\"BTCUSDT\"}"),
    );
    check(
        bybit::market::get_instruments_info(
            AllCategories::Linear,
            Some("BTCUSDT"),
            Some(&SymbolType::XStocks),
            Some(&InstrumentStatus::PreLaunch),
            Some("BTC"),
            Some(5),
            Some("next"),
        ),
        Method::Get,
        "/v5/market/instruments-info",
        false,
        Some("{\"baseCoin\":\"BTC\",\"category\":\"linear\",\"cursor\":\"next\",\"limit\":\"5\",\"status\":\"PreLaunch\",\"symbol\":\"BTCUSDT\",\"symbolType\":\"xstocks\"}"),
    );
    check(
        bybit::market::get_instruments_info(AllCategories::Option, None, None, None, None, None, None),
        Method::Get,
        "/v5/market/instruments-info",
        false,
        Some("{\"category\":\"option\"}"),
    );
}

#[test]
fn bybit_position_calls() {
    check(
        bybit::position::get_position_info(AllCategories::Inverse, None, Some("BTC"), Some("USDT"), Some(3), None),
        Method::Get,
        "/v5/position/list",
        true,
        Some("{\"baseCoin\":\"BTC\",\"category\":\"inverse\",\"limit\":3,\"settleCoin\":\"USDT\"}"),
    );
    check(
        bybit::position::set_leverage(AllCategories::Linear, "BTCUSDT", 10, 20),
        Method::Post,
        "/v5/position/set-leverage",
        true,
        Some("{\"buyLeverage\":10,\"category\":\"linear\",\"sellLeverage\":20,\"symbol\":\"BTCUSDT\"}"),
    );
    check(
        bybit::position::switch_position_mode(AllCategories::Linear, 3, None, Some("USDT")).unwrap(),
        Method::Post,
        "/v5/position/switch-mode",
        true,
        Some("{\"category\":\"linear\",\"coin\":\"USDT\",\"mode\":3}"),
    );
    assert_eq!(
        refused(bybit::position::switch_position_mode(AllCategories::Linear, 0, None, None)),
        "Either symbol or coin must be provided"
    );
    check(
        bybit::position::get_closed_pnl(AllCategories::Linear, Some("X"), Some(u64::MAX), Some(0), Some(1), Some("c")),
        Method::Get,
        "/v5/position/closed-pnl",
        true,
        Some("{\"category\":\"linear\",\"cursor\":\"c\",\"endTime\":0,\"limit\":1,\"startTime\":18446744073709551615,\"symbol\":\"X\"}"),
    );
    let mut fields = Params::new();
    fields.set_text("symbol", "BTCUSDT");
    fields.set_text("takeProfit", "70000");
    fields.insert("stopLoss".to_string(), ParamValue::Null);
    fields.set_text("category", "ignored");
    check(
        bybit::position::set_trading_stop(AllCategories::Linear, &fields),
        Method::Post,
        "/v5/position/trading-stop",
        true,
        Some("{\"category\":\"ignored\",\"symbol\":\"BTCUSDT\",\"takeProfit\":\"70000\"}"),
    );
}

#[test]
fn bybit_trade_calls() {
    let mut order = Params::new();
    order.set_text("symbol", "BTCUSDT");
    order.set_text("side", "Buy");
    order.set_text("qty", "0.01");
    order.insert("price".to_string(), ParamValue::Null);
    check(
        bybit::trade::place_order(AllCategories::Spot, &order),
        Method::Post,
        "/v5/order/create",
        true,
        Some("{\"category\":\"spot\",\"qty\":\"0.01\",\"side\":\"Buy\",\"symbol\":\"BTCUSDT\"}"),
    );
    check(
        bybit::trade::cancel_order(AllCategories::Linear, "BTCUSDT", Some("1"), None, Some(&CancelOrderFilter::TpslOrder)).unwrap(),
        Method::Post,
        "/v5/order/cancel",
        true,
        Some("{\"category\":\"linear\",\"orderFilter\":\"tpslOrder\",\"orderId\":\"1\",\"symbol\":\"BTCUSDT\"}"),
    );
    check(
        bybit::trade::cancel_order(AllCategories::Linear, "BTCUSDT", None, Some("mine"), None).unwrap(),
        Method::Post,
        "/v5/order/cancel",
        true,
        Some("{\"category\":\"linear\",\"orderLinkId\":\"mine\",\"symbol\":\"BTCUSDT\"}"),
    );
    assert_eq!(
        refused(bybit::trade::cancel_order(AllCategories::Linear, "BTCUSDT", None, None, None)),
        "Either order_id or order_link_id must be provided"
    );
    check(
        bybit::trade::get_open_and_closed_orders(
            AllCategories::Linear,
            Some("S"),
            Some("B"),
            Some("C"),
            Some("1"),
            Some("2"),
            Some(true),
            Some(&OrderFilter::StopOrder),
            Some(50),
            Some("cur"),
        ),
        Method::Get,
        "/v5/order/realtime",
        true,
        Some("{\"baseCoin\":\"B\",\"category\":\"linear\",\"cursor\":\"cur\",\"limit\":50,\"openOnly\":true,\"orderFilter\":\"StopOrder\",\"orderId\":\"1\",\"orderLinkId\":\"2\",\"settleCoin\":\"C\",\"symbol\":\"S\"}"),
    );
}

#[test]
fn bybit_cancel_all_needs_a_target_but_for_spot() {
    for category in [AllCategories::Linear, AllCategories::Inverse] {
        assert_eq!(
            refused(bybit::trade::cancel_all_orders(category, None, None, None, None, None)),
            "For linear/inverse, provide symbol or base_coin or settle_coin"
        );
    }
    assert_eq!(
        refused(bybit::trade::cancel_all_orders(AllCategories::Option, None, None, None, Some(&OrderFilter::Order), Some("Stop"))),
        "For option, provide symbol or base_coin or settle_coin"
    );
    check(
        bybit::trade::cancel_all_orders(AllCategories::Spot, None, None, None, None, None).unwrap(),
        Method::Post,
        "/v5/order/cancel-all",
        true,
        Some("{\"category\":\"spot\"}"),
    );
    check(
        bybit::trade::cancel_all_orders(AllCategories::Option, None, None, Some("USDC"), Some(&OrderFilter::OcoOrder), Some("Stop")).unwrap(),
        Method::Post,
        "/v5/order/cancel-all",
        true,
        Some("{\"category\":\"option\",\"orderFilter\":\"OcoOrder\",\"settleCoin\":\"USDC\",\"stopOrderType\":\"Stop\"}"),
    );
}

#[test]
fn bybit_order_history_call() {
    check(
        bybit::trade::get_order_history(AllCategories::Linear, None),
        Method::Get,
        "/v5/order/history",
        true,
        Some("{\"category\":\"linear\"}"),
    );
    let filter = GetOrderHistoryParams {
        symbol: Some("BTCUSDT".to_string()),
        base_coin: None,
        settle_coin: Some("USDT".to_string()),
        order_id: None,
        order_link_id: Some("mine".to_string()),
        order_filter: Some(OrderFilter::BidirectionalTpslOrder),
        order_status: Some(OrderStatus::PartiallyFilledCanceled),
        start_time: Some(1),
        end_time: Some(2),
        limit: Some(10),
        cursor: Some(String::new()),
    };
    assert_eq!(
        filter.to_params().to_json(true),
        "{\"cursor\":\"\",\"endTime\":2,\"limit\":10,\"orderFilter\":\"BidirectionalTpslOrder\",\"orderLinkId\":\"mine\",\"orderStatus\":\"PartiallyFilledCanceled\",\"settleCoin\":\"USDT\",\"startTime\":1,\"symbol\":\"BTCUSDT\"}"
    );
    check(
        bybit::trade::get_order_history(AllCategories::Linear, Some(&filter)),
        Method::Get,
        "/v5/order/history",
        true,
        Some("{\"category\":\"linear\",\"cursor\":\"\",\"endTime\":2,\"limit\":10,\"orderFilter\":\"BidirectionalTpslOrder\",\"orderLinkId\":\"mine\",\"orderStatus\":\"PartiallyFilledCanceled\",\"settleCoin\":\"USDT\",\"startTime\":1,\"symbol\":\"BTCUSDT\"}"),
    );
}

#[test]
fn bybit_batch_calls() {
    let mut first = Params::new();
    first.set_text("symbol", "A");
    first.set_text("qty", "1");
    let mut second = Params::new();
    second.set_text("symbol", "B");
    check(
        bybit::trade::batch_place_order(AllCategories::Linear, &vec![first, second]),
        Method::Post,
        "/v5/order/create-batch",
        true,
        Some("{\"category\":\"linear\",\"request\":[{\"qty\":\"1\",\"symbol\":\"A\"},{\"symbol\":\"B\"}]}"),
    );
    check(
        bybit::trade::batch_place_order(AllCategories::Linear, &vec![]),
        Method::Post,
        "/v5/order/create-batch",
        true,
        Some("{\"category\":\"linear\",\"request\":[]}"),
    );
    let named = CancelOrderParams::new("A".to_string(), Some("1".to_string()), None);
    let linked = CancelOrderParams::new("B".to_string(), None, Some("mine".to_string()));
    check(
        bybit::trade::batch_cancel_order(AllCategories::Option, &vec![named, linked]).unwrap(),
        Method::Post,
        "/v5/order/cancel-batch",
        true,
        Some("{\"category\":\"option\",\"request\":[{\"orderId\":\"1\",\"symbol\":\"A\"},{\"orderLinkId\":\"mine\",\"symbol\":\"B\"}]}"),
    );
    let orders = vec![
        CancelOrderParams::new("A".to_string(), Some("1".to_string()), Some("x".to_string())),
        CancelOrderParams { symbol: "B".to_string(), order_id: None, order_link_id: None },
        CancelOrderParams { symbol: "C".to_string(), order_id: None, order_link_id: None },
    ];
    assert_eq!(
        refused(bybit::trade::batch_cancel_order(AllCategories::Option, &orders)),
        "Order at index 1 must have either order_id or order_link_id"
    );
}

#[test]
fn bingx_calls_without_parameters() {
    check(bingx::account::sub::get_api_permissions(), Method::Get, "/openApi/v1/account/apiPermissions", true, None);
    check(bingx::common::get_server_time(), Method::Get, "/openApi/swap/v2/server/time", false, None);
    check(bingx::spot::account::get_spot_account_assets(), Method::Get, "/openApi/spot/v1/account/balance", true, None);
    check(bingx::swap::account::get_swap_account_balance(), Method::Get, "/openApi/swap/v3/user/balance", true, None);
    check(bingx::swap::trade::get_swap_position_mode(), Method::Get, "/openApi/swap/v1/positionSide/dual", true, None);
}

#[test]
fn bingx_spot_calls() {
    check(
        bingx::spot::account::get_account_asset_overview(None),
        Method::Get,
        "/openApi/account/v1/allAccountBalance",
        true,
        Some("{}"),
    );
    check(
        bingx::spot::account::get_account_asset_overview(Some(BingxAccountType::UsdtMPerp)),
        Method::Get,
        "/openApi/account/v1/allAccountBalance",
        true,
        Some("{\"accountType\":\"USDTMPerp\"}"),
    );
    check(
        bingx::spot::market::get_spot_symbols_like(Some("BTC-USDT")),
        Method::Get,
        "/openApi/spot/v1/common/symbols",
        false,
        Some("{\"symbol\":\"BTC-USDT\"}"),
    );
    check(
        bingx::spot::market::get_spot_klines("BTC-USDT", "1m", Some(1), None, Some(1000)),
        Method::Get,
        "/openApi/spot/v2/market/kline",
        false,
        Some("{\"interval\":\"1m\",\"limit\":1000,\"startTime\":1,\"symbol\":\"BTC-USDT\"}"),
    );
    check(
        bingx::spot::trade::get_spot_order_history(
            Some("S"),
            Some(1),
            Some(2),
            Some(3),
            Some(4),
            Some(5),
            Some(SpotOrderStatus::Canceled),
            Some(SpotOrderType::TakeStopLimit),
        ),
        Method::Get,
        "/openApi/spot/v1/trade/historyOrders",
        true,
        Some("{\"endTime\":3,\"orderId\":1,\"pageIndex\":4,\"pageSize\":5,\"startTime\":2,\"status\":\"CANCELED\",\"symbol\":\"S\",\"type\":\"TAKE_STOP_LIMIT\"}"),
    );
    check(
        bingx::spot::trade::get_spot_order_details("S", None, Some("mine")),
        Method::Get,
        "/openApi/spot/v1/trade/query",
        true,
        Some("{\"clientOrderID\":\"mine\",\"symbol\":\"S\"}"),
    );
    check(
        bingx::spot::trade::get_spot_open_orders(None),
        Method::Get,
        "/openApi/spot/v1/trade/openOrders",
        true,
        Some("{}"),
    );
    check(
        bingx::spot::trade::get_spot_trade_details("S", None, None, None, Some(9), None),
        Method::Get,
        "/openApi/spot/v1/trade/myTrades",
        true,
        Some("{\"fromId\":9,\"limit\":500,\"symbol\":\"S\"}"),
    );
    check(
        bingx::spot::trade::get_spot_trade_details("S", Some(1), Some(2), Some(3), None, Some(7)),
        Method::Get,
        "/openApi/spot/v1/trade/myTrades",
        true,
        Some("{\"endTime\":3,\"limit\":7,\"orderId\":1,\"startTime\":2,\"symbol\":\"S\"}"),
    );
    check(
        bingx::spot::trade::cancel_all_spot_open_orders(Some("S")),
        Method::Post,
        "/openApi/spot/v1/trade/cancelOpenOrders",
        true,
        Some("{\"symbol\":\"S\"}"),
    );
}

#[test]
fn bingx_spot_batch_cancel() {
    assert_eq!(
        refused(bingx::spot::trade::cancel_spot_batch_orders("S", None, None, Some(1))),
        "At least one of order_ids or client_order_ids must be provided."
    );
    check(
        bingx::spot::trade::cancel_spot_batch_orders("S", Some(&["1", "2", "3"]), Some(&[]), Some(1)).unwrap(),
        Method::Post,
        "/openApi/spot/v1/trade/cancelOrders",
        true,
        Some("{\"clientOrderIDs\":\"\",\"orderIds\":\"1,2,3\",\"process\":1,\"symbol\":\"S\"}"),
    );
    check(
        bingx::spot::trade::cancel_spot_batch_orders("S", None, Some(&["a"]), None).unwrap(),
        Method::Post,
        "/openApi/spot/v1/trade/cancelOrders",
        true,
        Some("{\"clientOrderIDs\":\"a\",\"symbol\":\"S\"}"),
    );
}

#[test]
fn bingx_swap_calls() {
    check(
        bingx::swap::account::get_swap_positions(None),
        Method::Get,
        "/openApi/swap/v2/user/positions",
        true,
        Some("{}"),
    );
    check(
        bingx::swap::market::get_swap_contracts(Some("BTC-USDT")),
        Method::Get,
        "/openApi/swap/v2/quote/contracts",
        false,
        Some("{\"symbol\":\"BTC-USDT\"}"),
    );
    check(
        bingx::swap::market::get_swap_klines("BTC-USDT", "1h", None, Some(-1), None),
        Method::Get,
        "/openApi/swap/v3/quote/klines",
        false,
        Some("{\"endTime\":-1,\"interval\":\"1h\",\"symbol\":\"BTC-USDT\"}"),
    );
    let mut order = Params::new();
    order.set_text("symbol", "BTC-USDT");
    order.set_raw("quantity", "0.005".to_string());
    order.insert("price".to_string(), ParamValue::Null);
    order.set_text("takeProfit", "{\"type\":\"TAKE_PROFIT_MARKET\"}");
    check(
        bingx::swap::trade::place_swap_order(&order),
        Method::Post,
        "/openApi/swap/v2/trade/order",
        true,
        Some("{\"quantity\":0.005,\"symbol\":\"BTC-USDT\",\"takeProfit\":\"{\\\"type\\\":\\\"TAKE_PROFIT_MARKET\\\"}\"}"),
    );
    check(
        bingx::swap::trade::close_swap_position("pos-7"),
        Method::Post,
        "/openApi/swap/v1/trade/closePosition",
        true,
        Some("{\"positionId\":\"pos-7\"}"),
    );
    check(
        bingx::swap::trade::get_swap_order_history(None, Some(QuoteCurrency::USDC), None, None, None, None),
        Method::Get,
        "/openApi/swap/v2/trade/allOrders",
        true,
        Some("{\"currency\":\"USDC\",\"limit\":500}"),
    );
    check(
        bingx::swap::trade::get_swap_order_history(Some("S"), None, Some(1), Some(2), Some(3), Some(4)),
        Method::Get,
        "/openApi/swap/v2/trade/allOrders",
        true,
        Some("{\"endTime\":3,\"limit\":4,\"orderId\":1,\"startTime\":2,\"symbol\":\"S\"}"),
    );
    check(
        bingx::swap::trade::get_swap_order_details("S", Some(5), Some("mine")),
        Method::Get,
        "/openApi/swap/v2/trade/order",
        true,
        Some("{\"clientOrderId\":\"mine\",\"orderId\":5,\"symbol\":\"S\"}"),
    );
    check(
        bingx::swap::trade::get_swap_open_orders(Some("S"), Some(SwapOrderType::TrailingTpSl)),
        Method::Get,
        "/openApi/swap/v2/trade/openOrders",
        true,
        Some("{\"symbol\":\"S\",\"type\":\"TRAILING_TP_SL\"}"),
    );
    check(
        bingx::swap::trade::get_swap_position_history("S", Some(QuoteCurrency::USDT), Some(1), Some(2), Some(3), Some(4), Some(5)),
        Method::Get,
        "/openApi/swap/v1/trade/positionHistory",
        true,
        Some("{\"currency\":\"USDT\",\"endTs\":3,\"pageIndex\":4,\"pageSize\":5,\"positionId\":1,\"startTs\":2,\"symbol\":\"S\"}"),
    );
    check(
        bingx::swap::trade::set_swap_leverage("S", PositionSide::Long, 25),
        Method::Post,
        "/openApi/swap/v2/trade/leverage",
        true,
        Some("{\"leverage\":25,\"side\":\"LONG\",\"symbol\":\"S\"}"),
    );
    check(
        bingx::swap::trade::set_swap_position_mode(true),
        Method::Post,
        "/openApi/swap/v1/positionSide/dual",
        true,
        Some("{\"dualSidePosition\":\"true\"}"),
    );
    check(
        bingx::swap::trade::set_swap_position_mode(false),
        Method::Post,
        "/openApi/swap/v1/positionSide/dual",
        true,
        Some("{\"dualSidePosition\":\"false\"}"),
    );
    check(
        bingx::swap::trade::get_swap_leverage_and_available_positions("S"),
        Method::Get,
        "/openApi/swap/v2/trade/leverage",
        true,
        Some("{\"symbol\":\"S\"}"),
    );
    check(
        bingx::swap::trade::cancel_all_swap_open_orders(None, Some(SwapOrderType::Limit)),
        Method::Delete,
        "/openApi/swap/v2/trade/allOpenOrders",
        true,
        Some("{\"type\":\"LIMIT\"}"),
    );
    check(
        bingx::swap::trade::change_swap_margin_type("S", BingxMarginMode::SeparateIsolated),
        Method::Post,
        "/openApi/swap/v2/trade/marginType",
        true,
        Some("{\"marginType\":\"SEPARATE_ISOLATED\",\"symbol\":\"S\"}"),
    );
    check(
        bingx::swap::trade::get_swap_margin_type("S"),
        Method::Get,
        "/openApi/swap/v2/trade/marginType",
        true,
        Some("{\"symbol\":\"S\"}"),
    );
}

#[test]
fn bingx_swap_batch_cancel() {
    assert_eq!(
        refused(bingx::swap::trade::cancel_swap_batch_orders("S", None, None)),
        "At least one of order_id_list or client_order_id_list must be provided."
    );
    check(
        bingx::swap::trade::cancel_swap_batch_orders("S", Some(&[1, -2, 30]), Some(&["a", "b\"c"])).unwrap(),
        Method::Delete,
        "/openApi/swap/v2/trade/batchOrders",
        true,
        Some("{\"clientOrderIdList\":[\"a\",\"b\\\"c\"],\"orderIdList\":[1,-2,30],\"symbol\":\"S\"}"),
    );
    check(
        bingx::swap::trade::cancel_swap_batch_orders("S", Some(&[]), None).unwrap(),
        Method::Delete,
        "/openApi/swap/v2/trade/batchOrders",
        true,
        Some("{\"orderIdList\":[],\"symbol\":\"S\"}"),
    );
}

#[test]
fn a_request_of_a_batch_signs_its_array_as_it_stands() {
    let request = bingx::swap::trade::cancel_swap_batch_orders("S", Some(&[1, 2]), None).unwrap();
    assert_eq!(request.params.unwrap().to_query(true, false), "orderIdList=[1,2]&symbol=S");
}
