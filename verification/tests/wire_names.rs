use trade_sdk::bingx::types as bingx;
use trade_sdk::bybit::types as bybit;
use trade_sdk::text::same_text;

#[test]
fn bingx_names_read_back_as_their_values() {
    for value in [bingx::QuoteCurrency::USDT, bingx::QuoteCurrency::USDC] {
        assert_eq!(bingx::QuoteCurrency::from_name(value.as_str()), Some(value));
    }
    assert_eq!(bingx::QuoteCurrency::from_name(""), None);
    assert_eq!(bingx::QuoteCurrency::from_name("no such name"), None);
    for value in [
        bingx::SpotOrderStatus::Filled,
        bingx::SpotOrderStatus::Canceled,
        bingx::SpotOrderStatus::Failed,
    ] {
        assert_eq!(bingx::SpotOrderStatus::from_name(value.as_str()), Some(value));
    }
    assert_eq!(bingx::SpotOrderStatus::from_name(""), None);
    assert_eq!(bingx::SpotOrderStatus::from_name("no such name"), None);
    for value in [
        bingx::SpotOrderType::Market,
        bingx::SpotOrderType::Limit,
        bingx::SpotOrderType::TakeStopLimit,
        bingx::SpotOrderType::TakeStopMarket,
        bingx::SpotOrderType::TriggerLimit,
        bingx::SpotOrderType::TriggerMarket,
    ] {
        assert_eq!(bingx::SpotOrderType::from_name(value.as_str()), Some(value));
    }
    assert_eq!(bingx::SpotOrderType::from_name(""), None);
    assert_eq!(bingx::SpotOrderType::from_name("no such name"), None);
    for value in [
        bingx::AccountType::Spot,
        bingx::AccountType::StdFutures,
        bingx::AccountType::CoinMPerp,
        bingx::AccountType::UsdtMPerp,
        bingx::AccountType::CopyTrading,
        bingx::AccountType::Grid,
        bingx::AccountType::Eran,
        bingx::AccountType::C2C,
    ] {
        assert_eq!(bingx::AccountType::from_name(value.as_str()), Some(value));
    }
    assert_eq!(bingx::AccountType::from_name(""), None);
    assert_eq!(bingx::AccountType::from_name("no such name"), None);
    for value in [
        bingx::MarginMode::Isolated,
        bingx::MarginMode::Crossed,
        bingx::MarginMode::SeparateIsolated,
    ] {
        assert_eq!(bingx::MarginMode::from_name(value.as_str()), Some(value));
    }
    assert_eq!(bingx::MarginMode::from_name(""), None);
    assert_eq!(bingx::MarginMode::from_name("no such name"), None);
    for value in [
        bingx::SwapOrderType::Limit,
        bingx::SwapOrderType::Market,
        bingx::SwapOrderType::StopMarket,
        bingx::SwapOrderType::TakeProfitMarket,
        bingx::SwapOrderType::Stop,
        bingx::SwapOrderType::TakeProfit,
        bingx::SwapOrderType::TriggerLimit,
        bingx::SwapOrderType::TriggerMarket,
        bingx::SwapOrderType::TrailingStopMarket,
        bingx::SwapOrderType::TrailingTpSl,
    ] {
        assert_eq!(bingx::SwapOrderType::from_name(value.as_str()), Some(value));
    }
    assert_eq!(bingx::SwapOrderType::from_name(""), None);
    assert_eq!(bingx::SwapOrderType::from_name("no such name"), None);
    for value in [
        bingx::TpSlOrderType::Stop,
        bingx::TpSlOrderType::TakeProfit,
        bingx::TpSlOrderType::StopMarket,
        bingx::TpSlOrderType::TakeProfitMarket,
    ] {
        assert_eq!(bingx::TpSlOrderType::from_name(value.as_str()), Some(value));
    }
    assert_eq!(bingx::TpSlOrderType::from_name(""), None);
    assert_eq!(bingx::TpSlOrderType::from_name("no such name"), None);
    for value in [bingx::OrderSide::Sell, bingx::OrderSide::Buy] {
        assert_eq!(bingx::OrderSide::from_name(value.as_str()), Some(value));
    }
    assert_eq!(bingx::OrderSide::from_name(""), None);
    assert_eq!(bingx::OrderSide::from_name("no such name"), None);
    for value in [
        bingx::PositionSide::Both,
        bingx::PositionSide::Long,
        bingx::PositionSide::Short,
    ] {
        assert_eq!(bingx::PositionSide::from_name(value.as_str()), Some(value));
    }
    assert_eq!(bingx::PositionSide::from_name(""), None);
    assert_eq!(bingx::PositionSide::from_name("no such name"), None);
    for value in [
        bingx::TriggerPriceType::MarkPrice,
        bingx::TriggerPriceType::ContractPrice,
        bingx::TriggerPriceType::IndexPrice,
    ] {
        assert_eq!(bingx::TriggerPriceType::from_name(value.as_str()), Some(value));
    }
    assert_eq!(bingx::TriggerPriceType::from_name(""), None);
    assert_eq!(bingx::TriggerPriceType::from_name("no such name"), None);
    for value in [
        bingx::TimeInForce::PostOnly,
        bingx::TimeInForce::GTC,
        bingx::TimeInForce::IOC,
        bingx::TimeInForce::FOK,
    ] {
        assert_eq!(bingx::TimeInForce::from_name(value.as_str()), Some(value));
    }
    assert_eq!(bingx::TimeInForce::from_name(""), None);
    assert_eq!(bingx::TimeInForce::from_name("no such name"), None);
    for value in [
        bingx::StopGuaranteed::True,
        bingx::StopGuaranteed::False,
        bingx::StopGuaranteed::CutFee,
    ] {
        assert_eq!(bingx::StopGuaranteed::from_name(value.as_str()), Some(value));
    }
    assert_eq!(bingx::StopGuaranteed::from_name(""), None);
    assert_eq!(bingx::StopGuaranteed::from_name("no such name"), None);
}

#[test]
fn bybit_names_read_back_as_their_values() {
    for value in [
        bybit::AllCategories::Spot,
        bybit::AllCategories::Linear,
        bybit::AllCategories::Inverse,
        bybit::AllCategories::Option,
    ] {
        assert_eq!(bybit::AllCategories::from_name(value.as_str()), Some(value));
    }
    assert_eq!(bybit::AllCategories::from_name(""), None);
    assert_eq!(bybit::AllCategories::from_name("no such name"), None);
    for value in [bybit::AccountType::Unified, bybit::AccountType::Fund] {
        assert_eq!(bybit::AccountType::from_name(value.as_str()), Some(value));
    }
    assert_eq!(bybit::AccountType::from_name(""), None);
    assert_eq!(bybit::AccountType::from_name("no such name"), None);
    for value in [
        bybit::MarginMode::IsolatedMargin,
        bybit::MarginMode::RegularMargin,
        bybit::MarginMode::PortfolioMargin,
    ] {
        assert_eq!(bybit::MarginMode::from_name(value.as_str()), Some(value));
    }
    assert_eq!(bybit::MarginMode::from_name(""), None);
    assert_eq!(bybit::MarginMode::from_name("no such name"), None);
    for value in [
        bybit::InstrumentStatus::Trading,
        bybit::InstrumentStatus::PreLaunch,
        bybit::InstrumentStatus::Delivering,
    ] {
        assert_eq!(bybit::InstrumentStatus::from_name(value.as_str()), Some(value));
    }
    assert_eq!(bybit::InstrumentStatus::from_name(""), None);
    assert_eq!(bybit::InstrumentStatus::from_name("no such name"), None);
    for value in [
        bybit::SymbolType::Innovation,
        bybit::SymbolType::Adventure,
        bybit::SymbolType::XStocks,
    ] {
        assert_eq!(bybit::SymbolType::from_name(value.as_str()), Some(value));
    }
    assert_eq!(bybit::SymbolType::from_name(""), None);
    assert_eq!(bybit::SymbolType::from_name("no such name"), None);
    for value in [bybit::Side::Buy, bybit::Side::Sell] {
        assert_eq!(bybit::Side::from_name(value.as_str()), Some(value));
    }
    assert_eq!(bybit::Side::from_name(""), None);
    assert_eq!(bybit::Side::from_name("no such name"), None);
    for value in [bybit::PlaceOrderType::Market, bybit::PlaceOrderType::Limit] {
        assert_eq!(bybit::PlaceOrderType::from_name(value.as_str()), Some(value));
    }
    assert_eq!(bybit::PlaceOrderType::from_name(""), None);
    assert_eq!(bybit::PlaceOrderType::from_name("no such name"), None);
    for value in [bybit::MarketUnit::BaseCoin, bybit::MarketUnit::QuoteCoin] {
        assert_eq!(bybit::MarketUnit::from_name(value.as_str()), Some(value));
    }
    assert_eq!(bybit::MarketUnit::from_name(""), None);
    assert_eq!(bybit::MarketUnit::from_name("no such name"), None);
    for value in [
        bybit::OrderPriceTriggerBy::LastPrice,
        bybit::OrderPriceTriggerBy::IndexPrice,
        bybit::OrderPriceTriggerBy::MarkPrice,
    ] {
        assert_eq!(bybit::OrderPriceTriggerBy::from_name(value.as_str()), Some(value));
    }
    assert_eq!(bybit::OrderPriceTriggerBy::from_name(""), None);
    assert_eq!(bybit::OrderPriceTriggerBy::from_name("no such name"), None);
    for value in [bybit::TimeInForce::Gtc, bybit::TimeInForce::Ioc, bybit::TimeInForce::Fok] {
        assert_eq!(bybit::TimeInForce::from_name(value.as_str()), Some(value));
    }
    assert_eq!(bybit::TimeInForce::from_name(""), None);
    assert_eq!(bybit::TimeInForce::from_name("no such name"), None);
    for value in [
        bybit::PositionIdx::OneWay,
        bybit::PositionIdx::HedgeBuy,
        bybit::PositionIdx::HedgeSell,
    ] {
        assert_eq!(bybit::PositionIdx::from_name(value.as_str()), Some(value));
    }
    assert_eq!(bybit::PositionIdx::from_name(""), None);
    assert_eq!(bybit::PositionIdx::from_name("no such name"), None);
    for value in [
        bybit::TpSlTriggerBy::LastPrice,
        bybit::TpSlTriggerBy::IndexPrice,
        bybit::TpSlTriggerBy::MarkPrice,
    ] {
        assert_eq!(bybit::TpSlTriggerBy::from_name(value.as_str()), Some(value));
    }
    assert_eq!(bybit::TpSlTriggerBy::from_name(""), None);
    assert_eq!(bybit::TpSlTriggerBy::from_name("no such name"), None);
    for value in [bybit::TpSlMode::Full, bybit::TpSlMode::Partial] {
        assert_eq!(bybit::TpSlMode::from_name(value.as_str()), Some(value));
    }
    assert_eq!(bybit::TpSlMode::from_name(""), None);
    assert_eq!(bybit::TpSlMode::from_name("no such name"), None);
    for value in [bybit::TpSlOrderType::Market, bybit::TpSlOrderType::Limit] {
        assert_eq!(bybit::TpSlOrderType::from_name(value.as_str()), Some(value));
    }
    assert_eq!(bybit::TpSlOrderType::from_name(""), None);
    assert_eq!(bybit::TpSlOrderType::from_name("no such name"), None);
    for value in [
        bybit::OrderFilter::Order,
        bybit::OrderFilter::StopOrder,
        bybit::OrderFilter::TpslOrder,
        bybit::OrderFilter::OcoOrder,
        bybit::OrderFilter::BidirectionalTpslOrder,
    ] {
        assert_eq!(bybit::OrderFilter::from_name(value.as_str()), Some(value));
    }
    assert_eq!(bybit::OrderFilter::from_name(""), None);
    assert_eq!(bybit::OrderFilter::from_name("no such name"), None);
    for value in [
        bybit::CancelOrderFilter::Order,
        bybit::CancelOrderFilter::TpslOrder,
        bybit::CancelOrderFilter::StopOrder,
    ] {
        assert_eq!(bybit::CancelOrderFilter::from_name(value.as_str()), Some(value));
    }
    assert_eq!(bybit::CancelOrderFilter::from_name(""), None);
    assert_eq!(bybit::CancelOrderFilter::from_name("no such name"), None);
    for value in [
        bybit::OrderStatus::New,
        bybit::OrderStatus::PartiallyFilled,
        bybit::OrderStatus::Untriggered,
        bybit::OrderStatus::Rejected,
        bybit::OrderStatus::PartiallyFilledCanceled,
        bybit::OrderStatus::Filled,
        bybit::OrderStatus::Cancelled,
        bybit::OrderStatus::Triggered,
        bybit::OrderStatus::Deactivated,
    ] {
        assert_eq!(bybit::OrderStatus::from_name(value.as_str()), Some(value));
    }
    assert_eq!(bybit::OrderStatus::from_name(""), None);
    assert_eq!(bybit::OrderStatus::from_name("no such name"), None);
}

#[test]
fn names_are_read_by_their_exact_spelling() {
    assert_eq!(bingx::OrderSide::from_name("BUY"), Some(bingx::OrderSide::Buy));
    assert_eq!(bingx::OrderSide::from_name("Buy"), None);
    assert_eq!(bingx::OrderSide::from_name("BUY "), None);
    assert_eq!(bybit::Side::from_name("Buy"), Some(bybit::Side::Buy));
    assert_eq!(bybit::Side::from_name("BUY"), None);
    assert_eq!(bybit::OrderFilter::from_name("tpslOrder"), Some(bybit::OrderFilter::TpslOrder));
    assert_eq!(bybit::OrderFilter::from_name("TpslOrder"), None);
    assert_eq!(bybit::PositionIdx::from_name("2"), Some(bybit::PositionIdx::HedgeSell));
    assert_eq!(bybit::PositionIdx::from_name("3"), None);
    assert_eq!(bingx::StopGuaranteed::from_name("cutfee"), Some(bingx::StopGuaranteed::CutFee));
}

#[test]
fn same_text_is_equality_of_strings() {
    assert!(same_text("", ""));
    assert!(same_text("abc", "abc"));
    assert!(same_text("é", "é"));
    assert!(!same_text("abc", "abd"));
    assert!(!same_text("abc", "ab"));
    assert!(!same_text("", "a"));
    assert!(!same_text("A", "a"));
}
