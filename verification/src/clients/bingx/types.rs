//! The values that BingX endpoints take and give.

use crate::text::same_text;
use vstd::prelude::*;

verus! {

/// The currency that a swap contract is quoted in.
#[derive(Debug, Clone, Copy, PartialEq, Eq, Structural)]
pub enum QuoteCurrency {
    /// Tether.
    USDT,
    /// USD Coin.
    USDC,
}

impl QuoteCurrency {
    /// The name that the exchange gives the value.
    pub open spec fn wire_name(self) -> Seq<char> {
        match self {
            QuoteCurrency::USDT => "USDT"@,
            QuoteCurrency::USDC => "USDC"@,
        }
    }

    /// The name that the exchange gives the value.
    pub fn as_str(&self) -> (name: &'static str)
        ensures
            name@ == self.wire_name(),
    {
        match self {
            QuoteCurrency::USDT => "USDT",
            QuoteCurrency::USDC => "USDC",
        }
    }

    /// The value that the exchange names `name`, if it names one.
    pub fn from_name(name: &str) -> (value: Option<Self>)
        ensures
            match value {
                Some(v) => v.wire_name() == name@,
                None => forall|v: Self| v.wire_name() != name@,
            },
    {
        if same_text(name, "USDT") {
            Some(QuoteCurrency::USDT)
        } else if same_text(name, "USDC") {
            Some(QuoteCurrency::USDC)
        } else {
            None
        }
    }

    /// No two values share a name, so a name that is read back names the
    /// value that wrote it.
    pub proof fn lemma_names_differ(a: Self, b: Self)
        requires
            a != b,
        ensures
            a.wire_name() != b.wire_name(),
    {
        reveal_strlit("USDT");
        reveal_strlit("USDC");
        assert("USDT"@.len() == 4);
        assert("USDC"@.len() == 4);
        assert("USDT"@[3] == 'T');
        assert("USDC"@[3] == 'C');
    }
}

/// The final state of a spot order.
#[derive(Debug, Clone, Copy, PartialEq, Eq, Structural)]
pub enum SpotOrderStatus {
    /// Filled in full.
    Filled,
    /// Canceled.
    Canceled,
    /// Failed.
    Failed,
}

impl SpotOrderStatus {
    /// The name that the exchange gives the value.
    pub open spec fn wire_name(self) -> Seq<char> {
        match self {
            SpotOrderStatus::Filled => "FILLED"@,
            SpotOrderStatus::Canceled => "CANCELED"@,
            SpotOrderStatus::Failed => "FAILED"@,
        }
    }

    /// The name that the exchange gives the value.
    pub fn as_str(&self) -> (name: &'static str)
        ensures
            name@ == self.wire_name(),
    {
        match self {
            SpotOrderStatus::Filled => "FILLED",
            SpotOrderStatus::Canceled => "CANCELED",
            SpotOrderStatus::Failed => "FAILED",
        }
    }

    /// The value that the exchange names `name`, if it names one.
    pub fn from_name(name: &str) -> (value: Option<Self>)
        ensures
            match value {
                Some(v) => v.wire_name() == name@,
                None => forall|v: Self| v.wire_name() != name@,
            },
    {
        if same_text(name, "FILLED") {
            Some(SpotOrderStatus::Filled)
        } else if same_text(name, "CANCELED") {
            Some(SpotOrderStatus::Canceled)
        } else if same_text(name, "FAILED") {
            Some(SpotOrderStatus::Failed)
        } else {
            None
        }
    }

    /// No two values share a name, so a name that is read back names the
    /// value that wrote it.
    pub proof fn lemma_names_differ(a: Self, b: Self)
        requires
            a != b,
        ensures
            a.wire_name() != b.wire_name(),
    {
        reveal_strlit("FILLED");
        reveal_strlit("CANCELED");
        reveal_strlit("FAILED");
        assert("FILLED"@.len() == 6);
        assert("CANCELED"@.len() == 8);
        assert("FAILED"@.len() == 6);
        assert("FILLED"@[1] == 'I');
        assert("FAILED"@[1] == 'A');
    }
}

/// The type of a spot order.
#[derive(Debug, Clone, Copy, PartialEq, Eq, Structural)]
pub enum SpotOrderType {
    /// At the market price.
    Market,
    /// At a limit price.
    Limit,
    /// A limit order placed at a trigger price.
    TakeStopLimit,
    /// A market order placed at a trigger price.
    TakeStopMarket,
    /// A limit order placed when a price is crossed.
    TriggerLimit,
    /// A market order placed when a price is crossed.
    TriggerMarket,
}

impl SpotOrderType {
    /// The name that the exchange gives the value.
    pub open spec fn wire_name(self) -> Seq<char> {
        match self {
            SpotOrderType::Market => "MARKET"@,
            SpotOrderType::Limit => "LIMIT"@,
            SpotOrderType::TakeStopLimit => "TAKE_STOP_LIMIT"@,
            SpotOrderType::TakeStopMarket => "TAKE_STOP_MARKET"@,
            SpotOrderType::TriggerLimit => "TRIGGER_LIMIT"@,
            SpotOrderType::TriggerMarket => "TRIGGER_MARKET"@,
        }
    }

    /// The name that the exchange gives the value.
    pub fn as_str(&self) -> (name: &'static str)
        ensures
            name@ == self.wire_name(),
    {
        match self {
            SpotOrderType::Market => "MARKET",
            SpotOrderType::Limit => "LIMIT",
            SpotOrderType::TakeStopLimit => "TAKE_STOP_LIMIT",
            SpotOrderType::TakeStopMarket => "TAKE_STOP_MARKET",
            SpotOrderType::TriggerLimit => "TRIGGER_LIMIT",
            SpotOrderType::TriggerMarket => "TRIGGER_MARKET",
        }
    }

    /// The value that the exchange names `name`, if it names one.
    pub fn from_name(name: &str) -> (value: Option<Self>)
        ensures
            match value {
                Some(v) => v.wire_name() == name@,
                None => forall|v: Self| v.wire_name() != name@,
            },
    {
        if same_text(name, "MARKET") {
            Some(SpotOrderType::Market)
        } else if same_text(name, "LIMIT") {
            Some(SpotOrderType::Limit)
        } else if same_text(name, "TAKE_STOP_LIMIT") {
            Some(SpotOrderType::TakeStopLimit)
        } else if same_text(name, "TAKE_STOP_MARKET") {
            Some(SpotOrderType::TakeStopMarket)
        } else if same_text(name, "TRIGGER_LIMIT") {
            Some(SpotOrderType::TriggerLimit)
        } else if same_text(name, "TRIGGER_MARKET") {
            Some(SpotOrderType::TriggerMarket)
        } else {
            None
        }
    }

    /// No two values share a name, so a name that is read back names the
    /// value that wrote it.
    pub proof fn lemma_names_differ(a: Self, b: Self)
        requires
            a != b,
        ensures
            a.wire_name() != b.wire_name(),
    {
        reveal_strlit("MARKET");
        reveal_strlit("LIMIT");
        reveal_strlit("TAKE_STOP_LIMIT");
        reveal_strlit("TAKE_STOP_MARKET");
        reveal_strlit("TRIGGER_LIMIT");
        reveal_strlit("TRIGGER_MARKET");
        assert("MARKET"@.len() == 6);
        assert("LIMIT"@.len() == 5);
        assert("TAKE_STOP_LIMIT"@.len() == 15);
        assert("TAKE_STOP_MARKET"@.len() == 16);
        assert("TRIGGER_LIMIT"@.len() == 13);
        assert("TRIGGER_MARKET"@.len() == 14);
    }
}

/// The account that an asset overview is asked for.
#[derive(Debug, Clone, Copy, PartialEq, Eq, Structural)]
pub enum AccountType {
    /// The spot account.
    Spot,
    /// The standard futures account.
    StdFutures,
    /// The coin-margined perpetual account.
    CoinMPerp,
    /// The USDT-margined perpetual account.
    UsdtMPerp,
    /// The copy-trading account.
    CopyTrading,
    /// The grid account.
    Grid,
    /// The wealth account.
    Eran,
    /// The peer-to-peer account.
    C2C,
}

impl AccountType {
    /// The name that the exchange gives the value.
    pub open spec fn wire_name(self) -> Seq<char> {
        match self {
            AccountType::Spot => "spot"@,
            AccountType::StdFutures => "stdFutures"@,
            AccountType::CoinMPerp => "coinMPerp"@,
            AccountType::UsdtMPerp => "USDTMPerp"@,
            AccountType::CopyTrading => "copyTrading"@,
            AccountType::Grid => "grid"@,
            AccountType::Eran => "eran"@,
            AccountType::C2C => "c2c"@,
        }
    }

    /// The name that the exchange gives the value.
    pub fn as_str(&self) -> (name: &'static str)
        ensures
            name@ == self.wire_name(),
    {
        match self {
            AccountType::Spot => "spot",
            AccountType::StdFutures => "stdFutures",
            AccountType::CoinMPerp => "coinMPerp",
            AccountType::UsdtMPerp => "USDTMPerp",
            AccountType::CopyTrading => "copyTrading",
            AccountType::Grid => "grid",
            AccountType::Eran => "eran",
            AccountType::C2C => "c2c",
        }
    }

    /// The value that the exchange names `name`, if it names one.
    pub fn from_name(name: &str) -> (value: Option<Self>)
        ensures
            match value {
                Some(v) => v.wire_name() == name@,
                None => forall|v: Self| v.wire_name() != name@,
            },
    {
        if same_text(name, "spot") {
            Some(AccountType::Spot)
        } else if same_text(name, "stdFutures") {
            Some(AccountType::StdFutures)
        } else if same_text(name, "coinMPerp") {
            Some(AccountType::CoinMPerp)
        } else if same_text(name, "USDTMPerp") {
            Some(AccountType::UsdtMPerp)
        } else if same_text(name, "copyTrading") {
            Some(AccountType::CopyTrading)
        } else if same_text(name, "grid") {
            Some(AccountType::Grid)
        } else if same_text(name, "eran") {
            Some(AccountType::Eran)
        } else if same_text(name, "c2c") {
            Some(AccountType::C2C)
        } else {
            None
        }
    }

    /// No two values share a name, so a name that is read back names the
    /// value that wrote it.
    pub proof fn lemma_names_differ(a: Self, b: Self)
        requires
            a != b,
        ensures
            a.wire_name() != b.wire_name(),
    {
        reveal_strlit("spot");
        reveal_strlit("stdFutures");
        reveal_strlit("coinMPerp");
        reveal_strlit("USDTMPerp");
        reveal_strlit("copyTrading");
        reveal_strlit("grid");
        reveal_strlit("eran");
        reveal_strlit("c2c");
        assert("spot"@.len() == 4);
        assert("stdFutures"@.len() == 10);
        assert("coinMPerp"@.len() == 9);
        assert("USDTMPerp"@.len() == 9);
        assert("copyTrading"@.len() == 11);
        assert("grid"@.len() == 4);
        assert("eran"@.len() == 4);
        assert("c2c"@.len() == 3);
        assert("spot"@[0] == 's');
        assert("grid"@[0] == 'g');
        assert("eran"@[0] == 'e');
        assert("coinMPerp"@[0] == 'c');
        assert("USDTMPerp"@[0] == 'U');
    }
}

/// How the margin of a swap position is held.
#[derive(Debug, Clone, Copy, PartialEq, Eq, Structural)]
pub enum MarginMode {
    /// Per position.
    Isolated,
    /// Shared by all positions.
    Crossed,
    /// Per position, each opened apart.
    SeparateIsolated,
}

impl MarginMode {
    /// The name that the exchange gives the value.
    pub open spec fn wire_name(self) -> Seq<char> {
        match self {
            MarginMode::Isolated => "ISOLATED"@,
            MarginMode::Crossed => "CROSSED"@,
            MarginMode::SeparateIsolated => "SEPARATE_ISOLATED"@,
        }
    }

    /// The name that the exchange gives the value.
    pub fn as_str(&self) -> (name: &'static str)
        ensures
            name@ == self.wire_name(),
    {
        match self {
            MarginMode::Isolated => "ISOLATED",
            MarginMode::Crossed => "CROSSED",
            MarginMode::SeparateIsolated => "SEPARATE_ISOLATED",
        }
    }

    /// The value that the exchange names `name`, if it names one.
    pub fn from_name(name: &str) -> (value: Option<Self>)
        ensures
            match value {
                Some(v) => v.wire_name() == name@,
                None => forall|v: Self| v.wire_name() != name@,
            },
    {
        if same_text(name, "ISOLATED") {
            Some(MarginMode::Isolated)
        } else if same_text(name, "CROSSED") {
            Some(MarginMode::Crossed)
        } else if same_text(name, "SEPARATE_ISOLATED") {
            Some(MarginMode::SeparateIsolated)
        } else {
            None
        }
    }

    /// No two values share a name, so a name that is read back names the
    /// value that wrote it.
    pub proof fn lemma_names_differ(a: Self, b: Self)
        requires
            a != b,
        ensures
            a.wire_name() != b.wire_name(),
    {
        reveal_strlit("ISOLATED");
        reveal_strlit("CROSSED");
        reveal_strlit("SEPARATE_ISOLATED");
        assert("ISOLATED"@.len() == 8);
        assert("CROSSED"@.len() == 7);
        assert("SEPARATE_ISOLATED"@.len() == 17);
    }
}

/// The type of a swap order.
#[derive(Debug, Clone, Copy, PartialEq, Eq, Structural)]
pub enum SwapOrderType {
    /// At a limit price.
    Limit,
    /// At the market price.
    Market,
    /// A stop loss at the market price.
    StopMarket,
    /// A take profit at the market price.
    TakeProfitMarket,
    /// A stop loss at a limit price.
    Stop,
    /// A take profit at a limit price.
    TakeProfit,
    /// A limit order placed when a price is crossed.
    TriggerLimit,
    /// A market order placed when a price is crossed.
    TriggerMarket,
    /// A stop that trails the market.
    TrailingStopMarket,
    /// A take profit or stop loss that trails the market.
    TrailingTpSl,
}

impl SwapOrderType {
    /// The name that the exchange gives the value.
    pub open spec fn wire_name(self) -> Seq<char> {
        match self {
            SwapOrderType::Limit => "LIMIT"@,
            SwapOrderType::Market => "MARKET"@,
            SwapOrderType::StopMarket => "STOP_MARKET"@,
            SwapOrderType::TakeProfitMarket => "TAKE_PROFIT_MARKET"@,
            SwapOrderType::Stop => "STOP"@,
            SwapOrderType::TakeProfit => "TAKE_PROFIT"@,
            SwapOrderType::TriggerLimit => "TRIGGER_LIMIT"@,
            SwapOrderType::TriggerMarket => "TRIGGER_MARKET"@,
            SwapOrderType::TrailingStopMarket => "TRAILING_STOP_MARKET"@,
            SwapOrderType::TrailingTpSl => "TRAILING_TP_SL"@,
        }
    }

    /// The name that the exchange gives the value.
    pub fn as_str(&self) -> (name: &'static str)
        ensures
            name@ == self.wire_name(),
    {
        match self {
            SwapOrderType::Limit => "LIMIT",
            SwapOrderType::Market => "MARKET",
            SwapOrderType::StopMarket => "STOP_MARKET",
            SwapOrderType::TakeProfitMarket => "TAKE_PROFIT_MARKET",
            SwapOrderType::Stop => "STOP",
            SwapOrderType::TakeProfit => "TAKE_PROFIT",
            SwapOrderType::TriggerLimit => "TRIGGER_LIMIT",
            SwapOrderType::TriggerMarket => "TRIGGER_MARKET",
            SwapOrderType::TrailingStopMarket => "TRAILING_STOP_MARKET",
            SwapOrderType::TrailingTpSl => "TRAILING_TP_SL",
        }
    }

    /// The value that the exchange names `name`, if it names one.
    pub fn from_name(name: &str) -> (value: Option<Self>)
        ensures
            match value {
                Some(v) => v.wire_name() == name@,
                None => forall|v: Self| v.wire_name() != name@,
            },
    {
        if same_text(name, "LIMIT") {
            Some(SwapOrderType::Limit)
        } else if same_text(name, "MARKET") {
            Some(SwapOrderType::Market)
        } else if same_text(name, "STOP_MARKET") {
            Some(SwapOrderType::StopMarket)
        } else if same_text(name, "TAKE_PROFIT_MARKET") {
            Some(SwapOrderType::TakeProfitMarket)
        } else if same_text(name, "STOP") {
            Some(SwapOrderType::Stop)
        } else if same_text(name, "TAKE_PROFIT") {
            Some(SwapOrderType::TakeProfit)
        } else if same_text(name, "TRIGGER_LIMIT") {
            Some(SwapOrderType::TriggerLimit)
        } else if same_text(name, "TRIGGER_MARKET") {
            Some(SwapOrderType::TriggerMarket)
        } else if same_text(name, "TRAILING_STOP_MARKET") {
            Some(SwapOrderType::TrailingStopMarket)
        } else if same_text(name, "TRAILING_TP_SL") {
            Some(SwapOrderType::TrailingTpSl)
        } else {
            None
        }
    }

    /// No two values share a name, so a name that is read back names the
    /// value that wrote it.
    pub proof fn lemma_names_differ(a: Self, b: Self)
        requires
            a != b,
        ensures
            a.wire_name() != b.wire_name(),
    {
        reveal_strlit("LIMIT");
        reveal_strlit("MARKET");
        reveal_strlit("STOP_MARKET");
        reveal_strlit("TAKE_PROFIT_MARKET");
        reveal_strlit("STOP");
        reveal_strlit("TAKE_PROFIT");
        reveal_strlit("TRIGGER_LIMIT");
        reveal_strlit("TRIGGER_MARKET");
        reveal_strlit("TRAILING_STOP_MARKET");
        reveal_strlit("TRAILING_TP_SL");
        assert("LIMIT"@.len() == 5);
        assert("MARKET"@.len() == 6);
        assert("STOP_MARKET"@.len() == 11);
        assert("TAKE_PROFIT_MARKET"@.len() == 18);
        assert("STOP"@.len() == 4);
        assert("TAKE_PROFIT"@.len() == 11);
        assert("TRIGGER_LIMIT"@.len() == 13);
        assert("TRIGGER_MARKET"@.len() == 14);
        assert("TRAILING_STOP_MARKET"@.len() == 20);
        assert("TRAILING_TP_SL"@.len() == 14);
        assert("STOP_MARKET"@[0] == 'S');
        assert("TAKE_PROFIT"@[0] == 'T');
        assert("TRIGGER_MARKET"@[2] == 'I');
        assert("TRAILING_TP_SL"@[2] == 'A');
    }
}

impl Default for SwapOrderType {
    fn default() -> (value: Self)
        ensures
            value == SwapOrderType::Market,
    {
        SwapOrderType::Market
    }
}

/// The type of a take-profit or stop-loss order.
#[derive(Debug, Clone, Copy, PartialEq, Eq, Structural)]
pub enum TpSlOrderType {
    /// A stop loss at a limit price.
    Stop,
    /// A take profit at a limit price.
    TakeProfit,
    /// A stop loss at the market price.
    StopMarket,
    /// A take profit at the market price.
    TakeProfitMarket,
}

impl TpSlOrderType {
    /// The name that the exchange gives the value.
    pub open spec fn wire_name(self) -> Seq<char> {
        match self {
            TpSlOrderType::Stop => "STOP"@,
            TpSlOrderType::TakeProfit => "TAKE_PROFIT"@,
            TpSlOrderType::StopMarket => "STOP_MARKET"@,
            TpSlOrderType::TakeProfitMarket => "TAKE_PROFIT_MARKET"@,
        }
    }

    /// The name that the exchange gives the value.
    pub fn as_str(&self) -> (name: &'static str)
        ensures
            name@ == self.wire_name(),
    {
        match self {
            TpSlOrderType::Stop => "STOP",
            TpSlOrderType::TakeProfit => "TAKE_PROFIT",
            TpSlOrderType::StopMarket => "STOP_MARKET",
            TpSlOrderType::TakeProfitMarket => "TAKE_PROFIT_MARKET",
        }
    }

    /// The value that the exchange names `name`, if it names one.
    pub fn from_name(name: &str) -> (value: Option<Self>)
        ensures
            match value {
                Some(v) => v.wire_name() == name@,
                None => forall|v: Self| v.wire_name() != name@,
            },
    {
        if same_text(name, "STOP") {
            Some(TpSlOrderType::Stop)
        } else if same_text(name, "TAKE_PROFIT") {
            Some(TpSlOrderType::TakeProfit)
        } else if same_text(name, "STOP_MARKET") {
            Some(TpSlOrderType::StopMarket)
        } else if same_text(name, "TAKE_PROFIT_MARKET") {
            Some(TpSlOrderType::TakeProfitMarket)
        } else {
            None
        }
    }

    /// No two values share a name, so a name that is read back names the
    /// value that wrote it.
    pub proof fn lemma_names_differ(a: Self, b: Self)
        requires
            a != b,
        ensures
            a.wire_name() != b.wire_name(),
    {
        reveal_strlit("STOP");
        reveal_strlit("TAKE_PROFIT");
        reveal_strlit("STOP_MARKET");
        reveal_strlit("TAKE_PROFIT_MARKET");
        assert("STOP"@.len() == 4);
        assert("TAKE_PROFIT"@.len() == 11);
        assert("STOP_MARKET"@.len() == 11);
        assert("TAKE_PROFIT_MARKET"@.len() == 18);
        assert("TAKE_PROFIT"@[0] == 'T');
        assert("STOP_MARKET"@[0] == 'S');
    }
}

/// The side of an order.
#[derive(Debug, Clone, Copy, PartialEq, Eq, Structural)]
pub enum OrderSide {
    /// Selling.
    Sell,
    /// Buying.
    Buy,
}

impl OrderSide {
    /// The name that the exchange gives the value.
    pub open spec fn wire_name(self) -> Seq<char> {
        match self {
            OrderSide::Sell => "SELL"@,
            OrderSide::Buy => "BUY"@,
        }
    }

    /// The name that the exchange gives the value.
    pub fn as_str(&self) -> (name: &'static str)
        ensures
            name@ == self.wire_name(),
    {
        match self {
            OrderSide::Sell => "SELL",
            OrderSide::Buy => "BUY",
        }
    }

    /// The value that the exchange names `name`, if it names one.
    pub fn from_name(name: &str) -> (value: Option<Self>)
        ensures
            match value {
                Some(v) => v.wire_name() == name@,
                None => forall|v: Self| v.wire_name() != name@,
            },
    {
        if same_text(name, "SELL") {
            Some(OrderSide::Sell)
        } else if same_text(name, "BUY") {
            Some(OrderSide::Buy)
        } else {
            None
        }
    }

    /// No two values share a name, so a name that is read back names the
    /// value that wrote it.
    pub proof fn lemma_names_differ(a: Self, b: Self)
        requires
            a != b,
        ensures
            a.wire_name() != b.wire_name(),
    {
        reveal_strlit("SELL");
        reveal_strlit("BUY");
        assert("SELL"@.len() == 4);
        assert("BUY"@.len() == 3);
    }
}

impl Default for OrderSide {
    fn default() -> (value: Self)
        ensures
            value == OrderSide::Buy,
    {
        OrderSide::Buy
    }
}

/// The side of a position.
#[derive(Debug, Clone, Copy, PartialEq, Eq, Structural)]
pub enum PositionSide {
    /// One position for both directions.
    Both,
    /// The long position.
    Long,
    /// The short position.
    Short,
}

impl PositionSide {
    /// The name that the exchange gives the value.
    pub open spec fn wire_name(self) -> Seq<char> {
        match self {
            PositionSide::Both => "BOTH"@,
            PositionSide::Long => "LONG"@,
            PositionSide::Short => "SHORT"@,
        }
    }

    /// The name that the exchange gives the value.
    pub fn as_str(&self) -> (name: &'static str)
        ensures
            name@ == self.wire_name(),
    {
        match self {
            PositionSide::Both => "BOTH",
            PositionSide::Long => "LONG",
            PositionSide::Short => "SHORT",
        }
    }

    /// The value that the exchange names `name`, if it names one.
    pub fn from_name(name: &str) -> (value: Option<Self>)
        ensures
            match value {
                Some(v) => v.wire_name() == name@,
                None => forall|v: Self| v.wire_name() != name@,
            },
    {
        if same_text(name, "BOTH") {
            Some(PositionSide::Both)
        } else if same_text(name, "LONG") {
            Some(PositionSide::Long)
        } else if same_text(name, "SHORT") {
            Some(PositionSide::Short)
        } else {
            None
        }
    }

    /// No two values share a name, so a name that is read back names the
    /// value that wrote it.
    pub proof fn lemma_names_differ(a: Self, b: Self)
        requires
            a != b,
        ensures
            a.wire_name() != b.wire_name(),
    {
        reveal_strlit("BOTH");
        reveal_strlit("LONG");
        reveal_strlit("SHORT");
        assert("BOTH"@.len() == 4);
        assert("LONG"@.len() == 4);
        assert("SHORT"@.len() == 5);
        assert("BOTH"@[0] == 'B');
        assert("LONG"@[0] == 'L');
    }
}

/// The price that triggers an order.
#[derive(Debug, Clone, Copy, PartialEq, Eq, Structural)]
pub enum TriggerPriceType {
    /// The mark price.
    MarkPrice,
    /// The last traded price of the contract.
    ContractPrice,
    /// The index price.
    IndexPrice,
}

impl TriggerPriceType {
    /// The name that the exchange gives the value.
    pub open spec fn wire_name(self) -> Seq<char> {
        match self {
            TriggerPriceType::MarkPrice => "MARK_PRICE"@,
            TriggerPriceType::ContractPrice => "CONTRACT_PRICE"@,
            TriggerPriceType::IndexPrice => "INDEX_PRICE"@,
        }
    }

    /// The name that the exchange gives the value.
    pub fn as_str(&self) -> (name: &'static str)
        ensures
            name@ == self.wire_name(),
    {
        match self {
            TriggerPriceType::MarkPrice => "MARK_PRICE",
            TriggerPriceType::ContractPrice => "CONTRACT_PRICE",
            TriggerPriceType::IndexPrice => "INDEX_PRICE",
        }
    }

    /// The value that the exchange names `name`, if it names one.
    pub fn from_name(name: &str) -> (value: Option<Self>)
        ensures
            match value {
                Some(v) => v.wire_name() == name@,
                None => forall|v: Self| v.wire_name() != name@,
            },
    {
        if same_text(name, "MARK_PRICE") {
            Some(TriggerPriceType::MarkPrice)
        } else if same_text(name, "CONTRACT_PRICE") {
            Some(TriggerPriceType::ContractPrice)
        } else if same_text(name, "INDEX_PRICE") {
            Some(TriggerPriceType::IndexPrice)
        } else {
            None
        }
    }

    /// No two values share a name, so a name that is read back names the
    /// value that wrote it.
    pub proof fn lemma_names_differ(a: Self, b: Self)
        requires
            a != b,
        ensures
            a.wire_name() != b.wire_name(),
    {
        reveal_strlit("MARK_PRICE");
        reveal_strlit("CONTRACT_PRICE");
        reveal_strlit("INDEX_PRICE");
        assert("MARK_PRICE"@.len() == 10);
        assert("CONTRACT_PRICE"@.len() == 14);
        assert("INDEX_PRICE"@.len() == 11);
    }
}

/// How long an order stays in force.
#[derive(Debug, Clone, Copy, PartialEq, Eq, Structural)]
pub enum TimeInForce {
    /// Only as a maker.
    PostOnly,
    /// Until canceled.
    GTC,
    /// Filled at once, the rest canceled.
    IOC,
    /// Filled at once in full, or canceled.
    FOK,
}

impl TimeInForce {
    /// The name that the exchange gives the value.
    pub open spec fn wire_name(self) -> Seq<char> {
        match self {
            TimeInForce::PostOnly => "PostOnly"@,
            TimeInForce::GTC => "GTC"@,
            TimeInForce::IOC => "IOC"@,
            TimeInForce::FOK => "FOK"@,
        }
    }

    /// The name that the exchange gives the value.
    pub fn as_str(&self) -> (name: &'static str)
        ensures
            name@ == self.wire_name(),
    {
        match self {
            TimeInForce::PostOnly => "PostOnly",
            TimeInForce::GTC => "GTC",
            TimeInForce::IOC => "IOC",
            TimeInForce::FOK => "FOK",
        }
    }

    /// The value that the exchange names `name`, if it names one.
    pub fn from_name(name: &str) -> (value: Option<Self>)
        ensures
            match value {
                Some(v) => v.wire_name() == name@,
                None => forall|v: Self| v.wire_name() != name@,
            },
    {
        if same_text(name, "PostOnly") {
            Some(TimeInForce::PostOnly)
        } else if same_text(name, "GTC") {
            Some(TimeInForce::GTC)
        } else if same_text(name, "IOC") {
            Some(TimeInForce::IOC)
        } else if same_text(name, "FOK") {
            Some(TimeInForce::FOK)
        } else {
            None
        }
    }

    /// No two values share a name, so a name that is read back names the
    /// value that wrote it.
    pub proof fn lemma_names_differ(a: Self, b: Self)
        requires
            a != b,
        ensures
            a.wire_name() != b.wire_name(),
    {
        reveal_strlit("PostOnly");
        reveal_strlit("GTC");
        reveal_strlit("IOC");
        reveal_strlit("FOK");
        assert("PostOnly"@.len() == 8);
        assert("GTC"@.len() == 3);
        assert("IOC"@.len() == 3);
        assert("FOK"@.len() == 3);
        assert("GTC"@[0] == 'G');
        assert("IOC"@[0] == 'I');
        assert("FOK"@[0] == 'F');
    }
}

/// Whether a stop is guaranteed.
#[derive(Debug, Clone, Copy, PartialEq, Eq, Structural)]
pub enum StopGuaranteed {
    /// Guaranteed.
    True,
    /// Not guaranteed.
    False,
    /// Guaranteed, with the fee cut.
    CutFee,
}

impl StopGuaranteed {
    /// The name that the exchange gives the value.
    pub open spec fn wire_name(self) -> Seq<char> {
        match self {
            StopGuaranteed::True => "true"@,
            StopGuaranteed::False => "false"@,
            StopGuaranteed::CutFee => "cutfee"@,
        }
    }

    /// The name that the exchange gives the value.
    pub fn as_str(&self) -> (name: &'static str)
        ensures
            name@ == self.wire_name(),
    {
        match self {
            StopGuaranteed::True => "true",
            StopGuaranteed::False => "false",
            StopGuaranteed::CutFee => "cutfee",
        }
    }

    /// The value that the exchange names `name`, if it names one.
    pub fn from_name(name: &str) -> (value: Option<Self>)
        ensures
            match value {
                Some(v) => v.wire_name() == name@,
                None => forall|v: Self| v.wire_name() != name@,
            },
    {
        if same_text(name, "true") {
            Some(StopGuaranteed::True)
        } else if same_text(name, "false") {
            Some(StopGuaranteed::False)
        } else if same_text(name, "cutfee") {
            Some(StopGuaranteed::CutFee)
        } else {
            None
        }
    }

    /// No two values share a name, so a name that is read back names the
    /// value that wrote it.
    pub proof fn lemma_names_differ(a: Self, b: Self)
        requires
            a != b,
        ensures
            a.wire_name() != b.wire_name(),
    {
        reveal_strlit("true");
        reveal_strlit("false");
        reveal_strlit("cutfee");
        assert("true"@.len() == 4);
        assert("false"@.len() == 5);
        assert("cutfee"@.len() == 6);
    }
}
/// The answer of the API with its payload typed.
#[derive(Debug)]
pub struct ApiResponse<T> {
    /// The code of the answer; 0 where the request was served.
    pub code: i32,
    /// The message of the answer.
    pub msg: String,
    /// The payload.
    pub data: T,
    /// What the exchange adds for debugging, if anything.
    pub debug_msg: Option<String>,
    /// Whether the exchange advises to send the request again.
    pub retryable: Option<bool>,
}

/// The answer of the API with its payload as it came.
#[derive(Debug)]
pub struct GenericResponse {
    /// The code of the answer; 0 where the request was served.
    pub code: i32,
    /// The message of the answer.
    pub msg: String,
    /// The payload.
    pub data: serde_json::Value,
    /// What the exchange adds for debugging, if anything.
    pub debug_msg: Option<String>,
    /// Whether the exchange advises to send the request again.
    pub retryable: Option<bool>,
}

impl GenericResponse {
    /// The same answer as a typed one whose payload is JSON.
    pub fn into_api_response(self) -> (typed: ApiResponse<serde_json::Value>)
        ensures
            typed == (ApiResponse {
                code: self.code,
                msg: self.msg,
                data: self.data,
                debug_msg: self.debug_msg,
                retryable: self.retryable,
            }),
    {
        ApiResponse {
            code: self.code,
            msg: self.msg,
            data: self.data,
            debug_msg: self.debug_msg,
            retryable: self.retryable,
        }
    }
}

} // verus!
