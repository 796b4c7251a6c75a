//! The values that Bybit endpoints take and give.

use crate::params::put;
use crate::params::put_int;
use crate::params::put_text;
use crate::params::text_entry;
use crate::params::text_of;
use crate::params::Entry;
use crate::params::Params;
use crate::text::same_text;
use vstd::prelude::*;

verus! {

/// The product category of an instrument.
#[derive(Debug, Clone, Copy, PartialEq, Eq, Structural)]
pub enum AllCategories {
    /// Spot.
    Spot,
    /// Linear contracts.
    Linear,
    /// Inverse contracts.
    Inverse,
    /// Options.
    Option,
}

impl AllCategories {
    /// The name that the exchange gives the value.
    pub open spec fn wire_name(self) -> Seq<char> {
        match self {
            AllCategories::Spot => "spot"@,
            AllCategories::Linear => "linear"@,
            AllCategories::Inverse => "inverse"@,
            AllCategories::Option => "option"@,
        }
    }

    /// The name that the exchange gives the value.
    pub fn as_str(&self) -> (name: &'static str)
        ensures
            name@ == self.wire_name(),
    {
        match self {
            AllCategories::Spot => "spot",
            AllCategories::Linear => "linear",
            AllCategories::Inverse => "inverse",
            AllCategories::Option => "option",
        }
    }

    /// The value that the exchange names `name`, if it names one.
    pub fn from_name(name: &str) -> (value: Option<Self>)
        ensures
            match value {
                Some(v) => v.wire_name() == name@,
                None => forall|v: Self| v.wire_name() != name@,
            },
    {
        if same_text(name, "spot") {
            Some(AllCategories::Spot)
        } else if same_text(name, "linear") {
            Some(AllCategories::Linear)
        } else if same_text(name, "inverse") {
            Some(AllCategories::Inverse)
        } else if same_text(name, "option") {
            Some(AllCategories::Option)
        } else {
            None
        }
    }

    /// No two values share a name, so a name that is read back names the
    /// value that wrote it.
    pub proof fn lemma_names_differ(a: Self, b: Self)
        requires
            a != b,
        ensures
            a.wire_name() != b.wire_name(),
    {
        reveal_strlit("spot");
        reveal_strlit("linear");
        reveal_strlit("inverse");
        reveal_strlit("option");
        assert("spot"@.len() == 4);
        assert("linear"@.len() == 6);
        assert("inverse"@.len() == 7);
        assert("option"@.len() == 6);
        assert("linear"@[0] == 'l');
        assert("option"@[0] == 'o');
    }
}

/// The type of an account.
#[derive(Debug, Clone, Copy, PartialEq, Eq, Structural)]
pub enum AccountType {
    /// The unified trading account.
    Unified,
    /// The funding account.
    Fund,
}

impl AccountType {
    /// The name that the exchange gives the value.
    pub open spec fn wire_name(self) -> Seq<char> {
        match self {
            AccountType::Unified => "UNIFIED"@,
            AccountType::Fund => "FUND"@,
        }
    }

    /// The name that the exchange gives the value.
    pub fn as_str(&self) -> (name: &'static str)
        ensures
            name@ == self.wire_name(),
    {
        match self {
            AccountType::Unified => "UNIFIED",
            AccountType::Fund => "FUND",
        }
    }

    /// The value that the exchange names `name`, if it names one.
    pub fn from_name(name: &str) -> (value: Option<Self>)
        ensures
            match value {
                Some(v) => v.wire_name() == name@,
                None => forall|v: Self| v.wire_name() != name@,
            },
    {
        if same_text(name, "UNIFIED") {
            Some(AccountType::Unified)
        } else if same_text(name, "FUND") {
            Some(AccountType::Fund)
        } else {
            None
        }
    }

    /// No two values share a name, so a name that is read back names the
    /// value that wrote it.
    pub proof fn lemma_names_differ(a: Self, b: Self)
        requires
            a != b,
        ensures
            a.wire_name() != b.wire_name(),
    {
        reveal_strlit("UNIFIED");
        reveal_strlit("FUND");
        assert("UNIFIED"@.len() == 7);
        assert("FUND"@.len() == 4);
    }
}

/// How the margin of an account is held.
#[derive(Debug, Clone, Copy, PartialEq, Eq, Structural)]
pub enum MarginMode {
    /// Per position.
    IsolatedMargin,
    /// Shared by all positions.
    RegularMargin,
    /// By the risk of the whole portfolio.
    PortfolioMargin,
}

impl MarginMode {
    /// The name that the exchange gives the value.
    pub open spec fn wire_name(self) -> Seq<char> {
        match self {
            MarginMode::IsolatedMargin => "ISOLATED_MARGIN"@,
            MarginMode::RegularMargin => "REGULAR_MARGIN"@,
            MarginMode::PortfolioMargin => "PORTFOLIO_MARGIN"@,
        }
    }

    /// The name that the exchange gives the value.
    pub fn as_str(&self) -> (name: &'static str)
        ensures
            name@ == self.wire_name(),
    {
        match self {
            MarginMode::IsolatedMargin => "ISOLATED_MARGIN",
            MarginMode::RegularMargin => "REGULAR_MARGIN",
            MarginMode::PortfolioMargin => "PORTFOLIO_MARGIN",
        }
    }

    /// The value that the exchange names `name`, if it names one.
    pub fn from_name(name: &str) -> (value: Option<Self>)
        ensures
            match value {
                Some(v) => v.wire_name() == name@,
                None => forall|v: Self| v.wire_name() != name@,
            },
    {
        if same_text(name, "ISOLATED_MARGIN") {
            Some(MarginMode::IsolatedMargin)
        } else if same_text(name, "REGULAR_MARGIN") {
            Some(MarginMode::RegularMargin)
        } else if same_text(name, "PORTFOLIO_MARGIN") {
            Some(MarginMode::PortfolioMargin)
        } else {
            None
        }
    }

    /// No two values share a name, so a name that is read back names the
    /// value that wrote it.
    pub proof fn lemma_names_differ(a: Self, b: Self)
        requires
            a != b,
        ensures
            a.wire_name() != b.wire_name(),
    {
        reveal_strlit("ISOLATED_MARGIN");
        reveal_strlit("REGULAR_MARGIN");
        reveal_strlit("PORTFOLIO_MARGIN");
        assert("ISOLATED_MARGIN"@.len() == 15);
        assert("REGULAR_MARGIN"@.len() == 14);
        assert("PORTFOLIO_MARGIN"@.len() == 16);
    }
}

/// The trading status of an instrument.
#[derive(Debug, Clone, Copy, PartialEq, Eq, Structural)]
pub enum InstrumentStatus {
    /// Trading.
    Trading,
    /// Listed and not trading yet.
    PreLaunch,
    /// In delivery.
    Delivering,
}

impl InstrumentStatus {
    /// The name that the exchange gives the value.
    pub open spec fn wire_name(self) -> Seq<char> {
        match self {
            InstrumentStatus::Trading => "Trading"@,
            InstrumentStatus::PreLaunch => "PreLaunch"@,
            InstrumentStatus::Delivering => "Delivering"@,
        }
    }

    /// The name that the exchange gives the value.
    pub fn as_str(&self) -> (name: &'static str)
        ensures
            name@ == self.wire_name(),
    {
        match self {
            InstrumentStatus::Trading => "Trading",
            InstrumentStatus::PreLaunch => "PreLaunch",
            InstrumentStatus::Delivering => "Delivering",
        }
    }

    /// The value that the exchange names `name`, if it names one.
    pub fn from_name(name: &str) -> (value: Option<Self>)
        ensures
            match value {
                Some(v) => v.wire_name() == name@,
                None => forall|v: Self| v.wire_name() != name@,
            },
    {
        if same_text(name, "Trading") {
            Some(InstrumentStatus::Trading)
        } else if same_text(name, "PreLaunch") {
            Some(InstrumentStatus::PreLaunch)
        } else if same_text(name, "Delivering") {
            Some(InstrumentStatus::Delivering)
        } else {
            None
        }
    }

    /// No two values share a name, so a name that is read back names the
    /// value that wrote it.
    pub proof fn lemma_names_differ(a: Self, b: Self)
        requires
            a != b,
        ensures
            a.wire_name() != b.wire_name(),
    {
        reveal_strlit("Trading");
        reveal_strlit("PreLaunch");
        reveal_strlit("Delivering");
        assert("Trading"@.len() == 7);
        assert("PreLaunch"@.len() == 9);
        assert("Delivering"@.len() == 10);
    }
}

/// The region that a symbol is listed in.
#[derive(Debug, Clone, Copy, PartialEq, Eq, Structural)]
pub enum SymbolType {
    /// The innovation zone.
    Innovation,
    /// The adventure zone.
    Adventure,
    /// Tokenized stocks.
    XStocks,
}

impl SymbolType {
    /// The name that the exchange gives the value.
    pub open spec fn wire_name(self) -> Seq<char> {
        match self {
            SymbolType::Innovation => "innovation"@,
            SymbolType::Adventure => "adventure"@,
            SymbolType::XStocks => "xstocks"@,
        }
    }

    /// The name that the exchange gives the value.
    pub fn as_str(&self) -> (name: &'static str)
        ensures
            name@ == self.wire_name(),
    {
        match self {
            SymbolType::Innovation => "innovation",
            SymbolType::Adventure => "adventure",
            SymbolType::XStocks => "xstocks",
        }
    }

    /// The value that the exchange names `name`, if it names one.
    pub fn from_name(name: &str) -> (value: Option<Self>)
        ensures
            match value {
                Some(v) => v.wire_name() == name@,
                None => forall|v: Self| v.wire_name() != name@,
            },
    {
        if same_text(name, "innovation") {
            Some(SymbolType::Innovation)
        } else if same_text(name, "adventure") {
            Some(SymbolType::Adventure)
        } else if same_text(name, "xstocks") {
            Some(SymbolType::XStocks)
        } else {
            None
        }
    }

    /// No two values share a name, so a name that is read back names the
    /// value that wrote it.
    pub proof fn lemma_names_differ(a: Self, b: Self)
        requires
            a != b,
        ensures
            a.wire_name() != b.wire_name(),
    {
        reveal_strlit("innovation");
        reveal_strlit("adventure");
        reveal_strlit("xstocks");
        assert("innovation"@.len() == 10);
        assert("adventure"@.len() == 9);
        assert("xstocks"@.len() == 7);
    }
}

/// The side of an order.
#[derive(Debug, Clone, Copy, PartialEq, Eq, Structural)]
pub enum Side {
    /// Buying.
    Buy,
    /// Selling.
    Sell,
}

impl Side {
    /// The name that the exchange gives the value.
    pub open spec fn wire_name(self) -> Seq<char> {
        match self {
            Side::Buy => "Buy"@,
            Side::Sell => "Sell"@,
        }
    }

    /// The name that the exchange gives the value.
    pub fn as_str(&self) -> (name: &'static str)
        ensures
            name@ == self.wire_name(),
    {
        match self {
            Side::Buy => "Buy",
            Side::Sell => "Sell",
        }
    }

    /// The value that the exchange names `name`, if it names one.
    pub fn from_name(name: &str) -> (value: Option<Self>)
        ensures
            match value {
                Some(v) => v.wire_name() == name@,
                None => forall|v: Self| v.wire_name() != name@,
            },
    {
        if same_text(name, "Buy") {
            Some(Side::Buy)
        } else if same_text(name, "Sell") {
            Some(Side::Sell)
        } else {
            None
        }
    }

    /// No two values share a name, so a name that is read back names the
    /// value that wrote it.
    pub proof fn lemma_names_differ(a: Self, b: Self)
        requires
            a != b,
        ensures
            a.wire_name() != b.wire_name(),
    {
        reveal_strlit("Buy");
        reveal_strlit("Sell");
        assert("Buy"@.len() == 3);
        assert("Sell"@.len() == 4);
    }
}

impl Default for Side {
    fn default() -> (value: Self)
        ensures
            value == Side::Buy,
    {
        Side::Buy
    }
}

/// The type of an order.
#[derive(Debug, Clone, Copy, PartialEq, Eq, Structural)]
pub enum PlaceOrderType {
    /// At the market price.
    Market,
    /// At a limit price.
    Limit,
}

impl PlaceOrderType {
    /// The name that the exchange gives the value.
    pub open spec fn wire_name(self) -> Seq<char> {
        match self {
            PlaceOrderType::Market => "Market"@,
            PlaceOrderType::Limit => "Limit"@,
        }
    }

    /// The name that the exchange gives the value.
    pub fn as_str(&self) -> (name: &'static str)
        ensures
            name@ == self.wire_name(),
    {
        match self {
            PlaceOrderType::Market => "Market",
            PlaceOrderType::Limit => "Limit",
        }
    }

    /// The value that the exchange names `name`, if it names one.
    pub fn from_name(name: &str) -> (value: Option<Self>)
        ensures
            match value {
                Some(v) => v.wire_name() == name@,
                None => forall|v: Self| v.wire_name() != name@,
            },
    {
        if same_text(name, "Market") {
            Some(PlaceOrderType::Market)
        } else if same_text(name, "Limit") {
            Some(PlaceOrderType::Limit)
        } else {
            None
        }
    }

    /// No two values share a name, so a name that is read back names the
    /// value that wrote it.
    pub proof fn lemma_names_differ(a: Self, b: Self)
        requires
            a != b,
        ensures
            a.wire_name() != b.wire_name(),
    {
        reveal_strlit("Market");
        reveal_strlit("Limit");
        assert("Market"@.len() == 6);
        assert("Limit"@.len() == 5);
    }
}

impl Default for PlaceOrderType {
    fn default() -> (value: Self)
        ensures
            value == PlaceOrderType::Market,
    {
        PlaceOrderType::Market
    }
}

/// The unit of the quantity of a spot market order.
#[derive(Debug, Clone, Copy, PartialEq, Eq, Structural)]
pub enum MarketUnit {
    /// The coin that is traded.
    BaseCoin,
    /// The coin that prices are quoted in.
    QuoteCoin,
}

impl MarketUnit {
    /// The name that the exchange gives the value.
    pub open spec fn wire_name(self) -> Seq<char> {
        match self {
            MarketUnit::BaseCoin => "baseCoin"@,
            MarketUnit::QuoteCoin => "quoteCoin"@,
        }
    }

    /// The name that the exchange gives the value.
    pub fn as_str(&self) -> (name: &'static str)
        ensures
            name@ == self.wire_name(),
    {
        match self {
            MarketUnit::BaseCoin => "baseCoin",
            MarketUnit::QuoteCoin => "quoteCoin",
        }
    }

    /// The value that the exchange names `name`, if it names one.
    pub fn from_name(name: &str) -> (value: Option<Self>)
        ensures
            match value {
                Some(v) => v.wire_name() == name@,
                None => forall|v: Self| v.wire_name() != name@,
            },
    {
        if same_text(name, "baseCoin") {
            Some(MarketUnit::BaseCoin)
        } else if same_text(name, "quoteCoin") {
            Some(MarketUnit::QuoteCoin)
        } else {
            None
        }
    }

    /// No two values share a name, so a name that is read back names the
    /// value that wrote it.
    pub proof fn lemma_names_differ(a: Self, b: Self)
        requires
            a != b,
        ensures
            a.wire_name() != b.wire_name(),
    {
        reveal_strlit("baseCoin");
        reveal_strlit("quoteCoin");
        assert("baseCoin"@.len() == 8);
        assert("quoteCoin"@.len() == 9);
    }
}

/// The price that triggers a conditional order.
#[derive(Debug, Clone, Copy, PartialEq, Eq, Structural)]
pub enum OrderPriceTriggerBy {
    /// The last traded price.
    LastPrice,
    /// The index price.
    IndexPrice,
    /// The mark price.
    MarkPrice,
}

impl OrderPriceTriggerBy {
    /// The name that the exchange gives the value.
    pub open spec fn wire_name(self) -> Seq<char> {
        match self {
            OrderPriceTriggerBy::LastPrice => "LastPrice"@,
            OrderPriceTriggerBy::IndexPrice => "IndexPrice"@,
            OrderPriceTriggerBy::MarkPrice => "MarkPrice"@,
        }
    }

    /// The name that the exchange gives the value.
    pub fn as_str(&self) -> (name: &'static str)
        ensures
            name@ == self.wire_name(),
    {
        match self {
            OrderPriceTriggerBy::LastPrice => "LastPrice",
            OrderPriceTriggerBy::IndexPrice => "IndexPrice",
            OrderPriceTriggerBy::MarkPrice => "MarkPrice",
        }
    }

    /// The value that the exchange names `name`, if it names one.
    pub fn from_name(name: &str) -> (value: Option<Self>)
        ensures
            match value {
                Some(v) => v.wire_name() == name@,
                None => forall|v: Self| v.wire_name() != name@,
            },
    {
        if same_text(name, "LastPrice") {
            Some(OrderPriceTriggerBy::LastPrice)
        } else if same_text(name, "IndexPrice") {
            Some(OrderPriceTriggerBy::IndexPrice)
        } else if same_text(name, "MarkPrice") {
            Some(OrderPriceTriggerBy::MarkPrice)
        } else {
            None
        }
    }

    /// No two values share a name, so a name that is read back names the
    /// value that wrote it.
    pub proof fn lemma_names_differ(a: Self, b: Self)
        requires
            a != b,
        ensures
            a.wire_name() != b.wire_name(),
    {
        reveal_strlit("LastPrice");
        reveal_strlit("IndexPrice");
        reveal_strlit("MarkPrice");
        assert("LastPrice"@.len() == 9);
        assert("IndexPrice"@.len() == 10);
        assert("MarkPrice"@.len() == 9);
        assert("LastPrice"@[0] == 'L');
        assert("MarkPrice"@[0] == 'M');
    }
}

/// How long an order stays in force.
#[derive(Debug, Clone, Copy, PartialEq, Eq, Structural)]
pub enum TimeInForce {
    /// Until canceled.
    Gtc,
    /// Filled at once, the rest canceled.
    Ioc,
    /// Filled at once in full, or canceled.
    Fok,
}

impl TimeInForce {
    /// The name that the exchange gives the value.
    pub open spec fn wire_name(self) -> Seq<char> {
        match self {
            TimeInForce::Gtc => "GTC"@,
            TimeInForce::Ioc => "IOC"@,
            TimeInForce::Fok => "FOK"@,
        }
    }

    /// The name that the exchange gives the value.
    pub fn as_str(&self) -> (name: &'static str)
        ensures
            name@ == self.wire_name(),
    {
        match self {
            TimeInForce::Gtc => "GTC",
            TimeInForce::Ioc => "IOC",
            TimeInForce::Fok => "FOK",
        }
    }

    /// The value that the exchange names `name`, if it names one.
    pub fn from_name(name: &str) -> (value: Option<Self>)
        ensures
            match value {
                Some(v) => v.wire_name() == name@,
                None => forall|v: Self| v.wire_name() != name@,
            },
    {
        if same_text(name, "GTC") {
            Some(TimeInForce::Gtc)
        } else if same_text(name, "IOC") {
            Some(TimeInForce::Ioc)
        } else if same_text(name, "FOK") {
            Some(TimeInForce::Fok)
        } else {
            None
        }
    }

    /// No two values share a name, so a name that is read back names the
    /// value that wrote it.
    pub proof fn lemma_names_differ(a: Self, b: Self)
        requires
            a != b,
        ensures
            a.wire_name() != b.wire_name(),
    {
        reveal_strlit("GTC");
        reveal_strlit("IOC");
        reveal_strlit("FOK");
        assert("GTC"@.len() == 3);
        assert("IOC"@.len() == 3);
        assert("FOK"@.len() == 3);
        assert("GTC"@[0] == 'G');
        assert("IOC"@[0] == 'I');
        assert("FOK"@[0] == 'F');
    }
}

/// Which position of a symbol an order belongs to.
#[derive(Debug, Clone, Copy, PartialEq, Eq, Structural)]
pub enum PositionIdx {
    /// The position of one-way mode.
    OneWay,
    /// The buy side of hedge mode.
    HedgeBuy,
    /// The sell side of hedge mode.
    HedgeSell,
}

impl PositionIdx {
    /// The name that the exchange gives the value.
    pub open spec fn wire_name(self) -> Seq<char> {
        match self {
            PositionIdx::OneWay => "0"@,
            PositionIdx::HedgeBuy => "1"@,
            PositionIdx::HedgeSell => "2"@,
        }
    }

    /// The name that the exchange gives the value.
    pub fn as_str(&self) -> (name: &'static str)
        ensures
            name@ == self.wire_name(),
    {
        match self {
            PositionIdx::OneWay => "0",
            PositionIdx::HedgeBuy => "1",
            PositionIdx::HedgeSell => "2",
        }
    }

    /// The value that the exchange names `name`, if it names one.
    pub fn from_name(name: &str) -> (value: Option<Self>)
        ensures
            match value {
                Some(v) => v.wire_name() == name@,
                None => forall|v: Self| v.wire_name() != name@,
            },
    {
        if same_text(name, "0") {
            Some(PositionIdx::OneWay)
        } else if same_text(name, "1") {
            Some(PositionIdx::HedgeBuy)
        } else if same_text(name, "2") {
            Some(PositionIdx::HedgeSell)
        } else {
            None
        }
    }

    /// No two values share a name, so a name that is read back names the
    /// value that wrote it.
    pub proof fn lemma_names_differ(a: Self, b: Self)
        requires
            a != b,
        ensures
            a.wire_name() != b.wire_name(),
    {
        reveal_strlit("0");
        reveal_strlit("1");
        reveal_strlit("2");
        assert("0"@.len() == 1);
        assert("1"@.len() == 1);
        assert("2"@.len() == 1);
        assert("0"@[0] == '0');
        assert("1"@[0] == '1');
        assert("2"@[0] == '2');
    }
}

/// The price that triggers a take profit or stop loss.
#[derive(Debug, Clone, Copy, PartialEq, Eq, Structural)]
pub enum TpSlTriggerBy {
    /// The last traded price.
    LastPrice,
    /// The index price.
    IndexPrice,
    /// The mark price.
    MarkPrice,
}

impl TpSlTriggerBy {
    /// The name that the exchange gives the value.
    pub open spec fn wire_name(self) -> Seq<char> {
        match self {
            TpSlTriggerBy::LastPrice => "LastPrice"@,
            TpSlTriggerBy::IndexPrice => "IndexPrice"@,
            TpSlTriggerBy::MarkPrice => "MarkPrice"@,
        }
    }

    /// The name that the exchange gives the value.
    pub fn as_str(&self) -> (name: &'static str)
        ensures
            name@ == self.wire_name(),
    {
        match self {
            TpSlTriggerBy::LastPrice => "LastPrice",
            TpSlTriggerBy::IndexPrice => "IndexPrice",
            TpSlTriggerBy::MarkPrice => "MarkPrice",
        }
    }

    /// The value that the exchange names `name`, if it names one.
    pub fn from_name(name: &str) -> (value: Option<Self>)
        ensures
            match value {
                Some(v) => v.wire_name() == name@,
                None => forall|v: Self| v.wire_name() != name@,
            },
    {
        if same_text(name, "LastPrice") {
            Some(TpSlTriggerBy::LastPrice)
        } else if same_text(name, "IndexPrice") {
            Some(TpSlTriggerBy::IndexPrice)
        } else if same_text(name, "MarkPrice") {
            Some(TpSlTriggerBy::MarkPrice)
        } else {
            None
        }
    }

    /// No two values share a name, so a name that is read back names the
    /// value that wrote it.
    pub proof fn lemma_names_differ(a: Self, b: Self)
        requires
            a != b,
        ensures
            a.wire_name() != b.wire_name(),
    {
        reveal_strlit("LastPrice");
        reveal_strlit("IndexPrice");
        reveal_strlit("MarkPrice");
        assert("LastPrice"@.len() == 9);
        assert("IndexPrice"@.len() == 10);
        assert("MarkPrice"@.len() == 9);
        assert("LastPrice"@[0] == 'L');
        assert("MarkPrice"@[0] == 'M');
    }
}

/// How much of a position a take profit or stop loss closes.
#[derive(Debug, Clone, Copy, PartialEq, Eq, Structural)]
pub enum TpSlMode {
    /// The whole position.
    Full,
    /// Part of the position.
    Partial,
}

impl TpSlMode {
    /// The name that the exchange gives the value.
    pub open spec fn wire_name(self) -> Seq<char> {
        match self {
            TpSlMode::Full => "Full"@,
            TpSlMode::Partial => "Partial"@,
        }
    }

    /// The name that the exchange gives the value.
    pub fn as_str(&self) -> (name: &'static str)
        ensures
            name@ == self.wire_name(),
    {
        match self {
            TpSlMode::Full => "Full",
            TpSlMode::Partial => "Partial",
        }
    }

    /// The value that the exchange names `name`, if it names one.
    pub fn from_name(name: &str) -> (value: Option<Self>)
        ensures
            match value {
                Some(v) => v.wire_name() == name@,
                None => forall|v: Self| v.wire_name() != name@,
            },
    {
        if same_text(name, "Full") {
            Some(TpSlMode::Full)
        } else if same_text(name, "Partial") {
            Some(TpSlMode::Partial)
        } else {
            None
        }
    }

    /// No two values share a name, so a name that is read back names the
    /// value that wrote it.
    pub proof fn lemma_names_differ(a: Self, b: Self)
        requires
            a != b,
        ensures
            a.wire_name() != b.wire_name(),
    {
        reveal_strlit("Full");
        reveal_strlit("Partial");
        assert("Full"@.len() == 4);
        assert("Partial"@.len() == 7);
    }
}

/// The type of the order that a take profit or stop loss places.
#[derive(Debug, Clone, Copy, PartialEq, Eq, Structural)]
pub enum TpSlOrderType {
    /// At the market price.
    Market,
    /// At a limit price.
    Limit,
}

impl TpSlOrderType {
    /// The name that the exchange gives the value.
    pub open spec fn wire_name(self) -> Seq<char> {
        match self {
            TpSlOrderType::Market => "Market"@,
            TpSlOrderType::Limit => "Limit"@,
        }
    }

    /// The name that the exchange gives the value.
    pub fn as_str(&self) -> (name: &'static str)
        ensures
            name@ == self.wire_name(),
    {
        match self {
            TpSlOrderType::Market => "Market",
            TpSlOrderType::Limit => "Limit",
        }
    }

    /// The value that the exchange names `name`, if it names one.
    pub fn from_name(name: &str) -> (value: Option<Self>)
        ensures
            match value {
                Some(v) => v.wire_name() == name@,
                None => forall|v: Self| v.wire_name() != name@,
            },
    {
        if same_text(name, "Market") {
            Some(TpSlOrderType::Market)
        } else if same_text(name, "Limit") {
            Some(TpSlOrderType::Limit)
        } else {
            None
        }
    }

    /// No two values share a name, so a name that is read back names the
    /// value that wrote it.
    pub proof fn lemma_names_differ(a: Self, b: Self)
        requires
            a != b,
        ensures
            a.wire_name() != b.wire_name(),
    {
        reveal_strlit("Market");
        reveal_strlit("Limit");
        assert("Market"@.len() == 6);
        assert("Limit"@.len() == 5);
    }
}

/// The kind of orders that a query selects.
#[derive(Debug, Clone, Copy, PartialEq, Eq, Structural)]
pub enum OrderFilter {
    /// Active orders.
    Order,
    /// Conditional orders.
    StopOrder,
    /// Take-profit and stop-loss orders.
    TpslOrder,
    /// One-cancels-the-other orders.
    OcoOrder,
    /// Two-sided take-profit and stop-loss orders.
    BidirectionalTpslOrder,
}

impl OrderFilter {
    /// The name that the exchange gives the value.
    pub open spec fn wire_name(self) -> Seq<char> {
        match self {
            OrderFilter::Order => "Order"@,
            OrderFilter::StopOrder => "StopOrder"@,
            OrderFilter::TpslOrder => "tpslOrder"@,
            OrderFilter::OcoOrder => "OcoOrder"@,
            OrderFilter::BidirectionalTpslOrder => "BidirectionalTpslOrder"@,
        }
    }

    /// The name that the exchange gives the value.
    pub fn as_str(&self) -> (name: &'static str)
        ensures
            name@ == self.wire_name(),
    {
        match self {
            OrderFilter::Order => "Order",
            OrderFilter::StopOrder => "StopOrder",
            OrderFilter::TpslOrder => "tpslOrder",
            OrderFilter::OcoOrder => "OcoOrder",
            OrderFilter::BidirectionalTpslOrder => "BidirectionalTpslOrder",
        }
    }

    /// The value that the exchange names `name`, if it names one.
    pub fn from_name(name: &str) -> (value: Option<Self>)
        ensures
            match value {
                Some(v) => v.wire_name() == name@,
                None => forall|v: Self| v.wire_name() != name@,
            },
    {
        if same_text(name, "Order") {
            Some(OrderFilter::Order)
        } else if same_text(name, "StopOrder") {
            Some(OrderFilter::StopOrder)
        } else if same_text(name, "tpslOrder") {
            Some(OrderFilter::TpslOrder)
        } else if same_text(name, "OcoOrder") {
            Some(OrderFilter::OcoOrder)
        } else if same_text(name, "BidirectionalTpslOrder") {
            Some(OrderFilter::BidirectionalTpslOrder)
        } else {
            None
        }
    }

    /// No two values share a name, so a name that is read back names the
    /// value that wrote it.
    pub proof fn lemma_names_differ(a: Self, b: Self)
        requires
            a != b,
        ensures
            a.wire_name() != b.wire_name(),
    {
        reveal_strlit("Order");
        reveal_strlit("StopOrder");
        reveal_strlit("tpslOrder");
        reveal_strlit("OcoOrder");
        reveal_strlit("BidirectionalTpslOrder");
        assert("Order"@.len() == 5);
        assert("StopOrder"@.len() == 9);
        assert("tpslOrder"@.len() == 9);
        assert("OcoOrder"@.len() == 8);
        assert("BidirectionalTpslOrder"@.len() == 22);
        assert("StopOrder"@[0] == 'S');
        assert("tpslOrder"@[0] == 't');
    }
}

/// The kind of order that a cancellation names.
#[derive(Debug, Clone, Copy, PartialEq, Eq, Structural)]
pub enum CancelOrderFilter {
    /// An active order.
    Order,
    /// A take-profit or stop-loss order.
    TpslOrder,
    /// A conditional order.
    StopOrder,
}

impl CancelOrderFilter {
    /// The name that the exchange gives the value.
    pub open spec fn wire_name(self) -> Seq<char> {
        match self {
            CancelOrderFilter::Order => "Order"@,
            CancelOrderFilter::TpslOrder => "tpslOrder"@,
            CancelOrderFilter::StopOrder => "StopOrder"@,
        }
    }

    /// The name that the exchange gives the value.
    pub fn as_str(&self) -> (name: &'static str)
        ensures
            name@ == self.wire_name(),
    {
        match self {
            CancelOrderFilter::Order => "Order",
            CancelOrderFilter::TpslOrder => "tpslOrder",
            CancelOrderFilter::StopOrder => "StopOrder",
        }
    }

    /// The value that the exchange names `name`, if it names one.
    pub fn from_name(name: &str) -> (value: Option<Self>)
        ensures
            match value {
                Some(v) => v.wire_name() == name@,
                None => forall|v: Self| v.wire_name() != name@,
            },
    {
        if same_text(name, "Order") {
            Some(CancelOrderFilter::Order)
        } else if same_text(name, "tpslOrder") {
            Some(CancelOrderFilter::TpslOrder)
        } else if same_text(name, "StopOrder") {
            Some(CancelOrderFilter::StopOrder)
        } else {
            None
        }
    }

    /// No two values share a name, so a name that is read back names the
    /// value that wrote it.
    pub proof fn lemma_names_differ(a: Self, b: Self)
        requires
            a != b,
        ensures
            a.wire_name() != b.wire_name(),
    {
        reveal_strlit("Order");
        reveal_strlit("tpslOrder");
        reveal_strlit("StopOrder");
        assert("Order"@.len() == 5);
        assert("tpslOrder"@.len() == 9);
        assert("StopOrder"@.len() == 9);
        assert("tpslOrder"@[0] == 't');
        assert("StopOrder"@[0] == 'S');
    }
}

/// The state of an order.
#[derive(Debug, Clone, Copy, PartialEq, Eq, Structural)]
pub enum OrderStatus {
    /// Placed.
    New,
    /// Filled in part.
    PartiallyFilled,
    /// Conditional and not triggered.
    Untriggered,
    /// Rejected.
    Rejected,
    /// Filled in part, the rest canceled.
    PartiallyFilledCanceled,
    /// Filled in full.
    Filled,
    /// Canceled.
    Cancelled,
    /// Conditional and triggered.
    Triggered,
    /// Deactivated.
    Deactivated,
}

impl OrderStatus {
    /// The name that the exchange gives the value.
    pub open spec fn wire_name(self) -> Seq<char> {
        match self {
            OrderStatus::New => "New"@,
            OrderStatus::PartiallyFilled => "PartiallyFilled"@,
            OrderStatus::Untriggered => "Untriggered"@,
            OrderStatus::Rejected => "Rejected"@,
            OrderStatus::PartiallyFilledCanceled => "PartiallyFilledCanceled"@,
            OrderStatus::Filled => "Filled"@,
            OrderStatus::Cancelled => "Cancelled"@,
            OrderStatus::Triggered => "Triggered"@,
            OrderStatus::Deactivated => "Deactivated"@,
        }
    }

    /// The name that the exchange gives the value.
    pub fn as_str(&self) -> (name: &'static str)
        ensures
            name@ == self.wire_name(),
    {
        match self {
            OrderStatus::New => "New",
            OrderStatus::PartiallyFilled => "PartiallyFilled",
            OrderStatus::Untriggered => "Untriggered",
            OrderStatus::Rejected => "Rejected",
            OrderStatus::PartiallyFilledCanceled => "PartiallyFilledCanceled",
            OrderStatus::Filled => "Filled",
            OrderStatus::Cancelled => "Cancelled",
            OrderStatus::Triggered => "Triggered",
            OrderStatus::Deactivated => "Deactivated",
        }
    }

    /// The value that the exchange names `name`, if it names one.
    pub fn from_name(name: &str) -> (value: Option<Self>)
        ensures
            match value {
                Some(v) => v.wire_name() == name@,
                None => forall|v: Self| v.wire_name() != name@,
            },
    {
        if same_text(name, "New") {
            Some(OrderStatus::New)
        } else if same_text(name, "PartiallyFilled") {
            Some(OrderStatus::PartiallyFilled)
        } else if same_text(name, "Untriggered") {
            Some(OrderStatus::Untriggered)
        } else if same_text(name, "Rejected") {
            Some(OrderStatus::Rejected)
        } else if same_text(name, "PartiallyFilledCanceled") {
            Some(OrderStatus::PartiallyFilledCanceled)
        } else if same_text(name, "Filled") {
            Some(OrderStatus::Filled)
        } else if same_text(name, "Cancelled") {
            Some(OrderStatus::Cancelled)
        } else if same_text(name, "Triggered") {
            Some(OrderStatus::Triggered)
        } else if same_text(name, "Deactivated") {
            Some(OrderStatus::Deactivated)
        } else {
            None
        }
    }

    /// No two values share a name, so a name that is read back names the
    /// value that wrote it.
    pub proof fn lemma_names_differ(a: Self, b: Self)
        requires
            a != b,
        ensures
            a.wire_name() != b.wire_name(),
    {
        reveal_strlit("New");
        reveal_strlit("PartiallyFilled");
        reveal_strlit("Untriggered");
        reveal_strlit("Rejected");
        reveal_strlit("PartiallyFilledCanceled");
        reveal_strlit("Filled");
        reveal_strlit("Cancelled");
        reveal_strlit("Triggered");
        reveal_strlit("Deactivated");
        assert("New"@.len() == 3);
        assert("PartiallyFilled"@.len() == 15);
        assert("Untriggered"@.len() == 11);
        assert("Rejected"@.len() == 8);
        assert("PartiallyFilledCanceled"@.len() == 23);
        assert("Filled"@.len() == 6);
        assert("Cancelled"@.len() == 9);
        assert("Triggered"@.len() == 9);
        assert("Deactivated"@.len() == 11);
        assert("Untriggered"@[0] == 'U');
        assert("Deactivated"@[0] == 'D');
        assert("Cancelled"@[0] == 'C');
        assert("Triggered"@[0] == 'T');
    }
}
impl PositionIdx {
    /// The number of the position index.
    pub open spec fn number(self) -> u8 {
        match self {
            PositionIdx::OneWay => 0,
            PositionIdx::HedgeBuy => 1,
            PositionIdx::HedgeSell => 2,
        }
    }

    /// The number of the position index.
    pub fn index(&self) -> (n: u8)
        ensures
            n == self.number(),
    {
        match self {
            PositionIdx::OneWay => 0,
            PositionIdx::HedgeBuy => 1,
            PositionIdx::HedgeSell => 2,
        }
    }
}

/// What an optional string is.
pub open spec fn owned_text_of(text: Option<String>) -> Option<Seq<char>> {
    match text {
        Some(t) => Some(t@),
        None => None,
    }
}

/// An optional string as an optional slice.
fn as_text(text: &Option<String>) -> (slice: Option<&str>)
    ensures
        text_of(slice) == owned_text_of(*text),
{
    match text {
        Some(t) => Some(t.as_str()),
        None => None,
    }
}

/// The parameters of a query of the order history. Every one may be left out.
#[derive(Debug)]
pub struct GetOrderHistoryParams {
    pub symbol: Option<String>,
    pub base_coin: Option<String>,
    pub settle_coin: Option<String>,
    pub order_id: Option<String>,
    pub order_link_id: Option<String>,
    pub order_filter: Option<OrderFilter>,
    pub order_status: Option<OrderStatus>,
    pub start_time: Option<i64>,
    pub end_time: Option<i64>,
    pub limit: Option<i32>,
    pub cursor: Option<String>,
}

impl GetOrderHistoryParams {
    /// The parameters by the names that the exchange gives them. What is left
    /// out has no entry.
    pub open spec fn entries(&self) -> Seq<Entry> {
        let p = Seq::<Entry>::empty();
        let p = put_text(p, "symbol"@, owned_text_of(self.symbol));
        let p = put_text(p, "baseCoin"@, owned_text_of(self.base_coin));
        let p = put_text(p, "settleCoin"@, owned_text_of(self.settle_coin));
        let p = put_text(p, "orderId"@, owned_text_of(self.order_id));
        let p = put_text(p, "orderLinkId"@, owned_text_of(self.order_link_id));
        let p = put_text(
            p,
            "orderFilter"@,
            match self.order_filter {
                Some(word) => Some(word.wire_name()),
                None => None,
            },
        );
        let p = put_text(
            p,
            "orderStatus"@,
            match self.order_status {
                Some(word) => Some(word.wire_name()),
                None => None,
            },
        );
        let p = put_int(
            p,
            "startTime"@,
            match self.start_time {
                Some(n) => Some(n as int),
                None => None,
            },
        );
        let p = put_int(
            p,
            "endTime"@,
            match self.end_time {
                Some(n) => Some(n as int),
                None => None,
            },
        );
        let p = put_int(
            p,
            "limit"@,
            match self.limit {
                Some(n) => Some(n as int),
                None => None,
            },
        );
        let p = put_text(p, "cursor"@, owned_text_of(self.cursor));
        p
    }

    /// The parameters by the names that the exchange gives them.
    pub fn to_params(&self) -> (params: Params)
        ensures
            params@ == self.entries(),
    {
        let mut p = Params::new();
        p.set_text_opt("symbol", as_text(&self.symbol));
        p.set_text_opt("baseCoin", as_text(&self.base_coin));
        p.set_text_opt("settleCoin", as_text(&self.settle_coin));
        p.set_text_opt("orderId", as_text(&self.order_id));
        p.set_text_opt("orderLinkId", as_text(&self.order_link_id));
        if let Some(word) = &self.order_filter {
            p.set_text("orderFilter", word.as_str());
        }
        if let Some(word) = &self.order_status {
            p.set_text("orderStatus", word.as_str());
        }
        if let Some(n) = self.start_time {
            p.set_int("startTime", n as i128);
        }
        if let Some(n) = self.end_time {
            p.set_int("endTime", n as i128);
        }
        if let Some(n) = self.limit {
            p.set_int("limit", n as i128);
        }
        p.set_text_opt("cursor", as_text(&self.cursor));
        p
    }
}

/// The parameters of the cancellation of one order. The order is named by
/// its identifier or by the caller's own.
#[derive(Debug)]
pub struct CancelOrderParams {
    pub symbol: String,
    pub order_id: Option<String>,
    pub order_link_id: Option<String>,
}

impl CancelOrderParams {
    /// Whether the order is named.
    pub open spec fn names_order(&self) -> bool {
        self.order_id is Some || self.order_link_id is Some
    }

    /// The cancellation of the order of `symbol` that one of the identifiers
    /// names.
    pub fn new(symbol: String, order_id: Option<String>, order_link_id: Option<String>) -> (params:
        Self)
        requires
            order_id is Some || order_link_id is Some,
        ensures
            params == (CancelOrderParams { symbol, order_id, order_link_id }),
    {
        CancelOrderParams { symbol, order_id, order_link_id }
    }

    /// The parameters by the names that the exchange gives them. An
    /// identifier that is left out has no entry.
    pub open spec fn entries(&self) -> Seq<Entry> {
        let p = Seq::<Entry>::empty();
        let p = put(p, text_entry("symbol"@, self.symbol@));
        let p = put_text(p, "orderId"@, owned_text_of(self.order_id));
        let p = put_text(p, "orderLinkId"@, owned_text_of(self.order_link_id));
        p
    }

    /// The parameters by the names that the exchange gives them.
    pub fn to_params(&self) -> (params: Params)
        ensures
            params@ == self.entries(),
    {
        let mut p = Params::new();
        p.set_text("symbol", self.symbol.as_str());
        p.set_text_opt("orderId", as_text(&self.order_id));
        p.set_text_opt("orderLinkId", as_text(&self.order_link_id));
        p
    }
}

/// The answer of the API with its payload typed.
#[derive(Debug)]
pub struct ApiResponse<T> {
    /// The code of the answer; 0 where the request was served.
    pub ret_code: i32,
    /// The message of the answer.
    pub ret_msg: String,
    /// The payload.
    pub result: T,
    /// What the exchange adds to the answer.
    pub ret_ext_info: serde_json::Value,
    /// The time of the answer, in milliseconds since the epoch.
    pub time: u64,
}

/// The answer of the API with its payload as it came.
#[derive(Debug)]
pub struct GenericResponse {
    /// The code of the answer; 0 where the request was served.
    pub ret_code: i32,
    /// The message of the answer.
    pub ret_msg: String,
    /// The payload.
    pub result: serde_json::Value,
    /// What the exchange adds to the answer.
    pub ret_ext_info: serde_json::Value,
    /// The time of the answer, in milliseconds since the epoch.
    pub time: u64,
}

impl GenericResponse {
    /// The same answer as a typed one whose payload is JSON.
    pub fn into_api_response(self) -> (typed: ApiResponse<serde_json::Value>)
        ensures
            typed == (ApiResponse {
                ret_code: self.ret_code,
                ret_msg: self.ret_msg,
                result: self.result,
                ret_ext_info: self.ret_ext_info,
                time: self.time,
            }),
    {
        ApiResponse {
            ret_code: self.ret_code,
            ret_msg: self.ret_msg,
            result: self.result,
            ret_ext_info: self.ret_ext_info,
            time: self.time,
        }
    }
}

} // verus!
