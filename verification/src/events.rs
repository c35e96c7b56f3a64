//! The typed events the exchange sends: a trade, a 24-hour ticker, and the
//! stream envelope used when several subscriptions share one connection.
//!
//! Decimal quantities stay as the exact byte strings of the wire form, so no
//! precision is lost to floating point. Timestamps are the exchange's own
//! millisecond integers.

use vstd::prelude::*;
use crate::scan::text_ok;

verus! {

/// A single executed trade.
#[derive(Debug)]
pub struct Trade {
    /// Exchange-assigned event timestamp.
    pub event_time: u64,
    /// Trading pair symbol, e.g. `BTCUSDT`.
    pub symbol: Vec<u8>,
    /// Exchange-assigned trade identifier.
    pub trade_id: u64,
    /// Execution price as a decimal string.
    pub price: Vec<u8>,
    /// Executed quantity as a decimal string.
    pub quantity: Vec<u8>,
    /// Time the trade executed.
    pub trade_time: u64,
    /// Whether the buyer was the market maker.
    pub market_maker: bool,
    /// Reserved field the exchange always sends.
    pub ignore: bool,
}

/// Mathematical model of a trade.
pub struct TradeModel {
    pub event_time: u64,
    pub symbol: Seq<u8>,
    pub trade_id: u64,
    pub price: Seq<u8>,
    pub quantity: Seq<u8>,
    pub trade_time: u64,
    pub market_maker: bool,
    pub ignore: bool,
}

impl View for Trade {
    type V = TradeModel;

    open spec fn view(&self) -> TradeModel {
        TradeModel {
            event_time: self.event_time,
            symbol: self.symbol@,
            trade_id: self.trade_id,
            price: self.price@,
            quantity: self.quantity@,
            trade_time: self.trade_time,
            market_maker: self.market_maker,
            ignore: self.ignore,
        }
    }
}

/// A 24-hour trading statistics summary for one symbol.
#[derive(Debug)]
pub struct Ticker {
    /// Exchange-assigned event timestamp.
    pub event_time: u64,
    /// Trading pair symbol.
    pub symbol: Vec<u8>,
    /// Absolute price change over the window.
    pub price_change: Vec<u8>,
    /// Relative price change over the window.
    pub price_change_percentage: Vec<u8>,
    /// Volume-weighted average price.
    pub weighted_average_price: Vec<u8>,
    /// Price of the first trade before the window.
    pub previous_close: Vec<u8>,
    /// Most recent price.
    pub last_price: Vec<u8>,
    /// Quantity of the most recent trade.
    pub last_quantity: Vec<u8>,
    /// Best bid price.
    pub best_bid_price: Vec<u8>,
    /// Quantity at the best bid.
    pub best_bid_quantity: Vec<u8>,
    /// Best ask price.
    pub best_ask_price: Vec<u8>,
    /// Quantity at the best ask.
    pub best_ask_quantity: Vec<u8>,
    /// First price of the window.
    pub open_price: Vec<u8>,
    /// Highest price of the window.
    pub high_price: Vec<u8>,
    /// Lowest price of the window.
    pub low_price: Vec<u8>,
    /// Base-asset volume of the window.
    pub total_traded_base_asset_volume: Vec<u8>,
    /// Quote-asset volume of the window.
    pub total_traded_quote_asset_volume: Vec<u8>,
    /// Start of the statistics window.
    pub statistics_open_time: u64,
    /// End of the statistics window.
    pub statistics_close_time: u64,
    /// First trade identifier of the window.
    pub first_trade_id: u64,
    /// Last trade identifier of the window.
    pub last_trade_id: u64,
    /// Number of trades in the window.
    pub total_number_trades: u64,
}

/// Mathematical model of a ticker.
pub struct TickerModel {
    pub event_time: u64,
    pub symbol: Seq<u8>,
    pub price_change: Seq<u8>,
    pub price_change_percentage: Seq<u8>,
    pub weighted_average_price: Seq<u8>,
    pub previous_close: Seq<u8>,
    pub last_price: Seq<u8>,
    pub last_quantity: Seq<u8>,
    pub best_bid_price: Seq<u8>,
    pub best_bid_quantity: Seq<u8>,
    pub best_ask_price: Seq<u8>,
    pub best_ask_quantity: Seq<u8>,
    pub open_price: Seq<u8>,
    pub high_price: Seq<u8>,
    pub low_price: Seq<u8>,
    pub total_traded_base_asset_volume: Seq<u8>,
    pub total_traded_quote_asset_volume: Seq<u8>,
    pub statistics_open_time: u64,
    pub statistics_close_time: u64,
    pub first_trade_id: u64,
    pub last_trade_id: u64,
    pub total_number_trades: u64,
}

impl View for Ticker {
    type V = TickerModel;

    open spec fn view(&self) -> TickerModel {
        TickerModel {
            event_time: self.event_time,
            symbol: self.symbol@,
            price_change: self.price_change@,
            price_change_percentage: self.price_change_percentage@,
            weighted_average_price: self.weighted_average_price@,
            previous_close: self.previous_close@,
            last_price: self.last_price@,
            last_quantity: self.last_quantity@,
            best_bid_price: self.best_bid_price@,
            best_bid_quantity: self.best_bid_quantity@,
            best_ask_price: self.best_ask_price@,
            best_ask_quantity: self.best_ask_quantity@,
            open_price: self.open_price@,
            high_price: self.high_price@,
            low_price: self.low_price@,
            total_traded_base_asset_volume: self.total_traded_base_asset_volume@,
            total_traded_quote_asset_volume: self.total_traded_quote_asset_volume@,
            statistics_open_time: self.statistics_open_time,
            statistics_close_time: self.statistics_close_time,
            first_trade_id: self.first_trade_id,
            last_trade_id: self.last_trade_id,
            total_number_trades: self.total_number_trades,
        }
    }
}

/// One decoded domain event.
#[derive(Debug)]
pub enum ExchangeEvent {
    /// A 24-hour statistics summary.
    Ticker(Ticker),
    /// A single executed trade.
    Trade(Trade),
}

/// Mathematical model of a domain event.
pub enum ExchangeEventModel {
    Ticker(TickerModel),
    Trade(TradeModel),
}

impl View for ExchangeEvent {
    type V = ExchangeEventModel;

    open spec fn view(&self) -> ExchangeEventModel {
        match self {
            ExchangeEvent::Ticker(t) => ExchangeEventModel::Ticker(t@),
            ExchangeEvent::Trade(t) => ExchangeEventModel::Trade(t@),
        }
    }
}

/// A domain event together with the subscription it arrived on.
#[derive(Debug)]
pub struct StreamEnvelope {
    /// Subscription name, e.g. `btcusdt@trade`.
    pub stream: Vec<u8>,
    /// The wrapped event.
    pub data: ExchangeEvent,
}

/// Mathematical model of a stream envelope.
pub struct StreamEnvelopeModel {
    pub stream: Seq<u8>,
    pub data: ExchangeEventModel,
}

impl View for StreamEnvelope {
    type V = StreamEnvelopeModel;

    open spec fn view(&self) -> StreamEnvelopeModel {
        StreamEnvelopeModel { stream: self.stream@, data: self.data@ }
    }
}

/// Any complete message the decoder can produce: a bare event, or an event
/// wrapped in a stream envelope.
#[derive(Debug)]
pub enum MarketMessage {
    /// A single event sent on a dedicated connection.
    Event(ExchangeEvent),
    /// An event multiplexed over a shared connection.
    Stream(StreamEnvelope),
}

/// Mathematical model of a market message.
pub enum MarketMessageModel {
    Event(ExchangeEventModel),
    Stream(StreamEnvelopeModel),
}

impl View for MarketMessage {
    type V = MarketMessageModel;

    open spec fn view(&self) -> MarketMessageModel {
        match self {
            MarketMessage::Event(e) => MarketMessageModel::Event(e@),
            MarketMessage::Stream(s) => MarketMessageModel::Stream(s@),
        }
    }
}

/// A well-formed trade: its byte-string fields hold only acceptable text
/// bytes, so the trade has exactly one wire form.
pub open spec fn wf_trade(t: TradeModel) -> bool {
    &&& text_ok(t.symbol)
    &&& text_ok(t.price)
    &&& text_ok(t.quantity)
}

/// A well-formed ticker: every byte-string field holds only acceptable text
/// bytes.
pub open spec fn wf_ticker(t: TickerModel) -> bool {
    &&& text_ok(t.symbol)
    &&& text_ok(t.price_change)
    &&& text_ok(t.price_change_percentage)
    &&& text_ok(t.weighted_average_price)
    &&& text_ok(t.previous_close)
    &&& text_ok(t.last_price)
    &&& text_ok(t.last_quantity)
    &&& text_ok(t.best_bid_price)
    &&& text_ok(t.best_bid_quantity)
    &&& text_ok(t.best_ask_price)
    &&& text_ok(t.best_ask_quantity)
    &&& text_ok(t.open_price)
    &&& text_ok(t.high_price)
    &&& text_ok(t.low_price)
    &&& text_ok(t.total_traded_base_asset_volume)
    &&& text_ok(t.total_traded_quote_asset_volume)
}

/// A well-formed domain event.
pub open spec fn wf_event(e: ExchangeEventModel) -> bool {
    match e {
        ExchangeEventModel::Ticker(t) => wf_ticker(t),
        ExchangeEventModel::Trade(t) => wf_trade(t),
    }
}

/// A well-formed market message.
pub open spec fn wf_message(m: MarketMessageModel) -> bool {
    match m {
        MarketMessageModel::Event(e) => wf_event(e),
        MarketMessageModel::Stream(s) => text_ok(s.stream) && wf_event(s.data),
    }
}

} // verus!
