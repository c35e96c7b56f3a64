//! Message decoder: parses the payload of a text frame against the exchange's
//! compact wire form and yields a typed `MarketMessage`, or a `DecodeError`
//! carrying the raw payload. A malformed payload is reported, never fatal:
//! the caller keeps its connection and goes on with the next frame.
//!
//! The decoder accepts exactly the exchange's compact form: fields in the
//! documented order, no interstitial whitespace, text values without escape
//! sequences, and canonical decimal numbers. Anything else is an error.

use vstd::prelude::*;
use crate::events::ExchangeEvent;
use crate::events::ExchangeEventModel;
use crate::events::MarketMessage;
use crate::events::MarketMessageModel;
use crate::events::StreamEnvelope;
use crate::events::StreamEnvelopeModel;
use crate::events::Ticker;
use crate::events::TickerModel;
use crate::events::Trade;
use crate::events::TradeModel;
use crate::keys::RBRACE;
use crate::keys::data_key;
use crate::keys::data_key_bytes;
use crate::keys::key_bytes;
use crate::keys::key_seq;
use crate::keys::quoted;
use crate::keys::quoted_ticker_tag;
use crate::keys::quoted_trade_tag;
use crate::keys::stream_head;
use crate::keys::stream_head_bytes;
use crate::keys::ticker_tag;
use crate::keys::trade_tag;
use crate::keys::false_bytes;
use crate::keys::false_lit;
use crate::keys::true_bytes;
use crate::keys::true_lit;
use crate::scan::match_lit;
use crate::scan::parse_text;
use crate::scan::parse_u64;
use crate::scan::spec_lit;
use crate::scan::spec_text;
use crate::scan::spec_u64;

verus! {

/// Why a payload was rejected.
#[derive(Debug, PartialEq, Eq, Structural)]
pub enum DecodeReason {
    /// The payload opens with neither a known event head nor an envelope head.
    UnknownShape,
    /// The payload opens like a known message but does not follow the wire
    /// form to its end.
    Malformed,
}

/// A rejected payload: the raw bytes, and why they were rejected.
#[derive(Debug)]
pub struct DecodeError {
    /// The payload exactly as it arrived.
    pub payload: Vec<u8>,
    /// Why it was rejected.
    pub reason: DecodeReason,
}

/// Mathematical model of a rejected payload.
pub struct DecodeErrorModel {
    pub payload: Seq<u8>,
    pub reason: DecodeReason,
}

impl View for DecodeError {
    type V = DecodeErrorModel;

    open spec fn view(&self) -> DecodeErrorModel {
        DecodeErrorModel { payload: self.payload@, reason: self.reason }
    }
}

/// Whether the payload opens like any message the decoder knows.
pub open spec fn known_head(s: Seq<u8>) -> bool {
    spec_lit(s, 0, stream_head()) is Some || spec_lit(s, 0, key_seq(0x65, true)) is Some
}

// ---------------------------------------------------------------------------
// Field parsers: a one-letter key followed by a value
// ---------------------------------------------------------------------------

/// A text field `,"k":"value"` at `i`.
pub open spec fn spec_text_field(s: Seq<u8>, i: int, k: u8) -> Option<(Seq<u8>, int)> {
    match spec_lit(s, i, key_seq(k, false)) {
        Some(j) => spec_text(s, j),
        None => None,
    }
}

/// A number field `,"k":value` at `i`.
pub open spec fn spec_u64_field(s: Seq<u8>, i: int, k: u8) -> Option<(u64, int)> {
    match spec_lit(s, i, key_seq(k, false)) {
        Some(j) => spec_u64(s, j),
        None => None,
    }
}

/// A boolean field `,"k":true` or `,"k":false` at `i`.
pub open spec fn spec_bool_field(s: Seq<u8>, i: int, k: u8) -> Option<(bool, int)> {
    match spec_lit(s, i, key_seq(k, false)) {
        Some(j) => match spec_lit(s, j, true_lit()) {
            Some(j1) => Some((true, j1)),
            None => match spec_lit(s, j, false_lit()) {
                Some(j1) => Some((false, j1)),
                None => None,
            },
        },
        None => None,
    }
}

fn parse_text_field(s: &Vec<u8>, i: usize, k: u8) -> (r: Option<(Vec<u8>, usize)>)
    requires
        i <= s@.len(),
    ensures
        r is Some <==> spec_text_field(s@, i as int, k) is Some,
        r matches Some(p) ==> spec_text_field(s@, i as int, k) == Some((p.0@, p.1 as int)) && p.1
            <= s@.len(),
{
    let key = key_bytes(k, false);
    match match_lit(s, i, &key) {
        Some(j) => parse_text(s, j),
        None => None,
    }
}

fn parse_u64_field(s: &Vec<u8>, i: usize, k: u8) -> (r: Option<(u64, usize)>)
    requires
        i <= s@.len(),
    ensures
        r is Some <==> spec_u64_field(s@, i as int, k) is Some,
        r matches Some(p) ==> spec_u64_field(s@, i as int, k) == Some((p.0, p.1 as int)) && p.1
            <= s@.len(),
{
    let key = key_bytes(k, false);
    match match_lit(s, i, &key) {
        Some(j) => parse_u64(s, j),
        None => None,
    }
}

fn parse_bool_field(s: &Vec<u8>, i: usize, k: u8) -> (r: Option<(bool, usize)>)
    requires
        i <= s@.len(),
    ensures
        r is Some <==> spec_bool_field(s@, i as int, k) is Some,
        r matches Some(p) ==> spec_bool_field(s@, i as int, k) == Some((p.0, p.1 as int)) && p.1
            <= s@.len(),
{
    let key = key_bytes(k, false);
    match match_lit(s, i, &key) {
        Some(j) => {
            let t = true_bytes();
            match match_lit(s, j, &t) {
                Some(j1) => Some((true, j1)),
                None => {
                    let f = false_bytes();
                    match match_lit(s, j, &f) {
                        Some(j1) => Some((false, j1)),
                        None => None,
                    }
                },
            }
        },
        None => None,
    }
}

// ---------------------------------------------------------------------------
// Trade
// ---------------------------------------------------------------------------

/// The fields of a trade after its tag, through the closing brace.
pub open spec fn spec_trade_fields(s: Seq<u8>, i: int) -> Option<(TradeModel, int)> {
    match spec_u64_field(s, i, 0x45) {  // E
        None => None,
        Some((event_time, i1)) => match spec_text_field(s, i1, 0x73) {  // s
            None => None,
            Some((symbol, i2)) => match spec_u64_field(s, i2, 0x74) {  // t
                None => None,
                Some((trade_id, i3)) => match spec_text_field(s, i3, 0x70) {  // p
                    None => None,
                    Some((price, i4)) => match spec_text_field(s, i4, 0x71) {  // q
                        None => None,
                        Some((quantity, i5)) => match spec_u64_field(s, i5, 0x54) {  // T
                            None => None,
                            Some((trade_time, i6)) => match spec_bool_field(s, i6, 0x6d) {  // m
                                None => None,
                                Some((market_maker, i7)) => match spec_bool_field(
                                    s,
                                    i7,
                                    0x4d,
                                ) {  // M
                                    None => None,
                                    Some((ignore, i8)) => match spec_lit(s, i8, seq![RBRACE]) {
                                        None => None,
                                        Some(i9) => Some(
                                            (
                                                TradeModel {
                                                    event_time,
                                                    symbol,
                                                    trade_id,
                                                    price,
                                                    quantity,
                                                    trade_time,
                                                    market_maker,
                                                    ignore,
                                                },
                                                i9,
                                            ),
                                        ),
                                    },
                                },
                            },
                        },
                    },
                },
            },
        },
    }
}

fn parse_trade_fields(s: &Vec<u8>, i: usize) -> (r: Option<(Trade, usize)>)
    requires
        i <= s@.len(),
    ensures
        r is Some <==> spec_trade_fields(s@, i as int) is Some,
        r matches Some(p) ==> spec_trade_fields(s@, i as int) == Some((p.0@, p.1 as int)) && p.1
            <= s@.len(),
{
    let (event_time, i1) = match parse_u64_field(s, i, 0x45) {
        Some(p) => p,
        None => {
            return None;
        },
    };
    let (symbol, i2) = match parse_text_field(s, i1, 0x73) {
        Some(p) => p,
        None => {
            return None;
        },
    };
    let (trade_id, i3) = match parse_u64_field(s, i2, 0x74) {
        Some(p) => p,
        None => {
            return None;
        },
    };
    let (price, i4) = match parse_text_field(s, i3, 0x70) {
        Some(p) => p,
        None => {
            return None;
        },
    };
    let (quantity, i5) = match parse_text_field(s, i4, 0x71) {
        Some(p) => p,
        None => {
            return None;
        },
    };
    let (trade_time, i6) = match parse_u64_field(s, i5, 0x54) {
        Some(p) => p,
        None => {
            return None;
        },
    };
    let (market_maker, i7) = match parse_bool_field(s, i6, 0x6d) {
        Some(p) => p,
        None => {
            return None;
        },
    };
    let (ignore, i8) = match parse_bool_field(s, i7, 0x4d) {
        Some(p) => p,
        None => {
            return None;
        },
    };
    let brace = vec![RBRACE];
    proof {
        assert(brace@ =~= seq![RBRACE]);
    }
    let i9 = match match_lit(s, i8, &brace) {
        Some(j) => j,
        None => {
            return None;
        },
    };
    Some(
        (
            Trade {
                event_time,
                symbol,
                trade_id,
                price,
                quantity,
                trade_time,
                market_maker,
                ignore,
            },
            i9,
        ),
    )
}

// ---------------------------------------------------------------------------
// Ticker
// ---------------------------------------------------------------------------

/// The fields of a ticker after its tag, through the closing brace.
pub open spec fn spec_ticker_fields(s: Seq<u8>, i: int) -> Option<(TickerModel, int)> {
    match spec_u64_field(s, i, 0x45) {  // E
        None => None,
        Some((event_time, i1)) => match spec_text_field(s, i1, 0x73) {  // s
            None => None,
            Some((symbol, i2)) => match spec_text_field(s, i2, 0x70) {  // p
                None => None,
                Some((price_change, i3)) => match spec_text_field(s, i3, 0x50) {  // P
                    None => None,
                    Some((price_change_percentage, i4)) => match spec_text_field(
                        s,
                        i4,
                        0x77,
                    ) {  // w
                        None => None,
                        Some((weighted_average_price, i5)) => match spec_text_field(
                            s,
                            i5,
                            0x78,
                        ) {  // x
                            None => None,
                            Some((previous_close, i6)) => match spec_text_field(
                                s,
                                i6,
                                0x63,
                            ) {  // c
                                None => None,
                                Some((last_price, i7)) => match spec_text_field(
                                    s,
                                    i7,
                                    0x51,
                                ) {  // Q
                                    None => None,
                                    Some((last_quantity, i8)) => match spec_text_field(
                                        s,
                                        i8,
                                        0x62,
                                    ) {  // b
                                        None => None,
                                        Some((best_bid_price, i9)) => match spec_text_field(
                                            s,
                                            i9,
                                            0x42,
                                        ) {  // B
                                            None => None,
                                            Some((best_bid_quantity, i10)) => match spec_text_field(
                                                s,
                                                i10,
                                                0x61,
                                            ) {  // a
                                                None => None,
                                                Some((best_ask_price, i11)) => spec_ticker_tail(
                                                    s,
                                                    i11,
                                                    TickerHead {
                                                        event_time,
                                                        symbol,
                                                        price_change,
                                                        price_change_percentage,
                                                        weighted_average_price,
                                                        previous_close,
                                                        last_price,
                                                        last_quantity,
                                                        best_bid_price,
                                                        best_bid_quantity,
                                                        best_ask_price,
                                                    },
                                                ),
                                            },
                                        },
                                    },
                                },
                            },
                        },
                    },
                },
            },
        },
    }
}

/// The first half of a ticker's fields, already parsed.
pub struct TickerHead {
    pub event_time: u64,
    pub symbol: Seq<u8>,
    pub price_change: Seq<u8>,
    pub price_change_percentage: Seq<u8>,
    pub weighted_average_price: Seq<u8>,
    pub previous_close: Seq<u8>,
    pub last_price: Seq<u8>,
    pub last_quantity: Seq<u8>,
    pub best_bid_price: Seq<u8>,
    pub best_bid_quantity: Seq<u8>,
    pub best_ask_price: Seq<u8>,
}

/// The second half of a ticker's fields, from the best-ask quantity on.
pub open spec fn spec_ticker_tail(s: Seq<u8>, i: int, head: TickerHead) -> Option<
    (TickerModel, int),
> {
    match spec_text_field(s, i, 0x41) {  // A
        None => None,
        Some((best_ask_quantity, i1)) => match spec_text_field(s, i1, 0x6f) {  // o
            None => None,
            Some((open_price, i2)) => match spec_text_field(s, i2, 0x68) {  // h
                None => None,
                Some((high_price, i3)) => match spec_text_field(s, i3, 0x6c) {  // l
                    None => None,
                    Some((low_price, i4)) => match spec_text_field(s, i4, 0x76) {  // v
                        None => None,
                        Some((total_traded_base_asset_volume, i5)) => match spec_text_field(
                            s,
                            i5,
                            0x71,
                        ) {  // q
                            None => None,
                            Some((total_traded_quote_asset_volume, i6)) => match spec_u64_field(
                                s,
                                i6,
                                0x4f,
                            ) {  // O
                                None => None,
                                Some((statistics_open_time, i7)) => match spec_u64_field(
                                    s,
                                    i7,
                                    0x43,
                                ) {  // C
                                    None => None,
                                    Some((statistics_close_time, i8)) => match spec_u64_field(
                                        s,
                                        i8,
                                        0x46,
                                    ) {  // F
                                        None => None,
                                        Some((first_trade_id, i9)) => match spec_u64_field(
                                            s,
                                            i9,
                                            0x4c,
                                        ) {  // L
                                            None => None,
                                            Some((last_trade_id, i10)) => match spec_u64_field(
                                                s,
                                                i10,
                                                0x6e,
                                            ) {  // n
                                                None => None,
                                                Some((total_number_trades, i11)) => match spec_lit(
                                                    s,
                                                    i11,
                                                    seq![RBRACE],
                                                ) {
                                                    None => None,
                                                    Some(i12) => Some(
                                                        (
                                                            TickerModel {
                                                                event_time: head.event_time,
                                                                symbol: head.symbol,
                                                                price_change: head.price_change,
                                                                price_change_percentage:
                                                                    head.price_change_percentage,
                                                                weighted_average_price:
                                                                    head.weighted_average_price,
                                                                previous_close: head.previous_close,
                                                                last_price: head.last_price,
                                                                last_quantity: head.last_quantity,
                                                                best_bid_price: head.best_bid_price,
                                                                best_bid_quantity:
                                                                    head.best_bid_quantity,
                                                                best_ask_price: head.best_ask_price,
                                                                best_ask_quantity,
                                                                open_price,
                                                                high_price,
                                                                low_price,
                                                                total_traded_base_asset_volume,
                                                                total_traded_quote_asset_volume,
                                                                statistics_open_time,
                                                                statistics_close_time,
                                                                first_trade_id,
                                                                last_trade_id,
                                                                total_number_trades,
                                                            },
                                                            i12,
                                                        ),
                                                    ),
                                                },
                                            },
                                        },
                                    },
                                },
                            },
                        },
                    },
                },
            },
        },
    }
}

#[verifier::rlimit(60)]
fn parse_ticker_fields(s: &Vec<u8>, i: usize) -> (r: Option<(Ticker, usize)>)
    requires
        i <= s@.len(),
    ensures
        r is Some <==> spec_ticker_fields(s@, i as int) is Some,
        r matches Some(p) ==> spec_ticker_fields(s@, i as int) == Some((p.0@, p.1 as int)) && p.1
            <= s@.len(),
{
    let (event_time, i1) = match parse_u64_field(s, i, 0x45) {
        Some(p) => p,
        None => {
            return None;
        },
    };
    let (symbol, i2) = match parse_text_field(s, i1, 0x73) {
        Some(p) => p,
        None => {
            return None;
        },
    };
    let (price_change, i3) = match parse_text_field(s, i2, 0x70) {
        Some(p) => p,
        None => {
            return None;
        },
    };
    let (price_change_percentage, i4) = match parse_text_field(s, i3, 0x50) {
        Some(p) => p,
        None => {
            return None;
        },
    };
    let (weighted_average_price, i5) = match parse_text_field(s, i4, 0x77) {
        Some(p) => p,
        None => {
            return None;
        },
    };
    let (previous_close, i6) = match parse_text_field(s, i5, 0x78) {
        Some(p) => p,
        None => {
            return None;
        },
    };
    let (last_price, i7) = match parse_text_field(s, i6, 0x63) {
        Some(p) => p,
        None => {
            return None;
        },
    };
    let (last_quantity, i8) = match parse_text_field(s, i7, 0x51) {
        Some(p) => p,
        None => {
            return None;
        },
    };
    let (best_bid_price, i9) = match parse_text_field(s, i8, 0x62) {
        Some(p) => p,
        None => {
            return None;
        },
    };
    let (best_bid_quantity, i10) = match parse_text_field(s, i9, 0x42) {
        Some(p) => p,
        None => {
            return None;
        },
    };
    let (best_ask_price, i11) = match parse_text_field(s, i10, 0x61) {
        Some(p) => p,
        None => {
            return None;
        },
    };
    let ghost head = TickerHead {
        event_time,
        symbol: symbol@,
        price_change: price_change@,
        price_change_percentage: price_change_percentage@,
        weighted_average_price: weighted_average_price@,
        previous_close: previous_close@,
        last_price: last_price@,
        last_quantity: last_quantity@,
        best_bid_price: best_bid_price@,
        best_bid_quantity: best_bid_quantity@,
        best_ask_price: best_ask_price@,
    };
    let (best_ask_quantity, j1) = match parse_text_field(s, i11, 0x41) {
        Some(p) => p,
        None => {
            return None;
        },
    };
    let (open_price, j2) = match parse_text_field(s, j1, 0x6f) {
        Some(p) => p,
        None => {
            return None;
        },
    };
    let (high_price, j3) = match parse_text_field(s, j2, 0x68) {
        Some(p) => p,
        None => {
            return None;
        },
    };
    let (low_price, j4) = match parse_text_field(s, j3, 0x6c) {
        Some(p) => p,
        None => {
            return None;
        },
    };
    let (total_traded_base_asset_volume, j5) = match parse_text_field(s, j4, 0x76) {
        Some(p) => p,
        None => {
            return None;
        },
    };
    let (total_traded_quote_asset_volume, j6) = match parse_text_field(s, j5, 0x71) {
        Some(p) => p,
        None => {
            return None;
        },
    };
    let (statistics_open_time, j7) = match parse_u64_field(s, j6, 0x4f) {
        Some(p) => p,
        None => {
            return None;
        },
    };
    let (statistics_close_time, j8) = match parse_u64_field(s, j7, 0x43) {
        Some(p) => p,
        None => {
            return None;
        },
    };
    let (first_trade_id, j9) = match parse_u64_field(s, j8, 0x46) {
        Some(p) => p,
        None => {
            return None;
        },
    };
    let (last_trade_id, j10) = match parse_u64_field(s, j9, 0x4c) {
        Some(p) => p,
        None => {
            return None;
        },
    };
    let (total_number_trades, j11) = match parse_u64_field(s, j10, 0x6e) {
        Some(p) => p,
        None => {
            return None;
        },
    };
    let brace = vec![RBRACE];
    proof {
        assert(brace@ =~= seq![RBRACE]);
    }
    let j12 = match match_lit(s, j11, &brace) {
        Some(j) => j,
        None => {
            return None;
        },
    };
    Some(
        (
            Ticker {
                event_time,
                symbol,
                price_change,
                price_change_percentage,
                weighted_average_price,
                previous_close,
                last_price,
                last_quantity,
                best_bid_price,
                best_bid_quantity,
                best_ask_price,
                best_ask_quantity,
                open_price,
                high_price,
                low_price,
                total_traded_base_asset_volume,
                total_traded_quote_asset_volume,
                statistics_open_time,
                statistics_close_time,
                first_trade_id,
                last_trade_id,
                total_number_trades,
            },
            j12,
        ),
    )
}

// ---------------------------------------------------------------------------
// Events and whole messages
// ---------------------------------------------------------------------------

/// A complete event object at `i`: its tag decides the variant.
pub open spec fn spec_event(s: Seq<u8>, i: int) -> Option<(ExchangeEventModel, int)> {
    match spec_lit(s, i, key_seq(0x65, true)) {  // {"e":
        None => None,
        Some(j) => match spec_lit(s, j, quoted(trade_tag())) {
            Some(j1) => match spec_trade_fields(s, j1) {
                None => None,
                Some((t, j2)) => Some((ExchangeEventModel::Trade(t), j2)),
            },
            None => match spec_lit(s, j, quoted(ticker_tag())) {
                Some(j1) => match spec_ticker_fields(s, j1) {
                    None => None,
                    Some((t, j2)) => Some((ExchangeEventModel::Ticker(t), j2)),
                },
                None => None,
            },
        },
    }
}

fn parse_event(s: &Vec<u8>, i: usize) -> (r: Option<(ExchangeEvent, usize)>)
    requires
        i <= s@.len(),
    ensures
        r is Some <==> spec_event(s@, i as int) is Some,
        r matches Some(p) ==> spec_event(s@, i as int) == Some((p.0@, p.1 as int)) && p.1
            <= s@.len(),
{
    let ekey = key_bytes(0x65, true);
    let j = match match_lit(s, i, &ekey) {
        Some(j) => j,
        None => {
            return None;
        },
    };
    let ttag = quoted_trade_tag();
    match match_lit(s, j, &ttag) {
        Some(j1) => {
            match parse_trade_fields(s, j1) {
                Some((t, j2)) => Some((ExchangeEvent::Trade(t), j2)),
                None => None,
            }
        },
        None => {
            let ktag = quoted_ticker_tag();
            match match_lit(s, j, &ktag) {
                Some(j1) => {
                    match parse_ticker_fields(s, j1) {
                        Some((t, j2)) => Some((ExchangeEvent::Ticker(t), j2)),
                        None => None,
                    }
                },
                None => None,
            }
        },
    }
}

/// The one message a payload holds, if the payload follows the wire form
/// exactly, envelope or bare event, through its last byte.
pub open spec fn spec_message(s: Seq<u8>) -> Option<MarketMessageModel> {
    match spec_lit(s, 0, stream_head()) {
        Some(j) => match spec_text(s, j) {
            None => None,
            Some((stream, j1)) => match spec_lit(s, j1, data_key()) {
                None => None,
                Some(j2) => match spec_event(s, j2) {
                    None => None,
                    Some((ev, j3)) => match spec_lit(s, j3, seq![RBRACE]) {
                        None => None,
                        Some(j4) => if j4 == s.len() {
                            Some(
                                MarketMessageModel::Stream(
                                    StreamEnvelopeModel { stream, data: ev },
                                ),
                            )
                        } else {
                            None
                        },
                    },
                },
            },
        },
        None => match spec_event(s, 0) {
            None => None,
            Some((ev, j)) => if j == s.len() {
                Some(MarketMessageModel::Event(ev))
            } else {
                None
            },
        },
    }
}

/// Decodes one text payload. Returns the message exactly when the payload
/// follows the wire form (`spec_message`), and otherwise an error holding the
/// raw payload, tagged `UnknownShape` exactly when the payload opens like no
/// known message.
pub fn decode_message(payload: &Vec<u8>) -> (r: Result<MarketMessage, DecodeError>)
    ensures
        r is Ok <==> spec_message(payload@) is Some,
        r matches Ok(m) ==> spec_message(payload@) == Some(m@),
        r matches Err(e) ==> e.payload@ == payload@ && (e.reason == DecodeReason::UnknownShape
            <==> !known_head(payload@)),
{
    let head = stream_head_bytes();
    match match_lit(payload, 0, &head) {
        Some(j) => {
            match parse_envelope_rest(payload, j) {
                Some(m) => Ok(m),
                None => Err(
                    DecodeError { payload: clone_bytes(payload), reason: DecodeReason::Malformed },
                ),
            }
        },
        None => {
            let ekey = key_bytes(0x65, true);
            let shape_known = match_lit(payload, 0, &ekey).is_some();
            match parse_event(payload, 0) {
                Some((ev, j)) => {
                    if j == payload.len() {
                        Ok(MarketMessage::Event(ev))
                    } else {
                        Err(
                            DecodeError {
                                payload: clone_bytes(payload),
                                reason: DecodeReason::Malformed,
                            },
                        )
                    }
                },
                None => Err(
                    DecodeError {
                        payload: clone_bytes(payload),
                        reason: if shape_known {
                            DecodeReason::Malformed
                        } else {
                            DecodeReason::UnknownShape
                        },
                    },
                ),
            }
        },
    }
}

/// The envelope after its head: stream name, data key, event, closing brace,
/// end of payload.
fn parse_envelope_rest(s: &Vec<u8>, j: usize) -> (r: Option<MarketMessage>)
    requires
        j <= s@.len(),
        spec_lit(s@, 0, stream_head()) == Some(j as int),
    ensures
        ({
            let m = spec_message(s@);
            &&& r is Some <==> m is Some
            &&& r matches Some(msg) ==> m == Some(msg@)
        }),
{
    let (stream, j1) = match parse_text(s, j) {
        Some(p) => p,
        None => {
            return None;
        },
    };
    let dkey = data_key_bytes();
    let j2 = match match_lit(s, j1, &dkey) {
        Some(p) => p,
        None => {
            return None;
        },
    };
    let (ev, j3) = match parse_event(s, j2) {
        Some(p) => p,
        None => {
            return None;
        },
    };
    let brace = vec![RBRACE];
    proof {
        assert(brace@ =~= seq![RBRACE]);
    }
    let j4 = match match_lit(s, j3, &brace) {
        Some(p) => p,
        None => {
            return None;
        },
    };
    if j4 == s.len() {
        Some(MarketMessage::Stream(StreamEnvelope { stream, data: ev }))
    } else {
        None
    }
}

/// Copies a payload so an error can carry it.
fn clone_bytes(src: &Vec<u8>) -> (r: Vec<u8>)
    ensures
        r@ == src@,
{
    let mut out: Vec<u8> = Vec::new();
    let mut k: usize = 0;
    while k < src.len()
        invariant
            0 <= k <= src@.len(),
            out@ == src@.subrange(0, k as int),
        decreases src@.len() - k,
    {
        out.push(src[k]);
        proof {
            assert(src@.subrange(0, (k + 1) as int) =~= src@.subrange(0, k as int).push(
                src@[k as int],
            ));
        }
        k = k + 1;
    }
    proof {
        assert(src@.subrange(0, src@.len() as int) =~= src@);
    }
    out
}

} // verus!
