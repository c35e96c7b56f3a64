//! Message encoder: prints a typed message back into the exchange's compact
//! wire form, the exact byte sequence the decoder accepts.

use vstd::prelude::*;
use crate::events::ExchangeEvent;
use crate::events::ExchangeEventModel;
use crate::events::MarketMessage;
use crate::events::MarketMessageModel;
use crate::events::TickerModel;
use crate::events::TradeModel;
use crate::keys::RBRACE;
use crate::keys::data_key;
use crate::keys::data_key_bytes;
use crate::keys::false_bytes;
use crate::keys::false_lit;
use crate::keys::key_bytes;
use crate::keys::key_seq;
use crate::keys::quoted;
use crate::keys::quoted_ticker_tag;
use crate::keys::quoted_trade_tag;
use crate::keys::stream_head;
use crate::keys::stream_head_bytes;
use crate::keys::ticker_tag;
use crate::keys::trade_tag;
use crate::keys::true_bytes;
use crate::keys::true_lit;
use crate::scan::QUOTE;
use crate::scan::dec_digits;
use crate::scan::push_bytes;
use crate::scan::push_u64;

verus! {

/// The printed form of a text field `,"k":"v"`.
pub open spec fn enc_text_field(k: u8, v: Seq<u8>) -> Seq<u8> {
    key_seq(k, false) + quoted(v)
}

/// The printed form of a number field `,"k":n`.
pub open spec fn enc_u64_field(k: u8, n: u64) -> Seq<u8> {
    key_seq(k, false) + dec_digits(n as nat)
}

/// The printed form of a boolean field `,"k":true` or `,"k":false`.
pub open spec fn enc_bool_field(k: u8, b: bool) -> Seq<u8> {
    key_seq(k, false) + if b {
        true_lit()
    } else {
        false_lit()
    }
}

/// The printed fields of a trade, after its tag, through the closing brace.
pub open spec fn enc_trade_fields(t: TradeModel) -> Seq<u8> {
    enc_u64_field(0x45, t.event_time) + enc_text_field(0x73, t.symbol) + enc_u64_field(
        0x74,
        t.trade_id,
    ) + enc_text_field(0x70, t.price) + enc_text_field(0x71, t.quantity) + enc_u64_field(
        0x54,
        t.trade_time,
    ) + enc_bool_field(0x6d, t.market_maker) + enc_bool_field(0x4d, t.ignore) + seq![RBRACE]
}

/// The printed form of a trade event object.
pub open spec fn enc_trade(t: TradeModel) -> Seq<u8> {
    key_seq(0x65, true) + quoted(trade_tag()) + enc_trade_fields(t)
}

/// The printed fields of a ticker's first half, after its tag.
pub open spec fn enc_ticker_head_fields(t: TickerModel) -> Seq<u8> {
    enc_u64_field(0x45, t.event_time) + enc_text_field(0x73, t.symbol) + enc_text_field(
        0x70,
        t.price_change,
    ) + enc_text_field(0x50, t.price_change_percentage) + enc_text_field(
        0x77,
        t.weighted_average_price,
    ) + enc_text_field(0x78, t.previous_close) + enc_text_field(0x63, t.last_price)
        + enc_text_field(0x51, t.last_quantity) + enc_text_field(0x62, t.best_bid_price)
        + enc_text_field(0x42, t.best_bid_quantity) + enc_text_field(0x61, t.best_ask_price)
}

/// The printed fields of a ticker's second half, through the closing brace.
pub open spec fn enc_ticker_tail_fields(t: TickerModel) -> Seq<u8> {
    enc_text_field(0x41, t.best_ask_quantity) + enc_text_field(0x6f, t.open_price)
        + enc_text_field(0x68, t.high_price) + enc_text_field(0x6c, t.low_price) + enc_text_field(
        0x76,
        t.total_traded_base_asset_volume,
    ) + enc_text_field(0x71, t.total_traded_quote_asset_volume) + enc_u64_field(
        0x4f,
        t.statistics_open_time,
    ) + enc_u64_field(0x43, t.statistics_close_time) + enc_u64_field(0x46, t.first_trade_id)
        + enc_u64_field(0x4c, t.last_trade_id) + enc_u64_field(0x6e, t.total_number_trades)
        + seq![RBRACE]
}

/// The printed form of a ticker event object.
pub open spec fn enc_ticker(t: TickerModel) -> Seq<u8> {
    key_seq(0x65, true) + quoted(ticker_tag()) + enc_ticker_head_fields(t)
        + enc_ticker_tail_fields(t)
}

/// The printed form of an event.
pub open spec fn enc_event(e: ExchangeEventModel) -> Seq<u8> {
    match e {
        ExchangeEventModel::Trade(t) => enc_trade(t),
        ExchangeEventModel::Ticker(t) => enc_ticker(t),
    }
}

/// The printed form of a whole message, envelope or bare event.
pub open spec fn enc_message(m: MarketMessageModel) -> Seq<u8> {
    match m {
        MarketMessageModel::Event(e) => enc_event(e),
        MarketMessageModel::Stream(se) => stream_head() + quoted(se.stream) + data_key()
            + enc_event(se.data) + seq![RBRACE],
    }
}

fn push_text_field(out: &mut Vec<u8>, k: u8, v: &Vec<u8>)
    ensures
        final(out)@ == old(out)@ + enc_text_field(k, v@),
{
    let key = key_bytes(k, false);
    push_bytes(out, &key);
    out.push(QUOTE);
    push_bytes(out, v);
    out.push(QUOTE);
    proof {
        assert(out@ =~= old(out)@ + enc_text_field(k, v@));
    }
}

fn push_u64_field(out: &mut Vec<u8>, k: u8, n: u64)
    ensures
        final(out)@ == old(out)@ + enc_u64_field(k, n),
{
    let key = key_bytes(k, false);
    push_bytes(out, &key);
    push_u64(out, n);
    proof {
        assert(out@ =~= old(out)@ + enc_u64_field(k, n));
    }
}

fn push_bool_field(out: &mut Vec<u8>, k: u8, b: bool)
    ensures
        final(out)@ == old(out)@ + enc_bool_field(k, b),
{
    let key = key_bytes(k, false);
    push_bytes(out, &key);
    if b {
        let lit = true_bytes();
        push_bytes(out, &lit);
    } else {
        let lit = false_bytes();
        push_bytes(out, &lit);
    }
    proof {
        assert(out@ =~= old(out)@ + enc_bool_field(k, b));
    }
}

/// Prints an event in the exchange's compact wire form.
pub fn encode_event(e: &ExchangeEvent) -> (r: Vec<u8>)
    ensures
        r@ == enc_event(e@),
{
    let mut out = key_bytes(0x65, true);
    match e {
        ExchangeEvent::Trade(t) => {
            let tag = quoted_trade_tag();
            push_bytes(&mut out, &tag);
            let mut body: Vec<u8> = Vec::new();
            push_u64_field(&mut body, 0x45, t.event_time);
            proof {
                assert(body@ =~= enc_u64_field(0x45, t.event_time));
            }
            push_text_field(&mut body, 0x73, &t.symbol);
            push_u64_field(&mut body, 0x74, t.trade_id);
            push_text_field(&mut body, 0x70, &t.price);
            push_text_field(&mut body, 0x71, &t.quantity);
            push_u64_field(&mut body, 0x54, t.trade_time);
            push_bool_field(&mut body, 0x6d, t.market_maker);
            push_bool_field(&mut body, 0x4d, t.ignore);
            body.push(RBRACE);
            proof {
                assert(body@ =~= enc_trade_fields(t@));
            }
            push_bytes(&mut out, &body);
            proof {
                assert(out@ == enc_trade(t@));
            }
        },
        ExchangeEvent::Ticker(t) => {
            let tag = quoted_ticker_tag();
            push_bytes(&mut out, &tag);
            let mut head: Vec<u8> = Vec::new();
            push_u64_field(&mut head, 0x45, t.event_time);
            proof {
                assert(head@ =~= enc_u64_field(0x45, t.event_time));
            }
            push_text_field(&mut head, 0x73, &t.symbol);
            push_text_field(&mut head, 0x70, &t.price_change);
            push_text_field(&mut head, 0x50, &t.price_change_percentage);
            push_text_field(&mut head, 0x77, &t.weighted_average_price);
            push_text_field(&mut head, 0x78, &t.previous_close);
            push_text_field(&mut head, 0x63, &t.last_price);
            push_text_field(&mut head, 0x51, &t.last_quantity);
            push_text_field(&mut head, 0x62, &t.best_bid_price);
            push_text_field(&mut head, 0x42, &t.best_bid_quantity);
            push_text_field(&mut head, 0x61, &t.best_ask_price);
            proof {
                assert(head@ == enc_ticker_head_fields(t@));
            }
            let mut tail: Vec<u8> = Vec::new();
            push_text_field(&mut tail, 0x41, &t.best_ask_quantity);
            proof {
                assert(tail@ =~= enc_text_field(0x41, t.best_ask_quantity@));
            }
            push_text_field(&mut tail, 0x6f, &t.open_price);
            push_text_field(&mut tail, 0x68, &t.high_price);
            push_text_field(&mut tail, 0x6c, &t.low_price);
            push_text_field(&mut tail, 0x76, &t.total_traded_base_asset_volume);
            push_text_field(&mut tail, 0x71, &t.total_traded_quote_asset_volume);
            push_u64_field(&mut tail, 0x4f, t.statistics_open_time);
            push_u64_field(&mut tail, 0x43, t.statistics_close_time);
            push_u64_field(&mut tail, 0x46, t.first_trade_id);
            push_u64_field(&mut tail, 0x4c, t.last_trade_id);
            push_u64_field(&mut tail, 0x6e, t.total_number_trades);
            tail.push(RBRACE);
            proof {
                assert(tail@ =~= enc_ticker_tail_fields(t@));
            }
            push_bytes(&mut out, &head);
            push_bytes(&mut out, &tail);
            proof {
                assert(out@ == enc_ticker(t@));
            }
        },
    }
    out
}

/// Prints a whole message in the exchange's compact wire form: exactly the
/// bytes the decoder accepts for it.
pub fn encode_message(m: &MarketMessage) -> (r: Vec<u8>)
    ensures
        r@ == enc_message(m@),
{
    match m {
        MarketMessage::Event(e) => encode_event(e),
        MarketMessage::Stream(se) => {
            let mut out = stream_head_bytes();
            let mut qs: Vec<u8> = Vec::new();
            qs.push(QUOTE);
            push_bytes(&mut qs, &se.stream);
            qs.push(QUOTE);
            proof {
                assert(qs@ =~= quoted(se.stream@));
            }
            push_bytes(&mut out, &qs);
            let dkey = data_key_bytes();
            push_bytes(&mut out, &dkey);
            let ev = encode_event(&se.data);
            push_bytes(&mut out, &ev);
            out.push(RBRACE);
            proof {
                assert(out@ =~= (((stream_head() + quoted(se.stream@)) + data_key()) + enc_event(
                    se.data@,
                )) + seq![RBRACE]);
                assert(out@ == enc_message(m@));
            }
            out
        },
    }
}

} // verus!
