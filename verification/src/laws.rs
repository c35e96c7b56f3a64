//! The round-trip law of the codec: any payload the decoder accepts is
//! exactly the printed form of the message it returns, so decoding and then
//! re-encoding gives back the original bytes.

use vstd::prelude::*;
use crate::decode::TickerHead;
use crate::decode::spec_bool_field;
use crate::decode::spec_event;
use crate::decode::spec_message;
use crate::decode::spec_text_field;
use crate::decode::spec_ticker_fields;
use crate::decode::spec_ticker_tail;
use crate::decode::spec_trade_fields;
use crate::decode::spec_u64_field;
use crate::encode::enc_bool_field;
use crate::encode::enc_event;
use crate::encode::enc_message;
use crate::encode::enc_text_field;
use crate::encode::enc_ticker;
use crate::encode::enc_ticker_head_fields;
use crate::encode::enc_ticker_tail_fields;
use crate::encode::enc_trade;
use crate::encode::enc_trade_fields;
use crate::encode::enc_u64_field;
use crate::events::wf_event;
use crate::events::wf_message;
use crate::events::wf_ticker;
use crate::events::wf_trade;
use crate::keys::RBRACE;
use crate::keys::data_key;
use crate::keys::key_seq;
use crate::keys::quoted;
use crate::keys::stream_head;
use crate::keys::ticker_tag;
use crate::keys::trade_tag;
use crate::scan::canonical_digits;
use crate::scan::dec_value;
use crate::scan::digit_end;
use crate::scan::lemma_dec_digits_of_value;
use crate::scan::lemma_digit_end_bounds;
use crate::scan::lemma_spec_text_sound;
use crate::scan::spec_lit;
use crate::scan::spec_text;
use crate::scan::spec_u64;
use crate::scan::text_ok;

verus! {

/// A range of a sequence splits at any point between its ends.
proof fn lemma_subrange_concat(s: Seq<u8>, i: int, j: int, k: int)
    requires
        0 <= i <= j <= k <= s.len(),
    ensures
        s.subrange(i, k) == s.subrange(i, j) + s.subrange(j, k),
{
    assert(s.subrange(i, k) =~= s.subrange(i, j) + s.subrange(j, k));
}

/// What a matched literal says of the bytes it covered.
proof fn lemma_lit_sound(s: Seq<u8>, i: int, pat: Seq<u8>)
    requires
        spec_lit(s, i, pat) is Some,
    ensures
        spec_lit(s, i, pat) == Some(i + pat.len() as int),
        0 <= i <= i + pat.len() <= s.len(),
        s.subrange(i, i + pat.len() as int) == pat,
{
}

/// A text field covers exactly the printed form of its value.
proof fn lemma_text_field_sound(s: Seq<u8>, i: int, k: u8)
    requires
        spec_text_field(s, i, k) is Some,
    ensures
        ({
            let (v, j) = spec_text_field(s, i, k)->Some_0;
            &&& 0 <= i <= j <= s.len()
            &&& text_ok(v)
            &&& s.subrange(i, j) == enc_text_field(k, v)
        }),
{
    let (v, j) = spec_text_field(s, i, k)->Some_0;
    let j0 = spec_lit(s, i, key_seq(k, false))->Some_0;
    lemma_lit_sound(s, i, key_seq(k, false));
    lemma_spec_text_sound(s, j0);
    lemma_subrange_concat(s, i, j0, j);
    assert(s.subrange(i, j) =~= enc_text_field(k, v));
}

/// A number field covers exactly the canonical decimal of its value.
proof fn lemma_u64_field_sound(s: Seq<u8>, i: int, k: u8)
    requires
        spec_u64_field(s, i, k) is Some,
    ensures
        ({
            let (n, j) = spec_u64_field(s, i, k)->Some_0;
            &&& 0 <= i <= j <= s.len()
            &&& s.subrange(i, j) == enc_u64_field(k, n)
        }),
{
    let (n, j) = spec_u64_field(s, i, k)->Some_0;
    let j0 = spec_lit(s, i, key_seq(k, false))->Some_0;
    lemma_lit_sound(s, i, key_seq(k, false));
    let e = digit_end(s, j0);
    let d = s.subrange(j0, e);
    lemma_digit_end_bounds(s, j0);
    assert(canonical_digits(d));
    lemma_dec_digits_of_value(d);
    assert(n as nat == dec_value(d));
    lemma_subrange_concat(s, i, j0, e);
    assert(s.subrange(i, j) == enc_u64_field(k, n));
}

/// A boolean field covers exactly its printed literal.
proof fn lemma_bool_field_sound(s: Seq<u8>, i: int, k: u8)
    requires
        spec_bool_field(s, i, k) is Some,
    ensures
        ({
            let (b, j) = spec_bool_field(s, i, k)->Some_0;
            &&& 0 <= i <= j <= s.len()
            &&& s.subrange(i, j) == enc_bool_field(k, b)
        }),
{
    let (b, j) = spec_bool_field(s, i, k)->Some_0;
    let j0 = spec_lit(s, i, key_seq(k, false))->Some_0;
    lemma_lit_sound(s, i, key_seq(k, false));
    if spec_lit(s, j0, crate::keys::true_lit()) is Some {
        lemma_lit_sound(s, j0, crate::keys::true_lit());
    } else {
        lemma_lit_sound(s, j0, crate::keys::false_lit());
    }
    lemma_subrange_concat(s, i, j0, j);
}

/// The parsed fields of a trade cover exactly their printed form.
proof fn lemma_trade_fields_sound(s: Seq<u8>, i: int)
    requires
        spec_trade_fields(s, i) is Some,
    ensures
        ({
            let (t, j) = spec_trade_fields(s, i)->Some_0;
            &&& 0 <= i <= j <= s.len()
            &&& wf_trade(t)
            &&& s.subrange(i, j) == enc_trade_fields(t)
        }),
{
    let (t, j) = spec_trade_fields(s, i)->Some_0;
    let (event_time, i1) = spec_u64_field(s, i, 0x45)->Some_0;
    let (symbol, i2) = spec_text_field(s, i1, 0x73)->Some_0;
    let (trade_id, i3) = spec_u64_field(s, i2, 0x74)->Some_0;
    let (price, i4) = spec_text_field(s, i3, 0x70)->Some_0;
    let (quantity, i5) = spec_text_field(s, i4, 0x71)->Some_0;
    let (trade_time, i6) = spec_u64_field(s, i5, 0x54)->Some_0;
    let (market_maker, i7) = spec_bool_field(s, i6, 0x6d)->Some_0;
    let (ignore, i8) = spec_bool_field(s, i7, 0x4d)->Some_0;
    lemma_u64_field_sound(s, i, 0x45);
    lemma_text_field_sound(s, i1, 0x73);
    lemma_u64_field_sound(s, i2, 0x74);
    lemma_text_field_sound(s, i3, 0x70);
    lemma_text_field_sound(s, i4, 0x71);
    lemma_u64_field_sound(s, i5, 0x54);
    lemma_bool_field_sound(s, i6, 0x6d);
    lemma_bool_field_sound(s, i7, 0x4d);
    lemma_lit_sound(s, i8, seq![RBRACE]);
    lemma_subrange_concat(s, i, i1, i2);
    lemma_subrange_concat(s, i, i2, i3);
    lemma_subrange_concat(s, i, i3, i4);
    lemma_subrange_concat(s, i, i4, i5);
    lemma_subrange_concat(s, i, i5, i6);
    lemma_subrange_concat(s, i, i6, i7);
    lemma_subrange_concat(s, i, i7, i8);
    lemma_subrange_concat(s, i, i8, j);
    assert(s.subrange(i, j) =~= enc_trade_fields(t));
}

/// The parsed second half of a ticker covers exactly its printed form and
/// keeps the already-parsed first half unchanged.
proof fn lemma_ticker_tail_sound(s: Seq<u8>, i: int, head: TickerHead)
    requires
        spec_ticker_tail(s, i, head) is Some,
    ensures
        ({
            let (t, j) = spec_ticker_tail(s, i, head)->Some_0;
            &&& 0 <= i <= j <= s.len()
            &&& text_ok(t.best_ask_quantity) && text_ok(t.open_price) && text_ok(t.high_price)
                && text_ok(t.low_price) && text_ok(t.total_traded_base_asset_volume) && text_ok(
                t.total_traded_quote_asset_volume,
            )
            &&& t.event_time == head.event_time && t.symbol == head.symbol && t.price_change
                == head.price_change && t.price_change_percentage == head.price_change_percentage
                && t.weighted_average_price == head.weighted_average_price && t.previous_close
                == head.previous_close && t.last_price == head.last_price && t.last_quantity
                == head.last_quantity && t.best_bid_price == head.best_bid_price
                && t.best_bid_quantity == head.best_bid_quantity && t.best_ask_price
                == head.best_ask_price
            &&& s.subrange(i, j) == enc_ticker_tail_fields(t)
        }),
{
    let (t, j) = spec_ticker_tail(s, i, head)->Some_0;
    let (best_ask_quantity, i1) = spec_text_field(s, i, 0x41)->Some_0;
    let (open_price, i2) = spec_text_field(s, i1, 0x6f)->Some_0;
    let (high_price, i3) = spec_text_field(s, i2, 0x68)->Some_0;
    let (low_price, i4) = spec_text_field(s, i3, 0x6c)->Some_0;
    let (base_volume, i5) = spec_text_field(s, i4, 0x76)->Some_0;
    let (quote_volume, i6) = spec_text_field(s, i5, 0x71)->Some_0;
    let (open_time, i7) = spec_u64_field(s, i6, 0x4f)->Some_0;
    let (close_time, i8) = spec_u64_field(s, i7, 0x43)->Some_0;
    let (first_id, i9) = spec_u64_field(s, i8, 0x46)->Some_0;
    let (last_id, i10) = spec_u64_field(s, i9, 0x4c)->Some_0;
    let (n_trades, i11) = spec_u64_field(s, i10, 0x6e)->Some_0;
    lemma_text_field_sound(s, i, 0x41);
    lemma_text_field_sound(s, i1, 0x6f);
    lemma_text_field_sound(s, i2, 0x68);
    lemma_text_field_sound(s, i3, 0x6c);
    lemma_text_field_sound(s, i4, 0x76);
    lemma_text_field_sound(s, i5, 0x71);
    lemma_u64_field_sound(s, i6, 0x4f);
    lemma_u64_field_sound(s, i7, 0x43);
    lemma_u64_field_sound(s, i8, 0x46);
    lemma_u64_field_sound(s, i9, 0x4c);
    lemma_u64_field_sound(s, i10, 0x6e);
    lemma_lit_sound(s, i11, seq![RBRACE]);
    lemma_subrange_concat(s, i, i1, i2);
    lemma_subrange_concat(s, i, i2, i3);
    lemma_subrange_concat(s, i, i3, i4);
    lemma_subrange_concat(s, i, i4, i5);
    lemma_subrange_concat(s, i, i5, i6);
    lemma_subrange_concat(s, i, i6, i7);
    lemma_subrange_concat(s, i, i7, i8);
    lemma_subrange_concat(s, i, i8, i9);
    lemma_subrange_concat(s, i, i9, i10);
    lemma_subrange_concat(s, i, i10, i11);
    lemma_subrange_concat(s, i, i11, j);
    assert(s.subrange(i, j) =~= enc_ticker_tail_fields(t));
}

/// The parsed fields of a ticker cover exactly their printed form.
#[verifier::rlimit(60)]
proof fn lemma_ticker_fields_sound(s: Seq<u8>, i: int)
    requires
        spec_ticker_fields(s, i) is Some,
    ensures
        ({
            let (t, j) = spec_ticker_fields(s, i)->Some_0;
            &&& 0 <= i <= j <= s.len()
            &&& wf_ticker(t)
            &&& s.subrange(i, j) == enc_ticker_head_fields(t) + enc_ticker_tail_fields(t)
        }),
{
    let (t, j) = spec_ticker_fields(s, i)->Some_0;
    let (event_time, i1) = spec_u64_field(s, i, 0x45)->Some_0;
    let (symbol, i2) = spec_text_field(s, i1, 0x73)->Some_0;
    let (price_change, i3) = spec_text_field(s, i2, 0x70)->Some_0;
    let (price_change_percentage, i4) = spec_text_field(s, i3, 0x50)->Some_0;
    let (weighted_average_price, i5) = spec_text_field(s, i4, 0x77)->Some_0;
    let (previous_close, i6) = spec_text_field(s, i5, 0x78)->Some_0;
    let (last_price, i7) = spec_text_field(s, i6, 0x63)->Some_0;
    let (last_quantity, i8) = spec_text_field(s, i7, 0x51)->Some_0;
    let (best_bid_price, i9) = spec_text_field(s, i8, 0x62)->Some_0;
    let (best_bid_quantity, i10) = spec_text_field(s, i9, 0x42)->Some_0;
    let (best_ask_price, i11) = spec_text_field(s, i10, 0x61)->Some_0;
    lemma_u64_field_sound(s, i, 0x45);
    lemma_text_field_sound(s, i1, 0x73);
    lemma_text_field_sound(s, i2, 0x70);
    lemma_text_field_sound(s, i3, 0x50);
    lemma_text_field_sound(s, i4, 0x77);
    lemma_text_field_sound(s, i5, 0x78);
    lemma_text_field_sound(s, i6, 0x63);
    lemma_text_field_sound(s, i7, 0x51);
    lemma_text_field_sound(s, i8, 0x62);
    lemma_text_field_sound(s, i9, 0x42);
    lemma_text_field_sound(s, i10, 0x61);
    let head = TickerHead {
        event_time,
        symbol,
        price_change,
        price_change_percentage,
        weighted_average_price,
        previous_close,
        last_price,
        last_quantity,
        best_bid_price,
        best_bid_quantity,
        best_ask_price,
    };
    lemma_ticker_tail_sound(s, i11, head);
    lemma_subrange_concat(s, i, i1, i2);
    lemma_subrange_concat(s, i, i2, i3);
    lemma_subrange_concat(s, i, i3, i4);
    lemma_subrange_concat(s, i, i4, i5);
    lemma_subrange_concat(s, i, i5, i6);
    lemma_subrange_concat(s, i, i6, i7);
    lemma_subrange_concat(s, i, i7, i8);
    lemma_subrange_concat(s, i, i8, i9);
    lemma_subrange_concat(s, i, i9, i10);
    lemma_subrange_concat(s, i, i10, i11);
    lemma_subrange_concat(s, i, i11, j);
    assert(s.subrange(i, i11) =~= enc_ticker_head_fields(t));
    assert(s.subrange(i, j) == enc_ticker_head_fields(t) + enc_ticker_tail_fields(t));
}

/// A parsed event covers exactly its printed form and is well formed.
proof fn lemma_event_sound(s: Seq<u8>, i: int)
    requires
        spec_event(s, i) is Some,
    ensures
        ({
            let (e, j) = spec_event(s, i)->Some_0;
            &&& 0 <= i <= j <= s.len()
            &&& wf_event(e)
            &&& s.subrange(i, j) == enc_event(e)
        }),
{
    let (e, j) = spec_event(s, i)->Some_0;
    let j0 = spec_lit(s, i, key_seq(0x65, true))->Some_0;
    lemma_lit_sound(s, i, key_seq(0x65, true));
    if spec_lit(s, j0, quoted(trade_tag())) is Some {
        let j1 = spec_lit(s, j0, quoted(trade_tag()))->Some_0;
        lemma_lit_sound(s, j0, quoted(trade_tag()));
        lemma_trade_fields_sound(s, j1);
        let (t, j2) = spec_trade_fields(s, j1)->Some_0;
        lemma_subrange_concat(s, i, j0, j1);
        assert(s.subrange(i, j1) == key_seq(0x65, true) + quoted(trade_tag()));
        lemma_subrange_concat(s, i, j1, j2);
        assert(s.subrange(i, j2) == (key_seq(0x65, true) + quoted(trade_tag()))
            + enc_trade_fields(t));
        assert(s.subrange(i, j) == enc_trade(t));
    } else {
        let j1 = spec_lit(s, j0, quoted(ticker_tag()))->Some_0;
        lemma_lit_sound(s, j0, quoted(ticker_tag()));
        lemma_ticker_fields_sound(s, j1);
        let (t, j2) = spec_ticker_fields(s, j1)->Some_0;
        lemma_subrange_concat(s, i, j0, j1);
        assert(s.subrange(i, j1) == key_seq(0x65, true) + quoted(ticker_tag()));
        lemma_subrange_concat(s, i, j1, j2);
        assert(s.subrange(i, j2) == (key_seq(0x65, true) + quoted(ticker_tag())) + (
        enc_ticker_head_fields(t) + enc_ticker_tail_fields(t)));
        vstd::seq_lib::lemma_concat_associative(
            key_seq(0x65, true) + quoted(ticker_tag()),
            enc_ticker_head_fields(t),
            enc_ticker_tail_fields(t),
        );
        assert(s.subrange(i, j) == enc_ticker(t));
    }
}

/// The round-trip law: a payload the decoder accepts is exactly the printed
/// form of the decoded message, and that message is well formed. Decoding and
/// then re-encoding therefore returns the payload byte for byte.
pub proof fn lemma_decode_then_reencode(s: Seq<u8>)
    requires
        spec_message(s) is Some,
    ensures
        wf_message(spec_message(s)->Some_0),
        enc_message(spec_message(s)->Some_0) == s,
{
    let m = spec_message(s)->Some_0;
    if spec_lit(s, 0, stream_head()) is Some {
        let j = spec_lit(s, 0, stream_head())->Some_0;
        lemma_lit_sound(s, 0, stream_head());
        let (stream, j1) = spec_text(s, j)->Some_0;
        lemma_spec_text_sound(s, j);
        let j2 = spec_lit(s, j1, data_key())->Some_0;
        lemma_lit_sound(s, j1, data_key());
        let (ev, j3) = spec_event(s, j2)->Some_0;
        lemma_event_sound(s, j2);
        let j4 = spec_lit(s, j3, seq![RBRACE])->Some_0;
        lemma_lit_sound(s, j3, seq![RBRACE]);
        lemma_subrange_concat(s, 0, j, j1);
        assert(s.subrange(0, j1) == stream_head() + quoted(stream));
        lemma_subrange_concat(s, 0, j1, j2);
        assert(s.subrange(0, j2) == (stream_head() + quoted(stream)) + data_key());
        lemma_subrange_concat(s, 0, j2, j3);
        assert(s.subrange(0, j3) == ((stream_head() + quoted(stream)) + data_key()) + enc_event(
            ev,
        ));
        lemma_subrange_concat(s, 0, j3, j4);
        assert(s.subrange(0, j4) == (((stream_head() + quoted(stream)) + data_key()) + enc_event(
            ev,
        )) + seq![RBRACE]);
        assert(s.subrange(0, s.len() as int) =~= s);
        assert(enc_message(m) == s);
    } else {
        let (ev, j) = spec_event(s, 0)->Some_0;
        lemma_event_sound(s, 0);
        assert(s.subrange(0, s.len() as int) =~= s);
    }
}

} // verus!
