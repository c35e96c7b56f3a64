//! The fixed byte templates of the exchange's compact wire form: one-letter
//! field keys, the event tags, and the envelope keys.

use vstd::prelude::*;
use crate::scan::QUOTE;

verus! {

/// The opening brace of an object.
pub const LBRACE: u8 = 0x7b;

/// The closing brace of an object.
pub const RBRACE: u8 = 0x7d;

/// The comma between fields.
pub const COMMA: u8 = 0x2c;

/// The colon between a key and its value.
pub const COLON: u8 = 0x3a;

/// The five bytes that introduce the field with one-letter key `k`:
/// `{"k":` at the start of an object, `,"k":` after another field.
pub open spec fn key_seq(k: u8, first: bool) -> Seq<u8> {
    seq![if first { LBRACE } else { COMMA }, QUOTE, k, QUOTE, COLON]
}

/// `v` between double quotes.
pub open spec fn quoted(v: Seq<u8>) -> Seq<u8> {
    seq![QUOTE] + v + seq![QUOTE]
}

/// The tag of a trade event: `trade`.
pub open spec fn trade_tag() -> Seq<u8> {
    seq![0x74, 0x72, 0x61, 0x64, 0x65]
}

/// The tag of a 24-hour ticker event: `24hrTicker`.
pub open spec fn ticker_tag() -> Seq<u8> {
    seq![0x32, 0x34, 0x68, 0x72, 0x54, 0x69, 0x63, 0x6b, 0x65, 0x72]
}

/// The head of a stream envelope: `{"stream":`.
pub open spec fn stream_head() -> Seq<u8> {
    seq![LBRACE, QUOTE, 0x73, 0x74, 0x72, 0x65, 0x61, 0x6d, QUOTE, COLON]
}

/// The envelope key that introduces the wrapped event: `,"data":`.
pub open spec fn data_key() -> Seq<u8> {
    seq![COMMA, QUOTE, 0x64, 0x61, 0x74, 0x61, QUOTE, COLON]
}

/// The literal `true`.
pub open spec fn true_lit() -> Seq<u8> {
    seq![0x74, 0x72, 0x75, 0x65]
}

/// The literal `false`.
pub open spec fn false_lit() -> Seq<u8> {
    seq![0x66, 0x61, 0x6c, 0x73, 0x65]
}

/// Builds `key_seq(k, first)` as a vector.
pub fn key_bytes(k: u8, first: bool) -> (r: Vec<u8>)
    ensures
        r@ == key_seq(k, first),
{
    let lead: u8 = if first {
        LBRACE
    } else {
        COMMA
    };
    let r = vec![lead, QUOTE, k, QUOTE, COLON];
    proof {
        assert(r@ =~= key_seq(k, first));
    }
    r
}

/// Builds the trade tag between quotes as a vector.
pub fn quoted_trade_tag() -> (r: Vec<u8>)
    ensures
        r@ == quoted(trade_tag()),
{
    let r = vec![QUOTE, 0x74, 0x72, 0x61, 0x64, 0x65, QUOTE];
    proof {
        assert(r@ =~= quoted(trade_tag()));
    }
    r
}

/// Builds the ticker tag between quotes as a vector.
pub fn quoted_ticker_tag() -> (r: Vec<u8>)
    ensures
        r@ == quoted(ticker_tag()),
{
    let r = vec![QUOTE, 0x32, 0x34, 0x68, 0x72, 0x54, 0x69, 0x63, 0x6b, 0x65, 0x72, QUOTE];
    proof {
        assert(r@ =~= quoted(ticker_tag()));
    }
    r
}

/// Builds the envelope head as a vector.
pub fn stream_head_bytes() -> (r: Vec<u8>)
    ensures
        r@ == stream_head(),
{
    let r = vec![LBRACE, QUOTE, 0x73, 0x74, 0x72, 0x65, 0x61, 0x6d, QUOTE, COLON];
    proof {
        assert(r@ =~= stream_head());
    }
    r
}

/// Builds the envelope data key as a vector.
pub fn data_key_bytes() -> (r: Vec<u8>)
    ensures
        r@ == data_key(),
{
    let r = vec![COMMA, QUOTE, 0x64, 0x61, 0x74, 0x61, QUOTE, COLON];
    proof {
        assert(r@ =~= data_key());
    }
    r
}

/// Builds the literal `true` as a vector.
pub fn true_bytes() -> (r: Vec<u8>)
    ensures
        r@ == true_lit(),
{
    let r = vec![0x74, 0x72, 0x75, 0x65];
    proof {
        assert(r@ =~= true_lit());
    }
    r
}

/// Builds the literal `false` as a vector.
pub fn false_bytes() -> (r: Vec<u8>)
    ensures
        r@ == false_lit(),
{
    let r = vec![0x66, 0x61, 0x6c, 0x73, 0x65];
    proof {
        assert(r@ =~= false_lit());
    }
    r
}

} // verus!
