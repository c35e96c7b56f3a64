use market_stream::decode::decode_message;
use market_stream::decode::DecodeReason;
use market_stream::encode::encode_message;
use market_stream::events::ExchangeEvent;
use market_stream::events::MarketMessage;
use market_stream::events::Trade;

fn trade_payload() -> Vec<u8> {
    br#"{"e":"trade","E":123,"s":"BTCUSDT","t":1,"p":"50000.00","q":"0.01","T":123,"m":false,"M":true}"#
        .to_vec()
}

fn ticker_payload() -> Vec<u8> {
    br#"{"e":"24hrTicker","E":100,"s":"BNBBTC","p":"0.0015","P":"250.00","w":"0.0018","x":"0.0009","c":"0.0025","Q":"10","b":"0.0024","B":"10","a":"0.0026","A":"100","o":"0.0010","h":"0.0025","l":"0.0010","v":"10000","q":"18","O":0,"C":86400000,"F":0,"L":18150,"n":18151}"#
        .to_vec()
}

#[test]
fn stream_wrapped_trade_example() {
    let payload =
        br#"{"stream":"btcusdt@trade","data":{"e":"trade","E":123,"s":"BTCUSDT","t":1,"p":"50000.00","q":"0.01","T":123,"m":false,"M":true}}"#
        .to_vec();
    let msg = decode_message(&payload).expect("the example payload decodes");
    match &msg {
        MarketMessage::Stream(env) => {
            assert_eq!(env.stream, b"btcusdt@trade".to_vec());
            match &env.data {
                ExchangeEvent::Trade(t) => {
                    assert_eq!(t.symbol, b"BTCUSDT".to_vec());
                    assert_eq!(t.price, b"50000.00".to_vec());
                    assert_eq!(t.quantity, b"0.01".to_vec());
                    assert_eq!(t.event_time, 123);
                    assert_eq!(t.trade_id, 1);
                    assert_eq!(t.trade_time, 123);
                    assert!(!t.market_maker);
                    assert!(t.ignore);
                }
                _ => panic!("expected a trade"),
            }
        }
        _ => panic!("expected a stream envelope"),
    }
}

#[test]
fn bare_trade_decodes() {
    let msg = decode_message(&trade_payload()).expect("a bare trade decodes");
    match &msg {
        MarketMessage::Event(ExchangeEvent::Trade(t)) => {
            assert_eq!(t.symbol, b"BTCUSDT".to_vec());
            assert_eq!(t.trade_id, 1);
        }
        _ => panic!("expected a bare trade"),
    }
}

#[test]
fn ticker_decodes() {
    let msg = decode_message(&ticker_payload()).expect("a ticker decodes");
    match &msg {
        MarketMessage::Event(ExchangeEvent::Ticker(t)) => {
            assert_eq!(t.symbol, b"BNBBTC".to_vec());
            assert_eq!(t.price_change, b"0.0015".to_vec());
            assert_eq!(t.last_price, b"0.0025".to_vec());
            assert_eq!(t.statistics_close_time, 86400000);
            assert_eq!(t.last_trade_id, 18150);
            assert_eq!(t.total_number_trades, 18151);
        }
        _ => panic!("expected a ticker"),
    }
}

#[test]
fn decode_then_reencode_returns_the_trade_payload() {
    let payload = trade_payload();
    let msg = decode_message(&payload).expect("decodes");
    assert_eq!(encode_message(&msg), payload);
}

#[test]
fn decode_then_reencode_returns_the_ticker_payload() {
    let payload = ticker_payload();
    let msg = decode_message(&payload).expect("decodes");
    assert_eq!(encode_message(&msg), payload);
}

#[test]
fn decode_then_reencode_returns_the_envelope_payload() {
    let payload =
        br#"{"stream":"bnbusdt@trade","data":{"e":"trade","E":88,"s":"BNBUSDT","t":7,"p":"600.10","q":"2.00","T":89,"m":true,"M":true}}"#
        .to_vec();
    let msg = decode_message(&payload).expect("decodes");
    assert_eq!(encode_message(&msg), payload);
}

#[test]
fn encode_prints_the_exact_wire_form() {
    let msg = MarketMessage::Event(ExchangeEvent::Trade(Trade {
        event_time: 123,
        symbol: b"BTCUSDT".to_vec(),
        trade_id: 1,
        price: b"50000.00".to_vec(),
        quantity: b"0.01".to_vec(),
        trade_time: 123,
        market_maker: false,
        ignore: true,
    }));
    assert_eq!(encode_message(&msg), trade_payload());
}

#[test]
fn malformed_json_is_rejected_and_payload_kept() {
    let payload = b"{\"e\":\"trade\",\"E\":not a number}".to_vec();
    let err = decode_message(&payload).unwrap_err();
    assert_eq!(err.payload, payload);
    assert_eq!(err.reason, DecodeReason::Malformed);
}

#[test]
fn unknown_shape_is_rejected() {
    let payload = b"[1,2,3]".to_vec();
    let err = decode_message(&payload).unwrap_err();
    assert_eq!(err.payload, payload);
    assert_eq!(err.reason, DecodeReason::UnknownShape);

    let err2 = decode_message(&b"{\"x\":1}".to_vec()).unwrap_err();
    assert_eq!(err2.reason, DecodeReason::UnknownShape);
}

#[test]
fn empty_payload_is_rejected() {
    let err = decode_message(&Vec::new()).unwrap_err();
    assert_eq!(err.payload, Vec::<u8>::new());
    assert_eq!(err.reason, DecodeReason::UnknownShape);
}

#[test]
fn truncated_payload_is_rejected() {
    let mut payload = trade_payload();
    payload.truncate(payload.len() - 1);
    assert!(decode_message(&payload).is_err());
}

#[test]
fn trailing_bytes_are_rejected() {
    let mut payload = trade_payload();
    payload.push(b' ');
    assert!(decode_message(&payload).is_err());
}

#[test]
fn whitespace_between_fields_is_rejected() {
    let payload =
        br#"{"e":"trade", "E":123,"s":"BTCUSDT","t":1,"p":"1","q":"1","T":1,"m":false,"M":true}"#
            .to_vec();
    assert!(decode_message(&payload).is_err());
}

#[test]
fn fields_out_of_order_are_rejected() {
    let payload =
        br#"{"e":"trade","s":"BTCUSDT","E":123,"t":1,"p":"1","q":"1","T":1,"m":false,"M":true}"#
            .to_vec();
    assert!(decode_message(&payload).is_err());
}

#[test]
fn unknown_event_tag_is_rejected() {
    let payload = br#"{"e":"kline","E":123}"#.to_vec();
    let err = decode_message(&payload).unwrap_err();
    assert_eq!(err.reason, DecodeReason::Malformed);
}

#[test]
fn leading_zero_number_is_rejected() {
    let payload =
        br#"{"e":"trade","E":0123,"s":"B","t":1,"p":"1","q":"1","T":1,"m":false,"M":true}"#
            .to_vec();
    assert!(decode_message(&payload).is_err());
}

#[test]
fn zero_number_is_accepted() {
    let payload = br#"{"e":"trade","E":0,"s":"B","t":0,"p":"1","q":"1","T":0,"m":false,"M":true}"#
        .to_vec();
    let msg = decode_message(&payload).expect("zero is a canonical number");
    match &msg {
        MarketMessage::Event(ExchangeEvent::Trade(t)) => {
            assert_eq!(t.event_time, 0);
            assert_eq!(t.trade_id, 0);
        }
        _ => panic!("expected a trade"),
    }
}

#[test]
fn largest_number_is_accepted() {
    let payload = br#"{"e":"trade","E":18446744073709551615,"s":"B","t":1,"p":"1","q":"1","T":1,"m":true,"M":true}"#
        .to_vec();
    let msg = decode_message(&payload).expect("the largest 64-bit value fits");
    match &msg {
        MarketMessage::Event(ExchangeEvent::Trade(t)) => {
            assert_eq!(t.event_time, u64::MAX);
        }
        _ => panic!("expected a trade"),
    }
}

#[test]
fn number_overflow_is_rejected() {
    let payload = br#"{"e":"trade","E":18446744073709551616,"s":"B","t":1,"p":"1","q":"1","T":1,"m":true,"M":true}"#
        .to_vec();
    assert!(decode_message(&payload).is_err());
}

#[test]
fn escape_sequences_in_text_are_rejected() {
    let payload =
        br#"{"e":"trade","E":1,"s":"B\"C","t":1,"p":"1","q":"1","T":1,"m":false,"M":true}"#
            .to_vec();
    assert!(decode_message(&payload).is_err());
}

#[test]
fn empty_text_value_is_accepted() {
    let payload = br#"{"e":"trade","E":1,"s":"","t":1,"p":"1","q":"1","T":1,"m":false,"M":true}"#
        .to_vec();
    let msg = decode_message(&payload).expect("an empty text value is allowed");
    match &msg {
        MarketMessage::Event(ExchangeEvent::Trade(t)) => assert_eq!(t.symbol, Vec::<u8>::new()),
        _ => panic!("expected a trade"),
    }
}
