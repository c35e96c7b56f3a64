use market_stream::frame::Frame;
use market_stream::supervisor::default_url;
use market_stream::supervisor::Action;
use market_stream::supervisor::ConfigError;
use market_stream::supervisor::ConnectionState;
use market_stream::supervisor::EventSink;
use market_stream::supervisor::RecordingSink;
use market_stream::supervisor::SinkItem;
use market_stream::supervisor::Supervisor;
use market_stream::supervisor::SupervisorConfig;
use market_stream::supervisor::TerminalError;

fn config(url: String, base: u64, max: u64, retries: u64) -> SupervisorConfig {
    SupervisorConfig { url, base_delay_ms: base, max_delay_ms: max, max_retries: retries }
}

fn connected_supervisor() -> Supervisor {
    let mut sup = Supervisor::new(config(default_url(), 500, 30_000, 5)).expect("valid url");
    assert!(matches!(sup.start_connect(), Action::OpenSocket { delay_ms: 0 }));
    sup.on_connect_result(true);
    assert_eq!(sup.state(), ConnectionState::Connected);
    sup
}

fn good_trade_payload() -> Vec<u8> {
    br#"{"e":"trade","E":123,"s":"BTCUSDT","t":1,"p":"50000.00","q":"0.01","T":123,"m":false,"M":true}"#
        .to_vec()
}

#[test]
fn invalid_url_is_a_fatal_config_error() {
    let r = Supervisor::new(config("not a url".to_string(), 500, 30_000, 5));
    match r {
        Err(e) => assert_eq!(e, ConfigError::InvalidUrl),
        Ok(_) => panic!("an invalid URL must be rejected"),
    }
}

#[test]
fn valid_url_builds_a_disconnected_supervisor() {
    let sup = Supervisor::new(config(default_url(), 500, 30_000, 5)).expect("valid url");
    assert_eq!(sup.state(), ConnectionState::Disconnected);
    assert_eq!(sup.retries(), 0);
    assert!(!sup.is_stopping());
    assert_eq!(sup.url().as_str(), default_url().as_str());
}

#[test]
fn reconnect_delays_increase_and_stay_bounded() {
    let mut sup = Supervisor::new(config(default_url(), 500, 1_200, 10)).expect("valid url");
    let mut seen: Vec<u64> = Vec::new();
    for _ in 0..5 {
        match sup.start_connect() {
            Action::OpenSocket { delay_ms } => seen.push(delay_ms),
            _ => panic!("expected a connection attempt"),
        }
        assert_eq!(sup.state(), ConnectionState::Connecting);
        sup.on_connect_result(false);
        assert_eq!(sup.state(), ConnectionState::Disconnected);
    }
    assert_eq!(seen, vec![0, 500, 1_000, 1_200, 1_200]);
    for pair in seen.windows(2) {
        assert!(pair[0] <= pair[1]);
    }
    for d in &seen {
        assert!(*d <= 1_200);
    }
}

#[test]
fn retry_budget_exhaustion_is_terminal() {
    let mut sup = Supervisor::new(config(default_url(), 10, 100, 2)).expect("valid url");
    for _ in 0..3 {
        assert!(matches!(sup.start_connect(), Action::OpenSocket { .. }));
        sup.on_connect_result(false);
    }
    assert_eq!(sup.retries(), 3);
    match sup.start_connect() {
        Action::Fail(e) => assert_eq!(e, TerminalError::RetriesExhausted),
        _ => panic!("the fourth attempt must be refused"),
    }
}

#[test]
fn read_error_disconnects_and_backs_off() {
    let mut sup = connected_supervisor();
    sup.on_read_error();
    assert_eq!(sup.state(), ConnectionState::Disconnected);
    assert_eq!(sup.retries(), 1);
    match sup.start_connect() {
        Action::OpenSocket { delay_ms } => assert_eq!(delay_ms, 500),
        _ => panic!("expected a reconnect attempt"),
    }
}

#[test]
fn success_restores_the_retry_budget() {
    let mut sup = Supervisor::new(config(default_url(), 500, 30_000, 5)).expect("valid url");
    sup.start_connect();
    sup.on_connect_result(false);
    assert_eq!(sup.retries(), 1);
    sup.start_connect();
    sup.on_connect_result(true);
    assert_eq!(sup.retries(), 0);
    assert_eq!(sup.state(), ConnectionState::Connected);
}

#[test]
fn ping_is_answered_with_identical_payload() {
    let mut sup = connected_supervisor();
    let payload = vec![1u8, 2, 3, 4];
    match sup.on_frame(Frame::Ping(payload.clone())) {
        Action::SendPong(p) => assert_eq!(p, payload),
        _ => panic!("a ping must be answered with a pong"),
    }
    assert_eq!(sup.state(), ConnectionState::Connected);
}

#[test]
fn bad_payload_keeps_the_connection_and_good_one_still_arrives() {
    let mut sup = connected_supervisor();
    let mut sink = RecordingSink::new();

    match sup.on_frame(Frame::Text(b"not json at all".to_vec())) {
        Action::Emit(item) => {
            assert!(matches!(item, SinkItem::Rejected(_)));
            sink.accept(item);
        }
        _ => panic!("a bad payload must still be reported to the sink"),
    }
    assert_eq!(sup.state(), ConnectionState::Connected);

    match sup.on_frame(Frame::Text(good_trade_payload())) {
        Action::Emit(item) => {
            assert!(matches!(item, SinkItem::Message(_)));
            sink.accept(item);
        }
        _ => panic!("the good payload must be emitted"),
    }
    assert_eq!(sup.state(), ConnectionState::Connected);
    assert_eq!(sink.items.len(), 2);
    assert!(matches!(sink.items[0], SinkItem::Rejected(_)));
    assert!(matches!(sink.items[1], SinkItem::Message(_)));
}

#[test]
fn rejected_item_carries_the_raw_payload() {
    let mut sup = connected_supervisor();
    let bad = b"{\"e\":\"trade\",oops".to_vec();
    match sup.on_frame(Frame::Text(bad.clone())) {
        Action::Emit(SinkItem::Rejected(e)) => assert_eq!(e.payload, bad),
        _ => panic!("expected a rejected item"),
    }
}

#[test]
fn close_frame_ends_the_loop_without_further_events() {
    let mut sup = connected_supervisor();
    match sup.on_frame(Frame::Close(None)) {
        Action::CloseSocket => {}
        _ => panic!("a close frame must release the socket"),
    }
    assert_eq!(sup.state(), ConnectionState::Closing);

    // After the close nothing is emitted any more.
    assert!(matches!(sup.on_frame(Frame::Text(good_trade_payload())), Action::Idle));
    assert!(matches!(sup.on_frame(Frame::Ping(vec![1])), Action::Idle));
    assert_eq!(sup.state(), ConnectionState::Closing);

    sup.on_socket_closed();
    assert_eq!(sup.state(), ConnectionState::Disconnected);
}

#[test]
fn binary_and_pong_frames_are_ignored() {
    let mut sup = connected_supervisor();
    assert!(matches!(sup.on_frame(Frame::Binary(vec![1, 2])), Action::Idle));
    assert!(matches!(sup.on_frame(Frame::Pong(vec![3])), Action::Idle));
    assert_eq!(sup.state(), ConnectionState::Connected);
}

#[test]
fn drained_session_stops_at_close() {
    let mut sup = connected_supervisor();
    let mut sink = RecordingSink::new();
    let frames = vec![
        Frame::Text(b"not json".to_vec()),
        Frame::Ping(vec![7]),
        Frame::Text(good_trade_payload()),
        Frame::Close(None),
        Frame::Text(good_trade_payload()),
        Frame::Ping(vec![9]),
    ];
    let pongs = sup.drain_frames(frames, &mut sink);
    assert_eq!(pongs, vec![vec![7u8]]);
    assert_eq!(sink.items.len(), 2);
    assert!(matches!(sink.items[0], SinkItem::Rejected(_)));
    assert!(matches!(sink.items[1], SinkItem::Message(_)));
    assert_eq!(sup.state(), ConnectionState::Closing);
}

#[test]
fn drained_session_without_close_stays_connected() {
    let mut sup = connected_supervisor();
    let mut sink = RecordingSink::new();
    let frames = vec![
        Frame::Ping(vec![1]),
        Frame::Text(good_trade_payload()),
        Frame::Binary(vec![0]),
        Frame::Ping(vec![2]),
    ];
    let pongs = sup.drain_frames(frames, &mut sink);
    assert_eq!(pongs, vec![vec![1u8], vec![2u8]]);
    assert_eq!(sink.items.len(), 1);
    assert_eq!(sup.state(), ConnectionState::Connected);
}

#[test]
fn stop_request_closes_and_prevents_reconnect() {
    let mut sup = connected_supervisor();
    match sup.request_stop() {
        Action::CloseSocket => {}
        _ => panic!("a live connection must be closed on stop"),
    }
    assert!(sup.is_stopping());
    assert_eq!(sup.state(), ConnectionState::Closing);
    sup.on_socket_closed();
    assert_eq!(sup.state(), ConnectionState::Disconnected);
    assert!(matches!(sup.start_connect(), Action::Idle));
}
