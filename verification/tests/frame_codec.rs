use market_stream::frame::decode_frame;
use market_stream::frame::Frame;
use market_stream::frame::FrameError;
use market_stream::frame::OPCODE_BINARY;
use market_stream::frame::OPCODE_CLOSE;
use market_stream::frame::OPCODE_PING;
use market_stream::frame::OPCODE_PONG;
use market_stream::frame::OPCODE_TEXT;

#[test]
fn text_frame_passes_payload_through() {
    let payload = b"{\"e\":\"trade\"}".to_vec();
    match decode_frame(OPCODE_TEXT, payload.clone()) {
        Ok(Frame::Text(p)) => assert_eq!(p, payload),
        _ => panic!("expected a text frame"),
    }
}

#[test]
fn binary_frame_passes_payload_through() {
    let payload = vec![0u8, 255, 7];
    match decode_frame(OPCODE_BINARY, payload.clone()) {
        Ok(Frame::Binary(p)) => assert_eq!(p, payload),
        _ => panic!("expected a binary frame"),
    }
}

#[test]
fn ping_keeps_its_payload() {
    match decode_frame(OPCODE_PING, vec![1, 2, 3]) {
        Ok(Frame::Ping(p)) => assert_eq!(p, vec![1, 2, 3]),
        _ => panic!("expected a ping"),
    }
}

#[test]
fn pong_keeps_its_payload() {
    match decode_frame(OPCODE_PONG, vec![9]) {
        Ok(Frame::Pong(p)) => assert_eq!(p, vec![9]),
        _ => panic!("expected a pong"),
    }
}

#[test]
fn oversized_control_frame_is_rejected() {
    let payload = vec![0u8; 126];
    assert_eq!(
        decode_frame(OPCODE_PING, payload.clone()).unwrap_err(),
        FrameError::OversizedControl
    );
    assert_eq!(
        decode_frame(OPCODE_PONG, payload.clone()).unwrap_err(),
        FrameError::OversizedControl
    );
    assert_eq!(decode_frame(OPCODE_CLOSE, payload).unwrap_err(), FrameError::OversizedControl);
}

#[test]
fn control_frame_at_the_size_limit_is_accepted() {
    let payload = vec![0u8; 125];
    assert!(matches!(decode_frame(OPCODE_PING, payload), Ok(Frame::Ping(_))));
}

#[test]
fn close_without_payload_has_no_reason() {
    match decode_frame(OPCODE_CLOSE, Vec::new()) {
        Ok(Frame::Close(None)) => {}
        _ => panic!("expected a close without a reason"),
    }
}

#[test]
fn close_with_status_code_is_big_endian() {
    // 3 * 256 + 232 = 1000, the normal-closure status code.
    match decode_frame(OPCODE_CLOSE, vec![3, 232, b'b', b'y', b'e']) {
        Ok(Frame::Close(Some(r))) => {
            assert_eq!(r.code, 1000);
            assert_eq!(r.reason, b"bye".to_vec());
        }
        _ => panic!("expected a close with a reason"),
    }
}

#[test]
fn close_with_one_byte_is_truncated() {
    assert_eq!(decode_frame(OPCODE_CLOSE, vec![3]).unwrap_err(), FrameError::TruncatedClose);
}

#[test]
fn unknown_opcode_is_rejected() {
    assert_eq!(decode_frame(3, Vec::new()).unwrap_err(), FrameError::UnknownOpcode);
    assert_eq!(decode_frame(0, Vec::new()).unwrap_err(), FrameError::UnknownOpcode);
    assert_eq!(decode_frame(15, vec![1]).unwrap_err(), FrameError::UnknownOpcode);
}
