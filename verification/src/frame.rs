//! Frame codec: classifies a raw transport frame (opcode and payload bytes)
//! as text, binary, ping, pong or close, or rejects it as malformed.
//! Stateless and pure; a malformed frame surfaces as a `FrameError` and never
//! aborts the caller.

use vstd::prelude::*;

verus! {

/// Opcode of a text frame.
pub const OPCODE_TEXT: u8 = 1;

/// Opcode of a binary frame.
pub const OPCODE_BINARY: u8 = 2;

/// Opcode of a close frame.
pub const OPCODE_CLOSE: u8 = 8;

/// Opcode of a ping frame.
pub const OPCODE_PING: u8 = 9;

/// Opcode of a pong frame.
pub const OPCODE_PONG: u8 = 10;

/// Largest payload a control frame (ping, pong, close) may carry.
pub const MAX_CONTROL_PAYLOAD: usize = 125;

/// The status code and trailing reason bytes of a close frame.
#[derive(Debug)]
pub struct CloseReason {
    /// Two-byte status code sent by the peer, big endian on the wire.
    pub code: u16,
    /// Remaining payload bytes after the status code.
    pub reason: Vec<u8>,
}

/// A decoded transport frame.
#[derive(Debug)]
pub enum Frame {
    /// A complete text message payload.
    Text(Vec<u8>),
    /// A complete binary message payload.
    Binary(Vec<u8>),
    /// A ping that must be answered with a pong carrying the same bytes.
    Ping(Vec<u8>),
    /// A pong, usually answering an earlier ping.
    Pong(Vec<u8>),
    /// The peer is closing the connection, with an optional reason.
    Close(Option<CloseReason>),
}

/// Why a raw frame was rejected.
#[derive(Debug, PartialEq, Eq, Structural)]
pub enum FrameError {
    /// The opcode is none of text, binary, ping, pong or close.
    UnknownOpcode,
    /// A control frame carried more than `MAX_CONTROL_PAYLOAD` bytes.
    OversizedControl,
    /// A close payload of exactly one byte cannot hold a status code.
    TruncatedClose,
}

/// Mathematical model of a close reason.
pub struct CloseReasonModel {
    pub code: u16,
    pub reason: Seq<u8>,
}

/// Mathematical model of a frame.
pub enum FrameModel {
    Text(Seq<u8>),
    Binary(Seq<u8>),
    Ping(Seq<u8>),
    Pong(Seq<u8>),
    Close(Option<CloseReasonModel>),
}

impl View for CloseReason {
    type V = CloseReasonModel;

    open spec fn view(&self) -> CloseReasonModel {
        CloseReasonModel { code: self.code, reason: self.reason@ }
    }
}

impl View for Frame {
    type V = FrameModel;

    open spec fn view(&self) -> FrameModel {
        match self {
            Frame::Text(p) => FrameModel::Text(p@),
            Frame::Binary(p) => FrameModel::Binary(p@),
            Frame::Ping(p) => FrameModel::Ping(p@),
            Frame::Pong(p) => FrameModel::Pong(p@),
            Frame::Close(r) => FrameModel::Close(
                match r {
                    Some(cr) => Some(cr@),
                    None => None,
                },
            ),
        }
    }
}

/// What `decode_frame` returns for a given opcode and payload.
pub open spec fn frame_of(opcode: u8, payload: Seq<u8>) -> Result<FrameModel, FrameError> {
    if opcode == OPCODE_TEXT {
        Ok(FrameModel::Text(payload))
    } else if opcode == OPCODE_BINARY {
        Ok(FrameModel::Binary(payload))
    } else if opcode == OPCODE_PING {
        if payload.len() <= MAX_CONTROL_PAYLOAD {
            Ok(FrameModel::Ping(payload))
        } else {
            Err(FrameError::OversizedControl)
        }
    } else if opcode == OPCODE_PONG {
        if payload.len() <= MAX_CONTROL_PAYLOAD {
            Ok(FrameModel::Pong(payload))
        } else {
            Err(FrameError::OversizedControl)
        }
    } else if opcode == OPCODE_CLOSE {
        if payload.len() > MAX_CONTROL_PAYLOAD {
            Err(FrameError::OversizedControl)
        } else if payload.len() == 0 {
            Ok(FrameModel::Close(None))
        } else if payload.len() == 1 {
            Err(FrameError::TruncatedClose)
        } else {
            Ok(
                FrameModel::Close(
                    Some(
                        CloseReasonModel {
                            code: (payload[0] as int * 256 + payload[1] as int) as u16,
                            reason: payload.subrange(2, payload.len() as int),
                        },
                    ),
                ),
            )
        }
    } else {
        Err(FrameError::UnknownOpcode)
    }
}

/// Decodes a raw transport frame. Returns exactly `frame_of(opcode, payload@)`:
/// text and binary pass through unchanged, control frames are bounded, and a
/// close payload of two or more bytes starts with a big-endian status code.
pub fn decode_frame(opcode: u8, payload: Vec<u8>) -> (r: Result<Frame, FrameError>)
    ensures
        match r {
            Ok(f) => frame_of(opcode, payload@) matches Ok(m) && f@ == m,
            Err(e) => frame_of(opcode, payload@) matches Err(e2) && e == e2,
        },
{
    if opcode == OPCODE_TEXT {
        Ok(Frame::Text(payload))
    } else if opcode == OPCODE_BINARY {
        Ok(Frame::Binary(payload))
    } else if opcode == OPCODE_PING {
        if payload.len() <= MAX_CONTROL_PAYLOAD {
            Ok(Frame::Ping(payload))
        } else {
            Err(FrameError::OversizedControl)
        }
    } else if opcode == OPCODE_PONG {
        if payload.len() <= MAX_CONTROL_PAYLOAD {
            Ok(Frame::Pong(payload))
        } else {
            Err(FrameError::OversizedControl)
        }
    } else if opcode == OPCODE_CLOSE {
        if payload.len() > MAX_CONTROL_PAYLOAD {
            Err(FrameError::OversizedControl)
        } else if payload.len() == 0 {
            Ok(Frame::Close(None))
        } else if payload.len() == 1 {
            Err(FrameError::TruncatedClose)
        } else {
            let code: u16 = payload[0] as u16 * 256 + payload[1] as u16;
            let mut reason: Vec<u8> = Vec::new();
            let mut i: usize = 2;
            while i < payload.len()
                invariant
                    2 <= i <= payload.len(),
                    reason@ == payload@.subrange(2, i as int),
                decreases payload.len() - i,
            {
                reason.push(payload[i]);
                proof {
                    assert(payload@.subrange(2, i + 1 as int) == payload@.subrange(2, i as int).push(
                        payload@[i as int],
                    ));
                }
                i = i + 1;
            }
            Ok(Frame::Close(Some(CloseReason { code, reason })))
        }
    } else {
        Err(FrameError::UnknownOpcode)
    }
}

} // verus!
