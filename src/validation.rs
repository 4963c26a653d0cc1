use vstd::prelude::*;

use crate::error::ErrorCode;
use crate::frame::{
    flag, parse_payload, CONTINUATION, DATA, HEADERS, PADDED, PING, GOAWAY,
    PRIORITY, PUSH_PROMISE, RST_STREAM, SETTINGS, WINDOW_UPDATE, ACK,
};
use crate::setting::{setting_of, MIN_MAX_FRAME_SIZE};
use crate::uint::{u31_value_of, U24_MAX, U31_MAX};

verus! {

/// Frames that belong to a stream are rejected with PROTOCOL_ERROR when they
/// carry stream identifier 0.
pub proof fn lemma_stream_frame_needs_stream(kind: u8, flags: u8, p: Seq<u8>)
    requires
        kind == DATA || kind == HEADERS || kind == PRIORITY || kind == RST_STREAM || kind
            == PUSH_PROMISE || kind == CONTINUATION,
    ensures
        parse_payload(kind, flags, 0, p) == Err::<crate::frame::SpecFrame, ErrorCode>(
            ErrorCode::ProtocolError,
        ),
{
}

/// Frames that belong to the connection are rejected with PROTOCOL_ERROR when
/// they carry a non-zero stream identifier.
pub proof fn lemma_connection_frame_needs_no_stream(kind: u8, flags: u8, id: u32, p: Seq<u8>)
    requires
        kind == SETTINGS || kind == PING || kind == GOAWAY,
        id != 0,
    ensures
        parse_payload(kind, flags, id, p) == Err::<crate::frame::SpecFrame, ErrorCode>(
            ErrorCode::ProtocolError,
        ),
{
}

/// A WINDOW_UPDATE whose increment is zero is rejected with PROTOCOL_ERROR.
pub proof fn lemma_zero_window_increment(flags: u8, id: u32, p: Seq<u8>)
    requires
        p.len() == 4,
        u31_value_of(p) == 0,
    ensures
        parse_payload(WINDOW_UPDATE, flags, id, p) == Err::<crate::frame::SpecFrame, ErrorCode>(
            ErrorCode::ProtocolError,
        ),
{
}

/// A SETTINGS payload whose length is not a multiple of six, or a SETTINGS
/// acknowledgement with a payload, is rejected with FRAME_SIZE_ERROR.
pub proof fn lemma_settings_frame_size(flags: u8, p: Seq<u8>)
    requires
        p.len() % 6 != 0 || (flag(flags, ACK) && p.len() != 0),
    ensures
        parse_payload(SETTINGS, flags, 0, p) == Err::<crate::frame::SpecFrame, ErrorCode>(
            ErrorCode::FrameSizeError,
        ),
{
}

/// MAX_FRAME_SIZE outside `0x4000..=0xffffff`, and INITIAL_WINDOW_SIZE above the
/// largest 31-bit value, are rejected with PROTOCOL_ERROR.
pub proof fn lemma_setting_ranges(v: u32)
    ensures
        (v < MIN_MAX_FRAME_SIZE || v > U24_MAX) ==> setting_of(0x5, v) == Err::<
            crate::setting::Setting,
            ErrorCode,
        >(ErrorCode::ProtocolError),
        v > U31_MAX ==> setting_of(0x4, v) == Err::<crate::setting::Setting, ErrorCode>(
            ErrorCode::ProtocolError,
        ),
{
}

/// In a padded DATA, HEADERS or PUSH_PROMISE frame, an empty payload is a
/// FRAME_SIZE_ERROR, and a pad length that leaves no byte to pad is a
/// PROTOCOL_ERROR.
pub proof fn lemma_padding_errors(kind: u8, flags: u8, id: u32, p: Seq<u8>)
    requires
        kind == DATA || kind == HEADERS || kind == PUSH_PROMISE,
        id != 0,
        flag(flags, PADDED),
    ensures
        p.len() == 0 ==> parse_payload(kind, flags, id, p) == Err::<
            crate::frame::SpecFrame,
            ErrorCode,
        >(ErrorCode::FrameSizeError),
        p.len() > 0 && p[0] >= p.len() - 1 ==> parse_payload(kind, flags, id, p) == Err::<
            crate::frame::SpecFrame,
            ErrorCode,
        >(ErrorCode::ProtocolError),
{
}

} // verus!
