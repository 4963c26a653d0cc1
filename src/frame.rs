use vstd::prelude::*;

use crate::error::{code_of_value, code_value, code_wf, Error, ErrorCode};
use crate::setting::{push_setting, read_setting, setting_bytes, setting_of_bytes, setting_wf, Setting};
use crate::uint::{
    push_u24, push_u31, read_u24, read_u31, u24_bytes, u24_of, u31_value_of, u31_flag_of,
    u31_word, U24, U24_MAX, U31, U31_MAX,
};
use crate::wire::{
    copy_range, drop_front, push_all, push_u32, push_u64, push_zeros, read_u32, read_u64,
    u32_bytes, u32_of, u64_bytes, u64_of,
};

verus! {

broadcast use {
    U31::lemma_spec_new,
    U31::lemma_value_determines,
    U24::lemma_spec_new,
    U24::lemma_value_determines,
};

/// Frame type codes.
pub const DATA: u8 = 0x0;
pub const HEADERS: u8 = 0x1;
pub const PRIORITY: u8 = 0x2;
pub const RST_STREAM: u8 = 0x3;
pub const SETTINGS: u8 = 0x4;
pub const PUSH_PROMISE: u8 = 0x5;
pub const PING: u8 = 0x6;
pub const GOAWAY: u8 = 0x7;
pub const WINDOW_UPDATE: u8 = 0x8;
pub const CONTINUATION: u8 = 0x9;

/// Flag bits. ACK shares its bit with END_STREAM.
pub const END_STREAM: u8 = 0x1;
pub const ACK: u8 = 0x1;
pub const END_HEADERS: u8 = 0x4;
pub const PADDED: u8 = 0x8;
pub const PRIORITY_FLAG: u8 = 0x20;

/// One HTTP/2 frame. Each variant carries the fields meaningful to its type;
/// header block fragments are opaque bytes.
#[derive(Debug, Clone, PartialEq, Eq)]
#[allow(inconsistent_fields)]
pub enum Frame {
    Data { identifier: U31, end_stream: bool, pad_length: Option<u8>, data: Vec<u8> },
    /// `e`, `stream_dpendency` and `weight` are present exactly when the
    /// PRIORITY flag is set.
    Headers {
        identifier: U31,
        end_stream: bool,
        end_headers: bool,
        pad_length: Option<u8>,
        e: Option<bool>,
        stream_dpendency: Option<U31>,
        weight: Option<u8>,
        header_block_fragment: Vec<u8>,
    },
    Priority { identifier: U31, e: bool, stream_dpendency: U31, weight: u8 },
    RstStream { identifier: U31, error_code: ErrorCode },
    Settings { ack: bool, settings: Vec<Setting> },
    PushPromise {
        identifier: U31,
        end_headers: bool,
        pad_length: Option<u8>,
        promised_stream_id: U31,
        header_block_fragment: Vec<u8>,
    },
    Ping { ack: bool, opaque_data: u64 },
    Goaway { last_stream_id: U31, error_code: ErrorCode, additional_debug_data: Vec<u8> },
    WindowUpdate { identifier: U31, window_size_increment: U31 },
    Continuation { identifier: U31, end_headers: bool, header_block_fragment: Vec<u8> },
    /// A frame of a type this codec does not know, kept as it came.
    Unknown { identifier: U31, kind: u8, flags: u8, payload: Vec<u8> },
}

/// The mathematical value of a [`Frame`]: byte vectors become sequences.
#[allow(inconsistent_fields)]
pub enum SpecFrame {
    Data { identifier: U31, end_stream: bool, pad_length: Option<u8>, data: Seq<u8> },
    Headers {
        identifier: U31,
        end_stream: bool,
        end_headers: bool,
        pad_length: Option<u8>,
        e: Option<bool>,
        stream_dpendency: Option<U31>,
        weight: Option<u8>,
        header_block_fragment: Seq<u8>,
    },
    Priority { identifier: U31, e: bool, stream_dpendency: U31, weight: u8 },
    RstStream { identifier: U31, error_code: ErrorCode },
    Settings { ack: bool, settings: Seq<Setting> },
    PushPromise {
        identifier: U31,
        end_headers: bool,
        pad_length: Option<u8>,
        promised_stream_id: U31,
        header_block_fragment: Seq<u8>,
    },
    Ping { ack: bool, opaque_data: u64 },
    Goaway { last_stream_id: U31, error_code: ErrorCode, additional_debug_data: Seq<u8> },
    WindowUpdate { identifier: U31, window_size_increment: U31 },
    Continuation { identifier: U31, end_headers: bool, header_block_fragment: Seq<u8> },
    Unknown { identifier: U31, kind: u8, flags: u8, payload: Seq<u8> },
}

impl View for Frame {
    type V = SpecFrame;

    open spec fn view(&self) -> SpecFrame {
        match self {
            Frame::Data { identifier, end_stream, pad_length, data } => SpecFrame::Data {
                identifier: *identifier,
                end_stream: *end_stream,
                pad_length: *pad_length,
                data: data@,
            },
            Frame::Headers {
                identifier,
                end_stream,
                end_headers,
                pad_length,
                e,
                stream_dpendency,
                weight,
                header_block_fragment,
            } => SpecFrame::Headers {
                identifier: *identifier,
                end_stream: *end_stream,
                end_headers: *end_headers,
                pad_length: *pad_length,
                e: *e,
                stream_dpendency: *stream_dpendency,
                weight: *weight,
                header_block_fragment: header_block_fragment@,
            },
            Frame::Priority { identifier, e, stream_dpendency, weight } => SpecFrame::Priority {
                identifier: *identifier,
                e: *e,
                stream_dpendency: *stream_dpendency,
                weight: *weight,
            },
            Frame::RstStream { identifier, error_code } => SpecFrame::RstStream {
                identifier: *identifier,
                error_code: *error_code,
            },
            Frame::Settings { ack, settings } => SpecFrame::Settings {
                ack: *ack,
                settings: settings@,
            },
            Frame::PushPromise {
                identifier,
                end_headers,
                pad_length,
                promised_stream_id,
                header_block_fragment,
            } => SpecFrame::PushPromise {
                identifier: *identifier,
                end_headers: *end_headers,
                pad_length: *pad_length,
                promised_stream_id: *promised_stream_id,
                header_block_fragment: header_block_fragment@,
            },
            Frame::Ping { ack, opaque_data } => SpecFrame::Ping {
                ack: *ack,
                opaque_data: *opaque_data,
            },
            Frame::Goaway { last_stream_id, error_code, additional_debug_data } =>
                SpecFrame::Goaway {
                last_stream_id: *last_stream_id,
                error_code: *error_code,
                additional_debug_data: additional_debug_data@,
            },
            Frame::WindowUpdate { identifier, window_size_increment } => SpecFrame::WindowUpdate {
                identifier: *identifier,
                window_size_increment: *window_size_increment,
            },
            Frame::Continuation { identifier, end_headers, header_block_fragment } =>
                SpecFrame::Continuation {
                identifier: *identifier,
                end_headers: *end_headers,
                header_block_fragment: header_block_fragment@,
            },
            Frame::Unknown { identifier, kind, flags, payload } => SpecFrame::Unknown {
                identifier: *identifier,
                kind: *kind,
                flags: *flags,
                payload: payload@,
            },
        }
    }
}

// ----- The wire form of a frame -----

/// `v` when `b` holds, else no bit.
pub open spec fn bit(b: bool, v: u8) -> u8 {
    if b {
        v
    } else {
        0
    }
}

/// The flags byte with END_STREAM (or ACK), END_HEADERS, PADDED and PRIORITY as given.
pub open spec fn flag_bits(end_stream: bool, end_headers: bool, padded: bool, priority: bool) -> u8 {
    bit(end_stream, END_STREAM) | bit(end_headers, END_HEADERS) | bit(padded, PADDED) | bit(
        priority,
        PRIORITY_FLAG,
    )
}

/// Whether the flags byte has `mask` set.
pub open spec fn flag(flags: u8, mask: u8) -> bool {
    flags & mask != 0
}

/// The pad-length byte of a padded payload.
pub open spec fn pad_prefix(pad_length: Option<u8>) -> Seq<u8> {
    match pad_length {
        Some(n) => seq![n],
        None => Seq::empty(),
    }
}

/// The zero bytes that end a padded payload.
pub open spec fn pad_suffix(pad_length: Option<u8>) -> Seq<u8> {
    match pad_length {
        Some(n) => Seq::new(n as nat, |i: int| 0u8),
        None => Seq::empty(),
    }
}

/// The six bytes of each setting, in order.
pub open spec fn settings_bytes(s: Seq<Setting>) -> Seq<u8>
    decreases s.len(),
{
    if s.len() == 0 {
        Seq::empty()
    } else {
        settings_bytes(s.drop_last()) + setting_bytes(s.last())
    }
}

/// The type code of a frame.
pub open spec fn kind_of(f: SpecFrame) -> u8 {
    match f {
        SpecFrame::Data { .. } => DATA,
        SpecFrame::Headers { .. } => HEADERS,
        SpecFrame::Priority { .. } => PRIORITY,
        SpecFrame::RstStream { .. } => RST_STREAM,
        SpecFrame::Settings { .. } => SETTINGS,
        SpecFrame::PushPromise { .. } => PUSH_PROMISE,
        SpecFrame::Ping { .. } => PING,
        SpecFrame::Goaway { .. } => GOAWAY,
        SpecFrame::WindowUpdate { .. } => WINDOW_UPDATE,
        SpecFrame::Continuation { .. } => CONTINUATION,
        SpecFrame::Unknown { kind, .. } => kind,
    }
}

/// The flags byte of a frame.
pub open spec fn flags_of(f: SpecFrame) -> u8 {
    match f {
        SpecFrame::Data { end_stream, pad_length, .. } => flag_bits(
            end_stream,
            false,
            pad_length is Some,
            false,
        ),
        SpecFrame::Headers { end_stream, end_headers, pad_length, e, .. } => flag_bits(
            end_stream,
            end_headers,
            pad_length is Some,
            e is Some,
        ),
        SpecFrame::Settings { ack, .. } => flag_bits(ack, false, false, false),
        SpecFrame::PushPromise { end_headers, pad_length, .. } => flag_bits(
            false,
            end_headers,
            pad_length is Some,
            false,
        ),
        SpecFrame::Ping { ack, .. } => flag_bits(ack, false, false, false),
        SpecFrame::Continuation { end_headers, .. } => flag_bits(false, end_headers, false, false),
        SpecFrame::Unknown { flags, .. } => flags,
        _ => 0,
    }
}

/// The stream identifier in a frame's header; connection frames carry 0.
pub open spec fn stream_of(f: SpecFrame) -> u32 {
    match f {
        SpecFrame::Data { identifier, .. } => identifier.value(),
        SpecFrame::Headers { identifier, .. } => identifier.value(),
        SpecFrame::Priority { identifier, .. } => identifier.value(),
        SpecFrame::RstStream { identifier, .. } => identifier.value(),
        SpecFrame::PushPromise { identifier, .. } => identifier.value(),
        SpecFrame::WindowUpdate { identifier, .. } => identifier.value(),
        SpecFrame::Continuation { identifier, .. } => identifier.value(),
        SpecFrame::Unknown { identifier, .. } => identifier.value(),
        _ => 0,
    }
}

/// The priority fields of HEADERS: a dependency word and a weight, when present.
pub open spec fn priority_bytes(e: Option<bool>, dep: Option<U31>, weight: Option<u8>) -> Seq<u8> {
    match (e, dep, weight) {
        (Some(e), Some(d), Some(w)) => u32_bytes(u31_word(e, d.value())) + seq![w],
        _ => Seq::empty(),
    }
}

/// The payload of a frame; padding is written as zero bytes.
pub open spec fn payload_of(f: SpecFrame) -> Seq<u8> {
    match f {
        SpecFrame::Data { pad_length, data, .. } => pad_prefix(pad_length) + data + pad_suffix(
            pad_length,
        ),
        SpecFrame::Headers { pad_length, e, stream_dpendency, weight, header_block_fragment, .. } =>
            pad_prefix(pad_length) + priority_bytes(e, stream_dpendency, weight)
            + header_block_fragment + pad_suffix(pad_length),
        SpecFrame::Priority { e, stream_dpendency, weight, .. } => u32_bytes(
            u31_word(e, stream_dpendency.value()),
        ) + seq![weight],
        SpecFrame::RstStream { error_code, .. } => u32_bytes(code_value(error_code)),
        SpecFrame::Settings { settings, .. } => settings_bytes(settings),
        SpecFrame::PushPromise { pad_length, promised_stream_id, header_block_fragment, .. } =>
            pad_prefix(pad_length) + u32_bytes(promised_stream_id.value()) + header_block_fragment
            + pad_suffix(pad_length),
        SpecFrame::Ping { opaque_data, .. } => u64_bytes(opaque_data),
        SpecFrame::Goaway { last_stream_id, error_code, additional_debug_data } => u32_bytes(
            last_stream_id.value(),
        ) + u32_bytes(code_value(error_code)) + additional_debug_data,
        SpecFrame::WindowUpdate { window_size_increment, .. } => u32_bytes(
            window_size_increment.value(),
        ),
        SpecFrame::Continuation { header_block_fragment, .. } => header_block_fragment,
        SpecFrame::Unknown { payload, .. } => payload,
    }
}

/// The nine-byte header that announces a payload of `len` bytes.
pub open spec fn header_bytes(len: u32, kind: u8, flags: u8, stream: u32) -> Seq<u8> {
    u24_bytes(len) + seq![kind, flags] + u32_bytes(stream)
}

/// The bytes of a frame on the wire: header, then payload.
pub open spec fn frame_bytes(f: SpecFrame) -> Seq<u8> {
    header_bytes(payload_of(f).len() as u32, kind_of(f), flags_of(f), stream_of(f)) + payload_of(f)
}

/// What the encoder insists on: the priority fields of HEADERS all present or all
/// absent, and no settings in a SETTINGS acknowledgement.
pub open spec fn frame_consistent(f: SpecFrame) -> bool {
    match f {
        SpecFrame::Headers { e, stream_dpendency, weight, .. } => (e is Some) == (
        stream_dpendency is Some) && (e is Some) == (weight is Some),
        SpecFrame::Settings { ack, settings } => ack ==> settings.len() == 0,
        _ => true,
    }
}

/// A stream identifier that names a stream, not the connection.
pub open spec fn stream_id_ok(id: U31) -> bool {
    0 < id.value() <= U31_MAX
}

/// A frame that the decoder reads back as itself: consistent, within the size a
/// header can announce, with stream identifiers where its type calls for them,
/// padding shorter than what it pads, a non-zero window increment, well-formed
/// settings and error codes, and `Unknown` keeping to unknown type codes.
pub open spec fn frame_wf(f: SpecFrame) -> bool {
    &&& frame_consistent(f)
    &&& payload_of(f).len() <= U24_MAX
    &&& match f {
        SpecFrame::Data { identifier, pad_length, data, .. } => stream_id_ok(identifier) && (
        pad_length is Some ==> data.len() > 0),
        SpecFrame::Headers { identifier, pad_length, e, stream_dpendency, header_block_fragment, .. } =>
            stream_id_ok(identifier) && (pad_length is Some ==> (e is Some
            || header_block_fragment.len() > 0)) && (stream_dpendency matches Some(d) ==> d.value()
            <= U31_MAX),
        SpecFrame::Priority { identifier, stream_dpendency, .. } => stream_id_ok(identifier)
            && stream_dpendency.value() <= U31_MAX,
        SpecFrame::RstStream { identifier, error_code } => stream_id_ok(identifier) && code_wf(
            error_code,
        ),
        SpecFrame::Settings { settings, .. } => forall|i: int|
            0 <= i < settings.len() ==> setting_wf(#[trigger] settings[i]),
        SpecFrame::PushPromise { identifier, promised_stream_id, .. } => stream_id_ok(identifier)
            && promised_stream_id.value() <= U31_MAX,
        SpecFrame::Ping { .. } => true,
        SpecFrame::Goaway { last_stream_id, error_code, .. } => last_stream_id.value() <= U31_MAX
            && code_wf(error_code),
        SpecFrame::WindowUpdate { identifier, window_size_increment } => identifier.value()
            <= U31_MAX && 0 < window_size_increment.value() <= U31_MAX,
        SpecFrame::Continuation { identifier, .. } => stream_id_ok(identifier),
        SpecFrame::Unknown { identifier, kind, .. } => identifier.value() <= U31_MAX && kind > 9,
    }
}

// ----- Reading a frame -----

/// Splits a padded payload into its pad length and the bytes it pads: an empty
/// payload is a FRAME_SIZE_ERROR, padding that leaves nothing a PROTOCOL_ERROR.
pub open spec fn padding_split(p: Seq<u8>) -> Result<(u8, Seq<u8>), ErrorCode> {
    if p.len() < 1 {
        Err(ErrorCode::FrameSizeError)
    } else if p.len() - 1 <= p[0] {
        Err(ErrorCode::ProtocolError)
    } else {
        Ok((p[0], p.subrange(1, p.len() - p[0])))
    }
}

/// The pad length and the padded bytes of a payload whose flags may say PADDED.
pub open spec fn unpad(flags: u8, p: Seq<u8>) -> Result<(Option<u8>, Seq<u8>), ErrorCode> {
    if flag(flags, PADDED) {
        match padding_split(p) {
            Ok((n, body)) => Ok((Some(n), body)),
            Err(c) => Err(c),
        }
    } else {
        Ok((None, p))
    }
}

/// The first `n` settings of a SETTINGS payload, or the error of the first that
/// is rejected.
pub open spec fn settings_prefix(p: Seq<u8>, n: nat) -> Result<Seq<Setting>, ErrorCode>
    decreases n,
{
    if n == 0 {
        Ok(Seq::empty())
    } else {
        match settings_prefix(p, (n - 1) as nat) {
            Err(c) => Err(c),
            Ok(acc) => match setting_of_bytes(p.subrange(6 * (n - 1), p.len() as int)) {
                Err(c) => Err(c),
                Ok(s) => Ok(acc.push(s)),
            },
        }
    }
}

/// The frame that a header's type, flags and stream identifier together with a
/// payload stand for, or the error that rejects them.
pub open spec fn parse_payload(kind: u8, flags: u8, id: u32, p: Seq<u8>) -> Result<
    SpecFrame,
    ErrorCode,
> {
    let identifier = U31::spec_new(id);
    if kind == DATA {
        if id == 0 {
            Err(ErrorCode::ProtocolError)
        } else {
            match unpad(flags, p) {
                Err(c) => Err(c),
                Ok((pad_length, body)) => Ok(
                    SpecFrame::Data {
                        identifier,
                        end_stream: flag(flags, END_STREAM),
                        pad_length,
                        data: body,
                    },
                ),
            }
        }
    } else if kind == HEADERS {
        if id == 0 {
            Err(ErrorCode::ProtocolError)
        } else {
            match unpad(flags, p) {
                Err(c) => Err(c),
                Ok((pad_length, body)) => if flag(flags, PRIORITY_FLAG) {
                    if body.len() < 5 {
                        Err(ErrorCode::FrameSizeError)
                    } else {
                        Ok(
                            SpecFrame::Headers {
                                identifier,
                                end_stream: flag(flags, END_STREAM),
                                end_headers: flag(flags, END_HEADERS),
                                pad_length,
                                e: Some(u31_flag_of(body)),
                                stream_dpendency: Some(U31::spec_new(u31_value_of(body))),
                                weight: Some(body[4]),
                                header_block_fragment: body.subrange(5, body.len() as int),
                            },
                        )
                    }
                } else {
                    Ok(
                        SpecFrame::Headers {
                            identifier,
                            end_stream: flag(flags, END_STREAM),
                            end_headers: flag(flags, END_HEADERS),
                            pad_length,
                            e: None,
                            stream_dpendency: None,
                            weight: None,
                            header_block_fragment: body,
                        },
                    )
                },
            }
        }
    } else if kind == PRIORITY {
        if id == 0 {
            Err(ErrorCode::ProtocolError)
        } else if p.len() != 5 {
            Err(ErrorCode::FrameSizeError)
        } else {
            Ok(
                SpecFrame::Priority {
                    identifier,
                    e: u31_flag_of(p),
                    stream_dpendency: U31::spec_new(u31_value_of(p)),
                    weight: p[4],
                },
            )
        }
    } else if kind == RST_STREAM {
        if id == 0 {
            Err(ErrorCode::ProtocolError)
        } else if p.len() != 4 {
            Err(ErrorCode::FrameSizeError)
        } else {
            Ok(SpecFrame::RstStream { identifier, error_code: code_of_value(u32_of(p)) })
        }
    } else if kind == SETTINGS {
        if id != 0 {
            Err(ErrorCode::ProtocolError)
        } else if p.len() % 6 != 0 {
            Err(ErrorCode::FrameSizeError)
        } else if flag(flags, ACK) && p.len() != 0 {
            Err(ErrorCode::FrameSizeError)
        } else {
            match settings_prefix(p, p.len() / 6) {
                Err(c) => Err(c),
                Ok(settings) => Ok(SpecFrame::Settings { ack: flag(flags, ACK), settings }),
            }
        }
    } else if kind == PUSH_PROMISE {
        if id == 0 {
            Err(ErrorCode::ProtocolError)
        } else {
            match unpad(flags, p) {
                Err(c) => Err(c),
                Ok((pad_length, body)) => if body.len() < 4 {
                    Err(ErrorCode::FrameSizeError)
                } else {
                    Ok(
                        SpecFrame::PushPromise {
                            identifier,
                            end_headers: flag(flags, END_HEADERS),
                            pad_length,
                            promised_stream_id: U31::spec_new(u31_value_of(body)),
                            header_block_fragment: body.subrange(4, body.len() as int),
                        },
                    )
                },
            }
        }
    } else if kind == PING {
        if id != 0 {
            Err(ErrorCode::ProtocolError)
        } else if p.len() != 8 {
            Err(ErrorCode::FrameSizeError)
        } else {
            Ok(SpecFrame::Ping { ack: flag(flags, ACK), opaque_data: u64_of(p) })
        }
    } else if kind == GOAWAY {
        if id != 0 {
            Err(ErrorCode::ProtocolError)
        } else if p.len() < 8 {
            Err(ErrorCode::FrameSizeError)
        } else {
            Ok(
                SpecFrame::Goaway {
                    last_stream_id: U31::spec_new(u31_value_of(p)),
                    error_code: code_of_value(u32_of(p.subrange(4, p.len() as int))),
                    additional_debug_data: p.subrange(8, p.len() as int),
                },
            )
        }
    } else if kind == WINDOW_UPDATE {
        if p.len() != 4 {
            Err(ErrorCode::FrameSizeError)
        } else if u31_value_of(p) == 0 {
            Err(ErrorCode::ProtocolError)
        } else {
            Ok(
                SpecFrame::WindowUpdate {
                    identifier,
                    window_size_increment: U31::spec_new(u31_value_of(p)),
                },
            )
        }
    } else if kind == CONTINUATION {
        if id == 0 {
            Err(ErrorCode::ProtocolError)
        } else {
            Ok(
                SpecFrame::Continuation {
                    identifier,
                    end_headers: flag(flags, END_HEADERS),
                    header_block_fragment: p,
                },
            )
        }
    } else {
        Ok(SpecFrame::Unknown { identifier, kind, flags, payload: p })
    }
}

/// What one step of the decoder does: from the length it holds (if any) and the
/// bytes offered, the length it then holds, the bytes it leaves, and the frame or
/// error it produced (`None` while the frame is incomplete).
pub open spec fn decode_step(pending: Option<u32>, s: Seq<u8>) -> (
    Option<u32>,
    Seq<u8>,
    Option<Result<SpecFrame, ErrorCode>>,
) {
    match pending {
        Some(len) => frame_step(len, s),
        None => if s.len() < 3 {
            (None, s, None)
        } else {
            frame_step(u24_of(s), s.subrange(3, s.len() as int))
        },
    }
}

/// The decoder's step once the payload length `len` is known.
pub open spec fn frame_step(len: u32, s: Seq<u8>) -> (
    Option<u32>,
    Seq<u8>,
    Option<Result<SpecFrame, ErrorCode>>,
) {
    if s.len() < 6 + len {
        (Some(len), s, None)
    } else {
        (
            None,
            s.subrange(6 + len, s.len() as int),
            Some(parse_payload(s[0], s[1], u31_value_of(s.subrange(2, s.len() as int)), s.subrange(6, 6 + len))),
        )
    }
}

/// The view of a frame result.
pub open spec fn result_view(r: Result<Frame, ErrorCode>) -> Result<SpecFrame, ErrorCode> {
    match r {
        Ok(f) => Ok(f@),
        Err(c) => Err(c),
    }
}

// ----- The decoder -----

/// Removes the padding of a PADDED payload: its first byte gives the number of
/// padding bytes at its end. On success `payload` keeps only the padded bytes;
/// on error it is left as it was.
fn strip_padding(payload: &mut Vec<u8>) -> (r: Result<u8, ErrorCode>)
    ensures
        match padding_split(old(payload)@) {
            Ok((n, body)) => r == Ok::<u8, ErrorCode>(n) && final(payload)@ == body,
            Err(c) => r == Err::<u8, ErrorCode>(c) && final(payload)@ == old(payload)@,
        },
{
    if payload.len() < 1 {
        return Err(ErrorCode::FrameSizeError);
    }
    let n = payload[0];
    if payload.len() - 1 <= n as usize {
        return Err(ErrorCode::ProtocolError);
    }
    let ghost before = payload@;
    payload.remove(0);
    let keep = payload.len() - n as usize;
    payload.truncate(keep);
    assert(payload@ =~= before.subrange(1, before.len() - n));
    Ok(n)
}

/// Removes the padding of a PADDED payload, as `strip_padding` does, and reports a
/// rejection as an HTTP/2 error.
pub fn eat_padding(payload: &mut Vec<u8>) -> (r: Result<u8, Error>)
    ensures
        match padding_split(old(payload)@) {
            Ok((n, body)) => r == Ok::<u8, Error>(n) && final(payload)@ == body,
            Err(c) => r == Err::<u8, Error>(Error::Http(c)) && final(payload)@ == old(payload)@,
        },
{
    match strip_padding(payload) {
        Ok(n) => Ok(n),
        Err(c) => Err(Error::Http(c)),
    }
}

/// Removes the padding when `flags` say PADDED.
fn take_padding(flags: u8, payload: &mut Vec<u8>) -> (r: Result<Option<u8>, ErrorCode>)
    ensures
        match unpad(flags, old(payload)@) {
            Ok((n, body)) => r == Ok::<Option<u8>, ErrorCode>(n) && final(payload)@ == body,
            Err(c) => r == Err::<Option<u8>, ErrorCode>(c),
        },
{
    if flags & PADDED != 0 {
        match strip_padding(payload) {
            Ok(n) => Ok(Some(n)),
            Err(c) => Err(c),
        }
    } else {
        Ok(None)
    }
}

/// Once a setting is rejected, every longer prefix is rejected with its error.
proof fn lemma_settings_prefix_err(p: Seq<u8>, k: nat, n: nat)
    requires
        k <= n,
        settings_prefix(p, k) is Err,
    ensures
        settings_prefix(p, n) == settings_prefix(p, k),
    decreases n - k,
{
    if k < n {
        lemma_settings_prefix_err(p, k, (n - 1) as nat);
    }
}

/// Reads the settings of a SETTINGS payload whose length is a multiple of six.
fn read_settings(payload: &[u8]) -> (r: Result<Vec<Setting>, ErrorCode>)
    requires
        payload@.len() % 6 == 0,
    ensures
        match settings_prefix(payload@, payload@.len() / 6) {
            Ok(s) => r matches Ok(v) && v@ == s,
            Err(c) => r == Err::<Vec<Setting>, ErrorCode>(c),
        },
{
    let total = payload.len();
    let n = total / 6;
    let mut settings: Vec<Setting> = Vec::with_capacity(n);
    let mut i: usize = 0;
    while i < n
        invariant
            i <= n,
            total == payload@.len(),
            n == total / 6,
            settings_prefix(payload@, i as nat) == Ok::<Seq<Setting>, ErrorCode>(settings@),
        decreases n - i,
    {
        assert(6 * i + 6 <= total) by (nonlinear_arith)
            requires
                i < n,
                n == total / 6,
        ;
        match read_setting(payload, 6 * i) {
            Ok(s) => {
                settings.push(s);
            },
            Err(c) => {
                proof {
                    lemma_settings_prefix_err(payload@, (i + 1) as nat, n as nat);
                }
                return Err(c);
            },
        }
        i = i + 1;
    }
    Ok(settings)
}

/// Reads the frame that a header's type, flags and stream identifier together
/// with `payload` stand for.
fn decode_payload(kind: u8, flags: u8, identifier: U31, payload: Vec<u8>) -> (r: Result<
    Frame,
    ErrorCode,
>)
    ensures
        result_view(r) == parse_payload(kind, flags, identifier.value(), payload@),
{
    let id = identifier.as_u32();
    let mut payload = payload;
    let ghost p = payload@;
    if kind == DATA {
        if id == 0 {
            return Err(ErrorCode::ProtocolError);
        }
        let pad_length = match take_padding(flags, &mut payload) {
            Ok(n) => n,
            Err(c) => return Err(c),
        };
        Ok(
            Frame::Data {
                identifier,
                end_stream: flags & END_STREAM != 0,
                pad_length,
                data: payload,
            },
        )
    } else if kind == HEADERS {
        if id == 0 {
            return Err(ErrorCode::ProtocolError);
        }
        let pad_length = match take_padding(flags, &mut payload) {
            Ok(n) => n,
            Err(c) => return Err(c),
        };
        if flags & PRIORITY_FLAG != 0 {
            if payload.len() < 5 {
                return Err(ErrorCode::FrameSizeError);
            }
            let (e, dependency) = read_u31(payload.as_slice(), 0);
            let weight = payload[4];
            let header_block_fragment = copy_range(payload.as_slice(), 5, payload.len());
            assert(payload@.subrange(0, payload@.len() as int) =~= payload@);
            Ok(
                Frame::Headers {
                    identifier,
                    end_stream: flags & END_STREAM != 0,
                    end_headers: flags & END_HEADERS != 0,
                    pad_length,
                    e: Some(e),
                    stream_dpendency: Some(dependency),
                    weight: Some(weight),
                    header_block_fragment,
                },
            )
        } else {
            Ok(
                Frame::Headers {
                    identifier,
                    end_stream: flags & END_STREAM != 0,
                    end_headers: flags & END_HEADERS != 0,
                    pad_length,
                    e: None,
                    stream_dpendency: None,
                    weight: None,
                    header_block_fragment: payload,
                },
            )
        }
    } else if kind == PRIORITY {
        if id == 0 {
            return Err(ErrorCode::ProtocolError);
        }
        if payload.len() != 5 {
            return Err(ErrorCode::FrameSizeError);
        }
        let (e, dependency) = read_u31(payload.as_slice(), 0);
        assert(payload@.subrange(0, payload@.len() as int) =~= payload@);
        Ok(Frame::Priority { identifier, e, stream_dpendency: dependency, weight: payload[4] })
    } else if kind == RST_STREAM {
        if id == 0 {
            return Err(ErrorCode::ProtocolError);
        }
        if payload.len() != 4 {
            return Err(ErrorCode::FrameSizeError);
        }
        let code = read_u32(payload.as_slice(), 0);
        assert(payload@.subrange(0, payload@.len() as int) =~= payload@);
        Ok(Frame::RstStream { identifier, error_code: ErrorCode::from_value(code) })
    } else if kind == SETTINGS {
        if id != 0 {
            return Err(ErrorCode::ProtocolError);
        }
        if payload.len() % 6 != 0 {
            return Err(ErrorCode::FrameSizeError);
        }
        let ack = flags & ACK != 0;
        if ack && payload.len() != 0 {
            return Err(ErrorCode::FrameSizeError);
        }
        match read_settings(payload.as_slice()) {
            Ok(settings) => Ok(Frame::Settings { ack, settings }),
            Err(c) => Err(c),
        }
    } else if kind == PUSH_PROMISE {
        if id == 0 {
            return Err(ErrorCode::ProtocolError);
        }
        let pad_length = match take_padding(flags, &mut payload) {
            Ok(n) => n,
            Err(c) => return Err(c),
        };
        if payload.len() < 4 {
            return Err(ErrorCode::FrameSizeError);
        }
        let (_, promised_stream_id) = read_u31(payload.as_slice(), 0);
        let header_block_fragment = copy_range(payload.as_slice(), 4, payload.len());
        assert(payload@.subrange(0, payload@.len() as int) =~= payload@);
        Ok(
            Frame::PushPromise {
                identifier,
                end_headers: flags & END_HEADERS != 0,
                pad_length,
                promised_stream_id,
                header_block_fragment,
            },
        )
    } else if kind == PING {
        if id != 0 {
            return Err(ErrorCode::ProtocolError);
        }
        if payload.len() != 8 {
            return Err(ErrorCode::FrameSizeError);
        }
        let opaque_data = read_u64(payload.as_slice(), 0);
        assert(payload@.subrange(0, payload@.len() as int) =~= payload@);
        Ok(Frame::Ping { ack: flags & ACK != 0, opaque_data })
    } else if kind == GOAWAY {
        if id != 0 {
            return Err(ErrorCode::ProtocolError);
        }
        if payload.len() < 8 {
            return Err(ErrorCode::FrameSizeError);
        }
        let (_, last_stream_id) = read_u31(payload.as_slice(), 0);
        let code = read_u32(payload.as_slice(), 4);
        let additional_debug_data = copy_range(payload.as_slice(), 8, payload.len());
        assert(payload@.subrange(0, payload@.len() as int) =~= payload@);
        Ok(
            Frame::Goaway {
                last_stream_id,
                error_code: ErrorCode::from_value(code),
                additional_debug_data,
            },
        )
    } else if kind == WINDOW_UPDATE {
        if payload.len() != 4 {
            return Err(ErrorCode::FrameSizeError);
        }
        let (_, window_size_increment) = read_u31(payload.as_slice(), 0);
        assert(payload@.subrange(0, payload@.len() as int) =~= payload@);
        if window_size_increment.as_u32() == 0 {
            return Err(ErrorCode::ProtocolError);
        }
        Ok(Frame::WindowUpdate { identifier, window_size_increment })
    } else if kind == CONTINUATION {
        if id == 0 {
            return Err(ErrorCode::ProtocolError);
        }
        Ok(
            Frame::Continuation {
                identifier,
                end_headers: flags & END_HEADERS != 0,
                header_block_fragment: payload,
            },
        )
    } else {
        Ok(Frame::Unknown { identifier, kind, flags, payload })
    }
}

impl Frame {
    /// Whether the encoder accepts the frame: the priority fields of HEADERS all
    /// present or all absent, and no settings in a SETTINGS acknowledgement.
    pub fn is_consistent(&self) -> (r: bool)
        ensures
            r == frame_consistent(self@),
    {
        match self {
            Frame::Headers { e, stream_dpendency, weight, .. } => e.is_some()
                == stream_dpendency.is_some() && e.is_some() == weight.is_some(),
            Frame::Settings { ack, settings } => !*ack || settings.len() == 0,
            _ => true,
        }
    }
}

/// Turns a byte stream into frames and frames into bytes.
///
/// The decoder first reads a frame's 24-bit length, then waits until the rest
/// of the header and the whole payload are there.
pub struct FrameCodec {
    length: Option<U24>,
}

impl FrameCodec {
    /// The payload length read from a frame header whose payload has not all
    /// arrived yet.
    pub closed spec fn pending(&self) -> Option<u32> {
        match self.length {
            Some(l) => Some(l.value()),
            None => None,
        }
    }

    /// A decoder waiting for the start of a frame.
    pub fn new() -> (r: FrameCodec)
        ensures
            r.pending() == None::<u32>,
    {
        FrameCodec { length: None }
    }

    /// Takes the next frame off the front of `src`.
    ///
    /// `Ok(None)` while the frame is incomplete: the bytes of the length field, once
    /// read, are kept in the decoder. Once the whole frame is there its bytes are
    /// taken and the decoder waits for the next one, whether the frame was read
    /// or rejected with an HTTP/2 error code.
    pub fn decode(&mut self, src: &mut Vec<u8>) -> (r: Result<Option<Frame>, Error>)
        ensures
            ({
                let (pending, rest, out) = decode_step(old(self).pending(), old(src)@);
                &&& final(self).pending() == pending
                &&& final(src)@ == rest
                &&& match out {
                    None => r matches Ok(None),
                    Some(Ok(f)) => r matches Ok(Some(g)) && g@ == f,
                    Some(Err(c)) => r matches Err(Error::Http(d)) && d == c,
                }
            }),
    {
        let len: u32 = match self.length {
            Some(l) => l.as_u32(),
            None => {
                if src.len() < 3 {
                    return Ok(None);
                }
                let l = read_u24(src.as_slice(), 0);
                assert(src@.subrange(0, src@.len() as int) =~= src@);
                drop_front(src, 3);
                self.length = Some(l);
                l.as_u32()
            },
        };
        let plen = len as usize;
        if src.len() < 6 + plen {
            return Ok(None);
        }
        let kind = src[0];
        let flags = src[1];
        let (_, identifier) = read_u31(src.as_slice(), 2);
        let payload = copy_range(src.as_slice(), 6, 6 + plen);
        drop_front(src, 6 + plen);
        self.length = None;
        match decode_payload(kind, flags, identifier, payload) {
            Ok(f) => Ok(Some(f)),
            Err(c) => Err(Error::Http(c)),
        }
    }

    /// Appends the bytes of `item`: its header, with the payload length counted,
    /// and its payload, with padding written as zero bytes and reserved bits as
    /// zero. A payload longer than a header can announce is a FRAME_SIZE_ERROR, and
    /// nothing is written.
    pub fn encode(&mut self, item: Frame, dst: &mut Vec<u8>) -> (r: Result<(), Error>)
        requires
            frame_consistent(item@),
        ensures
            payload_of(item@).len() <= U24_MAX ==> (r matches Ok(())) && final(dst)@ == old(
                dst,
            )@ + frame_bytes(item@),
            payload_of(item@).len() > U24_MAX ==> (r matches Err(Error::Http(
                ErrorCode::FrameSizeError,
            ))) && final(dst)@ == old(dst)@,
    {
        let mut payload: Vec<u8> = Vec::new();
        encode_payload(&item, &mut payload);
        assert(payload@ =~= payload_of(item@));
        if payload.len() > U24_MAX as usize {
            return Err(Error::Http(ErrorCode::FrameSizeError));
        }
        let (kind, flags, stream) = header_fields(&item);
        push_u24(dst, U24::new(payload.len() as u32));
        dst.push(kind);
        dst.push(flags);
        push_u32(dst, stream);
        push_all(dst, payload.as_slice());
        assert(final(dst)@ =~= old(dst)@ + frame_bytes(item@));
        Ok(())
    }
}

impl Default for FrameCodec {
    fn default() -> (r: FrameCodec)
        ensures
            r.pending() == None::<u32>,
    {
        FrameCodec::new()
    }
}

/// The flags byte with END_STREAM (or ACK), END_HEADERS, PADDED and PRIORITY as given.
fn make_flags(end_stream: bool, end_headers: bool, padded: bool, priority: bool) -> (r: u8)
    ensures
        r == flag_bits(end_stream, end_headers, padded, priority),
{
    let a: u8 = if end_stream {
        END_STREAM
    } else {
        0
    };
    let b: u8 = if end_headers {
        END_HEADERS
    } else {
        0
    };
    let c: u8 = if padded {
        PADDED
    } else {
        0
    };
    let d: u8 = if priority {
        PRIORITY_FLAG
    } else {
        0
    };
    a | b | c | d
}

/// The type code, flags byte and stream identifier of a frame's header.
fn header_fields(f: &Frame) -> (r: (u8, u8, u32))
    ensures
        r == (kind_of(f@), flags_of(f@), stream_of(f@)),
{
    match f {
        Frame::Data { identifier, end_stream, pad_length, .. } => (
            DATA,
            make_flags(*end_stream, false, pad_length.is_some(), false),
            identifier.as_u32(),
        ),
        Frame::Headers { identifier, end_stream, end_headers, pad_length, e, .. } => (
            HEADERS,
            make_flags(*end_stream, *end_headers, pad_length.is_some(), e.is_some()),
            identifier.as_u32(),
        ),
        Frame::Priority { identifier, .. } => (PRIORITY, 0, identifier.as_u32()),
        Frame::RstStream { identifier, .. } => (RST_STREAM, 0, identifier.as_u32()),
        Frame::Settings { ack, .. } => (SETTINGS, make_flags(*ack, false, false, false), 0),
        Frame::PushPromise { identifier, end_headers, pad_length, .. } => (
            PUSH_PROMISE,
            make_flags(false, *end_headers, pad_length.is_some(), false),
            identifier.as_u32(),
        ),
        Frame::Ping { ack, .. } => (PING, make_flags(*ack, false, false, false), 0),
        Frame::Goaway { .. } => (GOAWAY, 0, 0),
        Frame::WindowUpdate { identifier, .. } => (WINDOW_UPDATE, 0, identifier.as_u32()),
        Frame::Continuation { identifier, end_headers, .. } => (
            CONTINUATION,
            make_flags(false, *end_headers, false, false),
            identifier.as_u32(),
        ),
        Frame::Unknown { identifier, kind, flags, .. } => (*kind, *flags, identifier.as_u32()),
    }
}

/// Appends the pad-length byte, when there is one.
fn push_pad_prefix(out: &mut Vec<u8>, pad_length: Option<u8>)
    ensures
        final(out)@ == old(out)@ + pad_prefix(pad_length),
{
    if let Some(n) = pad_length {
        out.push(n);
    }
    assert(final(out)@ =~= old(out)@ + pad_prefix(pad_length));
}

/// Appends the zero bytes of the padding, when there is one.
fn push_pad_suffix(out: &mut Vec<u8>, pad_length: Option<u8>)
    ensures
        final(out)@ == old(out)@ + pad_suffix(pad_length),
{
    match pad_length {
        Some(n) => push_zeros(out, n as usize),
        None => {
            assert(final(out)@ =~= old(out)@ + pad_suffix(pad_length));
        },
    }
}

/// Appends the six bytes of each setting, in order.
fn push_settings(out: &mut Vec<u8>, settings: &Vec<Setting>)
    ensures
        final(out)@ == old(out)@ + settings_bytes(settings@),
{
    let mut i: usize = 0;
    while i < settings.len()
        invariant
            i <= settings@.len(),
            out@ == old(out)@ + settings_bytes(settings@.subrange(0, i as int)),
        decreases settings@.len() - i,
    {
        push_setting(out, settings[i]);
        assert(settings@.subrange(0, i + 1).drop_last() =~= settings@.subrange(0, i as int));
        i = i + 1;
        assert(out@ =~= old(out)@ + settings_bytes(settings@.subrange(0, i as int)));
    }
    assert(settings@.subrange(0, i as int) =~= settings@);
}

/// Appends the payload of a frame.
fn encode_payload(f: &Frame, out: &mut Vec<u8>)
    requires
        frame_consistent(f@),
    ensures
        final(out)@ == old(out)@ + payload_of(f@),
{
    match f {
        Frame::Data { pad_length, data, .. } => {
            push_pad_prefix(out, *pad_length);
            push_all(out, data.as_slice());
            push_pad_suffix(out, *pad_length);
        },
        Frame::Headers { pad_length, e, stream_dpendency, weight, header_block_fragment, .. } => {
            push_pad_prefix(out, *pad_length);
            let ghost before = out@;
            match (e, stream_dpendency, weight) {
                (Some(e), Some(d), Some(w)) => {
                    push_u31(out, *e, *d);
                    out.push(*w);
                },
                _ => {},
            }
            assert(out@ =~= before + priority_bytes(*e, *stream_dpendency, *weight));
            push_all(out, header_block_fragment.as_slice());
            push_pad_suffix(out, *pad_length);
        },
        Frame::Priority { e, stream_dpendency, weight, .. } => {
            push_u31(out, *e, *stream_dpendency);
            out.push(*weight);
        },
        Frame::RstStream { error_code, .. } => {
            push_u32(out, error_code.value());
        },
        Frame::Settings { settings, .. } => {
            push_settings(out, settings);
        },
        Frame::PushPromise { pad_length, promised_stream_id, header_block_fragment, .. } => {
            push_pad_prefix(out, *pad_length);
            push_u32(out, promised_stream_id.as_u32());
            push_all(out, header_block_fragment.as_slice());
            push_pad_suffix(out, *pad_length);
        },
        Frame::Ping { opaque_data, .. } => {
            push_u64(out, *opaque_data);
        },
        Frame::Goaway { last_stream_id, error_code, additional_debug_data } => {
            push_u32(out, last_stream_id.as_u32());
            push_u32(out, error_code.value());
            push_all(out, additional_debug_data.as_slice());
        },
        Frame::WindowUpdate { window_size_increment, .. } => {
            push_u32(out, window_size_increment.as_u32());
        },
        Frame::Continuation { header_block_fragment, .. } => {
            push_all(out, header_block_fragment.as_slice());
        },
        Frame::Unknown { payload, .. } => {
            push_all(out, payload.as_slice());
        },
    }
    assert(final(out)@ =~= old(out)@ + payload_of(f@));
}

} // verus!
