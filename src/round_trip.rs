use vstd::prelude::*;

use crate::error::{code_value, lemma_code_round_trip, ErrorCode};
use crate::frame::{
    bit, decode_step, flag, flag_bits, flags_of, frame_bytes, frame_wf, kind_of, pad_prefix,
    pad_suffix, padding_split, parse_payload, payload_of, priority_bytes, settings_bytes,
    settings_prefix, stream_of, unpad, SpecFrame, END_HEADERS, END_STREAM, PADDED, PRIORITY_FLAG,
};
use crate::setting::{lemma_setting_round_trip, setting_bytes, setting_wf, Setting};
use crate::uint::{lemma_u24_round_trip, lemma_u31_round_trip, u24_bytes, u31_word, U24, U31, U31_MAX};
use crate::wire::{lemma_u32_round_trip, lemma_u64_round_trip, u32_bytes};

verus! {

broadcast use {
    U31::lemma_spec_new,
    U31::lemma_value_determines,
    U24::lemma_spec_new,
    U24::lemma_value_determines,
};

/// Each flag written into a flags byte is read back from it.
pub proof fn lemma_flag_bits(a: bool, b: bool, c: bool, d: bool)
    ensures
        flag(flag_bits(a, b, c, d), END_STREAM) == a,
        flag(flag_bits(a, b, c, d), END_HEADERS) == b,
        flag(flag_bits(a, b, c, d), PADDED) == c,
        flag(flag_bits(a, b, c, d), PRIORITY_FLAG) == d,
{
    let x = bit(a, 1u8);
    let y = bit(b, 4u8);
    let z = bit(c, 8u8);
    let w = bit(d, 0x20u8);
    assert(((x | y | z | w) & 1u8 != 0) == (x != 0) && ((x | y | z | w) & 4u8 != 0) == (y != 0)
        && ((x | y | z | w) & 8u8 != 0) == (z != 0) && ((x | y | z | w) & 0x20u8 != 0) == (w
        != 0)) by (bit_vector)
        requires
            x == 0u8 || x == 1u8,
            y == 0u8 || y == 4u8,
            z == 0u8 || z == 8u8,
            w == 0u8 || w == 0x20u8,
    ;
}

/// Each setting takes six bytes.
pub proof fn lemma_settings_bytes_len(s: Seq<Setting>)
    ensures
        settings_bytes(s).len() == 6 * s.len(),
    decreases s.len(),
{
    if s.len() > 0 {
        lemma_settings_bytes_len(s.drop_last());
    }
}

/// Well-formed settings are read back, in order, from their bytes, whatever
/// follows them.
pub proof fn lemma_settings_round_trip(s: Seq<Setting>, rest: Seq<u8>)
    requires
        forall|i: int| 0 <= i < s.len() ==> setting_wf(#[trigger] s[i]),
    ensures
        settings_prefix(settings_bytes(s) + rest, s.len()) == Ok::<
            Seq<Setting>,
            ErrorCode,
        >(s),
    decreases s.len(),
{
    if s.len() > 0 {
        let init = s.drop_last();
        let last = s.last();
        let b = settings_bytes(s) + rest;
        assert(b =~= settings_bytes(init) + (setting_bytes(last) + rest));
        assert forall|i: int| 0 <= i < init.len() implies setting_wf(#[trigger] init[i]) by {
            assert(init[i] == s[i]);
        }
        lemma_settings_round_trip(init, setting_bytes(last) + rest);
        lemma_settings_bytes_len(init);
        assert(b.subrange(6 * (s.len() - 1), b.len() as int) =~= setting_bytes(last) + rest);
        assert(setting_wf(s[s.len() - 1]));
        lemma_setting_round_trip(last, rest);
        assert(init.push(last) =~= s);
    } else {
        assert(settings_prefix(settings_bytes(s) + rest, 0) == Ok::<
            Seq<Setting>,
            ErrorCode,
        >(Seq::<Setting>::empty()));
        assert(s =~= Seq::<Setting>::empty());
    }
}

/// A padded payload gives back its pad length and the bytes it pads, provided
/// there is at least one such byte.
proof fn lemma_padding_round_trip(n: u8, body: Seq<u8>)
    requires
        body.len() > 0,
    ensures
        padding_split(pad_prefix(Some(n)) + body + pad_suffix(Some(n))) == Ok::<
            (u8, Seq<u8>),
            ErrorCode,
        >((n, body)),
{
    let p = pad_prefix(Some(n)) + body + pad_suffix(Some(n));
    assert(p[0] == n);
    assert(p.subrange(1, p.len() - n) =~= body);
}

/// Unpadding gives back the pad length and the padded bytes.
proof fn lemma_unpad_round_trip(flags: u8, pad_length: Option<u8>, body: Seq<u8>)
    requires
        flag(flags, PADDED) == (pad_length is Some),
        pad_length is Some ==> body.len() > 0,
    ensures
        unpad(flags, pad_prefix(pad_length) + body + pad_suffix(pad_length)) == Ok::<
            (Option<u8>, Seq<u8>),
            ErrorCode,
        >((pad_length, body)),
{
    match pad_length {
        Some(n) => lemma_padding_round_trip(n, body),
        None => {
            assert(pad_prefix(pad_length) + body + pad_suffix(pad_length) =~= body);
        },
    }
}

/// The payload of a well-formed frame, under its header's type, flags and stream
/// identifier, is read back as the frame.
pub proof fn lemma_payload_round_trip(f: SpecFrame)
    requires
        frame_wf(f),
    ensures
        parse_payload(kind_of(f), flags_of(f), stream_of(f), payload_of(f)) == Ok::<
            SpecFrame,
            ErrorCode,
        >(f),
{
    match f {
        SpecFrame::Data { .. } => lemma_data_round_trip(f),
        SpecFrame::Headers { .. } => lemma_headers_round_trip(f),
        SpecFrame::Priority { .. } => lemma_priority_round_trip(f),
        SpecFrame::RstStream { .. } => lemma_rst_stream_round_trip(f),
        SpecFrame::Settings { .. } => lemma_settings_frame_round_trip(f),
        SpecFrame::PushPromise { .. } => lemma_push_promise_round_trip(f),
        SpecFrame::Ping { .. } => lemma_ping_round_trip(f),
        SpecFrame::Goaway { .. } => lemma_goaway_round_trip(f),
        SpecFrame::WindowUpdate { .. } => lemma_window_update_round_trip(f),
        SpecFrame::Continuation { .. } => lemma_continuation_round_trip(f),
        SpecFrame::Unknown { .. } => {},
    }
}

proof fn lemma_data_round_trip(f: SpecFrame)
    requires
        frame_wf(f),
        f is Data,
    ensures
        parse_payload(kind_of(f), flags_of(f), stream_of(f), payload_of(f)) == Ok::<
            SpecFrame,
            ErrorCode,
        >(f),
{
    match f {
        SpecFrame::Data { identifier, end_stream, pad_length, data } => {
            lemma_flag_bits(end_stream, false, pad_length is Some, false);
            lemma_unpad_round_trip(flags_of(f), pad_length, data);
        },
        _ => {},
    }
}

proof fn lemma_headers_round_trip(f: SpecFrame)
    requires
        frame_wf(f),
        f is Headers,
    ensures
        parse_payload(kind_of(f), flags_of(f), stream_of(f), payload_of(f)) == Ok::<
            SpecFrame,
            ErrorCode,
        >(f),
{
    match f {
        SpecFrame::Headers {
            identifier,
            end_stream,
            end_headers,
            pad_length,
            e,
            stream_dpendency,
            weight,
            header_block_fragment,
        } => {
            let p = payload_of(f);
            lemma_flag_bits(end_stream, end_headers, pad_length is Some, e is Some);
            let body = priority_bytes(e, stream_dpendency, weight) + header_block_fragment;
            assert(p =~= pad_prefix(pad_length) + body + pad_suffix(pad_length));
            lemma_unpad_round_trip(flags_of(f), pad_length, body);
            match (e, stream_dpendency, weight) {
                (Some(x), Some(d), Some(w)) => {
                    assert(body =~= u32_bytes(u31_word(x, d.value())) + (seq![w]
                    + header_block_fragment));
                    lemma_u31_round_trip(x, d.value(), seq![w] + header_block_fragment);
                    assert(body[4] == w);
                    assert(body.subrange(5, body.len() as int) =~= header_block_fragment);
                },
                _ => {
                    assert(body =~= header_block_fragment);
                },
            }
        },
        _ => {},
    }
}

proof fn lemma_priority_round_trip(f: SpecFrame)
    requires
        frame_wf(f),
        f is Priority,
    ensures
        parse_payload(kind_of(f), flags_of(f), stream_of(f), payload_of(f)) == Ok::<
            SpecFrame,
            ErrorCode,
        >(f),
{
    match f {
        SpecFrame::Priority { identifier, e, stream_dpendency, weight } => {
            let p = payload_of(f);
            lemma_u31_round_trip(e, stream_dpendency.value(), seq![weight]);
            assert(p =~= u32_bytes(u31_word(e, stream_dpendency.value())) + seq![weight]);
        },
        _ => {},
    }
}

proof fn lemma_rst_stream_round_trip(f: SpecFrame)
    requires
        frame_wf(f),
        f is RstStream,
    ensures
        parse_payload(kind_of(f), flags_of(f), stream_of(f), payload_of(f)) == Ok::<
            SpecFrame,
            ErrorCode,
        >(f),
{
    match f {
        SpecFrame::RstStream { identifier, error_code } => {
            let p = payload_of(f);
            lemma_u32_round_trip(code_value(error_code), Seq::empty());
            assert(p + Seq::<u8>::empty() =~= p);
            lemma_code_round_trip(error_code);
        },
        _ => {},
    }
}

proof fn lemma_settings_frame_round_trip(f: SpecFrame)
    requires
        frame_wf(f),
        f is Settings,
    ensures
        parse_payload(kind_of(f), flags_of(f), stream_of(f), payload_of(f)) == Ok::<
            SpecFrame,
            ErrorCode,
        >(f),
{
    match f {
        SpecFrame::Settings { ack, settings } => {
            let p = payload_of(f);
            lemma_flag_bits(ack, false, false, false);
            lemma_settings_bytes_len(settings);
            lemma_settings_round_trip(settings, Seq::empty());
            assert(p + Seq::<u8>::empty() =~= p);
            assert(p.len() / 6 == settings.len());
        },
        _ => {},
    }
}

proof fn lemma_push_promise_round_trip(f: SpecFrame)
    requires
        frame_wf(f),
        f is PushPromise,
    ensures
        parse_payload(kind_of(f), flags_of(f), stream_of(f), payload_of(f)) == Ok::<
            SpecFrame,
            ErrorCode,
        >(f),
{
    match f {
        SpecFrame::PushPromise {
            identifier,
            end_headers,
            pad_length,
            promised_stream_id,
            header_block_fragment,
        } => {
            let p = payload_of(f);
            lemma_flag_bits(false, end_headers, pad_length is Some, false);
            let body = u32_bytes(promised_stream_id.value()) + header_block_fragment;
            assert(p =~= pad_prefix(pad_length) + body + pad_suffix(pad_length));
            lemma_unpad_round_trip(flags_of(f), pad_length, body);
            lemma_u31_round_trip(false, promised_stream_id.value(), header_block_fragment);
            assert(body.subrange(4, body.len() as int) =~= header_block_fragment);
        },
        _ => {},
    }
}

proof fn lemma_ping_round_trip(f: SpecFrame)
    requires
        frame_wf(f),
        f is Ping,
    ensures
        parse_payload(kind_of(f), flags_of(f), stream_of(f), payload_of(f)) == Ok::<
            SpecFrame,
            ErrorCode,
        >(f),
{
    match f {
        SpecFrame::Ping { ack, opaque_data } => {
            let p = payload_of(f);
            lemma_flag_bits(ack, false, false, false);
            lemma_u64_round_trip(opaque_data, Seq::empty());
            assert(p + Seq::<u8>::empty() =~= p);
        },
        _ => {},
    }
}

proof fn lemma_goaway_round_trip(f: SpecFrame)
    requires
        frame_wf(f),
        f is Goaway,
    ensures
        parse_payload(kind_of(f), flags_of(f), stream_of(f), payload_of(f)) == Ok::<
            SpecFrame,
            ErrorCode,
        >(f),
{
    match f {
        SpecFrame::Goaway { last_stream_id, error_code, additional_debug_data } => {
            let p = payload_of(f);
            let tail = u32_bytes(code_value(error_code)) + additional_debug_data;
            assert(p =~= u32_bytes(u31_word(false, last_stream_id.value())) + tail);
            lemma_u31_round_trip(false, last_stream_id.value(), tail);
            assert(p.subrange(4, p.len() as int) =~= tail);
            lemma_u32_round_trip(code_value(error_code), additional_debug_data);
            lemma_code_round_trip(error_code);
            assert(p.subrange(8, p.len() as int) =~= additional_debug_data);
        },
        _ => {},
    }
}

proof fn lemma_window_update_round_trip(f: SpecFrame)
    requires
        frame_wf(f),
        f is WindowUpdate,
    ensures
        parse_payload(kind_of(f), flags_of(f), stream_of(f), payload_of(f)) == Ok::<
            SpecFrame,
            ErrorCode,
        >(f),
{
    match f {
        SpecFrame::WindowUpdate { identifier, window_size_increment } => {
            let p = payload_of(f);
            lemma_u31_round_trip(false, window_size_increment.value(), Seq::empty());
            assert(p + Seq::<u8>::empty() =~= p);
        },
        _ => {},
    }
}

proof fn lemma_continuation_round_trip(f: SpecFrame)
    requires
        frame_wf(f),
        f is Continuation,
    ensures
        parse_payload(kind_of(f), flags_of(f), stream_of(f), payload_of(f)) == Ok::<
            SpecFrame,
            ErrorCode,
        >(f),
{
    match f {
        SpecFrame::Continuation { identifier, end_headers, header_block_fragment } => {
            lemma_flag_bits(false, end_headers, false, false);
        },
        _ => {},
    }
}

/// Decoding the bytes of a well-formed frame gives back the frame, takes exactly
/// its bytes and leaves the decoder waiting for the next frame.
pub proof fn lemma_frame_round_trip(f: SpecFrame, rest: Seq<u8>)
    requires
        frame_wf(f),
    ensures
        decode_step(None, frame_bytes(f) + rest) == (
            None::<u32>,
            rest,
            Some(Ok::<SpecFrame, ErrorCode>(f)),
        ),
{
    let p = payload_of(f);
    let len = p.len() as u32;
    let k = kind_of(f);
    let fl = flags_of(f);
    let sid = stream_of(f);
    let b = frame_bytes(f) + rest;
    let tail = seq![k, fl] + u32_bytes(sid) + p + rest;
    assert(b =~= u24_bytes(len) + tail);
    lemma_u24_round_trip(len, tail);
    let s = b.subrange(3, b.len() as int);
    assert(s =~= tail);
    assert(s[0] == k);
    assert(s[1] == fl);
    assert(sid <= U31_MAX);
    assert(s.subrange(2, s.len() as int) =~= u32_bytes(u31_word(false, sid)) + (p + rest));
    lemma_u31_round_trip(false, sid, p + rest);
    assert(s.subrange(6, 6 + len) =~= p);
    assert(s.subrange(6 + len, s.len() as int) =~= rest);
    lemma_payload_round_trip(f);
}

} // verus!
