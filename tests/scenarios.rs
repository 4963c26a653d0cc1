use plasmodesmata::connection::{Connection, Handle};
use plasmodesmata::edge::{
    on_request, on_upstream_dialed, preferred_key, tunnel_accepted, KeyFormat, ServerAction,
};
use plasmodesmata::pool::{Dispatch, Dispatcher};
use plasmodesmata::pump::{PumpState, RecvPump, SendAction, SendPump};
use plasmodesmata::{Error, ErrorCode, ErrorCodeCodec, Frame, FrameCodec, Setting, SettingCodec};
use plasmodesmata::{U24, U31};

fn decode_one(bytes: &[u8]) -> Result<Option<Frame>, Error> {
    let mut src: Vec<u8> = bytes.to_vec();
    FrameCodec::new().decode(&mut src)
}

fn http_error(r: Result<Option<Frame>, Error>) -> ErrorCode {
    match r {
        Err(Error::Http(c)) => c,
        other => panic!("expected an HTTP/2 error, got {:?}", other),
    }
}

fn encode_one(f: Frame) -> Vec<u8> {
    let mut out = Vec::new();
    FrameCodec::new().encode(f, &mut out).unwrap();
    out
}

#[test]
fn decode_padded_data() {
    let f = decode_one(&[0, 0, 5, 0, 0x9, 0, 0, 0, 1, 2, 10, 10, 0, 0]).unwrap().unwrap();
    assert_eq!(
        f,
        Frame::Data {
            identifier: U31::from(1),
            end_stream: true,
            pad_length: Some(2),
            data: vec![10, 10],
        }
    );
}

#[test]
fn decode_window_update_on_connection() {
    let f = decode_one(&[0, 0, 4, 8, 0, 0, 0, 0, 0, 0, 0, 0, 6]).unwrap().unwrap();
    assert_eq!(
        f,
        Frame::WindowUpdate { identifier: U31::from(0), window_size_increment: U31::from(6) }
    );
}

#[test]
fn decode_zero_window_increment() {
    let r = decode_one(&[0, 0, 4, 8, 0, 0, 0, 0, 0, 0, 0, 0, 0]);
    assert_eq!(http_error(r), ErrorCode::ProtocolError);
}

#[test]
fn encode_settings_ack() {
    let bytes = encode_one(Frame::Settings { ack: true, settings: vec![] });
    assert_eq!(bytes, vec![0, 0, 0, 4, 1, 0, 0, 0, 0]);
}

#[test]
fn ping_round_trip() {
    let ping = Frame::Ping { ack: true, opaque_data: 0x0B0B0B0B0B0B0B0B };
    let bytes = encode_one(ping.clone());
    assert_eq!(bytes, vec![0, 0, 8, 6, 1, 0, 0, 0, 0, 11, 11, 11, 11, 11, 11, 11, 11]);
    let mut src = bytes.clone();
    let back = FrameCodec::new().decode(&mut src).unwrap().unwrap();
    assert_eq!(back, ping);
    assert!(src.is_empty());
}

#[test]
fn round_trip_leaves_following_bytes() {
    let frames = vec![
        Frame::Headers {
            identifier: U31::from(3),
            end_stream: false,
            end_headers: true,
            pad_length: Some(4),
            e: None,
            stream_dpendency: None,
            weight: None,
            header_block_fragment: vec![1, 2, 3],
        },
        Frame::Settings {
            ack: false,
            settings: vec![
                Setting::EnablePush(false),
                Setting::MaxFrameSize(U24::from(0x4000)),
                Setting::InitialWindowSize(U31::from(0x7fff_ffff)),
                Setting::Unknown(0x20, 9),
            ],
        },
        Frame::Goaway {
            last_stream_id: U31::from(7),
            error_code: ErrorCode::Unknown(0x42),
            additional_debug_data: vec![],
        },
        Frame::RstStream { identifier: U31::from(9), error_code: ErrorCode::Cancel },
    ];
    let mut bytes = Vec::new();
    let mut codec = FrameCodec::new();
    for f in frames.iter() {
        codec.encode(f.clone(), &mut bytes).unwrap();
    }
    for f in frames.iter() {
        let got = codec.decode(&mut bytes).unwrap().unwrap();
        assert_eq!(&got, f);
    }
    assert!(bytes.is_empty());
}

#[test]
fn decoder_waits_for_whole_frame() {
    let mut codec = FrameCodec::new();
    let mut src = vec![0u8, 0];
    assert!(codec.decode(&mut src).unwrap().is_none());
    assert_eq!(src, vec![0, 0]);
    src.push(3);
    src.extend_from_slice(&[9, 4, 0, 0, 0, 1, 10]);
    assert!(codec.decode(&mut src).unwrap().is_none());
    assert_eq!(src, vec![9, 4, 0, 0, 0, 1, 10]);
    src.extend_from_slice(&[11, 12, 0, 0]);
    let f = codec.decode(&mut src).unwrap().unwrap();
    assert_eq!(
        f,
        Frame::Continuation {
            identifier: U31::from(1),
            end_headers: true,
            header_block_fragment: vec![10, 11, 12],
        }
    );
    assert_eq!(src, vec![0, 0]);
    assert!(codec.decode(&mut src).unwrap().is_none());
}

#[test]
fn stream_frames_need_stream_id() {
    for kind in [0u8, 1, 2, 3, 5, 9] {
        let r = decode_one(&[0, 0, 5, kind, 0, 0, 0, 0, 0, 0, 0, 0, 1, 1]);
        assert_eq!(http_error(r), ErrorCode::ProtocolError);
    }
}

#[test]
fn connection_frames_refuse_stream_id() {
    for kind in [4u8, 6, 7] {
        let r = decode_one(&[0, 0, 8, kind, 0, 0, 0, 0, 1, 0, 0, 0, 0, 0, 0, 0, 0]);
        assert_eq!(http_error(r), ErrorCode::ProtocolError);
    }
}

#[test]
fn settings_frame_size_errors() {
    let r = decode_one(&[0, 0, 5, 4, 0, 0, 0, 0, 0, 0, 1, 0, 0, 0]);
    assert_eq!(http_error(r), ErrorCode::FrameSizeError);
    let r = decode_one(&[0, 0, 6, 4, 1, 0, 0, 0, 0, 0, 1, 0, 0, 0, 0]);
    assert_eq!(http_error(r), ErrorCode::FrameSizeError);
}

#[test]
fn settings_value_ranges() {
    let cases: &[(&[u8], bool)] = &[
        (&[0, 5, 0, 0, 0x3f, 0xff], false),
        (&[0, 5, 0, 0, 0x40, 0x00], true),
        (&[0, 5, 0, 0xff, 0xff, 0xff], true),
        (&[0, 5, 1, 0, 0, 0], false),
        (&[0, 4, 0x7f, 0xff, 0xff, 0xff], true),
        (&[0, 4, 0x80, 0, 0, 0], false),
    ];
    for &(bytes, ok) in cases {
        let mut src = bytes.to_vec();
        let r = SettingCodec.decode(&mut src);
        assert!(src.is_empty());
        match r {
            Ok(Some(_)) => assert!(ok),
            Err(Error::Http(ErrorCode::ProtocolError)) => assert!(!ok),
            other => panic!("unexpected {:?}", other),
        }
    }
}

#[test]
fn enable_push_any_nonzero_is_true() {
    let mut src = vec![0, 2, 0, 0, 0, 7];
    let s = SettingCodec.decode(&mut src).unwrap().unwrap();
    assert_eq!(s, Setting::EnablePush(true));
    let mut out = Vec::new();
    SettingCodec.encode(s, &mut out).unwrap();
    assert_eq!(out, vec![0, 2, 0, 0, 0, 1]);
}

#[test]
fn short_setting_waits() {
    let mut src = vec![0, 2, 0, 0, 0];
    assert!(SettingCodec.decode(&mut src).unwrap().is_none());
    assert_eq!(src.len(), 5);
}

#[test]
fn padding_errors_in_frames() {
    let r = decode_one(&[0, 0, 0, 0, 8, 0, 0, 0, 1]);
    assert_eq!(http_error(r), ErrorCode::FrameSizeError);
    let r = decode_one(&[0, 0, 3, 0, 8, 0, 0, 0, 1, 2, 0, 0]);
    assert_eq!(http_error(r), ErrorCode::ProtocolError);
    let r = decode_one(&[0, 0, 3, 1, 8, 0, 0, 0, 1, 5, 0, 0]);
    assert_eq!(http_error(r), ErrorCode::ProtocolError);
}

#[test]
fn frame_size_checks() {
    let r = decode_one(&[0, 0, 4, 2, 0, 0, 0, 0, 1, 0, 0, 0, 5]);
    assert_eq!(http_error(r), ErrorCode::FrameSizeError);
    let r = decode_one(&[0, 0, 3, 3, 0, 0, 0, 0, 1, 0, 0, 0]);
    assert_eq!(http_error(r), ErrorCode::FrameSizeError);
    let r = decode_one(&[0, 0, 7, 6, 0, 0, 0, 0, 0, 0, 0, 0, 0, 0, 0, 0]);
    assert_eq!(http_error(r), ErrorCode::FrameSizeError);
    let r = decode_one(&[0, 0, 4, 7, 0, 0, 0, 0, 0, 0, 0, 0, 0]);
    assert_eq!(http_error(r), ErrorCode::FrameSizeError);
    let r = decode_one(&[0, 0, 3, 8, 0, 0, 0, 0, 0, 0, 0, 1]);
    assert_eq!(http_error(r), ErrorCode::FrameSizeError);
    let r = decode_one(&[0, 0, 3, 5, 0, 0, 0, 0, 1, 0, 0, 1]);
    assert_eq!(http_error(r), ErrorCode::FrameSizeError);
    let r = decode_one(&[0, 0, 4, 1, 0x20, 0, 0, 0, 1, 0, 0, 0, 1]);
    assert_eq!(http_error(r), ErrorCode::FrameSizeError);
}

#[test]
fn reserved_bits_are_dropped() {
    let f = decode_one(&[0, 0, 4, 8, 0, 0x80, 0, 0, 1, 0x80, 0, 0, 2]).unwrap().unwrap();
    assert_eq!(
        f,
        Frame::WindowUpdate { identifier: U31::from(1), window_size_increment: U31::from(2) }
    );
    assert_eq!(encode_one(f), vec![0, 0, 4, 8, 0, 0, 0, 0, 1, 0, 0, 0, 2]);
}

#[test]
fn oversized_payload_is_refused() {
    let f = Frame::Unknown {
        identifier: U31::from(1),
        kind: 0x20,
        flags: 0,
        payload: vec![0; 0x100_0000],
    };
    let mut out = vec![7u8];
    let r = FrameCodec::new().encode(f, &mut out);
    assert!(matches!(r, Err(Error::Http(ErrorCode::FrameSizeError))));
    assert_eq!(out, vec![7]);
}

#[test]
fn error_codes() {
    let mut out = Vec::new();
    ErrorCodeCodec.encode(ErrorCode::Http11Required, &mut out).unwrap();
    ErrorCodeCodec.encode(ErrorCode::Unknown(0x1234), &mut out).unwrap();
    assert_eq!(out, vec![0, 0, 0, 0xd, 0, 0, 0x12, 0x34]);
    assert_eq!(ErrorCodeCodec.decode(&mut out).unwrap(), Some(ErrorCode::Http11Required));
    assert_eq!(ErrorCodeCodec.decode(&mut out).unwrap(), Some(ErrorCode::Unknown(0x1234)));
    assert_eq!(ErrorCodeCodec.decode(&mut out).unwrap(), None);
    assert_eq!(ErrorCode::FlowControlError.name(), "FLOW_CONTROL_ERROR");
    assert_eq!(ErrorCode::Unknown(99).name(), "UNKNOWN");
    assert_eq!(ErrorCode::from_value(0xb), ErrorCode::EnhanceYourCalm);
    assert_eq!(ErrorCode::Cancel.value(), 8);
}

#[test]
fn integer_limits() {
    assert_eq!(U31::from(0xffff_ffff), U31::max_value());
    assert_eq!(U31::from(5).as_u32(), 5);
    assert_eq!(U31::initial_value().as_u32(), 0xffff);
    assert_eq!(U31::min_value().as_u32(), 0);
    assert_eq!(U24::from(0x0100_0000), U24::max_value());
    assert_eq!(U24::initial_value().as_u32(), 0x4000);
    assert_eq!(U24::min_value().as_u32(), 0);
    assert_eq!(U24::max_value().as_u32(), 0xff_ffff);
}

#[test]
fn u31_flag_round_trip() {
    let mut out = Vec::new();
    plasmodesmata::U31Codec.encode((false, U31::from(0x0102_0304)), &mut out).unwrap();
    plasmodesmata::U31Codec.encode((true, U31::from(0)), &mut out).unwrap();
    assert_eq!(out, vec![1, 2, 3, 4, 0x80, 0, 0, 0]);
    let a = plasmodesmata::U31Codec.decode(&mut out).unwrap().unwrap();
    let b = plasmodesmata::U31Codec.decode(&mut out).unwrap().unwrap();
    assert_eq!(a, (false, U31::from(0x0102_0304)));
    assert_eq!(b, (true, U31::from(0)));
}

fn send_all(pump: &mut SendPump, data: &[u8], grants: &[usize]) -> Vec<u8> {
    let mut wire = Vec::new();
    match pump.on_read(data.to_vec()) {
        SendAction::Reserve(n) => assert_eq!(n, data.len()),
        other => panic!("unexpected {:?}", other),
    }
    let mut g = 0;
    while pump.state() == PumpState::WaitingForCapacity {
        let cap = grants[g % grants.len()];
        g += 1;
        match pump.on_capacity(cap) {
            SendAction::Send { data, end_stream } => {
                assert!(!end_stream);
                assert!(data.len() <= cap);
                wire.extend_from_slice(&data);
            }
            SendAction::Wait => assert_eq!(cap, 0),
            other => panic!("unexpected {:?}", other),
        }
    }
    wire
}

#[test]
fn send_pump_splits_on_capacity() {
    let mut pump = SendPump::new();
    let input: Vec<u8> = (0u8..23).collect();
    let wire = send_all(&mut pump, &input, &[0, 5, 1, 0, 7]);
    assert_eq!(wire, input);
    assert_eq!(pump.state(), PumpState::ReadingSrc);
    let more = send_all(&mut pump, b"tail", &[100]);
    assert_eq!(more, b"tail".to_vec());
    assert_eq!(pump.bytes_sent(), 27);
}

#[test]
fn send_pump_empty_read_ends_stream() {
    let mut pump = SendPump::new();
    match pump.on_read(Vec::new()) {
        SendAction::Send { data, end_stream } => {
            assert!(data.is_empty());
            assert!(end_stream);
        }
        other => panic!("unexpected {:?}", other),
    }
    assert_eq!(pump.state(), PumpState::Done);
    assert_eq!(pump.bytes_sent(), 0);
}

#[test]
fn recv_pump_releases_what_was_written() {
    let mut pump = RecvPump::new();
    let mut socket = Vec::new();
    let mut released = 0;
    for chunk in [vec![1u8, 2, 3, 4, 5], vec![], vec![6, 7]] {
        pump.on_chunk(chunk);
        while pump.state() == PumpState::WritingDst {
            let pending = pump.unwritten();
            let n = if pending.len() > 2 { 2 } else { pending.len() };
            socket.extend_from_slice(&pending[..n]);
            released += pump.on_written(n).capacity;
        }
    }
    let count = pump.on_end();
    assert_eq!(pump.state(), PumpState::Done);
    assert_eq!(socket, vec![1, 2, 3, 4, 5, 6, 7]);
    assert_eq!(count, 7);
    assert_eq!(released, 7);
    assert_eq!(pump.bytes_received(), 7);
}

fn tunnel(local: &[u8], echo: bool) -> (usize, usize) {
    let mut up = SendPump::new();
    let mut upstream = Vec::new();
    upstream.extend(send_all(&mut up, local, &[3]));
    match up.on_read(Vec::new()) {
        SendAction::Send { data, end_stream: true } => assert!(data.is_empty()),
        other => panic!("unexpected {:?}", other),
    }
    assert_eq!(upstream, local.to_vec());
    let mut down = RecvPump::new();
    let mut local_socket = Vec::new();
    if echo {
        down.on_chunk(upstream.clone());
        while down.state() == PumpState::WritingDst {
            let pending = down.unwritten().to_vec();
            local_socket.extend_from_slice(&pending);
            down.on_written(pending.len());
        }
        assert_eq!(local_socket, local.to_vec());
    }
    let received = down.on_end();
    (up.bytes_sent(), received)
}

#[test]
fn hello_tunnel_counts() {
    assert_eq!(tunnel(b"hello", false), (5, 0));
    assert_eq!(tunnel(b"hello", true), (5, 5));
}

#[test]
fn pool_redials_when_connection_not_ready() {
    let mut pool = Dispatcher::new();
    assert_eq!(pool.next(), Dispatch::Dial);
    let a = pool.on_dialed();
    assert_eq!(pool.on_probed(a, true), Dispatch::Open(a));
    pool.on_opened(a);
    assert_eq!(pool.len(), 1);
    assert_eq!(pool.next(), Dispatch::Probe(a));
    assert_eq!(pool.on_probed(a, false), Dispatch::Dial);
    let b = pool.on_dialed();
    assert_ne!(a, b);
    assert_eq!(pool.on_probed(b, true), Dispatch::Open(b));
    pool.on_open_failed(b);
    assert_eq!(pool.len(), 0);
    assert_eq!(pool.next(), Dispatch::Dial);
}

#[test]
fn pool_round_robin() {
    let mut pool = Dispatcher::new();
    // Two streams dispatched at once find the pool empty and dial twice.
    assert_eq!(pool.next(), Dispatch::Dial);
    assert_eq!(pool.next(), Dispatch::Dial);
    let a = pool.on_dialed();
    let b = pool.on_dialed();
    assert_eq!(pool.on_probed(a, true), Dispatch::Open(a));
    pool.on_opened(a);
    assert_eq!(pool.on_probed(b, true), Dispatch::Open(b));
    pool.on_opened(b);
    assert_eq!(pool.len(), 2);
    let mut order = Vec::new();
    for _ in 0..4 {
        match pool.next() {
            Dispatch::Probe(k) => {
                assert_eq!(pool.on_probed(k, true), Dispatch::Open(k));
                pool.on_opened(k);
                order.push(k);
            }
            other => panic!("unexpected {:?}", other),
        }
    }
    assert_eq!(order, vec![a, b, a, b]);
}

#[test]
fn pool_skips_busy_connection() {
    let mut pool = Dispatcher::new();
    pool.next();
    pool.next();
    let a = pool.on_dialed();
    let b = pool.on_dialed();
    pool.on_probed(a, true);
    pool.on_opened(a);
    pool.on_probed(b, true);
    pool.on_opened(b);
    assert_eq!(pool.next(), Dispatch::Probe(a));
    assert_eq!(pool.on_probed(a, false), Dispatch::Probe(b));
    assert_eq!(pool.on_probed(b, true), Dispatch::Open(b));
    pool.on_opened(b);
    assert_eq!(pool.len(), 1);
    assert_eq!(pool.next(), Dispatch::Probe(b));
}

#[test]
fn edge_decisions() {
    assert_eq!(on_request(true), ServerAction::DialUpstream);
    assert_eq!(on_request(false), ServerAction::Refuse(ErrorCode::RefusedStream));
    assert_eq!(
        on_upstream_dialed(true),
        ServerAction::Respond { status: 200, end_stream: false }
    );
    assert_eq!(
        on_upstream_dialed(false),
        ServerAction::Respond { status: 502, end_stream: true }
    );
    assert!(tunnel_accepted(200));
    assert!(!tunnel_accepted(403));
    assert_eq!(preferred_key(1, 1), Some(KeyFormat::Pkcs8));
    assert_eq!(preferred_key(0, 2), Some(KeyFormat::Rsa));
    assert_eq!(preferred_key(0, 0), None);
}

#[test]
fn client_magic() {
    let conn = Connection::new(());
    let handle: Handle = conn.handle();
    let mut out = vec![1u8];
    handle.send_client_magic(&mut out);
    assert_eq!(&out[1..], b"PRI * HTTP/2.0\r\n\r\nSM\r\n\r\n");
    let _incoming = conn.incoming();
}
