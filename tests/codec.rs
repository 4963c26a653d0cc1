use plasmodesmata::{Error, ErrorCode, Frame, FrameCodec, Setting, SettingCodec};
use plasmodesmata::{U24, U24Codec, U31, U31Codec};

#[test]
fn setting() {
    let tests: &[(&[u8], Setting)] = &[
        (&[0x0, 0x1, 0x0, 0x0, 0x0, 0x1], Setting::HeaderTableSize(1)),
        (&[0x0, 0x2, 0x0, 0x0, 0x0, 0x1], Setting::EnablePush(true)),
        (&[0x0, 0x3, 0x0, 0x0, 0x0, 0x1], Setting::MaxConcurrentStreams(1)),
        (&[0x0, 0x4, 0x0, 0x0, 0x0, 0x1], Setting::InitialWindowSize(U31::from(1))),
        (&[0x0, 0x5, 0x0, 0xff, 0xff, 0xff], Setting::MaxFrameSize(U24::max_value())),
        (&[0x0, 0x6, 0x0, 0x0, 0x0, 0x1], Setting::MaxHeaderListSize(1)),
        (&[0x0, 0x7, 0x0, 0x0, 0x0, 0x1], Setting::Unknown(0x7, 0x1)),
    ];
    for &(binary, result) in tests {
        let r = SettingCodec.decode(&mut binary.into()).unwrap().expect("setting");
        assert_eq!(r, result);
        let mut buf = Vec::with_capacity(binary.len());
        SettingCodec.encode(r, &mut buf).unwrap();
        assert_eq!(buf, binary);
    }
}

#[test]
fn setting_error() {
    let tests: &[(&[u8], ErrorCode)] = &[
        (&[0x0, 0x4, 0xff, 0xff, 0xff, 0xff], ErrorCode::ProtocolError),
        (&[0x0, 0x5, 0xff, 0xff, 0xff, 0xff], ErrorCode::ProtocolError),
        (&[0x0, 0x5, 0x0, 0x0, 0x0, 0x0], ErrorCode::ProtocolError),
    ];
    for &(binary, error) in tests {
        let r = SettingCodec.decode(&mut binary.into()).expect_err("setting_error");
        assert!(if let Error::Http(e) = r {
            assert_eq!(e, error);
            true
        } else {
            false
        });
    }
}

#[test]
fn eat_padding() {
    let tests: &[(&[u8], (u8, &[u8]))] = &[
        (&[0, 10, 10, 10], (0, &[10, 10, 10])),
        (&[2, 10, 0, 0], (2, &[10])),
    ];
    for &(binary, (padding, data)) in tests {
        let mut buf = Vec::from(binary);
        let r = plasmodesmata::frame::eat_padding(&mut buf).unwrap();
        assert_eq!(r, padding);
        assert_eq!(&buf, data);
    }
}

#[test]
fn eat_padding_error() {
    let tests: &[(&[u8], ErrorCode)] = &[
        (&[], ErrorCode::FrameSizeError),
        (&[1, 0], ErrorCode::ProtocolError),
        (&[5, 0], ErrorCode::ProtocolError),
    ];
    for &(binary, error) in tests {
        let mut buf = Vec::from(binary);
        let r = plasmodesmata::frame::eat_padding(&mut buf).expect_err("eat_padding_error");
        assert!(if let Error::Http(e) = r {
            assert_eq!(e, error);
            true
        } else {
            false
        });
    }
}

#[test]
fn frame() {
    let tests: Vec<(Vec<u8>, Frame)> = vec![
        (
            vec![0, 0, 5, 0, 1 | 8, 0, 0, 0, 1, 2, 10, 10, 0, 0],
            Frame::Data {
                identifier: U31::from(1),
                end_stream: true,
                pad_length: Some(2),
                data: vec![10, 10],
            },
        ),
        (
            vec![0, 0, 7, 1, 1 | 4 | 8 | 32, 0, 0, 0, 1, 0, 0, 0, 0, 5, 3, 10],
            Frame::Headers {
                identifier: U31::from(1),
                end_stream: true,
                end_headers: true,
                pad_length: Some(0),
                e: Some(false),
                stream_dpendency: Some(U31::from(5)),
                weight: Some(3),
                header_block_fragment: vec![10],
            },
        ),
        (
            vec![0, 0, 5, 2, 0, 0, 0, 0, 1, 0, 0, 0, 5, 3],
            Frame::Priority {
                identifier: U31::from(1),
                e: false,
                stream_dpendency: U31::from(5),
                weight: 3,
            },
        ),
        (
            vec![0, 0, 4, 3, 0, 0, 0, 0, 1, 0, 0, 0, 0],
            Frame::RstStream { identifier: U31::from(1), error_code: ErrorCode::NoError },
        ),
        (vec![0, 0, 0, 4, 1, 0, 0, 0, 0], Frame::Settings { ack: true, settings: vec![] }),
        (
            vec![0, 0, 6, 4, 0, 0, 0, 0, 0, 0, 1, 0, 0, 0, 0],
            Frame::Settings { ack: false, settings: vec![Setting::HeaderTableSize(0)] },
        ),
        (
            vec![0, 0, 9, 5, 4 | 8, 0, 0, 0, 1, 2, 0, 0, 0, 5, 10, 10, 0, 0],
            Frame::PushPromise {
                identifier: U31::from(1),
                end_headers: true,
                pad_length: Some(2),
                promised_stream_id: U31::from(5),
                header_block_fragment: vec![10, 10],
            },
        ),
        (
            vec![0, 0, 8, 6, 1, 0, 0, 0, 0, 11, 11, 11, 11, 11, 11, 11, 11],
            Frame::Ping { ack: true, opaque_data: 795741901218843403 },
        ),
        (
            vec![0, 0, 9, 7, 0, 0, 0, 0, 0, 0, 0, 0, 5, 0, 0, 0, 0, 10],
            Frame::Goaway {
                last_stream_id: U31::from(5),
                error_code: ErrorCode::NoError,
                additional_debug_data: vec![10],
            },
        ),
        (
            vec![0, 0, 4, 8, 0, 0, 0, 0, 1, 0, 0, 0, 6],
            Frame::WindowUpdate {
                identifier: U31::from(1),
                window_size_increment: U31::from(6),
            },
        ),
        (
            vec![0, 0, 3, 9, 4, 0, 0, 0, 1, 10, 10, 10],
            Frame::Continuation {
                identifier: U31::from(1),
                end_headers: true,
                header_block_fragment: vec![10, 10, 10],
            },
        ),
        (
            vec![0, 0, 3, 10, 4, 0, 0, 0, 1, 10, 10, 10],
            Frame::Unknown {
                identifier: U31::from(1),
                kind: 10,
                flags: 4,
                payload: vec![10, 10, 10],
            },
        ),
    ];
    for (binary, result) in tests {
        let mut data: Vec<u8> = binary.clone();
        let r = FrameCodec::new().decode(&mut data).unwrap().expect("frame");
        assert_eq!(data.len(), 0);
        assert_eq!(r, result);
        let mut buf = Vec::with_capacity(binary.len());
        FrameCodec::new().encode(r, &mut buf).unwrap();
        assert_eq!(buf, binary);
    }
}

#[test]
fn u31() {
    let data: &[u8] = &[255, 255, 255, 255];
    let r = U31Codec.decode(&mut data.into()).unwrap().expect("u31");
    assert_eq!(r, (true, U31::max_value()));
    let mut buf = Vec::with_capacity(4);
    U31Codec.encode(r, &mut buf).unwrap();
    assert_eq!(buf, data);
}

#[test]
fn u24() {
    let data: &[u8] = &[255, 255, 255];
    let r = U24Codec.decode(&mut data.into()).unwrap().expect("u24");
    assert_eq!(r, U24::max_value());
    let mut buf = Vec::with_capacity(3);
    U24Codec.encode(r, &mut buf).unwrap();
    assert_eq!(buf, data);
}
