use noisy_shuttle::error::{IoError, IoErrorKind};
use noisy_shuttle::session::frame::{
    assemble, payload_len, Frame, FrameError, FRAME_DATA, FRAME_HEADER_LEN, MAX_FRAME_PAYLOAD,
    PROTOCOL_VERSION,
};

#[test]
fn round_trips_each_frame_variant() {
    let frames = [
        Frame::ClientHello {
            version: PROTOCOL_VERSION,
            capabilities: 0x0102,
        },
        Frame::OpenRequest {
            cmd: 0x01,
            atyp: 0x03,
            addr: b"example.com".to_vec(),
            port: 443,
        },
        Frame::Data(b"hello world".to_vec()),
        Frame::EndRequest { reason: 0x01 },
        Frame::Reset { reason: 0x02 },
        Frame::Ping { token: 0x01020304 },
        Frame::Pong { token: 0x05060708 },
        Frame::Close { reason: 0x03 },
    ];

    for frame in frames {
        let mut buf = Vec::new();
        frame.encode(&mut buf);
        assert_eq!(Frame::decode(&buf).unwrap(), frame);
    }
}

#[test]
fn decode_rejects_unknown_frame_type() {
    let err = Frame::decode(&[0xff, 0x00, 0x00]).unwrap_err();
    assert!(matches!(err, FrameError::UnknownFrameType(0xff)));
}

#[test]
#[should_panic(expected = "oversized payload: 65536 bytes")]
fn encode_rejects_oversized_payload() {
    let frame = Frame::Data(vec![0u8; MAX_FRAME_PAYLOAD + 1]);
    if let Err(error) = frame.try_encode(&mut Vec::new()) {
        panic!("{}", error.to_string());
    }
}

#[test]
fn decode_rejects_truncated_header() {
    let err = Frame::decode(&[FRAME_DATA, 0x00]).unwrap_err();
    assert!(matches!(err, FrameError::UnexpectedEof));
}

#[test]
fn decode_rejects_truncated_payload() {
    let err = Frame::decode(&[FRAME_DATA, 0x00, 0x02, 0x01]).unwrap_err();
    assert!(matches!(err, FrameError::UnexpectedEof));
}

#[test]
fn async_helpers_round_trip_frame() {
    let frame = Frame::Ping { token: 42 };
    let mut stream = Vec::new();
    frame.encode(&mut stream);

    let header = [stream[0], stream[1], stream[2]];
    let len = payload_len(&header);
    let payload = stream[FRAME_HEADER_LEN..FRAME_HEADER_LEN + len].to_vec();
    let decoded = assemble(&header, &payload).unwrap();
    assert_eq!(decoded, frame);
}

#[test]
fn frames_have_a_fixed_form() {
    let encoded = |frame: Frame| {
        let mut bytes = vec![0xee];
        frame.encode(&mut bytes);
        bytes
    };
    assert_eq!(
        encoded(Frame::ClientHello {
            version: 1,
            capabilities: 0x0203,
        }),
        [0xee, 0x01, 0x00, 0x03, 0x01, 0x02, 0x03]
    );
    assert_eq!(
        encoded(Frame::OpenRequest {
            cmd: 1,
            atyp: 3,
            addr: b"ab".to_vec(),
            port: 0x1234,
        }),
        [0xee, 0x02, 0x00, 0x06, 0x01, 0x03, b'a', b'b', 0x12, 0x34]
    );
    assert_eq!(
        encoded(Frame::Data(vec![7; 2])),
        [0xee, 0x03, 0x00, 0x02, 7, 7]
    );
    assert_eq!(
        encoded(Frame::EndRequest { reason: 9 }),
        [0xee, 0x04, 0x00, 0x01, 9]
    );
    assert_eq!(
        encoded(Frame::Reset { reason: 9 }),
        [0xee, 0x05, 0x00, 0x01, 9]
    );
    assert_eq!(
        encoded(Frame::Ping { token: 0x01020304 }),
        [0xee, 0x06, 0x00, 0x04, 1, 2, 3, 4]
    );
    assert_eq!(
        encoded(Frame::Pong { token: 0xfffefdfc }),
        [0xee, 0x07, 0x00, 0x04, 0xff, 0xfe, 0xfd, 0xfc]
    );
    assert_eq!(
        encoded(Frame::Close { reason: 9 }),
        [0xee, 0x08, 0x00, 0x01, 9]
    );
}

#[test]
fn payloads_of_the_wrong_length_are_refused() {
    let message = |bytes: &[u8]| Frame::decode(bytes).unwrap_err().to_string();
    assert_eq!(
        message(&[0x01, 0x00, 0x02, 0x01, 0x00]),
        "invalid payload: client hello payload must be 3 bytes, got 2"
    );
    assert_eq!(
        message(&[0x02, 0x00, 0x03, 0x01, 0x01, 0x00]),
        "invalid payload: open request payload too short"
    );
    assert_eq!(
        message(&[0x04, 0x00, 0x00]),
        "invalid payload: end request payload must be 1 bytes, got 0"
    );
    assert_eq!(
        message(&[0x05, 0x00, 0x02, 0x01, 0x02]),
        "invalid payload: reset payload must be 1 bytes, got 2"
    );
    assert_eq!(
        message(&[0x06, 0x00, 0x01, 0x01]),
        "invalid payload: ping payload must be 4 bytes, got 1"
    );
    assert_eq!(
        message(&[0x07, 0x00, 0x01, 0x01]),
        "invalid payload: pong payload must be 4 bytes, got 1"
    );
    assert_eq!(
        message(&[0x08, 0x00, 0x00]),
        "invalid payload: close payload must be 1 bytes, got 0"
    );
}

#[test]
fn errors_describe_themselves() {
    assert_eq!(
        FrameError::UnknownFrameType(255).to_string(),
        "unknown frame type: 255"
    );
    assert_eq!(
        FrameError::OversizedPayload(65536).to_string(),
        "oversized payload: 65536 bytes"
    );
    assert_eq!(
        FrameError::UnexpectedEof.to_string(),
        "unexpected end of input"
    );
    assert!(FrameError::UnexpectedEof.source().is_none());
    let broken = IoError {
        kind: IoErrorKind::Other,
        message: "broken pipe".to_string(),
    };
    let error = FrameError::from(broken);
    assert_eq!(error.to_string(), "I/O error: broken pipe");
    assert_eq!(error.source().unwrap().message, "broken pipe");
}

#[test]
fn the_largest_payload_fits() {
    let frame = Frame::Data(vec![5; MAX_FRAME_PAYLOAD]);
    let mut bytes = Vec::new();
    frame.try_encode(&mut bytes).unwrap();
    assert_eq!(bytes.len(), FRAME_HEADER_LEN + MAX_FRAME_PAYLOAD);
    assert_eq!(Frame::decode(&bytes).unwrap(), frame);

    let mut bytes = vec![1, 2];
    let frame = Frame::Data(vec![5; MAX_FRAME_PAYLOAD + 1]);
    assert!(matches!(
        frame.try_encode(&mut bytes),
        Err(FrameError::OversizedPayload(65536))
    ));
    assert_eq!(bytes, [1, 2]);
}

#[test]
fn streams_carry_frames_in_order() {
    let frames = [
        Frame::Data(vec![]),
        Frame::Ping { token: 1 },
        Frame::Data(vec![1, 2, 3]),
    ];
    let mut stream = Vec::new();
    for frame in &frames {
        frame.encode(&mut stream);
    }
    let mut rest = &stream[..];
    for frame in &frames {
        assert_eq!(&Frame::decode(rest).unwrap(), frame);
        let header = [rest[0], rest[1], rest[2]];
        rest = &rest[FRAME_HEADER_LEN + payload_len(&header)..];
    }
    assert!(rest.is_empty());
}

#[test]
fn truncated_frames_are_never_taken_for_others() {
    let mut bytes = Vec::new();
    Frame::OpenRequest {
        cmd: 1,
        atyp: 3,
        addr: b"example.com".to_vec(),
        port: 443,
    }
    .encode(&mut bytes);
    for n in 0..bytes.len() {
        assert!(matches!(
            Frame::decode(&bytes[..n]),
            Err(FrameError::UnexpectedEof)
        ));
    }
}

#[test]
fn frames_can_be_read_as_text() {
    let frames = [
        Frame::ClientHello {
            version: 1,
            capabilities: 0x0102,
        },
        Frame::OpenRequest {
            cmd: 1,
            atyp: 3,
            addr: b"ab".to_vec(),
            port: 443,
        },
        Frame::OpenRequest {
            cmd: 1,
            atyp: 3,
            addr: vec![],
            port: 0,
        },
        Frame::Data(vec![]),
        Frame::Data(vec![7]),
        Frame::Data(vec![0, 255, 10]),
        Frame::EndRequest { reason: 1 },
        Frame::Reset { reason: 2 },
        Frame::Ping { token: u32::MAX },
        Frame::Pong { token: 0 },
        Frame::Close { reason: 3 },
    ];
    for frame in frames {
        assert_eq!(frame.to_text(), format!("{frame:?}"));
    }
}
