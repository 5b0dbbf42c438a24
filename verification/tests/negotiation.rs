use noisy_shuttle::error::{IoError, IoErrorKind};
use noisy_shuttle::session::frame::{Frame, FrameError, Received, PROTOCOL_VERSION};
use noisy_shuttle::session::lifecycle::CloseReason;
use noisy_shuttle::session::negotiate::{
    client_accepts_server_version, hello, negotiate_client, negotiate_server,
    server_accepts_client_version, Capabilities, FallbackTracker, NegotiatedCapabilities,
    NegotiationError, CAP_KEEPALIVE, CAP_REUSE,
};

/// Sends a frame through its form on the wire.
fn over_the_wire(frame: &Frame) -> Received {
    let mut bytes = Vec::new();
    frame.try_encode(&mut bytes).unwrap();
    match Frame::decode(&bytes) {
        Ok(frame) => Received::Frame(frame),
        Err(error) => Received::Failed(error),
    }
}

/// Lets a client and a server negotiate, and gives what both end with.
fn negotiated(client: u16, server: u16) -> (NegotiatedCapabilities, NegotiatedCapabilities) {
    let client_caps = Capabilities::new(client);
    let server_caps = Capabilities::new(server);
    let at_server = negotiate_server(server_caps, over_the_wire(&hello(client_caps)));
    let answer = at_server.answer.unwrap();
    let at_client = negotiate_client(client_caps, over_the_wire(&answer));
    (at_client.unwrap(), at_server.result.unwrap())
}

#[test]
fn test_successful_negotiation() {
    let (client_result, server_result) =
        negotiated(CAP_REUSE | CAP_KEEPALIVE, CAP_REUSE | CAP_KEEPALIVE);

    let expected = NegotiatedCapabilities {
        reuse: true,
        keepalive: true,
        server_version: PROTOCOL_VERSION,
    };
    assert_eq!(client_result, expected);
    assert_eq!(server_result, expected);
}

#[test]
fn test_capability_downgrade() {
    let (client_result, server_result) = negotiated(CAP_REUSE | CAP_KEEPALIVE, CAP_REUSE);

    let expected = NegotiatedCapabilities {
        reuse: true,
        keepalive: false,
        server_version: PROTOCOL_VERSION,
    };
    assert_eq!(client_result, expected);
    assert_eq!(server_result, expected);
}

#[test]
fn test_version_mismatch() {
    let answer = Frame::ClientHello {
        version: PROTOCOL_VERSION - 1,
        capabilities: CAP_REUSE,
    };
    let client_result = negotiate_client(Capabilities::new(CAP_REUSE), over_the_wire(&answer));

    assert!(matches!(
        client_result,
        Err(NegotiationError::VersionMismatch {
            client: PROTOCOL_VERSION,
            server: 0,
        })
    ));
}

#[test]
fn test_server_rejection() {
    let request = hello(Capabilities::new(CAP_REUSE));
    assert!(matches!(request, Frame::ClientHello { .. }));

    let client_result = negotiate_client(
        Capabilities::new(CAP_REUSE),
        over_the_wire(&Frame::Close { reason: 0x7f }),
    );

    assert!(matches!(
        client_result,
        Err(NegotiationError::ServerRejected { reason: 0x7f })
    ));
}

#[test]
fn test_server_rejects_incompatible_client_version() {
    let request = Frame::ClientHello {
        version: PROTOCOL_VERSION + 1,
        capabilities: CAP_REUSE,
    };
    let conclusion = negotiate_server(Capabilities::new(CAP_REUSE), over_the_wire(&request));

    assert!(matches!(
        conclusion.result,
        Err(NegotiationError::VersionMismatch {
            client: 2,
            server: PROTOCOL_VERSION,
        })
    ));
    assert_eq!(
        conclusion.answer,
        Some(Frame::Close {
            reason: CloseReason::VersionMismatch as u8,
        })
    );
}

#[test]
fn test_fallback_to_one_shot_on_non_client_hello_response() {
    // The bytes announce a payload that never comes, until the time is over.
    let response = b"legacy trojan response";
    assert!(matches!(
        Frame::decode(response),
        Err(FrameError::UnexpectedEof)
    ));

    let client_result = negotiate_client(Capabilities::new(CAP_REUSE), Received::TimedOut);
    assert!(matches!(client_result, Err(NegotiationError::NoResponse)));
}

#[test]
fn test_fallback_tracker_warn_once() {
    let mut tracker = FallbackTracker::new();

    tracker.warn_fallback("example.com:443");
    tracker.warn_fallback("example.com:443");
    tracker.warn_fallback("other.example.com:443");

    assert_eq!(tracker.len(), 2);
    assert!(tracker.contains("example.com:443"));
    assert!(tracker.contains("other.example.com:443"));
}

#[test]
fn warnings_are_due_once_for_each_endpoint() {
    let mut tracker = FallbackTracker::default();

    assert!(!tracker.contains("a:1"));
    assert!(tracker.warn_fallback("a:1"));
    assert!(!tracker.warn_fallback("a:1"));
    assert!(tracker.warn_fallback("b:1"));
    assert!(!tracker.warn_fallback("a:1"));
    assert_eq!(tracker.len(), 2);
}

#[test]
fn both_sides_agree_on_what_both_offer() {
    for client in 0..4u16 {
        for server in 0..4u16 {
            let (at_client, at_server) = negotiated(client, server);
            assert_eq!(at_client, at_server);
            assert_eq!(at_client.reuse, client & server & 1 != 0);
            assert_eq!(at_client.keepalive, client & server & 2 != 0);
        }
    }
}

#[test]
fn capabilities_are_bits() {
    let caps = Capabilities::new(0x8001);
    assert!(caps.reuse());
    assert!(!caps.keepalive());
    assert_eq!(caps.bits(), 0x8001);
    assert_eq!(
        caps.intersect(Capabilities::new(0x8002)),
        Capabilities::new(0x8000)
    );
    assert_eq!(caps.intersect(caps), caps);
    assert_eq!(
        NegotiatedCapabilities::from_intersect(caps, Capabilities::new(3), 9),
        NegotiatedCapabilities {
            reuse: true,
            keepalive: false,
            server_version: 9,
        }
    );
}

#[test]
fn versions_are_compared_by_each_side() {
    assert!(!client_accepts_server_version(0));
    assert!(client_accepts_server_version(1));
    assert!(client_accepts_server_version(2));
    assert!(server_accepts_client_version(0));
    assert!(server_accepts_client_version(1));
    assert!(!server_accepts_client_version(2));
}

#[test]
fn a_newer_server_is_accepted_with_its_version() {
    let answer = Frame::ClientHello {
        version: 7,
        capabilities: CAP_REUSE,
    };
    assert_eq!(
        negotiate_client(Capabilities::new(CAP_REUSE), Received::Frame(answer)).unwrap(),
        NegotiatedCapabilities {
            reuse: true,
            keepalive: false,
            server_version: 7,
        }
    );
}

#[test]
fn a_server_answers_hellos_only() {
    let caps = Capabilities::new(CAP_REUSE);

    let data = negotiate_server(caps, Received::Frame(Frame::Data(vec![1])));
    assert!(data.answer.is_none());
    assert!(matches!(data.result, Err(NegotiationError::UnexpectedFrame)));

    let silence = negotiate_server(caps, Received::TimedOut);
    assert!(silence.answer.is_none());
    assert!(matches!(silence.result, Err(NegotiationError::NoResponse)));

    let end = negotiate_server(caps, Received::Failed(FrameError::UnexpectedEof));
    assert!(end.answer.is_none());
    assert!(matches!(end.result, Err(NegotiationError::NoResponse)));
}

#[test]
fn a_client_takes_other_frames_for_no_response() {
    let caps = Capabilities::new(CAP_REUSE);
    assert!(matches!(
        negotiate_client(caps, Received::Frame(Frame::Ping { token: 1 })),
        Err(NegotiationError::NoResponse)
    ));
}

#[test]
fn frame_errors_become_negotiation_errors() {
    let broken = IoError {
        kind: IoErrorKind::Other,
        message: "broken pipe".to_string(),
    };
    match NegotiationError::from(FrameError::Io(broken)) {
        NegotiationError::Io(error) => {
            assert_eq!(error.kind, IoErrorKind::Other);
            assert_eq!(error.message, "broken pipe");
        }
        other => panic!("unexpected error: {other:?}"),
    }
    match NegotiationError::from(FrameError::UnknownFrameType(0xff)) {
        NegotiationError::Io(error) => {
            assert_eq!(error.kind, IoErrorKind::InvalidData);
            assert_eq!(error.message, "unknown frame type: 255");
        }
        other => panic!("unexpected error: {other:?}"),
    }
    assert!(matches!(
        NegotiationError::from(FrameError::UnexpectedEof),
        NegotiationError::NoResponse
    ));
}
