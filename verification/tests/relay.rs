use noisy_shuttle::addr::{Addr, IpAddr};
use noisy_shuttle::error::{IoError, IoErrorKind};
use noisy_shuttle::server::relay::{
    frame_addr_to_trojan_addr, relay_open_request, target_connected, OpenRequestError, Relay,
    RelayAction, RelayError, END_REQUEST_OK,
};
use noisy_shuttle::session::frame::{Frame, FrameError};
use noisy_shuttle::time::Duration;

fn relay() -> Relay {
    Relay::new(false, Duration::from_secs(30))
}

fn io_error() -> IoError {
    IoError {
        kind: IoErrorKind::Other,
        message: "broken".to_string(),
    }
}

#[test]
fn addresses_are_read() {
    match relay_open_request(0x01, 0x01, vec![127, 0, 0, 1], 80).unwrap() {
        Addr::SocketAddr(socket) => {
            assert_eq!(socket.ip, IpAddr::V4([127, 0, 0, 1]));
            assert_eq!(socket.port, 80);
        }
        other => panic!("unexpected address: {other:?}"),
    }
    let bytes: Vec<u8> = (0..16).collect();
    match relay_open_request(0x01, 0x04, bytes, 443).unwrap() {
        Addr::SocketAddr(socket) => {
            assert_eq!(
                socket.ip,
                IpAddr::V6([0, 1, 2, 3, 4, 5, 6, 7, 8, 9, 10, 11, 12, 13, 14, 15])
            );
            assert_eq!(socket.port, 443);
            assert_eq!((socket.flowinfo, socket.scope_id), (0, 0));
        }
        other => panic!("unexpected address: {other:?}"),
    }
    match relay_open_request(0x01, 0x03, "exämple.com".as_bytes().to_vec(), 443).unwrap() {
        Addr::Domain(name, port) => {
            assert_eq!(name, "exämple.com");
            assert_eq!(port, 443);
        }
        other => panic!("unexpected address: {other:?}"),
    }
}

#[test]
fn requests_that_make_no_sense_are_refused() {
    let refused = |cmd, atyp, addr: Vec<u8>| relay_open_request(cmd, atyp, addr, 80).unwrap_err();

    let error = refused(0x03, 0x01, vec![127, 0, 0, 1]);
    assert_eq!(error, OpenRequestError::UnsupportedCommand(3));
    assert_eq!(error.to_string(), "unsupported reusable request command: 3");

    let error = refused(0x01, 0x01, vec![127, 0, 0]);
    assert_eq!(error, OpenRequestError::InvalidIpv4Length);
    assert_eq!(error.to_string(), "invalid ipv4 address length");

    let error = refused(0x01, 0x04, vec![0; 15]);
    assert_eq!(error, OpenRequestError::InvalidIpv6Length);
    assert_eq!(error.to_string(), "invalid ipv6 address length");

    let error = refused(0x01, 0x03, vec![0xff, 0xfe]);
    assert_eq!(error, OpenRequestError::InvalidDomainEncoding);
    assert_eq!(error.to_string(), "invalid domain address encoding");

    let error = refused(0x01, 0x02, vec![]);
    assert_eq!(error, OpenRequestError::UnsupportedAddressType(2));
    assert_eq!(error.to_string(), "unsupported address type: 2");

    assert!(frame_addr_to_trojan_addr(0x03, vec![], 1).is_ok());
}

#[test]
fn both_streams_are_carried_and_counted() {
    let mut relay = relay();
    match relay.client_frame(Ok(Frame::Data(b"hello".to_vec()))) {
        RelayAction::WriteTarget(bytes) => assert_eq!(bytes, b"hello"),
        _ => panic!("nothing was written"),
    }
    match relay.target_bytes(Ok(b"hello world".to_vec())) {
        RelayAction::Send(frame) => assert_eq!(frame, Frame::Data(b"hello world".to_vec())),
        _ => panic!("nothing was sent"),
    }
    assert!(relay.finished().is_none());
    assert!(relay.awaits_client() && relay.awaits_target());

    assert!(matches!(
        relay.client_frame(Ok(Frame::EndRequest { reason: 5 })),
        RelayAction::EndTarget
    ));
    assert!(!relay.awaits_client());
    assert!(relay.finished().is_none());

    match relay.target_bytes(Ok(vec![])) {
        RelayAction::Send(frame) => assert_eq!(
            frame,
            Frame::EndRequest {
                reason: END_REQUEST_OK
            }
        ),
        _ => panic!("the end was not told"),
    }
    assert!(!relay.awaits_target());
    assert_eq!(relay.finished(), Some((5, 11)));
}

#[test]
fn pings_are_answered_during_a_request() {
    match relay().client_frame(Ok(Frame::Ping { token: 42 })) {
        RelayAction::Send(frame) => assert_eq!(frame, Frame::Pong { token: 42 }),
        _ => panic!("the ping was not answered"),
    }
}

#[test]
fn requests_fail_for_a_reason() {
    assert!(matches!(
        relay().client_frame(Ok(Frame::Reset { reason: 7 })),
        RelayAction::Fail(RelayError::ClientReset(7))
    ));
    assert!(matches!(
        relay().client_frame(Ok(Frame::Close { reason: 1 })),
        RelayAction::Fail(RelayError::UnexpectedFrame(Frame::Close { reason: 1 }))
    ));
    assert!(matches!(
        relay().client_frame(Err(FrameError::UnexpectedEof)),
        RelayAction::Fail(RelayError::Frame(FrameError::UnexpectedEof))
    ));
    assert!(matches!(
        relay().target_bytes(Err(io_error())),
        RelayAction::Fail(RelayError::TargetRead(_))
    ));
    assert!(matches!(
        relay().drain_elapsed(),
        RelayAction::Fail(RelayError::DrainTimeout)
    ));
}

#[test]
fn a_shutdown_limits_the_time_to_finish() {
    let mut relay = relay();
    assert!(relay.awaits_shutdown());
    assert!(matches!(relay.shutdown_changed(false), RelayAction::Wait));
    assert!(relay.awaits_shutdown());
    match relay.shutdown_changed(true) {
        RelayAction::RestartDrain(within) => assert_eq!(within, Duration::from_secs(30)),
        _ => panic!("the time was not started"),
    }
    assert!(!relay.awaits_shutdown());
    assert!(relay.finished().is_none());

    assert!(!Relay::new(true, Duration::from_secs(30)).awaits_shutdown());
}

#[test]
fn ends_are_told_once_and_pings_answered_in_order() {
    let mut relay = relay();
    let mut sent = Vec::new();
    let mut note = |action: RelayAction| {
        if let RelayAction::Send(frame) = action {
            sent.push(frame);
        }
    };
    note(relay.client_frame(Ok(Frame::Ping { token: 1 })));
    note(relay.target_bytes(Ok(vec![7])));
    note(relay.client_frame(Ok(Frame::Ping { token: 2 })));
    note(relay.target_bytes(Ok(vec![])));
    note(relay.client_frame(Ok(Frame::Data(vec![8]))));
    note(relay.client_frame(Ok(Frame::Ping { token: 3 })));
    note(relay.client_frame(Ok(Frame::EndRequest { reason: 0 })));
    assert_eq!(relay.finished(), Some((1, 1)));
    assert_eq!(
        sent,
        [
            Frame::Pong { token: 1 },
            Frame::Data(vec![7]),
            Frame::Pong { token: 2 },
            Frame::EndRequest {
                reason: END_REQUEST_OK
            },
            Frame::Pong { token: 3 },
        ]
    );
}

#[test]
fn outcomes_decide_whether_a_request_goes_on() {
    assert_eq!(target_connected(Ok(5)).unwrap(), 5);
    let error = target_connected::<u8>(Err(io_error())).unwrap_err();
    assert!(matches!(error, RelayError::Connect(_)));
    assert_eq!(
        error.to_string(),
        "failed to connect reusable request target"
    );
    assert_eq!(error.source().unwrap().message, "broken");

    assert!(relay().wrote_target(Ok(())).is_ok());
    let error = relay().wrote_target(Err(io_error())).unwrap_err();
    assert!(matches!(error, RelayError::TargetWrite(_)));
    assert_eq!(error.to_string(), "failed to write reusable data to target");
    assert_eq!(error.source().unwrap().message, "broken");

    assert!(relay().sent_frame(Ok(())).is_ok());
    let error = relay()
        .sent_frame(Err(FrameError::Io(io_error())))
        .unwrap_err();
    assert!(matches!(error, RelayError::Frame(FrameError::Io(_))));
    assert_eq!(error.to_string(), "I/O error: broken");
    assert_eq!(error.source().unwrap().message, "broken");
}

#[test]
fn errors_describe_themselves_in_words() {
    let error = RelayError::TargetRead(io_error());
    assert_eq!(error.to_string(), "failed to read target response");
    assert_eq!(error.source().unwrap().message, "broken");
    let error = RelayError::ClientReset(7);
    assert_eq!(error.to_string(), "client reset reusable request: 7");
    assert!(error.source().is_none());
    let error = RelayError::UnexpectedFrame(Frame::Close { reason: 1 });
    assert_eq!(
        error.to_string(),
        "unexpected reusable request frame: Close { reason: 1 }"
    );
    assert_eq!(
        RelayError::DrainTimeout.to_string(),
        "timed out draining reusable request during shutdown"
    );
    let error = RelayError::Frame(FrameError::UnexpectedEof);
    assert_eq!(error.to_string(), "unexpected end of input");
    assert!(error.source().is_none());
}
