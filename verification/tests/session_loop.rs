use noisy_shuttle::error::{IoError, IoErrorKind};
use noisy_shuttle::opt::ReuseConfig;
use noisy_shuttle::server::relay::{relay_open_request, Relay, RelayAction, END_REQUEST_OK};
use noisy_shuttle::server::session_loop::{
    close_reason_code, looks_like_reuse_handshake, AfterSend, HelloEvent, LoopAction, SendOutcome,
    ServeEvent, SessionContext, SessionLoop,
};
use noisy_shuttle::session::frame::{Frame, FrameError, Received, PROTOCOL_VERSION};
use noisy_shuttle::session::keepalive::KeepaliveDriver;
use noisy_shuttle::session::lifecycle::{CloseReason, SessionState};
use noisy_shuttle::time::{Duration, Instant};

fn test_config(max_requests: usize) -> ReuseConfig {
    ReuseConfig {
        max_idle: 1,
        max_requests,
        max_age: Duration::from_secs(60),
        idle_timeout: Duration::from_secs(60),
        keepalive_interval: Duration::from_secs(30),
        keepalive_timeout: Duration::from_secs(10),
        jitter_percent: 0,
    }
}

fn at(secs: u64) -> Instant {
    Instant::at(Duration::from_secs(secs))
}

fn hello() -> Frame {
    Frame::ClientHello {
        version: PROTOCOL_VERSION,
        capabilities: 0,
    }
}

fn open_request(port: u16) -> Frame {
    Frame::OpenRequest {
        cmd: 0x01,
        atyp: 0x01,
        addr: vec![127, 0, 0, 1],
        port,
    }
}

fn end_request() -> Frame {
    Frame::EndRequest {
        reason: END_REQUEST_OK,
    }
}

fn close(reason: CloseReason) -> Frame {
    Frame::Close {
        reason: close_reason_code(reason),
    }
}

/// What a client sees of a server whose targets read all they get and then hang
/// up. The server is told to shut down before the client's frame with the given
/// number, if there is one.
struct Server {
    incoming: Vec<Frame>,
    taken: usize,
    shutdown_before: Option<usize>,
    sent: Vec<Frame>,
}

impl Server {
    fn shutdown(&self) -> bool {
        matches!(self.shutdown_before, Some(n) if self.taken >= n)
    }

    fn next_frame(&mut self) -> Result<Frame, FrameError> {
        if self.taken < self.incoming.len() {
            self.taken += 1;
            Ok(self.incoming[self.taken - 1].clone())
        } else {
            Err(FrameError::Io(IoError {
                kind: IoErrorKind::UnexpectedEof,
                message: "early eof".to_string(),
            }))
        }
    }

    fn relay(&mut self, cmd: u8, atyp: u8, addr: Vec<u8>, port: u16, drain: Duration) -> bool {
        if relay_open_request(cmd, atyp, addr, port).is_err() {
            return false;
        }
        let mut relay = Relay::new(self.shutdown(), drain);
        while relay.finished().is_none() {
            let action = if relay.awaits_client() {
                let frame = self.next_frame();
                relay.client_frame(frame)
            } else {
                relay.target_bytes(Ok(vec![]))
            };
            match action {
                RelayAction::Send(frame) => self.sent.push(frame),
                RelayAction::Fail(_) => return false,
                _ => {}
            }
        }
        true
    }

    fn run(mut self, config: ReuseConfig) -> (SessionContext<()>, Vec<Frame>) {
        let session_loop = SessionLoop::new(config);
        let (mut ctx, mut action) = session_loop.begin((), None, at(0));
        loop {
            action = match action {
                LoopAction::AwaitHello { watch_shutdown } => {
                    let event = if watch_shutdown && self.shutdown() {
                        HelloEvent::ShutdownChanged(true)
                    } else {
                        HelloEvent::Frame(self.next_frame())
                    };
                    session_loop.negotiate(&mut ctx, event, at(0))
                }
                LoopAction::Check => session_loop.serve_loop(&mut ctx, self.shutdown(), at(0)),
                LoopAction::AwaitFrame { .. } => {
                    let event = ServeEvent::Frame(self.next_frame());
                    session_loop.served(&mut ctx, event, at(0))
                }
                LoopAction::Relay {
                    cmd,
                    atyp,
                    addr,
                    port,
                    drain_timeout,
                } => {
                    let relayed = self.relay(cmd, atyp, addr, port, drain_timeout);
                    session_loop.after_relay(&mut ctx, relayed, self.shutdown(), at(0))
                }
                LoopAction::Send { frame, then, .. } => {
                    self.sent.push(frame);
                    session_loop.after_send(&mut ctx, then, SendOutcome::Sent)
                }
                LoopAction::Finish(result) => {
                    result.unwrap();
                    return (ctx, self.sent);
                }
            };
        }
    }
}

fn served(max_requests: usize, incoming: Vec<Frame>) -> (SessionContext<()>, Vec<Frame>) {
    served_until(max_requests, incoming, None)
}

fn served_until(
    max_requests: usize,
    incoming: Vec<Frame>,
    shutdown_before: Option<usize>,
) -> (SessionContext<()>, Vec<Frame>) {
    let server = Server {
        incoming,
        taken: 0,
        shutdown_before,
        sent: Vec::new(),
    };
    server.run(test_config(max_requests))
}

#[test]
fn handles_single_request() {
    let (ctx, sent) = served(10, vec![hello(), open_request(80), end_request()]);

    assert_eq!(sent[0], end_request());
    assert_eq!(ctx.request_count, 1);
}

#[test]
fn handles_multiple_sequential_requests() {
    let mut incoming = vec![hello()];
    for port in [80, 443] {
        incoming.push(open_request(port));
        incoming.push(end_request());
    }
    let (ctx, sent) = served(10, incoming);

    assert_eq!(sent[0], end_request());
    assert_eq!(sent[1], end_request());
    assert_eq!(ctx.request_count, 2);
}

#[test]
fn closes_when_max_requests_reached() {
    let (ctx, sent) = served(1, vec![hello(), open_request(80), end_request()]);

    assert_eq!(sent[0], end_request());
    assert_eq!(sent[1], close(CloseReason::MaxRequestsReached));
    assert_eq!(ctx.state, SessionState::Closed);
}

#[test]
fn closes_on_version_mismatch() {
    let (ctx, sent) = served(
        10,
        vec![Frame::ClientHello {
            version: PROTOCOL_VERSION + 1,
            capabilities: 0,
        }],
    );

    assert_eq!(sent, [close(CloseReason::VersionMismatch)]);
    assert_eq!(ctx.state, SessionState::Closed);
}

#[test]
fn resets_on_protocol_error() {
    let (ctx, sent) = served(10, vec![hello(), Frame::Data(b"unexpected".to_vec())]);

    assert_eq!(
        sent,
        [Frame::Reset {
            reason: close_reason_code(CloseReason::ProtocolError)
        }]
    );
    assert_eq!(ctx.state, SessionState::Poisoned);
}

#[test]
fn gracefully_closes_when_client_requests_shutdown() {
    let (_, sent) = served(10, vec![hello(), close(CloseReason::ClientInitiated)]);

    assert_eq!(sent, [close(CloseReason::ClientInitiated)]);
}

#[test]
fn test_shutdown_during_session_loop() {
    let (_, sent) = served_until(10, vec![hello()], Some(1));

    assert_eq!(sent, [close(CloseReason::ShutdownDrain)]);
}

#[test]
fn shutdown_after_request_drains_before_close() {
    let incoming = vec![hello(), open_request(80), end_request()];
    let (_, sent) = served_until(10, incoming, Some(2));

    assert_eq!(sent, [end_request(), close(CloseReason::ShutdownDrain)]);
}

#[test]
fn a_shutdown_before_the_hello_closes_the_session() {
    let (ctx, sent) = served_until(10, vec![hello()], Some(0));

    assert_eq!(sent, [close(CloseReason::ShutdownDrain)]);
    assert_eq!(ctx.state, SessionState::Closed);
}

#[test]
fn requests_that_fail_reset_the_session() {
    let bad = Frame::OpenRequest {
        cmd: 0x01,
        atyp: 0x09,
        addr: vec![],
        port: 1,
    };
    let (ctx, sent) = served(10, vec![hello(), bad]);

    assert_eq!(
        sent,
        [Frame::Reset {
            reason: close_reason_code(CloseReason::ServerError)
        }]
    );
    assert_eq!(ctx.state, SessionState::Poisoned);
    assert_eq!(ctx.request_count, 1);
}

#[test]
fn sessions_carry_no_more_requests_than_they_may() {
    let mut incoming = vec![hello()];
    for port in 0..20 {
        incoming.push(open_request(port));
        incoming.push(end_request());
    }
    let (ctx, sent) = served(3, incoming);
    assert_eq!(ctx.request_count, 3);
    assert_eq!(sent.len(), 4);
    assert_eq!(sent[3], close(CloseReason::MaxRequestsReached));
}

#[test]
fn a_first_frame_may_have_been_read_already() {
    let session_loop = SessionLoop::new(test_config(10));

    let (ctx, action) = session_loop.begin((), Some(hello()), at(5));
    assert_eq!(ctx.state, SessionState::Idle);
    assert_eq!(ctx.created_at, at(5));
    assert!(matches!(action, LoopAction::Check));

    let (ctx, action) = session_loop.begin((), Some(Frame::Ping { token: 1 }), at(5));
    assert_eq!(ctx.state, SessionState::Poisoned);
    assert!(matches!(
        action,
        LoopAction::Send {
            frame: Frame::Reset { reason: 0x07 },
            within: None,
            then: AfterSend::Ended,
        }
    ));
}

fn idle_session(session_loop: &SessionLoop) -> SessionContext<()> {
    session_loop.begin((), Some(hello()), at(0)).0
}

#[test]
fn limits_are_reached_at_their_very_moment() {
    let mut config = test_config(2);
    config.idle_timeout = Duration::from_secs(10);
    let session_loop = SessionLoop::new(config);
    let mut ctx = idle_session(&session_loop);

    assert_eq!(session_loop.expired_limit(&ctx, &at(9)), None);
    assert_eq!(
        session_loop.expired_limit(&ctx, &at(10)),
        Some(CloseReason::IdleTimeout)
    );
    assert_eq!(
        session_loop.expired_limit(&ctx, &at(60)),
        Some(CloseReason::MaxAgeExceeded)
    );
    ctx.request_count = 2;
    assert_eq!(
        session_loop.expired_limit(&ctx, &at(60)),
        Some(CloseReason::MaxRequestsReached)
    );
    ctx.request_count = 0;
    ctx.created_at = at(100);
    ctx.last_activity = at(100);
    assert_eq!(session_loop.expired_limit(&ctx, &at(60)), None);
}

#[test]
fn idle_sessions_are_closed() {
    let session_loop = SessionLoop::new(test_config(2));
    let mut ctx = idle_session(&session_loop);
    match session_loop.serve_loop(&mut ctx, false, at(1)) {
        LoopAction::AwaitFrame { idle } => assert_eq!(idle, Duration::from_secs(60)),
        _ => panic!("no request is awaited"),
    }
    match session_loop.served(&mut ctx, ServeEvent::IdleElapsed, at(61)) {
        LoopAction::Send { frame, then, .. } => {
            assert_eq!(frame, close(CloseReason::IdleTimeout));
            assert_eq!(then, AfterSend::Closed);
        }
        _ => panic!("the session goes on"),
    }
    assert_eq!(ctx.state, SessionState::Closing);
}

#[test]
fn pings_are_acknowledged_between_requests() {
    let session_loop = SessionLoop::new(test_config(2));
    let mut ctx = idle_session(&session_loop);
    let ping = KeepaliveDriver::new(Duration::from_secs(30)).ping();

    let event = ServeEvent::Frame(Ok(ping.request()));
    match session_loop.served(&mut ctx, event, at(7)) {
        LoopAction::Send { frame, then, .. } => {
            assert_eq!(then, AfterSend::Continue);
            assert!(ping.conclude(Received::Frame(frame)).0.is_ok());
        }
        _ => panic!("the ping was not answered"),
    }
    assert_eq!(ctx.state, SessionState::Idle);
    assert_eq!(ctx.last_activity, at(7));
}

#[test]
fn shutdown_flags_that_are_not_set_change_nothing() {
    let session_loop = SessionLoop::new(test_config(2));
    let (mut ctx, action) = session_loop.begin((), None, at(0));
    assert!(matches!(
        action,
        LoopAction::AwaitHello {
            watch_shutdown: true
        }
    ));
    assert!(matches!(
        session_loop.negotiate(&mut ctx, HelloEvent::ShutdownChanged(false), at(0)),
        LoopAction::AwaitHello {
            watch_shutdown: false
        }
    ));
    let mut ctx = idle_session(&session_loop);
    assert!(matches!(
        session_loop.served(&mut ctx, ServeEvent::ShutdownChanged(false), at(0)),
        LoopAction::Check
    ));
    assert_eq!(ctx.state, SessionState::Idle);
}

#[test]
fn sessions_in_use_are_closed_within_a_time() {
    let session_loop = SessionLoop::new(test_config(2));
    let mut ctx = idle_session(&session_loop);
    ctx.state = SessionState::Active;
    match session_loop.graceful_shutdown(&mut ctx) {
        LoopAction::Send { frame, within, .. } => {
            assert_eq!(frame, close(CloseReason::ShutdownDrain));
            assert_eq!(within, Some(Duration::from_secs(30)));
        }
        _ => panic!("the session goes on"),
    }
    match session_loop.after_send(&mut ctx, AfterSend::Closed, SendOutcome::TimedOut) {
        LoopAction::Send { frame, then, .. } => {
            assert_eq!(
                frame,
                Frame::Reset {
                    reason: close_reason_code(CloseReason::ShutdownDrain)
                }
            );
            assert_eq!(then, AfterSend::Ended);
        }
        _ => panic!("the session goes on"),
    }
    assert_eq!(ctx.state, SessionState::Poisoned);
    assert!(matches!(
        session_loop.graceful_shutdown(&mut ctx),
        LoopAction::Finish(Ok(()))
    ));
}

#[test]
fn frames_that_cannot_be_sent_end_the_loop() {
    let session_loop = SessionLoop::new(test_config(2));
    let mut ctx = idle_session(&session_loop);
    let _ = session_loop.close(&mut ctx, CloseReason::ServerClose);
    let failed = SendOutcome::Failed(FrameError::UnexpectedEof);
    assert!(matches!(
        session_loop.after_send(&mut ctx, AfterSend::Closed, failed),
        LoopAction::Finish(Err(FrameError::UnexpectedEof))
    ));
    assert_eq!(ctx.state, SessionState::Closing);
}

#[test]
fn reasons_have_codes() {
    let codes = [
        (CloseReason::ClientClose, 0x01),
        (CloseReason::ClientInitiated, 0x01),
        (CloseReason::ServerClose, 0x02),
        (CloseReason::ServerError, 0x02),
        (CloseReason::IdleTimeout, 0x03),
        (CloseReason::MaxAgeExceeded, 0x04),
        (CloseReason::MaxRequestsExceeded, 0x05),
        (CloseReason::MaxRequestsReached, 0x05),
        (CloseReason::KeepaliveTimeout, 0x06),
        (CloseReason::ProtocolError, 0x07),
        (CloseReason::VersionMismatch, 0x08),
        (CloseReason::ShutdownDrain, 0x09),
        (CloseReason::CheckoutFailed, 0x0a),
        (CloseReason::Poisoned, 0x0b),
    ];
    for (reason, code) in codes {
        assert_eq!(close_reason_code(reason), code);
        assert_eq!(reason.index(), reason as u8);
    }
}

#[test]
fn reusable_sessions_start_with_a_hello() {
    assert!(looks_like_reuse_handshake(&[0x01, 0x00]));
    assert!(!looks_like_reuse_handshake(&[0x02, 0x01]));
    assert!(!looks_like_reuse_handshake(&[]));
}
