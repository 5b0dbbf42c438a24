use noisy_shuttle::error::{IoError, IoErrorKind};
use noisy_shuttle::session::frame::{Frame, FrameError, Received};
use noisy_shuttle::session::keepalive::{
    map_frame_error, KeepaliveDriver, KeepaliveError, KeepaliveStep,
};
use noisy_shuttle::session::lifecycle::SessionEvent;
use noisy_shuttle::time::Duration;

fn io_error(message: &str) -> IoError {
    IoError {
        kind: IoErrorKind::Other,
        message: message.to_string(),
    }
}

#[test]
fn test_keepalive_ping_pong_success() {
    let driver = KeepaliveDriver::new(Duration::from_millis(25));
    let ping = driver.ping();
    let reply = match ping.request() {
        Frame::Ping { token } => Frame::Pong { token },
        other => panic!("unexpected frame: {other:?}"),
    };
    assert_eq!(ping.sent(Ok(())).unwrap(), SessionEvent::PingSent);

    let (result, event) = ping.conclude(Received::Frame(reply));
    result.unwrap();
    assert_eq!(event, Some(SessionEvent::PingAcked));
}

#[test]
fn test_keepalive_timeout() {
    let driver = KeepaliveDriver::new(Duration::from_millis(5));

    let (result, event) = driver.ping().conclude(Received::TimedOut);
    let error = result.unwrap_err();
    assert!(matches!(error, KeepaliveError::Timeout));
    assert_eq!(event, Some(SessionEvent::PingTimeout));
}

#[test]
fn test_keepalive_token_mismatch() {
    let driver = KeepaliveDriver::new(Duration::from_millis(25));
    let ping = driver.ping();
    let reply = match ping.request() {
        Frame::Ping { token } => Frame::Pong {
            token: token.wrapping_add(1),
        },
        other => panic!("unexpected frame: {other:?}"),
    };

    let (result, event) = ping.conclude(Received::Frame(reply));
    let error = result.unwrap_err();
    assert!(matches!(error, KeepaliveError::TokenMismatch { .. }));
    assert_eq!(event, None);
}

#[test]
fn answers_may_take_two_intervals() {
    let driver = KeepaliveDriver::new(Duration::from_secs(30));
    assert_eq!(driver.interval(), Duration::from_secs(30));
    assert_eq!(driver.timeout(), Duration::from_secs(60));
    assert_eq!(driver.ping().timeout, Duration::from_secs(60));

    let longest = Duration::from_secs(u64::MAX);
    let driver = KeepaliveDriver::new(longest);
    assert_eq!(driver.timeout(), longest);
}

#[test]
fn tokens_are_drawn_anew() {
    let driver = KeepaliveDriver::new(Duration::from_secs(30));
    let first = driver.ping().token;
    assert!((0..64).any(|_| driver.ping().token != first));
}

#[test]
fn sessions_are_kept_until_a_ping_fails() {
    let driver = KeepaliveDriver::new(Duration::from_secs(30));
    let sleep = KeepaliveStep::Sleep(Duration::from_secs(30));
    assert_eq!(driver.first_step(), sleep);
    assert_eq!(driver.next_step(&Ok(())), sleep);
    assert_eq!(
        driver.next_step(&Err(KeepaliveError::Timeout)),
        KeepaliveStep::Evict
    );
}

#[test]
fn failures_say_what_went_wrong() {
    let ping = KeepaliveDriver::new(Duration::from_secs(1)).ping_with(7);
    assert_eq!(ping.request(), Frame::Ping { token: 7 });

    let (result, _) = ping.conclude(Received::Frame(Frame::Pong { token: 9 }));
    assert_eq!(
        result.unwrap_err().to_string(),
        "keepalive token mismatch: expected 7, got 9"
    );
    let (result, _) = ping.conclude(Received::Frame(Frame::Close { reason: 1 }));
    assert_eq!(
        result.unwrap_err().to_string(),
        "unexpected response frame type"
    );
    let (result, _) = ping.conclude(Received::Failed(FrameError::UnexpectedEof));
    assert!(matches!(
        result.unwrap_err(),
        KeepaliveError::UnexpectedResponse
    ));
    let (result, event) = ping.conclude(Received::Failed(FrameError::Io(io_error("gone"))));
    let error = result.unwrap_err();
    assert_eq!(error.to_string(), "I/O error: gone");
    assert_eq!(error.source().unwrap().message, "gone");
    assert_eq!(event, None);
    assert_eq!(KeepaliveError::Timeout.to_string(), "keepalive timeout");
    assert!(KeepaliveError::Timeout.source().is_none());
    assert!(matches!(
        KeepaliveError::from(io_error("x")),
        KeepaliveError::Io(_)
    ));
}

#[test]
fn pings_that_cannot_be_sent_fail() {
    let ping = KeepaliveDriver::new(Duration::from_secs(1)).ping_with(7);
    assert!(matches!(
        ping.sent(Err(FrameError::Io(io_error("gone")))),
        Err(KeepaliveError::Io(_))
    ));
    assert!(matches!(
        map_frame_error(FrameError::UnknownFrameType(9)),
        KeepaliveError::UnexpectedResponse
    ));
}
