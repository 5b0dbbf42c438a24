use noisy_shuttle::client::pool::{
    CheckoutError, CheckoutStep, DrainStep, PooledSession, SessionHandle, SessionPool,
};
use noisy_shuttle::error::{IoError, IoErrorKind};
use noisy_shuttle::opt::ReuseConfig;
use noisy_shuttle::session::lifecycle::{CloseReason, SessionEvent};
use noisy_shuttle::time::{Duration, Instant};

fn config() -> ReuseConfig {
    ReuseConfig {
        max_idle: 1,
        max_requests: 3,
        max_age: Duration::from_secs(60),
        idle_timeout: Duration::from_secs(30),
        keepalive_interval: Duration::from_secs(10),
        keepalive_timeout: Duration::from_secs(5),
        jitter_percent: 0,
    }
}

fn at(millis: u64) -> Instant {
    Instant::at(Duration::from_millis(millis))
}

/// A pool whose connections are numbered from one on.
struct Client {
    pool: SessionPool<u32>,
    connect_count: u32,
    events: Vec<SessionEvent>,
}

impl Client {
    fn new(config: ReuseConfig) -> Self {
        Client {
            pool: SessionPool::new(config),
            connect_count: 0,
            events: Vec::new(),
        }
    }

    fn checkout(&mut self, millis: u64) -> Result<PooledSession<u32>, CheckoutError> {
        assert!(self.pool.counters_have_room(&at(millis)));
        let (step, events) = self.pool.checkout(false, at(millis));
        self.events.extend(events);
        match step {
            CheckoutStep::Ready(session) => Ok(session),
            CheckoutStep::Refused(error) => Err(error),
            CheckoutStep::Connect => {
                self.connect_count += 1;
                let (result, events) =
                    self.pool
                        .connected(false, Ok(self.connect_count), at(millis));
                self.events.extend(events);
                result
            }
        }
    }

    fn return_session(&mut self, session: PooledSession<u32>, healthy: bool, millis: u64) {
        let outcome = self
            .pool
            .return_session(session, healthy, false, at(millis));
        self.events.extend(outcome.events);
    }
}

#[test]
fn test_pool_miss_empty_pool() {
    let mut client = Client::new(config());

    let session = client.checkout(0).unwrap();

    assert_eq!(session.use_count, 1);
    assert_eq!(session.reuse_count, 0);
    assert_eq!(client.connect_count, 1);
    assert_eq!(client.events, [SessionEvent::PoolMiss]);
}

#[test]
fn test_pool_hit_idle_available() {
    let mut client = Client::new(config());
    let session = client.checkout(0).unwrap();
    client.return_session(session, true, 1);

    let session = client.checkout(2).unwrap();

    assert_eq!(client.connect_count, 1);
    assert_eq!(session.use_count, 2);
    assert_eq!(session.reuse_count, 1);
    assert_eq!(
        client.events,
        [
            SessionEvent::PoolMiss,
            SessionEvent::PoolHit,
            SessionEvent::SessionReused(1),
        ]
    );
}

#[test]
fn test_eviction_when_full() {
    let mut cfg = config();
    cfg.max_idle = 1;
    let mut client = Client::new(cfg);
    let first = client.checkout(0).unwrap();
    let second = client.checkout(0).unwrap();

    client.return_session(first, true, 1);
    client.return_session(second, true, 1);
    let session = client.checkout(2).unwrap();

    assert_eq!(client.connect_count, 2);
    assert_eq!(session.use_count, 2);
}

#[test]
fn test_max_requests_eviction() {
    let mut cfg = config();
    cfg.max_requests = 1;
    let mut client = Client::new(cfg);
    let session = client.checkout(0).unwrap();

    client.return_session(session, true, 1);
    let session = client.checkout(2).unwrap();

    assert_eq!(client.connect_count, 2);
    assert_eq!(session.use_count, 1);
    assert!(client.events.contains(&SessionEvent::MaxRequestsEviction));
}

#[test]
fn test_max_age_eviction() {
    let mut cfg = config();
    cfg.max_age = Duration::from_millis(1);
    let mut client = Client::new(cfg);
    let session = client.checkout(0).unwrap();

    client.return_session(session, true, 5);
    let session = client.checkout(5).unwrap();

    assert_eq!(client.connect_count, 2);
    assert_eq!(session.use_count, 1);
    assert!(client.events.contains(&SessionEvent::MaxAgeEviction));
}

#[test]
fn test_pre_payload_retry() {
    let mut client = Client::new(config());
    let handle = SessionHandle::new(client.checkout(0).unwrap());

    let pending = handle
        .retry_after_protocol_error(&mut client.pool, "protocol error before payload")
        .unwrap();
    assert!(pending.notify);
    assert_eq!(pending.event, SessionEvent::FallbackToOneShot);
    let session = client.checkout(1).unwrap();
    let handle = pending.resume(session);

    assert_eq!(client.connect_count, 2);
    assert!(handle.session().is_some());
    assert_eq!(client.pool.checked_out(), 1);
}

#[test]
fn test_cancellation_safe_checkout() {
    let mut pool: SessionPool<u32> = SessionPool::new(config());
    assert!(!pool.is_closed());

    let (step, _) = pool.checkout(false, at(0));
    assert!(matches!(step, CheckoutStep::Connect));

    // The connection is never reported.
    assert_eq!(pool.checked_out(), 0);
    assert_eq!(pool.idle_len(), 0);
}

#[test]
fn test_drain_waits_for_checked_out() {
    let mut client = Client::new(config());
    let session = client.checkout(0).unwrap();

    match client.pool.close_all() {
        DrainStep::Wait { within } => assert_eq!(within, Duration::from_secs(30)),
        DrainStep::Drained(_) => panic!("drained too early"),
    }

    let outcome = client.pool.return_session(session, true, false, at(25));
    assert!(outcome.notify);
    assert!(outcome.events.is_empty());
    assert!(matches!(
        client.pool.drain_step(),
        DrainStep::Drained(SessionEvent::GracefulDrain)
    ));
    assert_eq!(client.pool.checked_out(), 0);
    assert_eq!(client.pool.idle_len(), 0);
}

#[test]
fn test_checkout_after_close_returns_error() {
    let mut client = Client::new(config());

    assert!(matches!(
        client.pool.close_all(),
        DrainStep::Drained(SessionEvent::GracefulDrain)
    ));

    assert!(client.pool.is_closed());
    assert!(client.pool.connections_have_room());
    let error = client.checkout(0).unwrap_err();
    assert_eq!(error.to_string(), "session pool is closed");
    assert_eq!(client.events, [SessionEvent::CheckoutFailed]);
}

#[test]
fn test_shutdown_during_checkout() {
    let mut pool: SessionPool<u32> = SessionPool::new(config());
    let (step, _) = pool.checkout(false, at(0));
    assert!(matches!(step, CheckoutStep::Connect));

    let (result, events) = pool.connected(true, Ok(1), at(0));

    let error = result.unwrap_err();
    assert_eq!(
        error.to_string(),
        "session pool closed while checkout was connecting"
    );
    assert_eq!(events, [SessionEvent::CheckoutFailed]);
    assert_eq!(pool.checked_out(), 0);
}

#[test]
fn test_eviction_no_race_with_checkout() {
    let mut cfg = config();
    cfg.max_idle = 1;
    let mut client = Client::new(cfg);

    let first = client.checkout(0).unwrap();
    let second = client.checkout(0).unwrap();
    client.return_session(first, true, 1);
    assert_eq!(client.pool.idle_len(), 1);

    client.return_session(second, true, 2);

    assert_eq!(client.pool.checked_out(), 0);
    assert_eq!(client.pool.idle_len(), 1);
}

#[test]
fn full_pools_keep_their_sessions_while_others_are_in_use() {
    let mut client = Client::new(config());
    let first = client.checkout(0).unwrap();
    let second = client.checkout(0).unwrap();
    let _third = client.checkout(0).unwrap();

    client.return_session(first, true, 1);
    client.return_session(second, true, 2);
    assert_eq!(client.pool.idle_len(), 1);
    assert_eq!(client.checkout(3).unwrap().stream, 1);
}

#[test]
fn the_longest_idle_session_makes_room() {
    let mut client = Client::new(config());
    let first = client.checkout(0).unwrap();
    let second = client.checkout(0).unwrap();
    client.return_session(first, true, 1);
    client.return_session(second, true, 2);

    assert_eq!(
        client.events,
        [
            SessionEvent::PoolMiss,
            SessionEvent::PoolMiss,
            SessionEvent::IdleEviction,
        ]
    );
    assert_eq!(client.checkout(3).unwrap().stream, 2);
}

#[test]
fn the_last_session_given_back_is_the_next_one_out() {
    let mut cfg = config();
    cfg.max_idle = 2;
    let mut client = Client::new(cfg);
    let first = client.checkout(0).unwrap();
    let second = client.checkout(0).unwrap();
    client.return_session(second, true, 1);
    client.return_session(first, true, 2);

    let session = client.checkout(3).unwrap();
    assert_eq!(session.stream, 1);
    assert_eq!(session.created_at, at(0));
    assert_eq!(session.last_used, at(3));
    assert_eq!(client.checkout(3).unwrap().stream, 2);
}

#[test]
fn sessions_are_used_no_more_often_than_they_may() {
    let mut client = Client::new(config());
    for use_count in [1, 2, 3] {
        let session = client.checkout(use_count).unwrap();
        assert_eq!(session.use_count, use_count);
        assert_eq!(session.stream, 1);
        client.return_session(session, true, use_count);
    }
    assert_eq!(client.pool.idle_len(), 0);
    assert_eq!(client.checkout(4).unwrap().stream, 2);
}

#[test]
fn stale_and_old_sessions_are_dropped_on_the_way() {
    let mut cfg = config();
    cfg.max_idle = 3;
    let mut client = Client::new(cfg);
    let first = client.checkout(0).unwrap();
    let second = client.checkout(0).unwrap();
    client.return_session(first, true, 0);
    client.return_session(second, true, 1);

    // The second one is just not stale; at the next moment it is.
    let session = client.checkout(30_000).unwrap();
    assert_eq!(session.stream, 2);
    client.return_session(session, true, 30_000);
    client.events.clear();

    let session = client.checkout(60_000).unwrap();
    assert_eq!(session.stream, 3);
    assert_eq!(
        client.events,
        [
            SessionEvent::MaxAgeEviction,
            SessionEvent::MaxAgeEviction,
            SessionEvent::PoolMiss,
        ]
    );
    client.return_session(session, true, 60_000);
    client.events.clear();
    client.checkout(90_000).unwrap();
    assert_eq!(
        client.events,
        [SessionEvent::IdleEviction, SessionEvent::PoolMiss]
    );
}

#[test]
fn unhealthy_sessions_do_not_come_back() {
    let mut client = Client::new(config());
    let session = client.checkout(0).unwrap();
    client.return_session(session, false, 1);

    assert_eq!(client.pool.idle_len(), 0);
    assert_eq!(client.pool.checked_out(), 0);
    assert_eq!(client.events, [SessionEvent::PoolMiss]);
}

#[test]
fn nothing_is_handed_out_during_a_shutdown() {
    let mut client = Client::new(config());
    let session = client.checkout(0).unwrap();
    let outcome = client.pool.return_session(session, true, true, at(1));
    assert!(outcome.notify);
    assert_eq!(client.pool.idle_len(), 0);

    let (step, events) = client.pool.checkout(true, at(2));
    match step {
        CheckoutStep::Refused(error) => {
            assert_eq!(error.to_string(), "session pool is shutting down")
        }
        _ => panic!("a session was handed out"),
    }
    assert_eq!(events, [SessionEvent::CheckoutFailed]);
}

#[test]
fn failed_connections_are_reported() {
    let mut pool: SessionPool<u32> = SessionPool::new(config());
    let refused = IoError {
        kind: IoErrorKind::Other,
        message: "connection refused".to_string(),
    };
    let (result, events) = pool.connected(false, Err(refused), at(0));
    let error = result.unwrap_err();
    assert_eq!(error.to_string(), "failed to create reusable session");
    match error {
        CheckoutError::ConnectFailed(error) => assert_eq!(error.message, "connection refused"),
        other => panic!("unexpected error: {other:?}"),
    }
    assert_eq!(events, [SessionEvent::CheckoutFailed]);
    assert_eq!(pool.checked_out(), 0);
}

#[test]
fn sessions_nobody_took_do_not_count() {
    let mut client = Client::new(config());
    let session = client.checkout(0).unwrap();
    assert!(client.pool.discard_checked_out());
    assert!(!client.pool.discard_checked_out());

    let outcome = client.pool.return_session(session, true, false, at(1));
    assert!(!outcome.notify);
    assert_eq!(client.pool.checked_out(), 0);
    assert_eq!(client.pool.idle_len(), 1);
}

#[test]
fn retries_are_granted_once() {
    let mut client = Client::new(config());
    let handle = SessionHandle::new(client.checkout(0).unwrap());
    let pending = handle
        .retry_after_protocol_error(&mut client.pool, "first")
        .unwrap();
    let session = client.checkout(1).unwrap();
    let handle = pending.resume(session);

    let error = handle
        .retry_after_protocol_error(&mut client.pool, "second")
        .unwrap_err();
    assert_eq!(error, "second");
    assert_eq!(client.pool.checked_out(), 1);
}

#[test]
fn no_retry_is_granted_after_payload() {
    let mut client = Client::new(config());
    let mut handle = SessionHandle::new(client.checkout(0).unwrap());
    handle.session_mut().unwrap().stream = 9;
    handle.mark_bytes_relayed();
    assert_eq!(handle.session().unwrap().stream, 9);

    let error = handle
        .retry_after_protocol_error(&mut client.pool, "late")
        .unwrap_err();
    assert_eq!(error, "late");
    assert_eq!(client.pool.checked_out(), 1);
}

#[test]
fn handles_give_their_session_out() {
    let mut client = Client::new(config());
    let handle = SessionHandle::new(client.checkout(0).unwrap());
    assert_eq!(handle.into_session().unwrap().stream, 1);
}

#[test]
fn returned_sessions_are_kept_or_closed_for_a_reason() {
    let returned = |config: ReuseConfig, healthy: bool, shutdown: bool, millis: u64| {
        let mut client = Client::new(config);
        let session = client.checkout(0).unwrap();
        let outcome = client
            .pool
            .return_session(session, healthy, shutdown, at(millis));
        assert_eq!(client.pool.idle_len() == 1, outcome.closed.is_none());
        outcome.closed
    };
    assert_eq!(returned(config(), true, false, 1), None);
    assert_eq!(
        returned(config(), false, false, 1),
        Some(CloseReason::Poisoned)
    );
    assert_eq!(
        returned(config(), true, true, 1),
        Some(CloseReason::ShutdownDrain)
    );
    assert_eq!(
        returned(config(), true, false, 60_000),
        Some(CloseReason::MaxAgeExceeded)
    );
    let mut cfg = config();
    cfg.max_requests = 1;
    assert_eq!(
        returned(cfg, true, false, 1),
        Some(CloseReason::MaxRequestsExceeded)
    );
    let mut cfg = config();
    cfg.idle_timeout = Duration::from_secs(0);
    assert_eq!(
        returned(cfg, true, false, 1),
        Some(CloseReason::IdleTimeout)
    );

    let mut client = Client::new(config());
    let first = client.checkout(0).unwrap();
    let second = client.checkout(0).unwrap();
    let _third = client.checkout(0).unwrap();
    client.return_session(first, true, 1);
    let outcome = client.pool.return_session(second, true, false, at(2));
    assert_eq!(outcome.closed, Some(CloseReason::ShutdownDrain));
}

#[test]
fn pools_without_places_keep_nothing() {
    let mut cfg = config();
    cfg.max_idle = 0;
    let mut client = Client::new(cfg);
    let session = client.checkout(0).unwrap();
    let outcome = client.pool.return_session(session, true, false, at(1));
    assert_eq!(outcome.closed, Some(CloseReason::ShutdownDrain));
    assert!(outcome.events.is_empty());
    assert_eq!(client.pool.idle_len(), 0);
}

#[test]
fn only_the_session_handed_out_needs_room_to_count() {
    let mut cfg = config();
    cfg.max_idle = 2;
    let mut pool: SessionPool<u32> = SessionPool::new(cfg);
    let session = |stream: u32, reuse_count: u64| PooledSession {
        stream,
        use_count: 1,
        created_at: at(0),
        last_used: at(0),
        reuse_count,
    };
    pool.return_session(session(1, u64::MAX), true, false, at(0));
    assert!(!pool.counters_have_room(&at(1)));
    assert!(pool.counters_have_room(&at(30_000)));
    pool.return_session(session(2, 0), true, false, at(0));
    assert!(pool.counters_have_room(&at(1)));
}
