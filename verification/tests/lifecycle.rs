use noisy_shuttle::session::lifecycle::{CloseReason, LogLevel, SessionEvent, SessionState};

#[test]
fn test_valid_transitions() {
    // Connecting -> Handshaking
    assert!(SessionState::Connecting.can_transition_to(&SessionState::Handshaking));

    // Handshaking -> Idle | Closed
    assert!(SessionState::Handshaking.can_transition_to(&SessionState::Idle));
    assert!(SessionState::Handshaking.can_transition_to(&SessionState::Closed));

    // Idle -> Opening | Closing | Poisoned
    assert!(SessionState::Idle.can_transition_to(&SessionState::Opening));
    assert!(SessionState::Idle.can_transition_to(&SessionState::Closing));
    assert!(SessionState::Idle.can_transition_to(&SessionState::Poisoned));

    // Opening -> Active | Poisoned
    assert!(SessionState::Opening.can_transition_to(&SessionState::Active));
    assert!(SessionState::Opening.can_transition_to(&SessionState::Poisoned));

    // Active -> Draining | Poisoned
    assert!(SessionState::Active.can_transition_to(&SessionState::Draining));
    assert!(SessionState::Active.can_transition_to(&SessionState::Poisoned));

    // Draining -> Idle | Closing | Poisoned
    assert!(SessionState::Draining.can_transition_to(&SessionState::Idle));
    assert!(SessionState::Draining.can_transition_to(&SessionState::Closing));
    assert!(SessionState::Draining.can_transition_to(&SessionState::Poisoned));

    // Closing -> Closed
    assert!(SessionState::Closing.can_transition_to(&SessionState::Closed));

    // Poisoned -> Closed
    assert!(SessionState::Poisoned.can_transition_to(&SessionState::Closed));
}

#[test]
fn test_invalid_transitions() {
    // Cannot go backwards
    assert!(!SessionState::Handshaking.can_transition_to(&SessionState::Connecting));
    assert!(!SessionState::Idle.can_transition_to(&SessionState::Handshaking));
    assert!(!SessionState::Opening.can_transition_to(&SessionState::Idle));
    assert!(!SessionState::Active.can_transition_to(&SessionState::Opening));
    assert!(!SessionState::Draining.can_transition_to(&SessionState::Active));

    // Cannot skip states
    assert!(!SessionState::Connecting.can_transition_to(&SessionState::Idle));
    assert!(!SessionState::Connecting.can_transition_to(&SessionState::Active));
    assert!(!SessionState::Handshaking.can_transition_to(&SessionState::Active));

    // Closed/Poisoned cannot transition (except Poisoned -> Closed)
    assert!(!SessionState::Closed.can_transition_to(&SessionState::Idle));
    assert!(!SessionState::Closed.can_transition_to(&SessionState::Connecting));
    assert!(!SessionState::Poisoned.can_transition_to(&SessionState::Idle));
}

#[test]
fn test_emergency_transitions() {
    // Any state can transition to Poisoned (emergency)
    for state in [
        SessionState::Connecting,
        SessionState::Handshaking,
        SessionState::Idle,
        SessionState::Opening,
        SessionState::Active,
        SessionState::Draining,
        SessionState::Closing,
        SessionState::Closed,
    ] {
        assert!(
            state.can_transition_to(&SessionState::Poisoned),
            "Emergency transition to Poisoned should be allowed from {:?}",
            state
        );
    }

    // Any state can transition to Closed (emergency close)
    for state in [
        SessionState::Connecting,
        SessionState::Handshaking,
        SessionState::Idle,
        SessionState::Opening,
        SessionState::Active,
        SessionState::Draining,
        SessionState::Closing,
        SessionState::Poisoned,
    ] {
        assert!(
            state.can_transition_to(&SessionState::Closed),
            "Emergency transition to Closed should be allowed from {:?}",
            state
        );
    }
}

#[test]
fn test_session_event_emit_no_panics() {
    // All events should emit without panicking
    let events = [
        SessionEvent::PoolHit,
        SessionEvent::PoolMiss,
        SessionEvent::CheckoutFailed,
        SessionEvent::FallbackToOneShot,
        SessionEvent::SessionReused(5),
        SessionEvent::PingSent,
        SessionEvent::PingAcked,
        SessionEvent::PingTimeout,
        SessionEvent::IdleEviction,
        SessionEvent::MaxAgeEviction,
        SessionEvent::MaxRequestsEviction,
        SessionEvent::RemoteClose,
        SessionEvent::GracefulDrain,
    ];

    for event in events {
        // Should not panic
        event.emit();
    }
}

#[test]
fn test_session_event_captured_logs_dont_leak_secrets() {
    // Verify emit() works without panicking - secrets are never logged
    SessionEvent::PoolHit.emit();
    SessionEvent::PoolMiss.emit();
    SessionEvent::CheckoutFailed.emit();
    SessionEvent::FallbackToOneShot.emit();
    SessionEvent::SessionReused(42).emit();
    SessionEvent::PingSent.emit();
    SessionEvent::PingAcked.emit();
    SessionEvent::PingTimeout.emit();
    SessionEvent::IdleEviction.emit();
    SessionEvent::MaxAgeEviction.emit();
    SessionEvent::MaxRequestsEviction.emit();
    SessionEvent::RemoteClose.emit();
    SessionEvent::GracefulDrain.emit();
}

#[test]
fn test_display_impls() {
    // Verify Display impls produce consistent output
    assert_eq!(SessionState::Connecting.to_string(), "Connecting");
    assert_eq!(SessionState::Handshaking.to_string(), "Handshaking");
    assert_eq!(SessionState::Idle.to_string(), "Idle");
    assert_eq!(SessionState::Opening.to_string(), "Opening");
    assert_eq!(SessionState::Active.to_string(), "Active");
    assert_eq!(SessionState::Draining.to_string(), "Draining");
    assert_eq!(SessionState::Closing.to_string(), "Closing");
    assert_eq!(SessionState::Closed.to_string(), "Closed");
    assert_eq!(SessionState::Poisoned.to_string(), "Poisoned");

    assert_eq!(CloseReason::ClientClose.to_string(), "ClientClose");
    assert_eq!(CloseReason::ClientInitiated.to_string(), "ClientInitiated");
    assert_eq!(CloseReason::ServerClose.to_string(), "ServerClose");
    assert_eq!(CloseReason::ServerError.to_string(), "ServerError");
    assert_eq!(CloseReason::IdleTimeout.to_string(), "IdleTimeout");
    assert_eq!(CloseReason::MaxAgeExceeded.to_string(), "MaxAgeExceeded");
    assert_eq!(
        CloseReason::MaxRequestsExceeded.to_string(),
        "MaxRequestsExceeded"
    );
    assert_eq!(
        CloseReason::MaxRequestsReached.to_string(),
        "MaxRequestsReached"
    );
    assert_eq!(
        CloseReason::KeepaliveTimeout.to_string(),
        "KeepaliveTimeout"
    );
    assert_eq!(CloseReason::ProtocolError.to_string(), "ProtocolError");
    assert_eq!(CloseReason::VersionMismatch.to_string(), "VersionMismatch");
    assert_eq!(CloseReason::ShutdownDrain.to_string(), "ShutdownDrain");
    assert_eq!(CloseReason::CheckoutFailed.to_string(), "CheckoutFailed");
    assert_eq!(CloseReason::Poisoned.to_string(), "Poisoned");
}

#[test]
fn events_are_logged_at_the_info_level() {
    let record = SessionEvent::SessionReused(42).emit();
    assert_eq!(record.level, LogLevel::Info);
    assert_eq!(record.event, "session_reused");
    assert_eq!(record.reuse_count, Some(42));
    assert_eq!(record.reason, None);
    assert_eq!(record.message, "Session reused from pool");

    let record = SessionEvent::MaxAgeEviction.emit();
    assert_eq!(record.level, LogLevel::Info);
    assert_eq!(record.event, "max_age_eviction");
    assert_eq!(record.reuse_count, None);
    assert_eq!(record.reason, Some(CloseReason::MaxAgeExceeded));
    assert_eq!(record.message, "Session evicted due to max age");

    assert_eq!(SessionEvent::CheckoutFailed.emit().level, LogLevel::Info);
    assert_eq!(SessionEvent::PingSent.emit().event, "ping_sent");
}

#[test]
fn ended_sessions_stay_ended() {
    let states = [
        SessionState::Connecting,
        SessionState::Handshaking,
        SessionState::Idle,
        SessionState::Opening,
        SessionState::Active,
        SessionState::Draining,
        SessionState::Closing,
    ];
    for state in states {
        assert!(!SessionState::Closed.can_transition_to(&state));
        assert!(!SessionState::Poisoned.can_transition_to(&state));
    }
}

#[test]
fn use_starts_from_idle() {
    assert!(SessionState::Idle.can_transition_to(&SessionState::Opening));
    assert!(SessionState::Opening.can_transition_to(&SessionState::Active));
    assert!(!SessionState::Idle.can_transition_to(&SessionState::Active));
    assert!(!SessionState::Draining.can_transition_to(&SessionState::Opening));
}
