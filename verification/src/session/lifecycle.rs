//! The states that a session goes through, why sessions end, and the events that
//! tell of both.

use vstd::prelude::*;
use vstd::string::*;

verus! {

/// The states of a reusable session.
#[derive(Debug, Clone, Copy, PartialEq, Eq, Structural)]
pub enum SessionState {
    /// The connection to the upstream is being made
    Connecting,
    /// The TLS handshake with the upstream is in progress
    Handshaking,
    /// Established and waiting in the pool
    Idle,
    /// Being prepared for use
    Opening,
    /// Relaying traffic
    Active,
    /// Finishing its request before it closes, open to no new one
    Draining,
    /// Being closed
    Closing,
    /// Closed, can be dropped
    Closed,
    /// Beyond repair after an error
    Poisoned,
}

/// Whether a session in state `from` may go to state `to`. From anywhere it may
/// be poisoned or closed; apart from that it follows the course of its life.
pub open spec fn may_go(from: SessionState, to: SessionState) -> bool {
    ||| to is Poisoned
    ||| to is Closed
    ||| from is Connecting && to is Handshaking
    ||| from is Handshaking && to is Idle
    ||| from is Idle && (to is Opening || to is Closing)
    ||| from is Opening && to is Active
    ||| from is Active && to is Draining
    ||| from is Draining && (to is Idle || to is Closing)
}

/// The name of a state.
pub open spec fn state_name(x: SessionState) -> Seq<char> {
    match x {
        SessionState::Connecting => "Connecting"@,
        SessionState::Handshaking => "Handshaking"@,
        SessionState::Idle => "Idle"@,
        SessionState::Opening => "Opening"@,
        SessionState::Active => "Active"@,
        SessionState::Draining => "Draining"@,
        SessionState::Closing => "Closing"@,
        SessionState::Closed => "Closed"@,
        SessionState::Poisoned => "Poisoned"@,
    }
}

impl SessionState {
    /// Whether a session in this state may go to state `target`.
    pub fn can_transition_to(&self, target: &SessionState) -> (r: bool)
        ensures
            r == may_go(*self, *target),
    {
        match (self, target) {
            (SessionState::Connecting, SessionState::Handshaking) => true,
            (SessionState::Handshaking, SessionState::Idle) => true,
            (SessionState::Idle, SessionState::Opening) => true,
            (SessionState::Idle, SessionState::Closing) => true,
            (SessionState::Opening, SessionState::Active) => true,
            (SessionState::Active, SessionState::Draining) => true,
            (SessionState::Draining, SessionState::Idle) => true,
            (SessionState::Draining, SessionState::Closing) => true,
            (_, SessionState::Poisoned) => true,
            (_, SessionState::Closed) => true,
            _ => false,
        }
    }

    /// The name of this state.
    pub fn to_string(&self) -> (r: String)
        ensures
            r@ == state_name(*self),
    {
        match self {
            SessionState::Connecting => "Connecting".to_owned(),
            SessionState::Handshaking => "Handshaking".to_owned(),
            SessionState::Idle => "Idle".to_owned(),
            SessionState::Opening => "Opening".to_owned(),
            SessionState::Active => "Active".to_owned(),
            SessionState::Draining => "Draining".to_owned(),
            SessionState::Closing => "Closing".to_owned(),
            SessionState::Closed => "Closed".to_owned(),
            SessionState::Poisoned => "Poisoned".to_owned(),
        }
    }
}

/// Why a session was closed or evicted.
#[derive(Debug, Clone, Copy, PartialEq, Eq, Structural)]
pub enum CloseReason {
    /// The client closed the session
    ClientClose,
    /// The client closed the session, in the words of the server's session loop
    ClientInitiated,
    /// The server closed the session
    ServerClose,
    /// The server failed
    ServerError,
    /// The session was idle too long
    IdleTimeout,
    /// The session grew too old
    MaxAgeExceeded,
    /// The session carried too many requests
    MaxRequestsExceeded,
    /// The session carried as many requests as it may
    MaxRequestsReached,
    /// A keepalive ping was not answered in time
    KeepaliveTimeout,
    /// The other side broke the protocol
    ProtocolError,
    /// The two sides speak incompatible versions
    VersionMismatch,
    /// The session was closed in the course of a graceful shutdown
    ShutdownDrain,
    /// No session could be checked out of the pool
    CheckoutFailed,
    /// The session was beyond repair
    Poisoned,
}

/// The name of a reason.
pub open spec fn reason_name(x: CloseReason) -> Seq<char> {
    match x {
        CloseReason::ClientClose => "ClientClose"@,
        CloseReason::ClientInitiated => "ClientInitiated"@,
        CloseReason::ServerClose => "ServerClose"@,
        CloseReason::ServerError => "ServerError"@,
        CloseReason::IdleTimeout => "IdleTimeout"@,
        CloseReason::MaxAgeExceeded => "MaxAgeExceeded"@,
        CloseReason::MaxRequestsExceeded => "MaxRequestsExceeded"@,
        CloseReason::MaxRequestsReached => "MaxRequestsReached"@,
        CloseReason::KeepaliveTimeout => "KeepaliveTimeout"@,
        CloseReason::ProtocolError => "ProtocolError"@,
        CloseReason::VersionMismatch => "VersionMismatch"@,
        CloseReason::ShutdownDrain => "ShutdownDrain"@,
        CloseReason::CheckoutFailed => "CheckoutFailed"@,
        CloseReason::Poisoned => "Poisoned"@,
    }
}

/// The position of a reason in the list of reasons.
pub open spec fn reason_index(x: CloseReason) -> u8 {
    match x {
        CloseReason::ClientClose => 0,
        CloseReason::ClientInitiated => 1,
        CloseReason::ServerClose => 2,
        CloseReason::ServerError => 3,
        CloseReason::IdleTimeout => 4,
        CloseReason::MaxAgeExceeded => 5,
        CloseReason::MaxRequestsExceeded => 6,
        CloseReason::MaxRequestsReached => 7,
        CloseReason::KeepaliveTimeout => 8,
        CloseReason::ProtocolError => 9,
        CloseReason::VersionMismatch => 10,
        CloseReason::ShutdownDrain => 11,
        CloseReason::CheckoutFailed => 12,
        CloseReason::Poisoned => 13,
    }
}

impl CloseReason {
    /// The name of this reason.
    pub fn to_string(&self) -> (r: String)
        ensures
            r@ == reason_name(*self),
    {
        match self {
            CloseReason::ClientClose => "ClientClose".to_owned(),
            CloseReason::ClientInitiated => "ClientInitiated".to_owned(),
            CloseReason::ServerClose => "ServerClose".to_owned(),
            CloseReason::ServerError => "ServerError".to_owned(),
            CloseReason::IdleTimeout => "IdleTimeout".to_owned(),
            CloseReason::MaxAgeExceeded => "MaxAgeExceeded".to_owned(),
            CloseReason::MaxRequestsExceeded => "MaxRequestsExceeded".to_owned(),
            CloseReason::MaxRequestsReached => "MaxRequestsReached".to_owned(),
            CloseReason::KeepaliveTimeout => "KeepaliveTimeout".to_owned(),
            CloseReason::ProtocolError => "ProtocolError".to_owned(),
            CloseReason::VersionMismatch => "VersionMismatch".to_owned(),
            CloseReason::ShutdownDrain => "ShutdownDrain".to_owned(),
            CloseReason::CheckoutFailed => "CheckoutFailed".to_owned(),
            CloseReason::Poisoned => "Poisoned".to_owned(),
        }
    }

    /// The position of this reason in the list of reasons, from zero.
    pub fn index(&self) -> (r: u8)
        ensures
            r == reason_index(*self),
    {
        match self {
            CloseReason::ClientClose => 0,
            CloseReason::ClientInitiated => 1,
            CloseReason::ServerClose => 2,
            CloseReason::ServerError => 3,
            CloseReason::IdleTimeout => 4,
            CloseReason::MaxAgeExceeded => 5,
            CloseReason::MaxRequestsExceeded => 6,
            CloseReason::MaxRequestsReached => 7,
            CloseReason::KeepaliveTimeout => 8,
            CloseReason::ProtocolError => 9,
            CloseReason::VersionMismatch => 10,
            CloseReason::ShutdownDrain => 11,
            CloseReason::CheckoutFailed => 12,
            CloseReason::Poisoned => 13,
        }
    }
}

/// What happens to sessions, for whoever watches them.
#[derive(Debug, Clone, Copy, PartialEq, Eq, Structural)]
pub enum SessionEvent {
    /// A session was taken from the pool
    PoolHit,
    /// The pool had no session to reuse
    PoolMiss,
    /// No session could be checked out
    CheckoutFailed,
    /// A request is served without a reused session
    FallbackToOneShot,
    /// A session was reused, for the time given
    SessionReused(usize),
    /// A keepalive ping was sent
    PingSent,
    /// A keepalive ping was answered
    PingAcked,
    /// A keepalive ping was not answered in time
    PingTimeout,
    /// A session was evicted because it was idle too long
    IdleEviction,
    /// A session was evicted because it was too old
    MaxAgeEviction,
    /// A session was evicted because it carried too many requests
    MaxRequestsEviction,
    /// The other side closed the connection
    RemoteClose,
    /// All sessions in use were given back before the shutdown
    GracefulDrain,
}

/// How much a log record matters.
#[derive(Debug, Clone, Copy, PartialEq, Eq, Structural)]
pub enum LogLevel {
    Debug,
    Info,
    Warn,
}

/// A structured log record. It has no room for keys or payload bytes.
#[derive(Debug, Clone, Copy)]
pub struct LogRecord {
    pub level: LogLevel,
    pub event: &'static str,
    pub reuse_count: Option<usize>,
    pub reason: Option<CloseReason>,
    pub message: &'static str,
}

/// The tag of an event in the log.
pub open spec fn event_tag(x: SessionEvent) -> Seq<char> {
    match x {
        SessionEvent::PoolHit => "pool_hit"@,
        SessionEvent::PoolMiss => "pool_miss"@,
        SessionEvent::CheckoutFailed => "checkout_failed"@,
        SessionEvent::FallbackToOneShot => "fallback_to_oneshot"@,
        SessionEvent::SessionReused(_) => "session_reused"@,
        SessionEvent::PingSent => "ping_sent"@,
        SessionEvent::PingAcked => "ping_acked"@,
        SessionEvent::PingTimeout => "ping_timeout"@,
        SessionEvent::IdleEviction => "idle_eviction"@,
        SessionEvent::MaxAgeEviction => "max_age_eviction"@,
        SessionEvent::MaxRequestsEviction => "max_requests_eviction"@,
        SessionEvent::RemoteClose => "remote_close"@,
        SessionEvent::GracefulDrain => "graceful_drain"@,
    }
}

/// The message of an event in the log.
pub open spec fn event_message(x: SessionEvent) -> Seq<char> {
    match x {
        SessionEvent::PoolHit => "Session acquired from pool"@,
        SessionEvent::PoolMiss => "No reusable session in pool"@,
        SessionEvent::CheckoutFailed => "Failed to checkout session from pool"@,
        SessionEvent::FallbackToOneShot => "Falling back to one-shot mode"@,
        SessionEvent::SessionReused(_) => "Session reused from pool"@,
        SessionEvent::PingSent => "Keepalive ping sent"@,
        SessionEvent::PingAcked => "Keepalive ping acked"@,
        SessionEvent::PingTimeout => "Keepalive ping timed out"@,
        SessionEvent::IdleEviction => "Session evicted due to idle timeout"@,
        SessionEvent::MaxAgeEviction => "Session evicted due to max age"@,
        SessionEvent::MaxRequestsEviction => "Session evicted due to max requests"@,
        SessionEvent::RemoteClose => "Server closed the connection"@,
        SessionEvent::GracefulDrain => "Session gracefully drained"@,
    }
}

/// The reason that goes with an event in the log: evictions have one.
pub open spec fn event_reason(x: SessionEvent) -> Option<CloseReason> {
    match x {
        SessionEvent::IdleEviction => Some(CloseReason::IdleTimeout),
        SessionEvent::MaxAgeEviction => Some(CloseReason::MaxAgeExceeded),
        SessionEvent::MaxRequestsEviction => Some(CloseReason::MaxRequestsExceeded),
        _ => None,
    }
}

/// The count that goes with an event in the log: reuse has one.
pub open spec fn event_reuse_count(x: SessionEvent) -> Option<usize> {
    match x {
        SessionEvent::SessionReused(count) => Some(count),
        _ => None,
    }
}

impl SessionEvent {
    /// The record of this event, to be written to the log at the info level.
    pub fn emit(&self) -> (r: LogRecord)
        ensures
            r.level is Info,
            r.event@ == event_tag(*self),
            r.reuse_count == event_reuse_count(*self),
            r.reason == event_reason(*self),
            r.message@ == event_message(*self),
    {
        match self {
            SessionEvent::PoolHit => plain("pool_hit", "Session acquired from pool"),
            SessionEvent::PoolMiss => plain("pool_miss", "No reusable session in pool"),
            SessionEvent::CheckoutFailed => plain(
                "checkout_failed",
                "Failed to checkout session from pool",
            ),
            SessionEvent::FallbackToOneShot => plain(
                "fallback_to_oneshot",
                "Falling back to one-shot mode",
            ),
            SessionEvent::SessionReused(count) => LogRecord {
                reuse_count: Some(*count),
                ..plain("session_reused", "Session reused from pool")
            },
            SessionEvent::PingSent => plain("ping_sent", "Keepalive ping sent"),
            SessionEvent::PingAcked => plain("ping_acked", "Keepalive ping acked"),
            SessionEvent::PingTimeout => plain("ping_timeout", "Keepalive ping timed out"),
            SessionEvent::IdleEviction => evicted(
                "idle_eviction",
                CloseReason::IdleTimeout,
                "Session evicted due to idle timeout",
            ),
            SessionEvent::MaxAgeEviction => evicted(
                "max_age_eviction",
                CloseReason::MaxAgeExceeded,
                "Session evicted due to max age",
            ),
            SessionEvent::MaxRequestsEviction => evicted(
                "max_requests_eviction",
                CloseReason::MaxRequestsExceeded,
                "Session evicted due to max requests",
            ),
            SessionEvent::RemoteClose => plain("remote_close", "Server closed the connection"),
            SessionEvent::GracefulDrain => plain("graceful_drain", "Session gracefully drained"),
        }
    }
}

fn plain(event: &'static str, message: &'static str) -> (r: LogRecord)
    ensures
        r == (LogRecord { level: LogLevel::Info, event, reuse_count: None, reason: None, message }),
{
    LogRecord { level: LogLevel::Info, event, reuse_count: None, reason: None, message }
}

fn evicted(event: &'static str, reason: CloseReason, message: &'static str) -> (r: LogRecord)
    ensures
        r == (LogRecord {
            level: LogLevel::Info,
            event,
            reuse_count: None,
            reason: Some(reason),
            message,
        }),
{
    LogRecord { reason: Some(reason), ..plain(event, message) }
}

/// A session can be given up in any state: poisoning and closing are always
/// allowed.
pub proof fn law_any_state_can_be_given_up(from: SessionState)
    ensures
        may_go(from, SessionState::Poisoned),
        may_go(from, SessionState::Closed),
{
}

/// A closed or poisoned session never comes back into use: it can only be closed
/// or poisoned again.
pub proof fn law_ended_sessions_stay_ended(from: SessionState, to: SessionState)
    requires
        from is Closed || from is Poisoned,
        may_go(from, to),
    ensures
        to is Closed || to is Poisoned,
{
}

/// Setting up is done once and in order: no session goes back to connecting, and
/// only a connecting one goes on to the handshake.
pub proof fn law_setup_is_not_repeated(from: SessionState, to: SessionState)
    requires
        may_go(from, to),
    ensures
        !(to is Connecting),
        to is Handshaking ==> from is Connecting,
{
}

/// No session is skipped into use: it is opened from the idle state first.
pub proof fn law_use_starts_from_idle(before: SessionState, from: SessionState, to: SessionState)
    requires
        may_go(before, from),
        may_go(from, to),
        to is Active,
    ensures
        from is Opening,
        before is Idle,
{
}

/// Each state can be reached in one way or two: a session is set up, waits, is opened,
/// used and drained in this order, waits again or is closed, and can be given up at any
/// time.
pub proof fn law_states_are_reached_in_order(from: SessionState, to: SessionState)
    ensures
        to is Connecting ==> !may_go(from, to),
        to is Handshaking ==> (may_go(from, to) <==> from is Connecting),
        to is Idle ==> (may_go(from, to) <==> from is Handshaking || from is Draining),
        to is Opening ==> (may_go(from, to) <==> from is Idle),
        to is Active ==> (may_go(from, to) <==> from is Opening),
        to is Draining ==> (may_go(from, to) <==> from is Active),
        to is Closing ==> (may_go(from, to) <==> from is Idle || from is Draining),
        to is Closed || to is Poisoned ==> may_go(from, to),
{
}

/// States and reasons are told by names of their own: the names of their variants.
pub proof fn law_names_are_those_of_the_variants()
    ensures
        state_name(SessionState::Connecting) == "Connecting"@,
        state_name(SessionState::Handshaking) == "Handshaking"@,
        state_name(SessionState::Idle) == "Idle"@,
        state_name(SessionState::Opening) == "Opening"@,
        state_name(SessionState::Active) == "Active"@,
        state_name(SessionState::Draining) == "Draining"@,
        state_name(SessionState::Closing) == "Closing"@,
        state_name(SessionState::Closed) == "Closed"@,
        state_name(SessionState::Poisoned) == "Poisoned"@,
        reason_name(CloseReason::ClientClose) == "ClientClose"@,
        reason_name(CloseReason::ClientInitiated) == "ClientInitiated"@,
        reason_name(CloseReason::ServerClose) == "ServerClose"@,
        reason_name(CloseReason::ServerError) == "ServerError"@,
        reason_name(CloseReason::IdleTimeout) == "IdleTimeout"@,
        reason_name(CloseReason::MaxAgeExceeded) == "MaxAgeExceeded"@,
        reason_name(CloseReason::MaxRequestsExceeded) == "MaxRequestsExceeded"@,
        reason_name(CloseReason::MaxRequestsReached) == "MaxRequestsReached"@,
        reason_name(CloseReason::KeepaliveTimeout) == "KeepaliveTimeout"@,
        reason_name(CloseReason::ProtocolError) == "ProtocolError"@,
        reason_name(CloseReason::VersionMismatch) == "VersionMismatch"@,
        reason_name(CloseReason::ShutdownDrain) == "ShutdownDrain"@,
        reason_name(CloseReason::CheckoutFailed) == "CheckoutFailed"@,
        reason_name(CloseReason::Poisoned) == "Poisoned"@,
{
}

/// Reasons stand in a list from zero to thirteen, each in its own place.
pub proof fn law_reasons_have_their_own_place(a: CloseReason, b: CloseReason)
    ensures
        reason_index(a) <= 13,
        reason_index(a) == reason_index(b) <==> a == b,
        reason_index(CloseReason::ClientClose) == 0,
        reason_index(CloseReason::VersionMismatch) == 10,
        reason_index(CloseReason::Poisoned) == 13,
{
}

/// Events are logged each under its own tag and with its own message.
pub proof fn law_events_are_logged_in_their_own_words(count: usize)
    ensures
        event_tag(SessionEvent::PoolHit) == "pool_hit"@,
        event_tag(SessionEvent::PoolMiss) == "pool_miss"@,
        event_tag(SessionEvent::CheckoutFailed) == "checkout_failed"@,
        event_tag(SessionEvent::FallbackToOneShot) == "fallback_to_oneshot"@,
        event_tag(SessionEvent::SessionReused(count)) == "session_reused"@,
        event_tag(SessionEvent::PingSent) == "ping_sent"@,
        event_tag(SessionEvent::PingAcked) == "ping_acked"@,
        event_tag(SessionEvent::PingTimeout) == "ping_timeout"@,
        event_tag(SessionEvent::IdleEviction) == "idle_eviction"@,
        event_tag(SessionEvent::MaxAgeEviction) == "max_age_eviction"@,
        event_tag(SessionEvent::MaxRequestsEviction) == "max_requests_eviction"@,
        event_tag(SessionEvent::RemoteClose) == "remote_close"@,
        event_tag(SessionEvent::GracefulDrain) == "graceful_drain"@,
        event_message(SessionEvent::PoolHit) == "Session acquired from pool"@,
        event_message(SessionEvent::PoolMiss) == "No reusable session in pool"@,
        event_message(SessionEvent::CheckoutFailed) == "Failed to checkout session from pool"@,
        event_message(SessionEvent::FallbackToOneShot) == "Falling back to one-shot mode"@,
        event_message(SessionEvent::SessionReused(count)) == "Session reused from pool"@,
        event_message(SessionEvent::PingSent) == "Keepalive ping sent"@,
        event_message(SessionEvent::PingAcked) == "Keepalive ping acked"@,
        event_message(SessionEvent::PingTimeout) == "Keepalive ping timed out"@,
        event_message(SessionEvent::IdleEviction) == "Session evicted due to idle timeout"@,
        event_message(SessionEvent::MaxAgeEviction) == "Session evicted due to max age"@,
        event_message(SessionEvent::MaxRequestsEviction) == "Session evicted due to max requests"@,
        event_message(SessionEvent::RemoteClose) == "Server closed the connection"@,
        event_message(SessionEvent::GracefulDrain) == "Session gracefully drained"@,
{
}

/// Reuse alone is logged with a count, the one that it was told with, and evictions
/// alone with a reason: the limit that was reached.
pub proof fn law_counts_and_reasons_go_with_their_events(event: SessionEvent)
    ensures
        event_reuse_count(event) is Some <==> event is SessionReused,
        event matches SessionEvent::SessionReused(count) ==> event_reuse_count(event) == Some(count),
        event is IdleEviction <==> event_reason(event) == Some(CloseReason::IdleTimeout),
        event is MaxAgeEviction <==> event_reason(event) == Some(CloseReason::MaxAgeExceeded),
        event is MaxRequestsEviction <==> event_reason(event) == Some(
            CloseReason::MaxRequestsExceeded,
        ),
        event_reason(event) is Some <==> event is IdleEviction || event is MaxAgeEviction || event
            is MaxRequestsEviction,
{
}

/// States, reasons and events are told as the laws on them say, and events at the info
/// level.
pub proof fn law_lifecycles_are_told_as_described(
    state: &SessionState,
    target: &SessionState,
    may: bool,
    reason: &CloseReason,
    index: u8,
    event: &SessionEvent,
    record: LogRecord,
    text: String,
)
    ensures
        call_ensures(SessionState::can_transition_to, (state, target), may) ==> may == may_go(
            *state,
            *target,
        ),
        call_ensures(SessionState::to_string, (state,), text) ==> text@ == state_name(*state),
        call_ensures(CloseReason::to_string, (reason,), text) ==> text@ == reason_name(*reason),
        call_ensures(CloseReason::index, (reason,), index) ==> index == reason_index(*reason),
        call_ensures(SessionEvent::emit, (event,), record) ==> {
            &&& record.level is Info
            &&& record.event@ == event_tag(*event)
            &&& record.message@ == event_message(*event)
            &&& record.reuse_count == event_reuse_count(*event)
            &&& record.reason == event_reason(*event)
        },
{
}

} // verus!
