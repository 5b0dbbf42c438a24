//! The server's session loop: it takes one request after the other from a session
//! until the session has to end. The loop is a state machine. Each of its methods
//! takes what happened and says what to do next; the caller does it and reports
//! back.

use vstd::prelude::*;

use crate::opt::ReuseConfig;
use crate::session::frame::{
    fits, Frame, FrameError, Received, FRAME_CLIENT_HELLO, PROTOCOL_VERSION,
};
use crate::session::keepalive::ping_concluded;
use crate::session::lifecycle::{CloseReason, SessionState};
use crate::time::{Duration, Instant};

verus! {

/// Time that a request has to finish once the server shuts down, in seconds.
pub const SHUTDOWN_DRAIN_SECS: u64 = 30;

/// The rules by which sessions are served.
pub struct SessionLoop {
    pub config: ReuseConfig,
}

/// The state of one session.
pub struct SessionContext<S> {
    pub stream: S,
    pub state: SessionState,
    pub request_count: u64,
    pub created_at: Instant,
    pub last_activity: Instant,
}

/// What becomes of the session once a frame has been sent.
#[derive(Debug, Clone, Copy, PartialEq, Eq, Structural)]
pub enum AfterSend {
    /// It is closed, and the loop is over
    Closed,
    /// The loop is over
    Ended,
    /// The loop goes on
    Continue,
}

/// What the caller is to do next.
pub enum LoopAction {
    /// Read a frame, and report a change of the shutdown flag if it comes first
    /// and is to be watched: see [`SessionLoop::negotiate`]
    AwaitHello { watch_shutdown: bool },
    /// Look at the shutdown flag and the clock: see [`SessionLoop::serve_loop`]
    Check,
    /// Read a frame, and report a change of the shutdown flag or the end of the
    /// idle time if it comes first: see [`SessionLoop::served`]
    AwaitFrame { idle: Duration },
    /// Carry out a request, with the given time to finish after a shutdown: see
    /// [`SessionLoop::after_relay`]
    Relay { cmd: u8, atyp: u8, addr: Vec<u8>, port: u16, drain_timeout: Duration },
    /// Send a frame, within the given time if there is one: see
    /// [`SessionLoop::after_send`]
    Send { frame: Frame, within: Option<Duration>, then: AfterSend },
    /// Nothing more: the loop is over
    Finish(Result<(), FrameError>),
}

/// What can happen while the client's hello is awaited.
pub enum HelloEvent {
    /// A frame was read, or could not be
    Frame(Result<Frame, FrameError>),
    /// The shutdown flag was set anew, to the value given
    ShutdownChanged(bool),
}

/// What can happen while a request is awaited.
pub enum ServeEvent {
    /// A frame was read, or could not be
    Frame(Result<Frame, FrameError>),
    /// The shutdown flag was set anew, to the value given
    ShutdownChanged(bool),
    /// The idle time is over
    IdleElapsed,
}

/// How sending a frame ended.
pub enum SendOutcome {
    Sent,
    Failed(FrameError),
    /// The time for it was over first
    TimedOut,
}

/// The code of a reason on the wire.
pub open spec fn reason_code(reason: CloseReason) -> u8 {
    match reason {
        CloseReason::ClientClose => 0x01,
        CloseReason::ClientInitiated => 0x01,
        CloseReason::ServerClose => 0x02,
        CloseReason::ServerError => 0x02,
        CloseReason::IdleTimeout => 0x03,
        CloseReason::MaxAgeExceeded => 0x04,
        CloseReason::MaxRequestsExceeded => 0x05,
        CloseReason::MaxRequestsReached => 0x05,
        CloseReason::KeepaliveTimeout => 0x06,
        CloseReason::ProtocolError => 0x07,
        CloseReason::VersionMismatch => 0x08,
        CloseReason::ShutdownDrain => 0x09,
        CloseReason::CheckoutFailed => 0x0a,
        CloseReason::Poisoned => 0x0b,
    }
}

/// Gives the code of a reason on the wire.
pub fn close_reason_code(reason: CloseReason) -> (r: u8)
    ensures
        r == reason_code(reason),
{
    match reason {
        CloseReason::ClientClose => 0x01,
        CloseReason::ClientInitiated => 0x01,
        CloseReason::ServerClose => 0x02,
        CloseReason::ServerError => 0x02,
        CloseReason::IdleTimeout => 0x03,
        CloseReason::MaxAgeExceeded => 0x04,
        CloseReason::MaxRequestsExceeded => 0x05,
        CloseReason::MaxRequestsReached => 0x05,
        CloseReason::KeepaliveTimeout => 0x06,
        CloseReason::ProtocolError => 0x07,
        CloseReason::VersionMismatch => 0x08,
        CloseReason::ShutdownDrain => 0x09,
        CloseReason::CheckoutFailed => 0x0a,
        CloseReason::Poisoned => 0x0b,
    }
}

/// Whether the bytes that a connection starts with can be those of a reusable
/// session, by the first of them.
pub fn looks_like_reuse_handshake(buffered: &[u8]) -> (r: bool)
    ensures
        r == (buffered@.len() > 0 && buffered@[0] == FRAME_CLIENT_HELLO),
{
    match buffered.first() {
        Some(first) => *first == FRAME_CLIENT_HELLO,
        None => false,
    }
}

/// Whether `span` or more has gone by from `then` to `now`.
pub open spec fn elapsed(now: Instant, then: Instant, span: Duration) -> bool {
    now@ >= then@ + span@
}

fn elapsed_at_least(now: &Instant, then: &Instant, span: &Duration) -> (r: bool)
    ensures
        r == elapsed(*now, *then, *span),
{
    match now.checked_duration_since(then) {
        Some(gone) => !gone.shorter_than(span),
        None => false,
    }
}

/// The limit that a session has reached, the first of them if there are more.
pub open spec fn reached_limit<S>(
    config: ReuseConfig,
    ctx: SessionContext<S>,
    now: Instant,
) -> Option<CloseReason> {
    if ctx.request_count >= config.max_requests {
        Some(CloseReason::MaxRequestsReached)
    } else if elapsed(now, ctx.created_at, config.max_age) {
        Some(CloseReason::MaxAgeExceeded)
    } else if elapsed(now, ctx.last_activity, config.idle_timeout) {
        Some(CloseReason::IdleTimeout)
    } else {
        None
    }
}

/// A session that is being closed for `reason`, and what that takes.
pub open spec fn closing<S>(ctx: SessionContext<S>, reason: CloseReason) -> (
    SessionContext<S>,
    LoopAction,
) {
    (
        SessionContext { state: SessionState::Closing, ..ctx },
        LoopAction::Send {
            frame: Frame::Close { reason: reason_code(reason) },
            within: None,
            then: AfterSend::Closed,
        },
    )
}

/// A session that is given up for `reason`, and what that takes.
pub open spec fn resetting<S>(ctx: SessionContext<S>, reason: CloseReason) -> (
    SessionContext<S>,
    LoopAction,
) {
    (
        SessionContext { state: SessionState::Poisoned, ..ctx },
        LoopAction::Send {
            frame: Frame::Reset { reason: reason_code(reason) },
            within: None,
            then: AfterSend::Ended,
        },
    )
}

/// Whether `action` closes a session for a shutdown, within the time for that if
/// the session was in use.
pub open spec fn closes_for_shutdown(action: LoopAction, in_use: bool) -> bool {
    match action {
        LoopAction::Send { frame, within, then } => {
            &&& frame == (Frame::Close { reason: reason_code(CloseReason::ShutdownDrain) })
            &&& then == AfterSend::Closed
            &&& match within {
                Some(span) => in_use && span@ == SHUTDOWN_DRAIN_SECS * 1_000_000_000,
                None => !in_use,
            }
        },
        _ => false,
    }
}

/// Whether a shutdown takes a session from `before` to `after` with `action`.
pub open spec fn shuts_down<S>(
    before: SessionContext<S>,
    after: SessionContext<S>,
    action: LoopAction,
) -> bool {
    if before.state is Closed || before.state is Poisoned {
        after == before && action == LoopAction::Finish(Ok(()))
    } else {
        &&& after == SessionContext { state: SessionState::Closing, ..before }
        &&& closes_for_shutdown(action, before.state is Active)
    }
}

/// What the first frame of a session makes of it.
pub open spec fn hello_answered<S>(
    ctx: SessionContext<S>,
    frame: Result<Frame, FrameError>,
    now: Instant,
) -> (SessionContext<S>, LoopAction) {
    match frame {
        Ok(Frame::ClientHello { version, capabilities }) => if version == PROTOCOL_VERSION {
            (
                SessionContext { state: SessionState::Idle, last_activity: now, ..ctx },
                LoopAction::Check,
            )
        } else {
            closing(ctx, CloseReason::VersionMismatch)
        },
        _ => resetting(ctx, CloseReason::ProtocolError),
    }
}

/// What a frame that arrives between requests makes of a session. `action` is
/// what it takes.
pub open spec fn frame_handled<S>(
    before: SessionContext<S>,
    frame: Frame,
    after: SessionContext<S>,
    action: LoopAction,
) -> bool {
    match frame {
        Frame::OpenRequest { cmd, atyp, addr, port } => {
            &&& after == SessionContext {
                state: SessionState::Active,
                request_count: (before.request_count + 1) as u64,
                ..before
            }
            &&& match action {
                LoopAction::Relay { cmd: c, atyp: t, addr: a, port: p, drain_timeout } => {
                    &&& (c, t, a, p) == (cmd, atyp, addr, port)
                    &&& drain_timeout@ == SHUTDOWN_DRAIN_SECS * 1_000_000_000
                },
                _ => false,
            }
        },
        Frame::Ping { token } => {
            &&& after == before
            &&& action == LoopAction::Send {
                frame: Frame::Pong { token },
                within: None,
                then: AfterSend::Continue,
            }
        },
        Frame::Close { reason } => (after, action) == closing(before, CloseReason::ClientInitiated),
        _ => (after, action) == resetting(before, CloseReason::ProtocolError),
    }
}

/// What an event during the wait for the client's hello makes of a session.
pub open spec fn hello_awaited<S>(
    ctx: SessionContext<S>,
    event: HelloEvent,
    now: Instant,
) -> (SessionContext<S>, LoopAction) {
    match event {
        HelloEvent::Frame(frame) => hello_answered(ctx, frame, now),
        HelloEvent::ShutdownChanged(shutdown) => if shutdown {
            closing(ctx, CloseReason::ShutdownDrain)
        } else {
            (ctx, LoopAction::AwaitHello { watch_shutdown: false })
        },
    }
}

/// Whether a look at the shutdown flag and the clock takes a session from `before`
/// to `after` with `action`.
pub open spec fn checked<S>(
    config: ReuseConfig,
    before: SessionContext<S>,
    shutdown: bool,
    now: Instant,
    after: SessionContext<S>,
    action: LoopAction,
) -> bool {
    if before.state is Closed || before.state is Poisoned {
        after == before && action == LoopAction::Finish(Ok(()))
    } else if shutdown {
        shuts_down(before, after, action)
    } else {
        match reached_limit(config, before, now) {
            Some(reason) => (after, action) == closing(before, reason),
            None => (after, action) == (
                before,
                LoopAction::AwaitFrame { idle: config.idle_timeout },
            ),
        }
    }
}

/// Whether an event during the wait for a request takes a session from `before` to
/// `after` with `action`.
pub open spec fn frame_awaited<S>(
    before: SessionContext<S>,
    event: ServeEvent,
    now: Instant,
    after: SessionContext<S>,
    action: LoopAction,
) -> bool {
    match event {
        ServeEvent::Frame(Ok(frame)) => frame_handled(
            SessionContext { last_activity: now, ..before },
            frame,
            after,
            action,
        ),
        ServeEvent::Frame(Err(_)) => (after, action) == resetting(
            before,
            CloseReason::ProtocolError,
        ),
        ServeEvent::ShutdownChanged(shutdown) => if shutdown {
            shuts_down(before, after, action)
        } else {
            (after, action) == (before, LoopAction::Check)
        },
        ServeEvent::IdleElapsed => (after, action) == closing(before, CloseReason::IdleTimeout),
    }
}

/// What the end of a request makes of a session.
pub open spec fn request_ended<S>(
    config: ReuseConfig,
    ctx: SessionContext<S>,
    relayed: bool,
    shutdown: bool,
    now: Instant,
) -> (SessionContext<S>, LoopAction) {
    let idle = SessionContext { state: SessionState::Idle, ..ctx };
    if !relayed {
        resetting(ctx, CloseReason::ServerError)
    } else if shutdown {
        closing(idle, CloseReason::ShutdownDrain)
    } else {
        match reached_limit(config, idle, now) {
            Some(reason) => closing(idle, reason),
            None => (idle, LoopAction::Check),
        }
    }
}

/// What the end of sending a frame makes of a session.
pub open spec fn sending_ended<S>(
    ctx: SessionContext<S>,
    then: AfterSend,
    outcome: SendOutcome,
) -> (SessionContext<S>, LoopAction) {
    match outcome {
        SendOutcome::Sent => match then {
            AfterSend::Closed => (
                SessionContext { state: SessionState::Closed, ..ctx },
                LoopAction::Finish(Ok(())),
            ),
            AfterSend::Ended => (ctx, LoopAction::Finish(Ok(()))),
            AfterSend::Continue => (ctx, LoopAction::Check),
        },
        SendOutcome::Failed(error) => (ctx, LoopAction::Finish(Err(error))),
        SendOutcome::TimedOut => resetting(ctx, CloseReason::ShutdownDrain),
    }
}

/// A session that has just begun.
pub open spec fn fresh_session<S>(stream: S, now: Instant) -> SessionContext<S> {
    SessionContext {
        stream,
        state: SessionState::Handshaking,
        request_count: 0,
        created_at: now,
        last_activity: now,
    }
}

/// How a session starts.
pub open spec fn begun<S>(stream: S, first_frame: Option<Frame>, now: Instant) -> (
    SessionContext<S>,
    LoopAction,
) {
    match first_frame {
        Some(frame) => hello_answered(fresh_session(stream, now), Ok(frame), now),
        None => (fresh_session(stream, now), LoopAction::AwaitHello { watch_shutdown: true }),
    }
}

impl SessionLoop {
    pub fn new(config: ReuseConfig) -> (r: Self)
        ensures
            r.config == config,
    {
        SessionLoop { config }
    }

    /// Starts a session. The first frame may have been read already.
    pub fn begin<S>(&self, stream: S, first_frame: Option<Frame>, now: Instant) -> (r: (
        SessionContext<S>,
        LoopAction,
    ))
        ensures
            r == begun(stream, first_frame, now),
    {
        let mut ctx = SessionContext {
            stream,
            state: SessionState::Handshaking,
            request_count: 0,
            created_at: now,
            last_activity: now,
        };
        match first_frame {
            Some(frame) => {
                let action = self.negotiate_frame(&mut ctx, Ok(frame), now);
                (ctx, action)
            },
            None => (ctx, LoopAction::AwaitHello { watch_shutdown: true }),
        }
    }

    /// Goes on from the wait for the client's hello.
    pub fn negotiate<S>(&self, ctx: &mut SessionContext<S>, event: HelloEvent, now: Instant) -> (r:
        LoopAction)
        ensures
            (*final(ctx), r) == hello_awaited(*old(ctx), event, now),
    {
        match event {
            HelloEvent::Frame(frame) => self.negotiate_frame(ctx, frame, now),
            HelloEvent::ShutdownChanged(shutdown) => {
                if shutdown {
                    self.close(ctx, CloseReason::ShutdownDrain)
                } else {
                    LoopAction::AwaitHello { watch_shutdown: false }
                }
            },
        }
    }

    /// Answers the first frame of a session.
    pub fn negotiate_frame<S>(
        &self,
        ctx: &mut SessionContext<S>,
        frame: Result<Frame, FrameError>,
        now: Instant,
    ) -> (r: LoopAction)
        ensures
            (*final(ctx), r) == hello_answered(*old(ctx), frame, now),
    {
        match frame {
            Ok(Frame::ClientHello { version, capabilities }) => {
                if version == PROTOCOL_VERSION {
                    ctx.state = SessionState::Idle;
                    ctx.last_activity = now;
                    LoopAction::Check
                } else {
                    self.close(ctx, CloseReason::VersionMismatch)
                }
            },
            Ok(_) => self.reset(ctx, CloseReason::ProtocolError),
            Err(_) => self.protocol_error(ctx),
        }
    }

    /// Decides at the top of the loop whether the session goes on.
    pub fn serve_loop<S>(&self, ctx: &mut SessionContext<S>, shutdown: bool, now: Instant) -> (r:
        LoopAction)
        ensures
            checked(self.config, *old(ctx), shutdown, now, *final(ctx), r),
    {
        if ctx.state == SessionState::Closed || ctx.state == SessionState::Poisoned {
            return LoopAction::Finish(Ok(()));
        }
        if shutdown {
            return self.graceful_shutdown(ctx);
        }
        if let Some(reason) = self.expired_limit(ctx, &now) {
            return self.close(ctx, reason);
        }
        LoopAction::AwaitFrame { idle: self.config.idle_timeout }
    }

    /// Goes on from the wait for a request.
    pub fn served<S>(&self, ctx: &mut SessionContext<S>, event: ServeEvent, now: Instant) -> (r:
        LoopAction)
        requires
            event matches ServeEvent::Frame(Ok(Frame::OpenRequest { .. })) ==> old(
                ctx,
            ).request_count < u64::MAX,
        ensures
            frame_awaited(*old(ctx), event, now, *final(ctx), r),
    {
        match event {
            ServeEvent::Frame(Ok(frame)) => {
                ctx.last_activity = now;
                self.handle_frame(ctx, frame)
            },
            ServeEvent::Frame(Err(_)) => self.protocol_error(ctx),
            ServeEvent::ShutdownChanged(shutdown) => {
                if shutdown {
                    self.graceful_shutdown(ctx)
                } else {
                    LoopAction::Check
                }
            },
            ServeEvent::IdleElapsed => self.close(ctx, CloseReason::IdleTimeout),
        }
    }

    /// Acts on a frame that arrived between requests.
    pub fn handle_frame<S>(&self, ctx: &mut SessionContext<S>, frame: Frame) -> (r: LoopAction)
        requires
            frame is OpenRequest ==> old(ctx).request_count < u64::MAX,
        ensures
            frame_handled(*old(ctx), frame, *final(ctx), r),
    {
        match frame {
            Frame::OpenRequest { cmd, atyp, addr, port } => {
                ctx.state = SessionState::Active;
                ctx.request_count = ctx.request_count + 1;
                LoopAction::Relay {
                    cmd,
                    atyp,
                    addr,
                    port,
                    drain_timeout: Duration::from_secs(SHUTDOWN_DRAIN_SECS),
                }
            },
            Frame::Ping { token } => LoopAction::Send {
                frame: Frame::Pong { token },
                within: None,
                then: AfterSend::Continue,
            },
            Frame::Close { reason } => self.close(ctx, CloseReason::ClientInitiated),
            _ => self.reset(ctx, CloseReason::ProtocolError),
        }
    }

    /// Goes on from a request that was carried out, or failed.
    pub fn after_relay<S>(
        &self,
        ctx: &mut SessionContext<S>,
        relayed: bool,
        shutdown: bool,
        now: Instant,
    ) -> (r: LoopAction)
        ensures
            (*final(ctx), r) == request_ended(self.config, *old(ctx), relayed, shutdown, now),
    {
        if !relayed {
            return self.reset(ctx, CloseReason::ServerError);
        }
        ctx.state = SessionState::Idle;
        if shutdown {
            return self.close(ctx, CloseReason::ShutdownDrain);
        }
        if let Some(reason) = self.expired_limit(ctx, &now) {
            return self.close(ctx, reason);
        }
        LoopAction::Check
    }

    /// Goes on from sending a frame. Only a closing frame of a session in use has
    /// a time within which it must be sent.
    pub fn after_send<S>(
        &self,
        ctx: &mut SessionContext<S>,
        then: AfterSend,
        outcome: SendOutcome,
    ) -> (r: LoopAction)
        ensures
            (*final(ctx), r) == sending_ended(*old(ctx), then, outcome),
    {
        match outcome {
            SendOutcome::Sent => match then {
                AfterSend::Closed => {
                    ctx.state = SessionState::Closed;
                    LoopAction::Finish(Ok(()))
                },
                AfterSend::Ended => LoopAction::Finish(Ok(())),
                AfterSend::Continue => LoopAction::Check,
            },
            SendOutcome::Failed(error) => LoopAction::Finish(Err(error)),
            SendOutcome::TimedOut => self.reset(ctx, CloseReason::ShutdownDrain),
        }
    }

    /// The limit that a session has reached.
    pub fn expired_limit<S>(&self, ctx: &SessionContext<S>, now: &Instant) -> (r: Option<
        CloseReason,
    >)
        ensures
            r == reached_limit(self.config, *ctx, *now),
    {
        if ctx.request_count >= self.config.max_requests as u64 {
            return Some(CloseReason::MaxRequestsReached);
        }
        if elapsed_at_least(now, &ctx.created_at, &self.config.max_age) {
            return Some(CloseReason::MaxAgeExceeded);
        }
        if elapsed_at_least(now, &ctx.last_activity, &self.config.idle_timeout) {
            return Some(CloseReason::IdleTimeout);
        }
        None
    }

    /// Starts to close a session.
    pub fn close<S>(&self, ctx: &mut SessionContext<S>, reason: CloseReason) -> (r: LoopAction)
        ensures
            (*final(ctx), r) == closing(*old(ctx), reason),
    {
        ctx.state = SessionState::Closing;
        LoopAction::Send {
            frame: Frame::Close { reason: close_reason_code(reason) },
            within: None,
            then: AfterSend::Closed,
        }
    }

    /// Ends a session because the server shuts down.
    pub fn graceful_shutdown<S>(&self, ctx: &mut SessionContext<S>) -> (r: LoopAction)
        ensures
            shuts_down(*old(ctx), *final(ctx), r),
    {
        match ctx.state {
            SessionState::Active => {
                ctx.state = SessionState::Closing;
                LoopAction::Send {
                    frame: Frame::Close { reason: close_reason_code(CloseReason::ShutdownDrain) },
                    within: Some(Duration::from_secs(SHUTDOWN_DRAIN_SECS)),
                    then: AfterSend::Closed,
                }
            },
            SessionState::Closed => LoopAction::Finish(Ok(())),
            SessionState::Poisoned => LoopAction::Finish(Ok(())),
            _ => self.close(ctx, CloseReason::ShutdownDrain),
        }
    }

    /// Gives a session up.
    pub fn reset<S>(&self, ctx: &mut SessionContext<S>, reason: CloseReason) -> (r: LoopAction)
        ensures
            (*final(ctx), r) == resetting(*old(ctx), reason),
    {
        ctx.state = SessionState::Poisoned;
        LoopAction::Send {
            frame: Frame::Reset { reason: close_reason_code(reason) },
            within: None,
            then: AfterSend::Ended,
        }
    }

    /// Gives a session up because what arrived makes no sense.
    pub fn protocol_error<S>(&self, ctx: &mut SessionContext<S>) -> (r: LoopAction)
        ensures
            (*final(ctx), r) == resetting(*old(ctx), CloseReason::ProtocolError),
    {
        self.reset(ctx, CloseReason::ProtocolError)
    }
}

/// What can be reported back to the loop.
pub enum LoopEvent {
    Hello(HelloEvent),
    Checked { shutdown: bool },
    Served(ServeEvent),
    Relayed { relayed: bool, shutdown: bool },
    Sending(SendOutcome),
}

/// Whether the loop, having asked for `done` and been told `event`, takes a
/// session from `before` to `after` and asks for `next`.
pub open spec fn loop_step<S>(
    config: ReuseConfig,
    before: SessionContext<S>,
    done: LoopAction,
    event: LoopEvent,
    now: Instant,
    after: SessionContext<S>,
    next: LoopAction,
) -> bool {
    match (done, event) {
        (LoopAction::AwaitHello { .. }, LoopEvent::Hello(event)) => (after, next) == hello_awaited(
            before,
            event,
            now,
        ),
        (LoopAction::Check, LoopEvent::Checked { shutdown }) => checked(
            config,
            before,
            shutdown,
            now,
            after,
            next,
        ),
        (LoopAction::AwaitFrame { .. }, LoopEvent::Served(event)) => frame_awaited(
            before,
            event,
            now,
            after,
            next,
        ),
        (LoopAction::Relay { .. }, LoopEvent::Relayed { relayed, shutdown }) => (after, next)
            == request_ended(config, before, relayed, shutdown, now),
        (LoopAction::Send { within, then, .. }, LoopEvent::Sending(outcome)) => {
            &&& outcome is TimedOut ==> within is Some
            &&& (after, next) == sending_ended(before, then, outcome)
        },
        _ => false,
    }
}

/// What holds of a session whenever the loop asks for `action`: its state fits the
/// action, it has carried no more requests than it may, and it waits for another
/// request only if it may carry one.
pub open spec fn in_order<S>(
    config: ReuseConfig,
    ctx: SessionContext<S>,
    action: LoopAction,
) -> bool {
    &&& ctx.request_count <= config.max_requests
    &&& match action {
        LoopAction::AwaitHello { .. } => ctx.state is Handshaking && ctx.request_count == 0,
        LoopAction::Check => ctx.state is Idle,
        LoopAction::AwaitFrame { idle } => {
            &&& ctx.state is Idle
            &&& ctx.request_count < config.max_requests
            &&& idle == config.idle_timeout
        },
        LoopAction::Relay { .. } => ctx.state is Active && ctx.request_count > 0,
        LoopAction::Send { frame, within, then } => {
            &&& fits(frame@)
            &&& within is Some ==> then is Closed
            &&& match then {
                AfterSend::Closed => ctx.state is Closing && frame is Close,
                AfterSend::Ended => ctx.state is Poisoned && frame is Reset,
                AfterSend::Continue => ctx.state is Idle && frame is Pong,
            }
        },
        LoopAction::Finish(Ok(_)) => ctx.state is Closed || ctx.state is Poisoned,
        LoopAction::Finish(Err(_)) => true,
    }
}

/// A session starts in order.
pub proof fn law_sessions_begin_in_order<S>(
    config: ReuseConfig,
    stream: S,
    first_frame: Option<Frame>,
    now: Instant,
)
    ensures
        in_order(
            config,
            begun(stream, first_frame, now).0,
            begun(stream, first_frame, now).1,
        ),
{
}

/// Every step of the loop keeps a session in order. In particular a session never
/// carries more requests than the configuration allows, every frame that the loop
/// sends can be sent, and a loop that ends well leaves a session that has ended.
pub proof fn law_sessions_stay_in_order<S>(
    config: ReuseConfig,
    before: SessionContext<S>,
    done: LoopAction,
    event: LoopEvent,
    now: Instant,
    after: SessionContext<S>,
    next: LoopAction,
)
    requires
        in_order(config, before, done),
        loop_step(config, before, done, event, now, after, next),
    ensures
        in_order(config, after, next),
{
}

/// No session ends without a word: the loop ends well only once a close or reset
/// frame has been sent.
pub proof fn law_ends_are_announced<S>(
    config: ReuseConfig,
    before: SessionContext<S>,
    done: LoopAction,
    event: LoopEvent,
    now: Instant,
    after: SessionContext<S>,
    next: LoopAction,
)
    requires
        in_order(config, before, done),
        loop_step(config, before, done, event, now, after, next),
        next == LoopAction::Finish(Ok(())),
    ensures
        event == LoopEvent::Sending(SendOutcome::Sent),
        done is Send,
        done->frame is Close || done->frame is Reset,
{
}

/// A shutdown ends a session wherever the loop can notice it: at its top, while it
/// waits for a hello or a request, and after a request that was carried out. The
/// session is told why.
pub proof fn law_shutdown_closes_sessions<S>(
    config: ReuseConfig,
    before: SessionContext<S>,
    done: LoopAction,
    event: LoopEvent,
    now: Instant,
    after: SessionContext<S>,
    next: LoopAction,
)
    requires
        in_order(config, before, done),
        loop_step(config, before, done, event, now, after, next),
        event == LoopEvent::Hello(HelloEvent::ShutdownChanged(true)) || event
            == (LoopEvent::Checked { shutdown: true }) || event == LoopEvent::Served(
            ServeEvent::ShutdownChanged(true),
        ) || event == (LoopEvent::Relayed { relayed: true, shutdown: true }),
    ensures
        closes_for_shutdown(next, false),
        after.state is Closing,
{
}

/// A session that has reached a limit takes no further request: it is closed with
/// the code of the limit, at the top of the loop and after a request.
pub proof fn law_limits_close_sessions<S>(
    config: ReuseConfig,
    before: SessionContext<S>,
    done: LoopAction,
    event: LoopEvent,
    now: Instant,
    after: SessionContext<S>,
    next: LoopAction,
    reason: CloseReason,
)
    requires
        in_order(config, before, done),
        loop_step(config, before, done, event, now, after, next),
        reached_limit(config, before, now) == Some(reason),
        event == (LoopEvent::Checked { shutdown: false }) || event == (LoopEvent::Relayed {
            relayed: true,
            shutdown: false,
        }),
    ensures
        next == (LoopAction::Send {
            frame: Frame::Close { reason: reason_code(reason) },
            within: None,
            then: AfterSend::Closed,
        }),
{
}

/// Requests are counted one by one: a step starts at most one, and no step takes
/// one back. The stream and the time of birth never change.
pub proof fn law_requests_are_counted<S>(
    config: ReuseConfig,
    before: SessionContext<S>,
    done: LoopAction,
    event: LoopEvent,
    now: Instant,
    after: SessionContext<S>,
    next: LoopAction,
)
    requires
        in_order(config, before, done),
        loop_step(config, before, done, event, now, after, next),
    ensures
        after.request_count == before.request_count + (if next is Relay {
            1int
        } else {
            0int
        }),
        after.stream == before.stream,
        after.created_at == before.created_at,
{
}

/// Whether the loop gets from one session and action to the next in one step.
pub open spec fn steps<S>(
    config: ReuseConfig,
    from: (SessionContext<S>, LoopAction),
    to: (SessionContext<S>, LoopAction),
) -> bool {
    exists|event: LoopEvent, now: Instant| #[trigger]
        loop_step(config, from.0, from.1, event, now, to.0, to.1)
}

/// Whether `point` is how the loop starts with some session.
pub open spec fn starts<S>(point: (SessionContext<S>, LoopAction)) -> bool {
    exists|stream: S, first_frame: Option<Frame>, now: Instant| #[trigger]
        begun(stream, first_frame, now) == point
}

/// Whether `run` is the course of a session from its start: the session and the
/// action at each point.
pub open spec fn is_run<S>(
    config: ReuseConfig,
    run: Seq<(SessionContext<S>, LoopAction)>,
) -> bool {
    &&& run.len() > 0
    &&& starts(run[0])
    &&& forall|i: int, j: int|
        #![trigger run[i], run[j]]
        0 <= i && j == i + 1 && j < run.len() ==> steps(config, run[i], run[j])
}

/// The number of requests that are relayed in the course of a session.
pub open spec fn requests_in<S>(run: Seq<(SessionContext<S>, LoopAction)>) -> nat
    decreases run.len(),
{
    if run.len() == 0 {
        0
    } else {
        requests_in(run.drop_last()) + if run.last().1 is Relay {
            1nat
        } else {
            0nat
        }
    }
}

/// However a session goes, it is in order at every point, its counter tells how
/// many requests it has carried, and it carries no more than it may.
pub proof fn law_sessions_carry_limited_requests<S>(
    config: ReuseConfig,
    run: Seq<(SessionContext<S>, LoopAction)>,
)
    requires
        is_run(config, run),
    ensures
        in_order(config, run.last().0, run.last().1),
        requests_in(run) == run.last().0.request_count,
        requests_in(run) <= config.max_requests,
    decreases run.len(),
{
    let last = run.last();
    if run.len() == 1 {
        let (stream, first_frame, now) = choose|
            stream: S,
            first_frame: Option<Frame>,
            now: Instant,
        | #[trigger] begun(stream, first_frame, now) == run[0];
        law_sessions_begin_in_order(config, stream, first_frame, now);
        assert(run.drop_last() =~= Seq::<(SessionContext<S>, LoopAction)>::empty());
        reveal_with_fuel(requests_in, 2);
    } else {
        let shorter = run.drop_last();
        assert(is_run(config, shorter)) by {
            assert forall|i: int, j: int|
                #![trigger shorter[i], shorter[j]]
                0 <= i && j == i + 1 && j < shorter.len() implies steps(
                config,
                shorter[i],
                shorter[j],
            ) by {
                assert(shorter[i] == run[i] && shorter[j] == run[j]);
            }
        }
        law_sessions_carry_limited_requests(config, shorter);
        let before = shorter.last();
        assert(before == run[run.len() - 2] && last == run[run.len() - 1]);
        assert(steps(config, before, last));
        let (event, now) = choose|event: LoopEvent, now: Instant| #[trigger]
            loop_step(config, before.0, before.1, event, now, last.0, last.1);
        law_sessions_stay_in_order(config, before.0, before.1, event, now, last.0, last.1);
        law_requests_are_counted(config, before.0, before.1, event, now, last.0, last.1);
    }
}

/// Idle sessions can be kept alive: a ping that arrives between requests is
/// answered by the very pong that acknowledges it, and changes nothing else.
pub proof fn law_pings_are_acknowledged<S>(
    before: SessionContext<S>,
    token: u32,
    after: SessionContext<S>,
    action: LoopAction,
)
    requires
        frame_handled(before, Frame::Ping { token }, after, action),
    ensures
        after == before,
        action is Send,
        action->then == AfterSend::Continue,
        ping_concluded(token, Received::Frame(action->frame)).0 is Ok,
{
}

/// An open request that arrives between requests is carried out as it was asked
/// for: the command, the address and the port are those of the frame, it is counted,
/// and it has thirty seconds to finish after a shutdown.
pub proof fn law_requests_are_relayed_as_asked<S>(
    before: SessionContext<S>,
    cmd: u8,
    atyp: u8,
    addr: Vec<u8>,
    port: u16,
    now: Instant,
    after: SessionContext<S>,
    action: LoopAction,
)
    requires
        before.request_count < u64::MAX,
        frame_awaited(
            before,
            ServeEvent::Frame(Ok(Frame::OpenRequest { cmd, atyp, addr, port })),
            now,
            after,
            action,
        ),
    ensures
        action matches LoopAction::Relay { cmd: c, atyp: t, addr: a, port: p, drain_timeout }
            && c == cmd && t == atyp && a@ == addr@ && p == port && drain_timeout@
            == 30_000_000_000,
        after.state is Active,
        after.request_count == before.request_count + 1,
        after.last_activity == now,
        after.created_at == before.created_at,
        after.stream == before.stream,
{
}

/// The request that is relayed tells the frame that asked for it: two open requests
/// that differ in anything never lead to the same action, whatever the sessions.
pub proof fn law_different_requests_are_relayed_differently<S>(
    first: SessionContext<S>,
    second: SessionContext<S>,
    f: Frame,
    g: Frame,
    after_first: SessionContext<S>,
    after_second: SessionContext<S>,
    action: LoopAction,
)
    requires
        f is OpenRequest,
        g is OpenRequest,
        frame_handled(first, f, after_first, action),
        frame_handled(second, g, after_second, action),
    ensures
        f == g,
        action is Relay,
        action->cmd == f->cmd,
        action->atyp == f->atyp,
        action->addr == f->addr,
        action->port == f->port,
{
}

/// Between requests a session takes open requests, pings and a close, and nothing
/// else. A ping is answered with its token and changes only the time of the last
/// activity. A close is answered with a close that the client asked for. Whatever
/// else arrives, or cannot be read, poisons the session and is answered with a
/// reset for a protocol error.
pub proof fn law_other_frames_end_the_session<S>(
    before: SessionContext<S>,
    event: ServeEvent,
    now: Instant,
    after: SessionContext<S>,
    action: LoopAction,
)
    requires
        frame_awaited(before, event, now, after, action),
    ensures
        event matches ServeEvent::Frame(Ok(frame)) ==> after.last_activity == now,
        event matches ServeEvent::Frame(Ok(frame)) ==> (frame !is OpenRequest ==> {
            &&& after.request_count == before.request_count
            &&& after.created_at == before.created_at
            &&& after.stream == before.stream
            &&& action is Send
            &&& action->within is None
            &&& match frame {
                Frame::Ping { token } => {
                    &&& action->frame == (Frame::Pong { token })
                    &&& action->then is Continue
                    &&& after.state == before.state
                },
                Frame::Close { .. } => {
                    &&& action->frame == (Frame::Close { reason: 0x01 })
                    &&& action->then is Closed
                    &&& after.state is Closing
                },
                _ => {
                    &&& action->frame == (Frame::Reset { reason: 0x07 })
                    &&& action->then is Ended
                    &&& after.state is Poisoned
                },
            }
        }),
        event matches ServeEvent::Frame(Err(_)) ==> {
            &&& after == SessionContext { state: SessionState::Poisoned, ..before }
            &&& action is Send
            &&& action->within is None
            &&& action->frame == (Frame::Reset { reason: 0x07 })
            &&& action->then is Ended
        },
{
}

/// The wait for a request ends a session that was idle for too long or is told of a
/// shutdown, with the code of that reason, and goes on where the flag was not set.
pub proof fn law_waits_end_for_idleness_and_shutdown<S>(
    before: SessionContext<S>,
    event: ServeEvent,
    now: Instant,
    after: SessionContext<S>,
    action: LoopAction,
)
    requires
        frame_awaited(before, event, now, after, action),
        event !is Frame,
    ensures
        event == ServeEvent::ShutdownChanged(false) ==> after == before && action is Check,
        event is IdleElapsed ==> {
            &&& after == SessionContext { state: SessionState::Closing, ..before }
            &&& action is Send
            &&& action->frame == (Frame::Close { reason: 0x03 })
            &&& action->within is None
            &&& action->then is Closed
        },
        event == ServeEvent::ShutdownChanged(true) && (before.state is Closed || before.state
            is Poisoned) ==> after == before && action == LoopAction::Finish(Ok(())),
        event == ServeEvent::ShutdownChanged(true) && !(before.state is Closed || before.state
            is Poisoned) ==> {
            &&& after == SessionContext { state: SessionState::Closing, ..before }
            &&& action is Send
            &&& action->frame == (Frame::Close { reason: 0x09 })
            &&& action->then is Closed
            &&& before.state is Active <==> action->within is Some
            &&& action->within matches Some(span) ==> span@ == 30_000_000_000
        },
{
}

/// A session begins with a hello of the version in use, whatever its capabilities:
/// it is then idle. A hello of any other version is answered with a close for the
/// mismatch, anything else with a reset for a protocol error, and a shutdown with a
/// close. Nothing but the state, and the time of activity of an accepted session,
/// changes.
pub proof fn law_only_hellos_of_this_version_are_accepted<S>(
    ctx: SessionContext<S>,
    event: HelloEvent,
    now: Instant,
)
    ensures
        ({
            let (after, action) = hello_awaited(ctx, event, now);
            let accepted = event matches HelloEvent::Frame(Ok(Frame::ClientHello { version, .. }))
                && version == 1;
            let other_version = event matches HelloEvent::Frame(
                Ok(Frame::ClientHello { version, .. }),
            ) && version != 1;
            &&& accepted <==> action is Check
            &&& accepted ==> after == SessionContext {
                state: SessionState::Idle,
                last_activity: now,
                ..ctx
            }
            &&& other_version ==> {
                &&& after == SessionContext { state: SessionState::Closing, ..ctx }
                &&& action is Send
                &&& action->frame == (Frame::Close { reason: 0x08 })
                &&& action->within is None
                &&& action->then is Closed
            }
            &&& event is Frame && !accepted && !other_version ==> {
                &&& after == SessionContext { state: SessionState::Poisoned, ..ctx }
                &&& action is Send
                &&& action->frame == (Frame::Reset { reason: 0x07 })
                &&& action->within is None
                &&& action->then is Ended
            }
            &&& event == HelloEvent::ShutdownChanged(true) ==> {
                &&& after == SessionContext { state: SessionState::Closing, ..ctx }
                &&& action is Send
                &&& action->frame == (Frame::Close { reason: 0x09 })
                &&& action->within is None
                &&& action->then is Closed
            }
            &&& event == HelloEvent::ShutdownChanged(false) ==> {
                &&& after == ctx
                &&& action == (LoopAction::AwaitHello { watch_shutdown: false })
            }
        }),
{
}

/// A session starts new: no request counted, born and last active now, in the
/// handshake. A first frame that was read already is answered as if it had been
/// awaited.
pub proof fn law_sessions_start_new<S>(stream: S, first_frame: Option<Frame>, now: Instant)
    ensures
        ({
            let fresh = begun(stream, None, now).0;
            &&& begun(stream, None, now).1 == (LoopAction::AwaitHello { watch_shutdown: true })
            &&& fresh.stream == stream
            &&& fresh.state is Handshaking
            &&& fresh.request_count == 0
            &&& fresh.created_at == now
            &&& fresh.last_activity == now
            &&& first_frame matches Some(frame) ==> begun(stream, first_frame, now)
                == hello_awaited(fresh, HelloEvent::Frame(Ok(frame)), now)
        }),
{
}

/// A session has reached a limit exactly if it has carried as many requests as it
/// may, is as old as it may become, or has been idle as long as it may be; the first
/// of these that holds is the one that is told.
pub proof fn law_limits_are_those_of_the_configuration<S>(
    config: ReuseConfig,
    ctx: SessionContext<S>,
    now: Instant,
)
    ensures
        ({
            let spent = ctx.request_count >= config.max_requests;
            let old = now@ - ctx.created_at@ >= config.max_age@;
            let stale = now@ - ctx.last_activity@ >= config.idle_timeout@;
            &&& reached_limit(config, ctx, now) is Some <==> spent || old || stale
            &&& spent <==> reached_limit(config, ctx, now) == Some(CloseReason::MaxRequestsReached)
            &&& !spent && old <==> reached_limit(config, ctx, now) == Some(
                CloseReason::MaxAgeExceeded,
            )
            &&& !spent && !old && stale <==> reached_limit(config, ctx, now) == Some(
                CloseReason::IdleTimeout,
            )
        }),
{
}

/// At the top of the loop a session that has ended is left alone, a shutdown closes
/// it, a limit closes it with the code of the limit, and otherwise the next frame is
/// awaited for as long as a session may be idle.
pub proof fn law_the_top_of_the_loop_goes_by_shutdown_and_limits<S>(
    config: ReuseConfig,
    before: SessionContext<S>,
    shutdown: bool,
    now: Instant,
    after: SessionContext<S>,
    action: LoopAction,
)
    requires
        checked(config, before, shutdown, now, after, action),
    ensures
        ({
            let ended = before.state is Closed || before.state is Poisoned;
            let spent = before.request_count >= config.max_requests;
            let old = now@ - before.created_at@ >= config.max_age@;
            let stale = now@ - before.last_activity@ >= config.idle_timeout@;
            let limited = spent || old || stale;
            &&& ended <==> action is Finish
            &&& ended ==> after == before && action == LoopAction::Finish(Ok(()))
            &&& !ended && (shutdown || limited) ==> {
                &&& after == SessionContext { state: SessionState::Closing, ..before }
                &&& action is Send
                &&& action->then is Closed
                &&& action->within is Some <==> shutdown && before.state is Active
                &&& action->within matches Some(span) ==> span@ == 30_000_000_000
                &&& action->frame == Frame::Close {
                    reason: if shutdown {
                        0x09u8
                    } else if spent {
                        0x05u8
                    } else if old {
                        0x04u8
                    } else {
                        0x03u8
                    },
                }
            }
            &&& !ended && !shutdown && !limited ==> {
                &&& after == before
                &&& action == (LoopAction::AwaitFrame { idle: config.idle_timeout })
            }
        }),
{
}

/// After a request the session is idle again and the loop goes on, unless the
/// request failed, the server shuts down or a limit is reached. A failed request
/// poisons the session. The counter and the times stay as they are.
pub proof fn law_sessions_go_on_after_a_request<S>(
    config: ReuseConfig,
    ctx: SessionContext<S>,
    relayed: bool,
    shutdown: bool,
    now: Instant,
)
    ensures
        ({
            let (after, action) = request_ended(config, ctx, relayed, shutdown, now);
            let spent = ctx.request_count >= config.max_requests;
            let old = now@ - ctx.created_at@ >= config.max_age@;
            let stale = now@ - ctx.last_activity@ >= config.idle_timeout@;
            let limited = spent || old || stale;
            &&& after.request_count == ctx.request_count
            &&& after.created_at == ctx.created_at
            &&& after.last_activity == ctx.last_activity
            &&& after.stream == ctx.stream
            &&& action is Check <==> relayed && !shutdown && !limited
            &&& action is Check ==> after.state is Idle
            &&& action !is Check ==> action is Send && action->within is None
            &&& !relayed ==> {
                &&& after.state is Poisoned
                &&& action->frame == (Frame::Reset { reason: 0x02 })
                &&& action->then is Ended
            }
            &&& relayed && (shutdown || limited) ==> {
                &&& after.state is Closing
                &&& action->then is Closed
                &&& action->frame == Frame::Close {
                    reason: if shutdown {
                        0x09u8
                    } else if spent {
                        0x05u8
                    } else if old {
                        0x04u8
                    } else {
                        0x03u8
                    },
                }
            }
        }),
{
}

/// A frame that was sent lets the session go on as it was planned: closed, ended, or
/// on to the next check. One that could not be sent ends the loop with that error.
/// One that took too long is followed by a reset for the shutdown.
pub proof fn law_sending_goes_on_as_planned<S>(
    ctx: SessionContext<S>,
    then: AfterSend,
    outcome: SendOutcome,
)
    ensures
        ({
            let (after, action) = sending_ended(ctx, then, outcome);
            &&& outcome is Sent && then is Closed ==> {
                &&& after == SessionContext { state: SessionState::Closed, ..ctx }
                &&& action == LoopAction::Finish(Ok(()))
            }
            &&& outcome is Sent && then is Ended ==> {
                &&& after == ctx
                &&& action == LoopAction::Finish(Ok(()))
            }
            &&& outcome is Sent && then is Continue ==> after == ctx && action is Check
            &&& outcome matches SendOutcome::Failed(error) ==> {
                &&& after == ctx
                &&& action == LoopAction::Finish(Err(error))
            }
            &&& outcome is TimedOut ==> {
                &&& after == SessionContext { state: SessionState::Poisoned, ..ctx }
                &&& action is Send
                &&& action->frame == (Frame::Reset { reason: 0x09 })
                &&& action->within is None
                &&& action->then is Ended
            }
        }),
{
}

/// A session in use that is told of a shutdown has thirty seconds to be closed; one
/// that is not in use is closed at once, and one that has ended is left alone.
pub proof fn law_shutdown_gives_sessions_in_use_time<S>(
    before: SessionContext<S>,
    after: SessionContext<S>,
    action: LoopAction,
)
    requires
        shuts_down(before, after, action),
    ensures
        before.state is Closed || before.state is Poisoned <==> action is Finish,
        action is Finish ==> after == before && action == LoopAction::Finish(Ok(())),
        action !is Finish ==> {
            &&& after == SessionContext { state: SessionState::Closing, ..before }
            &&& action is Send
            &&& action->frame == (Frame::Close { reason: 0x09 })
            &&& action->then is Closed
            &&& before.state is Active <==> action->within is Some
            &&& action->within matches Some(span) ==> span@ == 30_000_000_000
        },
{
}

/// Reasons have codes from one to eleven on the wire. Two reasons share a code only
/// where they say the same: the client closed, the server closed or failed, or the
/// requests are used up.
pub proof fn law_codes_tell_reasons_apart(a: CloseReason, b: CloseReason)
    ensures
        1 <= reason_code(a) <= 11,
        reason_code(a) == reason_code(b) && a != b ==> {
            ||| reason_code(a) == 0x01 && (a is ClientClose || a is ClientInitiated)
            ||| reason_code(a) == 0x02 && (a is ServerClose || a is ServerError)
            ||| reason_code(a) == 0x05 && (a is MaxRequestsExceeded || a is MaxRequestsReached)
        },
        reason_code(CloseReason::IdleTimeout) == 0x03,
        reason_code(CloseReason::MaxAgeExceeded) == 0x04,
        reason_code(CloseReason::KeepaliveTimeout) == 0x06,
        reason_code(CloseReason::ProtocolError) == 0x07,
        reason_code(CloseReason::VersionMismatch) == 0x08,
        reason_code(CloseReason::ShutdownDrain) == 0x09,
        reason_code(CloseReason::CheckoutFailed) == 0x0a,
        reason_code(CloseReason::Poisoned) == 0x0b,
{
}

/// The methods of the loop take the steps that the laws on sessions speak of.
pub proof fn law_loops_take_the_steps<S>(
    l: &SessionLoop,
    ctx: &mut SessionContext<S>,
    hello: HelloEvent,
    first: Result<Frame, FrameError>,
    event: ServeEvent,
    frame: Frame,
    relayed: bool,
    shutdown: bool,
    then: AfterSend,
    outcome: SendOutcome,
    reason: CloseReason,
    now: Instant,
    action: LoopAction,
)
    ensures
        call_ensures(SessionLoop::negotiate::<S>, (l, ctx, hello, now), action) ==> (
            *final(ctx),
            action,
        ) == hello_awaited(*old(ctx), hello, now),
        call_ensures(SessionLoop::negotiate_frame::<S>, (l, ctx, first, now), action) ==> (
            *final(ctx),
            action,
        ) == hello_awaited(*old(ctx), HelloEvent::Frame(first), now),
        call_ensures(SessionLoop::serve_loop::<S>, (l, ctx, shutdown, now), action) ==> checked(
            l.config,
            *old(ctx),
            shutdown,
            now,
            *final(ctx),
            action,
        ),
        call_ensures(SessionLoop::served::<S>, (l, ctx, event, now), action) ==> frame_awaited(
            *old(ctx),
            event,
            now,
            *final(ctx),
            action,
        ),
        call_ensures(SessionLoop::handle_frame::<S>, (l, ctx, frame), action)
            ==> frame_awaited(
            *old(ctx),
            ServeEvent::Frame(Ok(frame)),
            old(ctx).last_activity,
            *final(ctx),
            action,
        ),
        call_ensures(
            SessionLoop::after_relay::<S>,
            (l, ctx, relayed, shutdown, now),
            action,
        ) ==> (*final(ctx), action) == request_ended(
            l.config,
            *old(ctx),
            relayed,
            shutdown,
            now,
        ),
        call_ensures(SessionLoop::after_send::<S>, (l, ctx, then, outcome), action) ==> (
            *final(ctx),
            action,
        ) == sending_ended(*old(ctx), then, outcome),
        call_ensures(SessionLoop::graceful_shutdown::<S>, (l, ctx), action) ==> shuts_down(
            *old(ctx),
            *final(ctx),
            action,
        ),
        call_ensures(SessionLoop::close::<S>, (l, ctx, reason), action) ==> {
            &&& *final(ctx) == SessionContext { state: SessionState::Closing, ..*old(ctx) }
            &&& action is Send
            &&& action->frame == Frame::Close { reason: reason_code(reason) }
            &&& action->within is None
            &&& action->then is Closed
        },
        call_ensures(SessionLoop::reset::<S>, (l, ctx, reason), action) ==> {
            &&& *final(ctx) == SessionContext { state: SessionState::Poisoned, ..*old(ctx) }
            &&& action is Send
            &&& action->frame == Frame::Reset { reason: reason_code(reason) }
            &&& action->within is None
            &&& action->then is Ended
        },
        call_ensures(SessionLoop::protocol_error::<S>, (l, ctx), action) ==> {
            &&& *final(ctx) == SessionContext { state: SessionState::Poisoned, ..*old(ctx) }
            &&& action is Send
            &&& action->frame == Frame::Reset { reason: 0x07 }
            &&& action->within is None
            &&& action->then is Ended
        },
{
}

/// A loop keeps the rules that it was made with, starts sessions as the law on starts
/// says, finds their limits, and gives reasons their codes. A connection can be that of
/// a reusable session exactly if its first byte is the type of a hello.
pub proof fn law_loops_go_by_their_rules<S>(
    config: ReuseConfig,
    made: SessionLoop,
    l: &SessionLoop,
    stream: S,
    first_frame: Option<Frame>,
    now: Instant,
    begins: (SessionContext<S>, LoopAction),
    ctx: &SessionContext<S>,
    at: &Instant,
    limit: Option<CloseReason>,
    reason: CloseReason,
    code: u8,
    buffered: &[u8],
    looks: bool,
)
    ensures
        call_ensures(SessionLoop::new, (config,), made) ==> made.config == config,
        call_ensures(SessionLoop::begin::<S>, (l, stream, first_frame, now), begins) ==> begins
            == begun(stream, first_frame, now),
        call_ensures(SessionLoop::expired_limit::<S>, (l, ctx, at), limit) ==> limit
            == reached_limit(l.config, *ctx, *at),
        call_ensures(close_reason_code, (reason,), code) ==> code == reason_code(reason),
        call_ensures(looks_like_reuse_handshake, (buffered,), looks) ==> (looks <==> buffered@.len()
            > 0 && buffered@[0] == 1),
{
}

} // verus!
