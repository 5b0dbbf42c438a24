//! The pool of idle sessions that the client takes sessions from and gives them
//! back to. The pool never connects by itself: where it has no session to hand
//! out, it asks its caller to connect and to report back.

use std::collections::VecDeque;

use vstd::prelude::*;
use vstd::string::*;

use crate::error::IoError;
use crate::opt::ReuseConfig;
use crate::session::lifecycle::{event_reason, CloseReason, SessionEvent};
use crate::time::{nanos_between, Duration, Instant};

verus! {

/// Time that sessions in use have to come back when the pool is closed, in
/// seconds.
pub const DRAIN_TIMEOUT_SECS: u64 = 30;

/// A session and what the pool knows about it.
#[derive(Debug)]
pub struct PooledSession<S> {
    pub stream: S,
    pub use_count: u64,
    pub created_at: Instant,
    pub last_used: Instant,
    pub reuse_count: u64,
}

/// A pool of idle sessions.
pub struct SessionPool<S> {
    config: ReuseConfig,
    idle: VecDeque<PooledSession<S>>,
    checked_out: usize,
    closed: bool,
    checkout_count: u64,
    reuse_count: u64,
}

/// What a [`SessionPool`] holds. The idle sessions stand in the order in which
/// they came back.
pub struct PoolView<S> {
    pub config: ReuseConfig,
    pub idle: Seq<PooledSession<S>>,
    pub checked_out: usize,
    pub closed: bool,
    pub checkout_count: u64,
    pub reuse_count: u64,
}

impl<S> View for SessionPool<S> {
    type V = PoolView<S>;

    closed spec fn view(&self) -> PoolView<S> {
        PoolView {
            config: self.config,
            idle: self.idle@,
            checked_out: self.checked_out,
            closed: self.closed,
            checkout_count: self.checkout_count,
            reuse_count: self.reuse_count,
        }
    }
}

/// Why no session was handed out.
#[derive(Debug)]
pub enum CheckoutError {
    /// The program is shutting down
    ShuttingDown,
    /// The pool is closed
    Closed,
    /// The connection could not be made
    ConnectFailed(IoError),
    /// The pool was closed while the connection was made
    ClosedWhileConnecting,
}

/// The text that describes an error.
pub open spec fn checkout_error_text(error: CheckoutError) -> Seq<char> {
    match error {
        CheckoutError::ShuttingDown => "session pool is shutting down"@,
        CheckoutError::Closed => "session pool is closed"@,
        CheckoutError::ConnectFailed(_) => "failed to create reusable session"@,
        CheckoutError::ClosedWhileConnecting => "session pool closed while checkout was connecting"@,
    }
}

impl CheckoutError {
    /// Describes the error.
    pub fn to_string(&self) -> (r: String)
        ensures
            r@ == checkout_error_text(*self),
    {
        match self {
            CheckoutError::ShuttingDown => "session pool is shutting down".to_owned(),
            CheckoutError::Closed => "session pool is closed".to_owned(),
            CheckoutError::ConnectFailed(_) => "failed to create reusable session".to_owned(),
            CheckoutError::ClosedWhileConnecting => {
                "session pool closed while checkout was connecting".to_owned()
            },
        }
    }
}

/// How a checkout goes on.
pub enum CheckoutStep<S> {
    /// With a session from the pool
    Ready(PooledSession<S>),
    /// With a new connection: see [`SessionPool::connected`]
    Connect,
    /// Not at all
    Refused(CheckoutError),
}

/// What giving a session back led to.
pub struct ReturnOutcome {
    /// Whether those who wait for sessions to come back are to be told
    pub notify: bool,
    pub events: Vec<SessionEvent>,
    /// Why the session was closed rather than kept, if it was
    pub closed: Option<CloseReason>,
}

/// How closing the pool goes on.
pub enum DrainStep {
    /// All sessions are back
    Drained(SessionEvent),
    /// Sessions are still in use, and may be so for the given time
    Wait { within: Duration },
}

/// Whether a session may be used once more.
pub open spec fn reusable<S>(config: ReuseConfig, session: PooledSession<S>, now: Instant) -> bool {
    &&& session.use_count < config.max_requests
    &&& nanos_between(session.created_at, now) < config.max_age@
    &&& nanos_between(session.last_used, now) < config.idle_timeout@
}

/// Why a session may not be used once more, if it may not.
pub open spec fn eviction<S>(
    config: ReuseConfig,
    session: PooledSession<S>,
    now: Instant,
) -> Option<SessionEvent> {
    if session.use_count >= config.max_requests {
        Some(SessionEvent::MaxRequestsEviction)
    } else if nanos_between(session.created_at, now) >= config.max_age@ {
        Some(SessionEvent::MaxAgeEviction)
    } else if nanos_between(session.last_used, now) >= config.idle_timeout@ {
        Some(SessionEvent::IdleEviction)
    } else {
        None
    }
}

/// The idle sessions up to the last one that may be used once more.
pub open spec fn usable_part<S>(
    config: ReuseConfig,
    idle: Seq<PooledSession<S>>,
    now: Instant,
) -> Seq<PooledSession<S>>
    decreases idle.len(),
{
    if idle.len() == 0 || reusable(config, idle.last(), now) {
        idle
    } else {
        usable_part(config, idle.drop_last(), now)
    }
}

/// Why the idle sessions after the last usable one are dropped, from the last one
/// on.
pub open spec fn evictions<S>(
    config: ReuseConfig,
    idle: Seq<PooledSession<S>>,
    now: Instant,
) -> Seq<SessionEvent>
    decreases idle.len(),
{
    if idle.len() == 0 || reusable(config, idle.last(), now) {
        Seq::<SessionEvent>::empty()
    } else {
        seq![eviction(config, idle.last(), now)->0] + evictions(config, idle.drop_last(), now)
    }
}

/// A session that is used once more.
pub open spec fn used_again<S>(session: PooledSession<S>, now: Instant) -> PooledSession<S> {
    PooledSession {
        use_count: (session.use_count + 1) as u64,
        reuse_count: (session.reuse_count + 1) as u64,
        last_used: now,
        ..session
    }
}

/// A session that is used for the first time.
pub open spec fn first_use<S>(stream: S, now: Instant) -> PooledSession<S> {
    PooledSession { stream, use_count: 1, created_at: now, last_used: now, reuse_count: 0 }
}

/// What asking for a session leads to: the pool afterwards, how to go on, and the
/// events.
pub open spec fn checkout_asked<S>(pool: PoolView<S>, shutdown: bool, now: Instant) -> (
    PoolView<S>,
    CheckoutStep<S>,
    Seq<SessionEvent>,
) {
    let usable = usable_part(pool.config, pool.idle, now);
    let dropped = evictions(pool.config, pool.idle, now);
    if shutdown {
        (
            pool,
            CheckoutStep::Refused(CheckoutError::ShuttingDown),
            seq![SessionEvent::CheckoutFailed],
        )
    } else if pool.closed {
        (
            pool,
            CheckoutStep::Refused(CheckoutError::Closed),
            seq![SessionEvent::CheckoutFailed],
        )
    } else if usable.len() > 0 {
        let session = used_again(usable.last(), now);
        (
            PoolView {
                idle: usable.drop_last(),
                checked_out: (pool.checked_out + 1) as usize,
                checkout_count: (pool.checkout_count + 1) as u64,
                reuse_count: (pool.reuse_count + 1) as u64,
                ..pool
            },
            CheckoutStep::Ready(session),
            dropped + seq![
                SessionEvent::PoolHit,
                SessionEvent::SessionReused(session.reuse_count as usize),
            ],
        )
    } else {
        (
            PoolView { idle: usable, ..pool },
            CheckoutStep::Connect,
            dropped + seq![SessionEvent::PoolMiss],
        )
    }
}

/// What a connection that was asked for leads to.
pub open spec fn connection_made<S>(
    pool: PoolView<S>,
    shutdown: bool,
    connection: Result<S, IoError>,
    asked_at: Instant,
) -> (PoolView<S>, Result<PooledSession<S>, CheckoutError>, Seq<SessionEvent>) {
    match connection {
        Err(error) => (
            pool,
            Err(CheckoutError::ConnectFailed(error)),
            seq![SessionEvent::CheckoutFailed],
        ),
        Ok(stream) => if pool.closed || shutdown {
            (
                pool,
                Err(CheckoutError::ClosedWhileConnecting),
                seq![SessionEvent::CheckoutFailed],
            )
        } else {
            (
                PoolView {
                    checked_out: (pool.checked_out + 1) as usize,
                    checkout_count: (pool.checkout_count + 1) as u64,
                    ..pool
                },
                Ok(first_use(stream, asked_at)),
                Seq::<SessionEvent>::empty(),
            )
        },
    }
}

/// The pool with one session less in use, if one was.
pub open spec fn one_back<S>(pool: PoolView<S>) -> PoolView<S> {
    PoolView {
        checked_out: if pool.checked_out == 0 {
            0
        } else {
            (pool.checked_out - 1) as usize
        },
        ..pool
    }
}

/// What giving a session back leads to.
pub open spec fn session_returned<S>(
    pool: PoolView<S>,
    session: PooledSession<S>,
    healthy: bool,
    shutdown: bool,
    now: Instant,
) -> (PoolView<S>, Seq<SessionEvent>) {
    let rested = PooledSession { last_used: now, ..session };
    let after = one_back(pool);
    let none = Seq::<SessionEvent>::empty();
    if !healthy {
        (after, none)
    } else if !reusable(pool.config, rested, now) {
        (after, seq![eviction(pool.config, rested, now)->0])
    } else if pool.closed || shutdown {
        (after, none)
    } else if pool.idle.len() < pool.config.max_idle {
        (PoolView { idle: pool.idle.push(rested), ..after }, none)
    } else if after.checked_out > 0 || pool.config.max_idle == 0 {
        (after, none)
    } else {
        (
            PoolView { idle: pool.idle.drop_first().push(rested), ..after },
            seq![SessionEvent::IdleEviction],
        )
    }
}

/// Why a session that is given back is closed rather than kept, if it is: it was
/// not healthy, has reached a limit, or has no place in the pool.
pub open spec fn closed_on_return<S>(
    pool: PoolView<S>,
    session: PooledSession<S>,
    healthy: bool,
    shutdown: bool,
    now: Instant,
) -> Option<CloseReason> {
    let rested = PooledSession { last_used: now, ..session };
    let full = pool.idle.len() >= pool.config.max_idle;
    if !healthy {
        Some(CloseReason::Poisoned)
    } else if !reusable(pool.config, rested, now) {
        event_reason(eviction(pool.config, rested, now)->0)
    } else if pool.closed || shutdown {
        Some(CloseReason::ShutdownDrain)
    } else if full && (one_back(pool).checked_out > 0 || pool.config.max_idle == 0) {
        Some(CloseReason::ShutdownDrain)
    } else {
        None
    }
}

/// The pool once it is closed.
pub open spec fn pool_closed<S>(pool: PoolView<S>) -> PoolView<S> {
    PoolView { closed: true, idle: Seq::<PooledSession<S>>::empty(), ..pool }
}

/// Whether `step` is how closing a pool goes on while `checked_out` sessions are
/// in use.
pub open spec fn drains(checked_out: usize, step: DrainStep) -> bool {
    match step {
        DrainStep::Drained(event) => checked_out == 0 && event == SessionEvent::GracefulDrain,
        DrainStep::Wait { within } => checked_out > 0 && within@ == DRAIN_TIMEOUT_SECS
            * 1_000_000_000,
    }
}

/// Whether the counters that a checkout moves can go up by one: those of the pool
/// and of the session that is handed out, if there is one to hand out.
pub open spec fn can_count<S>(pool: PoolView<S>, now: Instant) -> bool {
    let usable = usable_part(pool.config, pool.idle, now);
    usable.len() > 0 ==> {
        &&& pool.checked_out < usize::MAX
        &&& pool.checkout_count < u64::MAX
        &&& pool.reuse_count < u64::MAX
        &&& usable.last().reuse_count < u64::MAX
    }
}

impl<S> SessionPool<S> {
    /// An empty, open pool.
    pub fn new(config: ReuseConfig) -> (r: Self)
        ensures
            r@ == (PoolView {
                config,
                idle: Seq::<PooledSession<S>>::empty(),
                checked_out: 0,
                closed: false,
                checkout_count: 0,
                reuse_count: 0,
            }),
    {
        SessionPool {
            config,
            idle: VecDeque::new(),
            checked_out: 0,
            closed: false,
            checkout_count: 0,
            reuse_count: 0,
        }
    }

    /// Whether the counters that a checkout at `now` moves can go up by one.
    pub fn counters_have_room(&self, now: &Instant) -> (r: bool)
        ensures
            r == can_count(self@, *now),
    {
        let ghost config = self@.config;
        let ghost idle = self@.idle;
        let mut n: usize = self.idle.len();
        assert(idle.take(n as int) =~= idle);
        while n > 0
            invariant
                config == self@.config,
                idle == self@.idle,
                idle == self.idle@,
                n <= idle.len(),
                usable_part(config, idle, *now) == usable_part(config, idle.take(n as int), *now),
            decreases n,
        {
            let ghost part = idle.take(n as int);
            assert(part.last() == idle[n - 1]);
            if self.is_reusable(&self.idle[n - 1], now) {
                assert(usable_part(config, part, *now) == part);
                return self.checked_out < usize::MAX && self.checkout_count < u64::MAX
                    && self.reuse_count < u64::MAX && self.idle[n - 1].reuse_count < u64::MAX;
            }
            assert(part.drop_last() =~= idle.take(n - 1));
            n = n - 1;
        }
        true
    }

    /// Whether the counters can go up by one, as a new connection needs it.
    pub fn connections_have_room(&self) -> (r: bool)
        ensures
            r == (self@.checked_out < usize::MAX && self@.checkout_count < u64::MAX),
    {
        self.checked_out < usize::MAX && self.checkout_count < u64::MAX
    }

    /// Whether the pool is closed.
    pub fn is_closed(&self) -> (r: bool)
        ensures
            r == self@.closed,
    {
        self.closed
    }

    /// Asks for a session. Sessions that may not be used any more are dropped on
    /// the way, from the one that came back last on.
    pub fn checkout(&mut self, shutdown: bool, now: Instant) -> (r: (
        CheckoutStep<S>,
        Vec<SessionEvent>,
    ))
        requires
            !shutdown && !old(self)@.closed ==> can_count(old(self)@, now),
        ensures
            (final(self)@, r.0, r.1@) == checkout_asked(old(self)@, shutdown, now),
    {
        let mut events: Vec<SessionEvent> = Vec::new();
        if shutdown {
            events.push(SessionEvent::CheckoutFailed);
            assert(events@ =~= seq![SessionEvent::CheckoutFailed]);
            return (CheckoutStep::Refused(CheckoutError::ShuttingDown), events);
        }
        if self.closed {
            events.push(SessionEvent::CheckoutFailed);
            assert(events@ =~= seq![SessionEvent::CheckoutFailed]);
            return (CheckoutStep::Refused(CheckoutError::Closed), events);
        }
        let ghost config = self.config;
        let ghost start = self@;
        loop
            invariant
                start == old(self)@,
                can_count(start, now),
                !self@.closed,
                !shutdown,
                config == start.config,
                self@ == (PoolView { idle: self@.idle, ..start }),
                usable_part(config, start.idle, now) == usable_part(config, self@.idle, now),
                evictions(config, start.idle, now) =~= events@ + evictions(
                    config,
                    self@.idle,
                    now,
                ),
            ensures
                self@.idle.len() == 0,
            decreases self@.idle.len(),
        {
            let ghost idle = self@.idle;
            match self.idle.pop_back() {
                Some(mut session) => {
                    assert(session == idle.last());
                    assert(self@.idle =~= idle.drop_last());
                    if self.is_reusable(&session, &now) {
                        session.use_count = session.use_count + 1;
                        session.reuse_count = session.reuse_count + 1;
                        session.last_used = now;
                        self.checked_out = self.checked_out + 1;
                        self.checkout_count = self.checkout_count + 1;
                        self.reuse_count = self.reuse_count + 1;
                        events.push(SessionEvent::PoolHit);
                        events.push(SessionEvent::SessionReused(session.reuse_count as usize));
                        proof {
                            let asked = checkout_asked(start, shutdown, now);
                            assert(usable_part(config, start.idle, now) == idle);
                            assert(session == used_again(idle.last(), now));
                            assert(events@ =~= asked.2);
                            assert(self@ == asked.0);
                        }
                        return (CheckoutStep::Ready(session), events);
                    }
                    match self.emit_eviction(&session, &now) {
                        Some(event) => {
                            events.push(event);
                        },
                        None => {},
                    }
                },
                None => {
                    break;
                },
            }
        }
        events.push(SessionEvent::PoolMiss);
        proof {
            let asked = checkout_asked(start, shutdown, now);
            assert(events@ =~= asked.2);
            assert(self@.idle =~= usable_part(config, start.idle, now));
        }
        (CheckoutStep::Connect, events)
    }

    /// Takes in the outcome of a connection that a checkout asked for. `asked_at`
    /// is when the connection was asked for.
    pub fn connected(
        &mut self,
        shutdown: bool,
        connection: Result<S, IoError>,
        asked_at: Instant,
    ) -> (r: (Result<PooledSession<S>, CheckoutError>, Vec<SessionEvent>))
        requires
            connection is Ok && !shutdown && !old(self)@.closed ==> old(self)@.checked_out
                < usize::MAX && old(self)@.checkout_count < u64::MAX,
        ensures
            (final(self)@, r.0, r.1@) == connection_made(
                old(self)@,
                shutdown,
                connection,
                asked_at,
            ),
    {
        let mut events: Vec<SessionEvent> = Vec::new();
        match connection {
            Err(error) => {
                events.push(SessionEvent::CheckoutFailed);
                assert(events@ =~= seq![SessionEvent::CheckoutFailed]);
                (Err(CheckoutError::ConnectFailed(error)), events)
            },
            Ok(stream) => {
                if self.closed || shutdown {
                    events.push(SessionEvent::CheckoutFailed);
                    assert(events@ =~= seq![SessionEvent::CheckoutFailed]);
                    return (Err(CheckoutError::ClosedWhileConnecting), events);
                }
                self.checked_out = self.checked_out + 1;
                self.checkout_count = self.checkout_count + 1;
                (Ok(new_session(stream, asked_at)), events)
            },
        }
    }

    /// Gives a session back. It waits in the pool if it is healthy, may be used
    /// again and there is room. Where there is none, it takes the place of the
    /// session that has waited longest, unless other sessions are in use or none
    /// may wait.
    pub fn return_session(
        &mut self,
        session: PooledSession<S>,
        healthy: bool,
        shutdown: bool,
        now: Instant,
    ) -> (r: ReturnOutcome)
        ensures
            (final(self)@, r.events@) == session_returned(
                old(self)@,
                session,
                healthy,
                shutdown,
                now,
            ),
            r.notify == (old(self)@.checked_out > 0),
            r.closed == closed_on_return(old(self)@, session, healthy, shutdown, now),
    {
        let mut session = session;
        session.last_used = now;
        let notify: bool = self.discard_checked_out();
        let ghost after = self@;
        let mut events: Vec<SessionEvent> = Vec::new();
        if !healthy {
            return ReturnOutcome { notify, events, closed: Some(CloseReason::Poisoned) };
        }
        if !self.is_reusable(&session, &now) {
            let mut closed: Option<CloseReason> = None;
            match self.emit_eviction(&session, &now) {
                Some(event) => {
                    closed = event.emit().reason;
                    events.push(event);
                },
                None => {},
            }
            assert(events@ =~= seq![eviction(after.config, session, now)->0]);
            return ReturnOutcome { notify, events, closed };
        }
        if self.closed || shutdown {
            return ReturnOutcome { notify, events, closed: Some(CloseReason::ShutdownDrain) };
        }
        if self.idle.len() >= self.config.max_idle {
            if self.checked_out > 0 || self.config.max_idle == 0 {
                return ReturnOutcome { notify, events, closed: Some(CloseReason::ShutdownDrain) };
            }
            if self.idle.pop_front().is_some() {
                events.push(SessionEvent::IdleEviction);
                assert(self@.idle =~= after.idle.drop_first());
                assert(events@ =~= seq![SessionEvent::IdleEviction]);
            }
        }
        self.idle.push_back(session);
        ReturnOutcome { notify, events, closed: None }
    }

    /// Closes the pool: no session is handed out any more, idle ones are dropped,
    /// and those in use are waited for.
    pub fn close_all(&mut self) -> (r: DrainStep)
        ensures
            final(self)@ == pool_closed(old(self)@),
            drains(old(self)@.checked_out, r),
    {
        self.closed = true;
        self.idle.clear();
        self.drain_step()
    }

    /// How closing the pool goes on at this moment.
    pub fn drain_step(&self) -> (r: DrainStep)
        ensures
            drains(self@.checked_out, r),
    {
        if self.checked_out == 0 {
            DrainStep::Drained(SessionEvent::GracefulDrain)
        } else {
            DrainStep::Wait { within: Duration::from_secs(DRAIN_TIMEOUT_SECS) }
        }
    }

    /// Counts one session less in use, if one was. Tells whether that was so, and
    /// those who wait for sessions to come back are to be told.
    pub fn discard_checked_out(&mut self) -> (r: bool)
        ensures
            final(self)@ == one_back(old(self)@),
            r == (old(self)@.checked_out > 0),
    {
        if self.checked_out == 0 {
            return false;
        }
        self.checked_out = self.checked_out - 1;
        true
    }

    /// The number of sessions in use.
    pub fn checked_out(&self) -> (r: usize)
        ensures
            r == self@.checked_out,
    {
        self.checked_out
    }

    /// The number of sessions that wait in the pool.
    pub fn idle_len(&self) -> (r: usize)
        ensures
            r == self@.idle.len(),
    {
        self.idle.len()
    }

    fn is_reusable(&self, session: &PooledSession<S>, now: &Instant) -> (r: bool)
        ensures
            r == reusable(self@.config, *session, *now),
    {
        session.use_count < self.config.max_requests as u64 && now.duration_since(
            &session.created_at,
        ).shorter_than(&self.config.max_age) && now.duration_since(
            &session.last_used,
        ).shorter_than(&self.config.idle_timeout)
    }

    fn emit_eviction(&self, session: &PooledSession<S>, now: &Instant) -> (r: Option<SessionEvent>)
        ensures
            r == eviction(self@.config, *session, *now),
    {
        if session.use_count >= self.config.max_requests as u64 {
            Some(SessionEvent::MaxRequestsEviction)
        } else if !now.duration_since(&session.created_at).shorter_than(&self.config.max_age) {
            Some(SessionEvent::MaxAgeEviction)
        } else if !now.duration_since(&session.last_used).shorter_than(&self.config.idle_timeout) {
            Some(SessionEvent::IdleEviction)
        } else {
            None
        }
    }
}

/// Makes a session of a fresh connection.
pub fn new_session<S>(stream: S, now: Instant) -> (r: PooledSession<S>)
    ensures
        r == first_use(stream, now),
{
    PooledSession { stream, use_count: 1, created_at: now, last_used: now, reuse_count: 0 }
}

/// A session that was checked out, and whether it may still be swapped for
/// another one.
pub struct SessionHandle<S> {
    session: Option<PooledSession<S>>,
    bytes_relayed: bool,
    retry_used: bool,
}

/// What a [`SessionHandle`] holds.
pub struct HandleView<S> {
    pub session: Option<PooledSession<S>>,
    pub bytes_relayed: bool,
    pub retry_used: bool,
}

impl<S> View for SessionHandle<S> {
    type V = HandleView<S>;

    closed spec fn view(&self) -> HandleView<S> {
        HandleView {
            session: self.session,
            bytes_relayed: self.bytes_relayed,
            retry_used: self.retry_used,
        }
    }
}

/// A handle on a session that was just checked out.
pub open spec fn fresh_handle<S>(session: PooledSession<S>) -> HandleView<S> {
    HandleView { session: Some(session), bytes_relayed: false, retry_used: false }
}

/// A handle on a session that was checked out for a retry.
pub open spec fn retried_handle<S>(session: PooledSession<S>) -> HandleView<S> {
    HandleView { session: Some(session), bytes_relayed: false, retry_used: true }
}

/// A handle whose session has relayed payload.
pub open spec fn marked_handle<S>(handle: HandleView<S>) -> HandleView<S> {
    HandleView { bytes_relayed: true, ..handle }
}

/// Whether a retry is granted.
pub open spec fn may_retry<S>(handle: HandleView<S>) -> bool {
    !handle.bytes_relayed && !handle.retry_used
}

/// Why a handle has no session to give.
#[derive(Debug, Clone, Copy, PartialEq, Eq, Structural)]
pub enum HandleError {
    NoSession,
}

impl HandleError {
    /// Describes the error.
    pub fn to_string(&self) -> (r: String)
        ensures
            r@ == "session handle has no active session"@,
    {
        "session handle has no active session".to_owned()
    }
}

/// A retry that was granted: a session has to be checked out for it.
#[derive(Debug)]
pub struct RetryPending {
    /// Whether those who wait for sessions to come back are to be told
    pub notify: bool,
    pub event: SessionEvent,
}

impl<S> SessionHandle<S> {
    /// A handle on a session that was just checked out.
    pub fn new(session: PooledSession<S>) -> (r: Self)
        ensures
            r@ == fresh_handle(session),
    {
        SessionHandle { session: Some(session), bytes_relayed: false, retry_used: false }
    }

    /// The session.
    pub fn session(&self) -> (r: Option<&PooledSession<S>>)
        ensures
            match r {
                Some(session) => self@.session == Some(*session),
                None => self@.session is None,
            },
    {
        self.session.as_ref()
    }

    /// The session, to be changed.
    pub fn session_mut(&mut self) -> (r: Option<&mut PooledSession<S>>)
        ensures
            match r {
                Some(session) => {
                    &&& old(self)@.session == Some(*session)
                    &&& final(self)@ == (HandleView {
                        session: Some(*final(session)),
                        ..old(self)@
                    })
                },
                None => old(self)@.session is None && final(self)@ == old(self)@,
            },
    {
        self.session.as_mut()
    }

    /// Notes that payload has been relayed.
    pub fn mark_bytes_relayed(&mut self)
        ensures
            final(self)@ == marked_handle(old(self)@),
    {
        self.bytes_relayed = true;
    }

    /// Gives the session out of the handle.
    pub fn into_session(self) -> (r: Result<PooledSession<S>, HandleError>)
        ensures
            match r {
                Ok(session) => self@.session == Some(session),
                Err(_) => self@.session is None,
            },
    {
        match self.session {
            Some(session) => Ok(session),
            None => Err(HandleError::NoSession),
        }
    }

    /// Gives the session up after a protocol error, in order to try again with
    /// another one. That is granted once, and only before payload was relayed.
    pub fn retry_after_protocol_error<E>(self, pool: &mut SessionPool<S>, error: E) -> (r: Result<
        RetryPending,
        E,
    >)
        ensures
            if !may_retry(self@) {
                r == Err::<RetryPending, E>(error) && final(pool)@ == old(pool)@
            } else {
                &&& r == Ok::<RetryPending, E>(
                    RetryPending {
                        notify: old(pool)@.checked_out > 0,
                        event: SessionEvent::FallbackToOneShot,
                    },
                )
                &&& final(pool)@ == one_back(old(pool)@)
            },
    {
        if self.bytes_relayed || self.retry_used {
            return Err(error);
        }
        let notify: bool = pool.discard_checked_out();
        Ok(RetryPending { notify, event: SessionEvent::FallbackToOneShot })
    }
}

impl RetryPending {
    /// Goes on with the session that was checked out for the retry.
    pub fn resume<S>(self, session: PooledSession<S>) -> (r: SessionHandle<S>)
        ensures
            r@ == retried_handle(session),
    {
        SessionHandle { session: Some(session), bytes_relayed: false, retry_used: true }
    }
}

/// What can be asked of a pool.
pub enum PoolEvent<S> {
    Checkout { shutdown: bool, now: Instant },
    Connected { shutdown: bool, connection: Result<S, IoError>, asked_at: Instant },
    Return { session: PooledSession<S>, healthy: bool, shutdown: bool, now: Instant },
    Discard,
    CloseAll,
}

/// The pool after it was asked something.
pub open spec fn pool_after<S>(pool: PoolView<S>, event: PoolEvent<S>) -> PoolView<S> {
    match event {
        PoolEvent::Checkout { shutdown, now } => checkout_asked(pool, shutdown, now).0,
        PoolEvent::Connected { shutdown, connection, asked_at } => connection_made(
            pool,
            shutdown,
            connection,
            asked_at,
        ).0,
        PoolEvent::Return { session, healthy, shutdown, now } => session_returned(
            pool,
            session,
            healthy,
            shutdown,
            now,
        ).0,
        PoolEvent::Discard => one_back(pool),
        PoolEvent::CloseAll => pool_closed(pool),
    }
}

/// What holds of every pool: no more sessions wait in it than may, and none if it
/// is closed.
pub open spec fn well_formed<S>(pool: PoolView<S>) -> bool {
    &&& pool.idle.len() <= pool.config.max_idle
    &&& pool.closed ==> pool.idle.len() == 0
}

proof fn lemma_usable_part<S>(config: ReuseConfig, idle: Seq<PooledSession<S>>, now: Instant)
    ensures
        usable_part(config, idle, now).len() <= idle.len(),
        usable_part(config, idle, now) == idle.take(
            usable_part(config, idle, now).len() as int,
        ),
        usable_part(config, idle, now).len() > 0 ==> reusable(
            config,
            usable_part(config, idle, now).last(),
            now,
        ),
        forall|i: int|
            usable_part(config, idle, now).len() <= i < idle.len() ==> !reusable(
                config,
                #[trigger] idle[i],
                now,
            ),
        evictions(config, idle, now).len() == idle.len() - usable_part(config, idle, now).len(),
    decreases idle.len(),
{
    if idle.len() == 0 || reusable(config, idle.last(), now) {
        assert(idle.take(idle.len() as int) =~= idle);
    } else {
        lemma_usable_part(config, idle.drop_last(), now);
        let n = usable_part(config, idle.drop_last(), now).len() as int;
        assert(idle.drop_last().take(n) =~= idle.take(n));
        assert forall|i: int| n <= i < idle.len() implies !reusable(
            config,
            #[trigger] idle[i],
            now,
        ) by {
            if i < idle.len() - 1 {
                assert(idle[i] == idle.drop_last()[i]);
            }
        }
    }
}

/// A new pool is well formed.
pub proof fn law_pools_begin_well_formed<S>(pool: SessionPool<S>, config: ReuseConfig)
    requires
        pool@ == (PoolView {
            config,
            idle: Seq::<PooledSession<S>>::empty(),
            checked_out: 0,
            closed: false,
            checkout_count: 0,
            reuse_count: 0,
        }),
    ensures
        well_formed(pool@),
        forall|now: Instant| #[trigger] can_count(pool@, now),
{
}

/// Whatever is asked of a pool, no more sessions wait in it than the configuration
/// allows, a closed pool holds none, and the configuration stays as it is.
pub proof fn law_pools_stay_well_formed<S>(pool: PoolView<S>, event: PoolEvent<S>)
    requires
        well_formed(pool),
    ensures
        well_formed(pool_after(pool, event)),
        pool_after(pool, event).config == pool.config,
{
    match event {
        PoolEvent::Checkout { shutdown, now } => {
            lemma_usable_part(pool.config, pool.idle, now);
        },
        _ => {},
    }
}

/// The pool after it was asked one thing after the other.
pub open spec fn pool_after_all<S>(pool: PoolView<S>, events: Seq<PoolEvent<S>>) -> PoolView<S>
    decreases events.len(),
{
    if events.len() == 0 {
        pool
    } else {
        pool_after_all(pool_after(pool, events[0]), events.drop_first())
    }
}

/// However a pool is used, it stays well formed under the configuration that it
/// was made with, and once it was closed it is closed.
pub proof fn law_pools_are_always_well_formed<S>(pool: PoolView<S>, events: Seq<PoolEvent<S>>)
    requires
        well_formed(pool),
    ensures
        well_formed(pool_after_all(pool, events)),
        pool_after_all(pool, events).config == pool.config,
        pool.closed || events.contains(PoolEvent::CloseAll) ==> pool_after_all(pool, events).closed,
    decreases events.len(),
{
    if events.len() > 0 {
        law_pools_stay_well_formed(pool, events[0]);
        let next = pool_after(pool, events[0]);
        let rest = events.drop_first();
        law_pools_are_always_well_formed(next, rest);
        if events.contains(PoolEvent::CloseAll) {
            let i = events.index_of(PoolEvent::CloseAll);
            if i > 0 {
                assert(rest[i - 1] == PoolEvent::<S>::CloseAll);
            }
        }
    }
}

/// A closed pool stays closed and hands nothing out: neither an idle session nor a
/// new connection.
pub proof fn law_closed_pools_hand_nothing_out<S>(
    pool: PoolView<S>,
    event: PoolEvent<S>,
    shutdown: bool,
    connection: Result<S, IoError>,
    at: Instant,
)
    requires
        pool.closed,
    ensures
        pool_after(pool, event).closed,
        checkout_asked(pool, shutdown, at).1 is Refused,
        connection_made(pool, shutdown, connection, at).1 is Err,
{
}

/// Nothing is handed out during a shutdown.
pub proof fn law_shutdown_hands_nothing_out<S>(
    pool: PoolView<S>,
    connection: Result<S, IoError>,
    at: Instant,
)
    ensures
        checkout_asked(pool, true, at).1 is Refused,
        connection_made(pool, true, connection, at).1 is Err,
{
}

/// A session from the pool keeps all limits: it is neither too old nor was it idle
/// too long, and with this use it has been used no more often than it may be.
pub proof fn law_reused_sessions_keep_the_limits<S>(
    pool: PoolView<S>,
    shutdown: bool,
    now: Instant,
    session: PooledSession<S>,
)
    requires
        checkout_asked(pool, shutdown, now).1 == CheckoutStep::Ready(session),
    ensures
        session.use_count <= pool.config.max_requests,
        nanos_between(session.created_at, now) < pool.config.max_age@,
        exists|i: int|
            0 <= i < pool.idle.len() && session == used_again(#[trigger] pool.idle[i], now)
                && reusable(pool.config, pool.idle[i], now),
{
    lemma_usable_part(pool.config, pool.idle, now);
    let usable = usable_part(pool.config, pool.idle, now);
    let last = usable.len() - 1;
    assert(usable[last] == pool.idle[last]);
    assert(session == used_again(pool.idle[last], now));
}

/// A checkout drops only sessions that may not be used any more, one event for
/// each, and leaves the others as they are and in their order.
pub proof fn law_checkout_drops_only_the_unusable<S>(pool: PoolView<S>, now: Instant)
    requires
        !pool.closed,
    ensures
        ({
            let (after, step, events) = checkout_asked(pool, false, now);
            let taken = if step is Ready {
                1int
            } else {
                0int
            };
            let kept = after.idle.len() + taken;
            &&& kept <= pool.idle.len()
            &&& after.idle == pool.idle.take(after.idle.len() as int)
            &&& forall|i: int|
                kept <= i < pool.idle.len() ==> !reusable(
                    pool.config,
                    #[trigger] pool.idle[i],
                    now,
                )
            &&& events.len() == pool.idle.len() - kept + 1 + taken
        }),
{
    lemma_usable_part(pool.config, pool.idle, now);
    let usable = usable_part(pool.config, pool.idle, now);
    if usable.len() > 0 {
        assert(usable.drop_last() =~= pool.idle.take(usable.len() - 1));
    }
}

/// A pool asks for a connection only if no idle session may be used.
pub proof fn law_connections_are_made_only_when_needed<S>(pool: PoolView<S>, now: Instant)
    requires
        checkout_asked(pool, false, now).1 is Connect,
    ensures
        forall|i: int|
            0 <= i < pool.idle.len() ==> !reusable(pool.config, #[trigger] pool.idle[i], now),
{
    lemma_usable_part(pool.config, pool.idle, now);
}

/// What is given back is handed out again: a healthy session that comes back to an
/// open pool with room is the next one to be handed out, counted as used once
/// more, as long as it keeps the limits; and the other idle sessions are untouched.
pub proof fn law_returned_sessions_are_reused<S>(
    pool: PoolView<S>,
    session: PooledSession<S>,
    now: Instant,
    later: Instant,
)
    requires
        !pool.closed,
        pool.idle.len() < pool.config.max_idle,
        reusable(pool.config, PooledSession { last_used: now, ..session }, now),
        reusable(pool.config, PooledSession { last_used: now, ..session }, later),
    ensures
        ({
            let rested = session_returned(pool, session, true, false, now).0;
            let (after, step, events) = checkout_asked(rested, false, later);
            &&& step == CheckoutStep::Ready(
                used_again(PooledSession { last_used: now, ..session }, later),
            )
            &&& after.idle == pool.idle
            &&& pool.checked_out > 0 ==> after.checked_out == pool.checked_out
        }),
{
    let rested = session_returned(pool, session, true, false, now).0;
    assert(rested.idle.last() == (PooledSession { last_used: now, ..session }));
    assert(rested.idle.drop_last() =~= pool.idle);
}

/// Whether no counter of a pool runs over when it is asked something.
pub open spec fn room_for<S>(pool: PoolView<S>, event: PoolEvent<S>) -> bool {
    match event {
        PoolEvent::Checkout { now, .. } => can_count(pool, now),
        PoolEvent::Connected { .. } => pool.checked_out < usize::MAX && pool.checkout_count
            < u64::MAX,
        _ => true,
    }
}

/// A session that is given back is either kept or closed for a reason: where no
/// reason is given it is the last one in the pool, and where one is given the idle
/// sessions stay as they are.
pub proof fn law_returned_sessions_are_kept_or_closed<S>(
    pool: PoolView<S>,
    session: PooledSession<S>,
    healthy: bool,
    shutdown: bool,
    now: Instant,
)
    ensures
        ({
            let after = session_returned(pool, session, healthy, shutdown, now).0;
            match closed_on_return(pool, session, healthy, shutdown, now) {
                Some(_) => after.idle == pool.idle,
                None => {
                    &&& after.idle.len() > 0
                    &&& after.idle.last() == (PooledSession { last_used: now, ..session })
                },
            }
        }),
{
}

/// Sessions in use are counted: each session handed out counts one, each session
/// given back or given up counts one less, and nothing else changes the count.
pub proof fn law_sessions_in_use_are_counted<S>(pool: PoolView<S>, event: PoolEvent<S>)
    requires
        room_for(pool, event),
    ensures
        match event {
            PoolEvent::Checkout { shutdown, now } => pool_after(pool, event).checked_out
                == pool.checked_out + (if checkout_asked(pool, shutdown, now).1 is Ready {
                1int
            } else {
                0int
            }),
            PoolEvent::Connected { shutdown, connection, asked_at } => pool_after(
                pool,
                event,
            ).checked_out == pool.checked_out + (if connection_made(
                pool,
                shutdown,
                connection,
                asked_at,
            ).1 is Ok {
                1int
            } else {
                0int
            }),
            PoolEvent::Return { .. } => pool.checked_out > 0 ==> pool_after(pool, event).checked_out
                == pool.checked_out - 1,
            PoolEvent::Discard => pool.checked_out > 0 ==> pool_after(pool, event).checked_out
                == pool.checked_out - 1,
            PoolEvent::CloseAll => pool_after(pool, event).checked_out == pool.checked_out,
        },
{
}

/// Room is made only when nobody loses by it: while other sessions are in use, a
/// session that comes back to a full pool is dropped and the idle ones stay.
pub proof fn law_full_pools_keep_their_sessions_while_others_are_in_use<S>(
    pool: PoolView<S>,
    session: PooledSession<S>,
    healthy: bool,
    shutdown: bool,
    now: Instant,
)
    requires
        pool.idle.len() >= pool.config.max_idle,
        pool.checked_out > 1,
    ensures
        session_returned(pool, session, healthy, shutdown, now).0.idle == pool.idle,
{
}

/// A retry is granted once: the handle that comes of a retry is granted none.
pub proof fn law_retries_are_granted_once<S>(session: PooledSession<S>)
    ensures
        may_retry(fresh_handle(session)),
        !may_retry(retried_handle(session)),
{
}

/// No retry is granted once payload was relayed, so none is ever sent twice.
pub proof fn law_no_retry_after_payload<S>(handle: HandleView<S>)
    ensures
        !may_retry(marked_handle(handle)),
{
}

/// A session may be used once more exactly if it has been used less often than it
/// may, is younger than it may become and has been idle for less time than it may:
/// the three limits count for every session alike. Otherwise the first limit that it
/// has reached is told.
pub proof fn law_sessions_expire_by_their_limits<S>(
    config: ReuseConfig,
    session: PooledSession<S>,
    now: Instant,
)
    ensures
        ({
            let spent = session.use_count >= config.max_requests;
            let old = config.max_age@ == 0 || now@ - session.created_at@ >= config.max_age@;
            let stale = config.idle_timeout@ == 0 || now@ - session.last_used@
                >= config.idle_timeout@;
            &&& reusable(config, session, now) <==> !spent && !old && !stale
            &&& eviction(config, session, now) is None <==> !spent && !old && !stale
            &&& spent <==> eviction(config, session, now) == Some(SessionEvent::MaxRequestsEviction)
            &&& !spent && old <==> eviction(config, session, now) == Some(
                SessionEvent::MaxAgeEviction,
            )
            &&& !spent && !old && stale <==> eviction(config, session, now) == Some(
                SessionEvent::IdleEviction,
            )
        }),
{
}

/// A checkout hands out the idle session that came back last among those that keep
/// all limits: it has been used less often than it may, is not too old and was not
/// idle too long, and each one that came back after it has reached a limit. It is
/// counted as used and reused once more, now, and is otherwise as it was. Those before
/// it stay in the pool as they are.
pub proof fn law_checkout_hands_out_the_last_usable_session<S>(
    pool: PoolView<S>,
    shutdown: bool,
    now: Instant,
    session: PooledSession<S>,
)
    requires
        checkout_asked(pool, shutdown, now).1 == CheckoutStep::Ready(session),
        pool.checked_out < usize::MAX,
        pool.checkout_count < u64::MAX,
        pool.reuse_count < u64::MAX,
    ensures
        !shutdown,
        !pool.closed,
        ({
            let (after, step, events) = checkout_asked(pool, shutdown, now);
            let i = after.idle.len() as int;
            let from = pool.idle[i];
            &&& i < pool.idle.len()
            &&& after.idle == pool.idle.take(i)
            &&& from.use_count < pool.config.max_requests
            &&& now@ - from.created_at@ < pool.config.max_age@
            &&& now@ - from.last_used@ < pool.config.idle_timeout@
            &&& session.stream == from.stream
            &&& session.created_at == from.created_at
            &&& session.last_used == now
            &&& session.use_count == from.use_count + 1
            &&& from.reuse_count < u64::MAX ==> session.reuse_count == from.reuse_count + 1
            &&& forall|j: int|
                #![trigger pool.idle[j]]
                i < j < pool.idle.len() ==> {
                    ||| pool.idle[j].use_count >= pool.config.max_requests
                    ||| pool.config.max_age@ == 0
                    ||| pool.config.idle_timeout@ == 0
                    ||| now@ - pool.idle[j].created_at@ >= pool.config.max_age@
                    ||| now@ - pool.idle[j].last_used@ >= pool.config.idle_timeout@
                }
            &&& after.config == pool.config
            &&& after.closed == pool.closed
            &&& after.checked_out == pool.checked_out + 1
            &&& after.checkout_count == pool.checkout_count + 1
            &&& after.reuse_count == pool.reuse_count + 1
            &&& events.len() == pool.idle.len() - i + 1
            &&& events[events.len() - 2] is PoolHit
            &&& events.last() == SessionEvent::SessionReused(session.reuse_count as usize)
        }),
{
    lemma_usable_part(pool.config, pool.idle, now);
    let usable = usable_part(pool.config, pool.idle, now);
    let last = usable.len() - 1;
    assert(usable[last] == pool.idle[last]);
    assert(usable.drop_last() =~= pool.idle.take(last));
    assert forall|j: int|
        #![trigger pool.idle[j]]
        last < j < pool.idle.len() implies !reusable(pool.config, pool.idle[j], now) by {}
}

/// A checkout asks for a connection exactly if the pool is open, there is no shutdown,
/// and every idle session has reached a limit. All of them are dropped then, and
/// nothing else changes.
pub proof fn law_checkout_connects_where_all_have_expired<S>(
    pool: PoolView<S>,
    shutdown: bool,
    now: Instant,
)
    ensures
        ({
            let (after, step, events) = checkout_asked(pool, shutdown, now);
            let all_expired = forall|j: int|
                #![trigger pool.idle[j]]
                0 <= j < pool.idle.len() ==> {
                    ||| pool.idle[j].use_count >= pool.config.max_requests
                    ||| pool.config.max_age@ == 0
                    ||| pool.config.idle_timeout@ == 0
                    ||| now@ - pool.idle[j].created_at@ >= pool.config.max_age@
                    ||| now@ - pool.idle[j].last_used@ >= pool.config.idle_timeout@
                };
            &&& step is Connect <==> !shutdown && !pool.closed && all_expired
            &&& step is Ready <==> !shutdown && !pool.closed && !all_expired
            &&& step is Connect ==> {
                &&& after.idle.len() == 0
                &&& after == PoolView { idle: after.idle, ..pool }
                &&& events.len() == pool.idle.len() + 1
                &&& events.last() is PoolMiss
            }
            &&& step is Refused ==> {
                &&& after == pool
                &&& events == seq![SessionEvent::CheckoutFailed]
            }
            &&& shutdown <==> step == CheckoutStep::<S>::Refused(CheckoutError::ShuttingDown)
            &&& !shutdown && pool.closed <==> step == CheckoutStep::<S>::Refused(
                CheckoutError::Closed,
            )
        }),
{
    lemma_usable_part(pool.config, pool.idle, now);
    let usable = usable_part(pool.config, pool.idle, now);
    if usable.len() > 0 {
        let last = usable.len() - 1;
        assert(usable[last] == pool.idle[last]);
        assert(reusable(pool.config, pool.idle[last], now));
    } else {
        assert forall|j: int|
            #![trigger pool.idle[j]]
            0 <= j < pool.idle.len() implies !reusable(pool.config, pool.idle[j], now) by {}
    }
}

/// Each session that a checkout drops is told of, the last one first, by the first
/// limit that it has reached.
pub proof fn law_dropped_sessions_are_told_of<S>(pool: PoolView<S>, now: Instant, k: int)
    requires
        !pool.closed,
        0 <= k < pool.idle.len() - checkout_asked(pool, false, now).0.idle.len() - (
        if checkout_asked(pool, false, now).1 is Ready {
            1int
        } else {
            0int
        }),
    ensures
        ({
            let dropped = pool.idle[pool.idle.len() - 1 - k];
            let event = checkout_asked(pool, false, now).2[k];
            let spent = dropped.use_count >= pool.config.max_requests;
            let old = pool.config.max_age@ == 0 || now@ - dropped.created_at@
                >= pool.config.max_age@;
            &&& spent <==> event is MaxRequestsEviction
            &&& !spent && old <==> event is MaxAgeEviction
            &&& !spent && !old <==> event is IdleEviction
        }),
{
    lemma_usable_part(pool.config, pool.idle, now);
    lemma_evictions(pool.config, pool.idle, now, k);
    let n = pool.idle.len() - 1 - k;
    assert(!reusable(pool.config, pool.idle[n], now));
    let usable = usable_part(pool.config, pool.idle, now);
    assert(checkout_asked(pool, false, now).2[k] == evictions(pool.config, pool.idle, now)[k]);
}

proof fn lemma_evictions<S>(
    config: ReuseConfig,
    idle: Seq<PooledSession<S>>,
    now: Instant,
    k: int,
)
    requires
        0 <= k < evictions(config, idle, now).len(),
    ensures
        evictions(config, idle, now).len() <= idle.len(),
        evictions(config, idle, now)[k] == eviction(config, idle[idle.len() - 1 - k], now)->0,
    decreases idle.len(),
{
    lemma_usable_part(config, idle, now);
    if k > 0 {
        lemma_evictions(config, idle.drop_last(), now, k - 1);
    }
}

/// A connection that was asked for becomes a session in its first use, born when it
/// was asked for, and is counted; unless it failed, or the pool was closed or the
/// program shut down meanwhile, which changes nothing.
pub proof fn law_connections_become_sessions<S>(
    pool: PoolView<S>,
    shutdown: bool,
    connection: Result<S, IoError>,
    asked_at: Instant,
)
    requires
        pool.checked_out < usize::MAX,
        pool.checkout_count < u64::MAX,
    ensures
        ({
            let (after, result, events) = connection_made(pool, shutdown, connection, asked_at);
            &&& result is Ok <==> connection is Ok && !shutdown && !pool.closed
            &&& result matches Ok(session) ==> {
                &&& session.stream == connection->Ok_0
                &&& session.use_count == 1
                &&& session.reuse_count == 0
                &&& session.created_at == asked_at
                &&& session.last_used == asked_at
                &&& after.checked_out == pool.checked_out + 1
                &&& after.checkout_count == pool.checkout_count + 1
                &&& after == PoolView {
                    checked_out: after.checked_out,
                    checkout_count: after.checkout_count,
                    ..pool
                }
                &&& events.len() == 0
            }
            &&& result is Err ==> after == pool && events == seq![SessionEvent::CheckoutFailed]
            &&& connection matches Err(error) ==> result == Err::<PooledSession<S>, CheckoutError>(
                CheckoutError::ConnectFailed(error),
            )
            &&& connection is Ok && (shutdown || pool.closed) ==> result == Err::<
                PooledSession<S>,
                CheckoutError,
            >(CheckoutError::ClosedWhileConnecting)
        }),
{
}

/// A healthy session that keeps the limits comes back into an open pool with room
/// behind those that wait already, which stay as they are. It waits from now on.
pub proof fn law_sessions_wait_behind_the_others<S>(
    pool: PoolView<S>,
    session: PooledSession<S>,
    now: Instant,
)
    requires
        !pool.closed,
        pool.idle.len() < pool.config.max_idle,
        session.use_count < pool.config.max_requests,
        now@ - session.created_at@ < pool.config.max_age@,
        0 < pool.config.max_age@,
        0 < pool.config.idle_timeout@,
    ensures
        ({
            let (after, events) = session_returned(pool, session, true, false, now);
            &&& after.idle.len() == pool.idle.len() + 1
            &&& after.idle.drop_last() == pool.idle
            &&& after.idle.last() == PooledSession { last_used: now, ..session }
            &&& events.len() == 0
            &&& closed_on_return(pool, session, true, false, now) is None
        }),
{
    let after = session_returned(pool, session, true, false, now).0;
    assert(after.idle.drop_last() =~= pool.idle);
}

/// A healthy session that keeps the limits and comes back to an open, full pool while
/// no other session is in use takes the place of the one that has waited longest, and
/// of no other: the others stay, in their order, and it comes last. There are as many
/// as before, and one eviction is told.
pub proof fn law_full_pools_give_up_the_longest_waiting<S>(
    pool: PoolView<S>,
    session: PooledSession<S>,
    now: Instant,
)
    requires
        !pool.closed,
        pool.config.max_idle > 0,
        pool.idle.len() >= pool.config.max_idle,
        pool.checked_out <= 1,
        session.use_count < pool.config.max_requests,
        now@ - session.created_at@ < pool.config.max_age@,
        0 < pool.config.max_age@,
        0 < pool.config.idle_timeout@,
    ensures
        ({
            let (after, events) = session_returned(pool, session, true, false, now);
            &&& after.idle.len() == pool.idle.len()
            &&& forall|i: int|
                #![trigger after.idle[i]]
                0 <= i < pool.idle.len() - 1 ==> after.idle[i] == pool.idle[i + 1]
            &&& after.idle.last() == PooledSession { last_used: now, ..session }
            &&& events == seq![SessionEvent::IdleEviction]
            &&& closed_on_return(pool, session, true, false, now) is None
        }),
{
}

/// Every other session that comes back is closed and leaves the idle ones as they are:
/// one that is not healthy, one that has reached a limit, any that comes back to a
/// closed pool or during a shutdown, and one for which there is no place. Only a
/// reached limit is an event, and the reason that is told is the one that holds first.
pub proof fn law_sessions_that_may_not_wait_are_closed<S>(
    pool: PoolView<S>,
    session: PooledSession<S>,
    healthy: bool,
    shutdown: bool,
    now: Instant,
)
    ensures
        ({
            let (after, events) = session_returned(pool, session, healthy, shutdown, now);
            let reason = closed_on_return(pool, session, healthy, shutdown, now);
            let spent = session.use_count >= pool.config.max_requests;
            let old = pool.config.max_age@ == 0 || now@ - session.created_at@
                >= pool.config.max_age@;
            let stale = pool.config.idle_timeout@ == 0;
            let expired = spent || old || stale;
            let full = pool.idle.len() >= pool.config.max_idle;
            let unplaced = full && (pool.checked_out > 1 || pool.config.max_idle == 0);
            &&& reason is Some <==> !healthy || expired || pool.closed || shutdown || unplaced
            &&& reason is Some ==> after.idle == pool.idle
            &&& !healthy <==> reason == Some(CloseReason::Poisoned)
            &&& healthy && spent <==> reason == Some(CloseReason::MaxRequestsExceeded)
            &&& healthy && !spent && old <==> reason == Some(CloseReason::MaxAgeExceeded)
            &&& healthy && !spent && !old && stale <==> reason == Some(CloseReason::IdleTimeout)
            &&& healthy && !expired && (pool.closed || shutdown || unplaced) <==> reason == Some(
                CloseReason::ShutdownDrain,
            )
            &&& reason is Some ==> (events.len() == 1 <==> healthy && expired)
            &&& reason is Some ==> events.len() <= 1
            &&& healthy && spent ==> events[0] is MaxRequestsEviction
            &&& healthy && !spent && old ==> events[0] is MaxAgeEviction
            &&& healthy && !spent && !old && stale ==> events[0] is IdleEviction
        }),
{
}

/// A session that comes back is one less in use, if any was, and nothing else about
/// the pool changes but its idle sessions. The same holds of a session that is given
/// up, which leaves those as well. A pool that is closed drops all its idle sessions
/// and keeps its counters.
pub proof fn law_coming_back_is_counted<S>(
    pool: PoolView<S>,
    session: PooledSession<S>,
    healthy: bool,
    shutdown: bool,
    now: Instant,
)
    ensures
        ({
            let after = session_returned(pool, session, healthy, shutdown, now).0;
            &&& pool.checked_out > 0 ==> after.checked_out == pool.checked_out - 1
            &&& pool.checked_out == 0 ==> after.checked_out == 0
            &&& after == PoolView { idle: after.idle, checked_out: after.checked_out, ..pool }
            &&& one_back(pool) == PoolView { checked_out: after.checked_out, ..pool }
        }),
        pool_closed(pool).idle.len() == 0,
        pool_closed(pool).closed,
        pool_closed(pool) == (PoolView { idle: pool_closed(pool).idle, closed: true, ..pool }),
{
}

/// A closed pool is drained when no session is in use, and is waited for thirty
/// seconds while one is.
pub proof fn law_pools_drain_when_nothing_is_in_use(checked_out: usize, step: DrainStep)
    requires
        drains(checked_out, step),
    ensures
        checked_out == 0 <==> step == DrainStep::Drained(SessionEvent::GracefulDrain),
        checked_out > 0 <==> step is Wait,
        step matches DrainStep::Wait { within } ==> within@ == 30_000_000_000,
{
}

/// Handles hold the session they were made for. A retry is granted exactly to one
/// that has relayed nothing and was not retried.
pub proof fn law_handles_hold_their_session<S>(session: PooledSession<S>, handle: HandleView<S>)
    ensures
        fresh_handle(session) == (HandleView {
            session: Some(session),
            bytes_relayed: false,
            retry_used: false,
        }),
        retried_handle(session) == (HandleView {
            session: Some(session),
            bytes_relayed: false,
            retry_used: true,
        }),
        marked_handle(handle).session == handle.session,
        marked_handle(handle).retry_used == handle.retry_used,
        marked_handle(handle).bytes_relayed,
        may_retry(handle) <==> !handle.bytes_relayed && !handle.retry_used,
{
}

/// Refused checkouts are described in words.
pub proof fn law_refusals_are_described(error: IoError)
    ensures
        checkout_error_text(CheckoutError::ShuttingDown) == "session pool is shutting down"@,
        checkout_error_text(CheckoutError::Closed) == "session pool is closed"@,
        checkout_error_text(CheckoutError::ConnectFailed(error))
            == "failed to create reusable session"@,
        checkout_error_text(CheckoutError::ClosedWhileConnecting)
            == "session pool closed while checkout was connecting"@,
{
}

/// The methods of a pool do what the laws on pools speak of.
pub proof fn law_pools_do_as_they_are_asked<S>(
    pool: &mut SessionPool<S>,
    shutdown: bool,
    now: Instant,
    asked: (CheckoutStep<S>, Vec<SessionEvent>),
    connection: Result<S, IoError>,
    made: (Result<PooledSession<S>, CheckoutError>, Vec<SessionEvent>),
    session: PooledSession<S>,
    healthy: bool,
    outcome: ReturnOutcome,
    step: DrainStep,
    told: bool,
)
    ensures
        call_ensures(SessionPool::<S>::checkout, (pool, shutdown, now), asked) ==> (
            final(pool)@,
            asked.0,
            asked.1@,
        ) == checkout_asked(old(pool)@, shutdown, now),
        call_ensures(SessionPool::<S>::connected, (pool, shutdown, connection, now), made) ==> (
            final(pool)@,
            made.0,
            made.1@,
        ) == connection_made(old(pool)@, shutdown, connection, now),
        call_ensures(
            SessionPool::<S>::return_session,
            (pool, session, healthy, shutdown, now),
            outcome,
        ) ==> {
            &&& (final(pool)@, outcome.events@) == session_returned(
                old(pool)@,
                session,
                healthy,
                shutdown,
                now,
            )
            &&& outcome.closed == closed_on_return(old(pool)@, session, healthy, shutdown, now)
            &&& outcome.notify <==> old(pool)@.checked_out > 0
        },
        call_ensures(SessionPool::<S>::close_all, (pool,), step) ==> {
            &&& final(pool)@ == pool_closed(old(pool)@)
            &&& drains(old(pool)@.checked_out, step)
        },
        call_ensures(SessionPool::<S>::discard_checked_out, (pool,), told) ==> {
            &&& final(pool)@ == one_back(old(pool)@)
            &&& told <==> old(pool)@.checked_out > 0
        },
{
}

/// A new pool is empty and open under its configuration, and a pool tells what it
/// holds.
pub proof fn law_pools_tell_what_they_hold<S>(
    config: ReuseConfig,
    made: SessionPool<S>,
    pool: &SessionPool<S>,
    now: &Instant,
    is: bool,
    n: usize,
    step: DrainStep,
    stream: S,
    at: Instant,
    session: PooledSession<S>,
)
    ensures
        call_ensures(SessionPool::<S>::new, (config,), made) ==> {
            &&& made@.config == config
            &&& made@.idle.len() == 0
            &&& made@.checked_out == 0
            &&& !made@.closed
            &&& made@.checkout_count == 0
            &&& made@.reuse_count == 0
        },
        call_ensures(SessionPool::<S>::is_closed, (pool,), is) ==> is == pool@.closed,
        call_ensures(SessionPool::<S>::checked_out, (pool,), n) ==> n == pool@.checked_out,
        call_ensures(SessionPool::<S>::idle_len, (pool,), n) ==> n == pool@.idle.len(),
        call_ensures(SessionPool::<S>::drain_step, (pool,), step) ==> drains(
            pool@.checked_out,
            step,
        ),
        call_ensures(SessionPool::<S>::connections_have_room, (pool,), is) ==> (is
            <==> pool@.checked_out < usize::MAX && pool@.checkout_count < u64::MAX),
        call_ensures(new_session::<S>, (stream, at), session) ==> {
            &&& session.stream == stream
            &&& session.use_count == 1
            &&& session.reuse_count == 0
            &&& session.created_at == at
            &&& session.last_used == at
        },
{
}

/// A handle gives out the session it holds. A retry is granted exactly to a handle that
/// has relayed nothing and was not retried: its session is then one less in use. One
/// that is refused is answered with the error it came with, and changes nothing.
pub proof fn law_handles_grant_one_retry<S, E>(
    pool: &mut SessionPool<S>,
    handle: SessionHandle<S>,
    error: E,
    r: Result<RetryPending, E>,
    pending: RetryPending,
    session: PooledSession<S>,
    made: SessionHandle<S>,
    given: Result<PooledSession<S>, HandleError>,
    relaying: &mut SessionHandle<S>,
)
    ensures
        call_ensures(SessionHandle::<S>::new, (session,), made) ==> made@ == (HandleView {
            session: Some(session),
            bytes_relayed: false,
            retry_used: false,
        }),
        call_ensures(SessionHandle::<S>::into_session, (handle,), given) ==> match given {
            Ok(session) => handle@.session == Some(session),
            Err(_) => handle@.session is None,
        },
        call_ensures(SessionHandle::<S>::mark_bytes_relayed, (relaying,), ()) ==> final(relaying)@
            == (HandleView { bytes_relayed: true, ..old(relaying)@ }),
        call_ensures(
            SessionHandle::<S>::retry_after_protocol_error::<E>,
            (handle, pool, error),
            r,
        ) ==> {
            &&& r is Ok <==> !handle@.bytes_relayed && !handle@.retry_used
            &&& r matches Err(e) ==> e == error && final(pool)@ == old(pool)@
            &&& r matches Ok(granted) ==> {
                &&& granted.event is FallbackToOneShot
                &&& granted.notify <==> old(pool)@.checked_out > 0
                &&& final(pool)@ == one_back(old(pool)@)
            }
        },
        call_ensures(RetryPending::resume::<S>, (pending, session), made) ==> made@ == (HandleView {
            session: Some(session),
            bytes_relayed: false,
            retry_used: true,
        }),
{
}

/// Errors of the pool are told in words.
pub proof fn law_refusals_are_told_as_described(
    error: &CheckoutError,
    handle_error: &HandleError,
    text: String,
)
    ensures
        call_ensures(CheckoutError::to_string, (error,), text) ==> text@ == checkout_error_text(
            *error,
        ),
        call_ensures(HandleError::to_string, (handle_error,), text) ==> text@
            == "session handle has no active session"@,
{
}

/// A checkout may be asked for whenever no counter of the pool or of an idle session is
/// at its end, and always where no session waits.
pub proof fn law_checkouts_need_room_to_count_only<S>(pool: PoolView<S>, now: Instant)
    ensures
        pool.idle.len() == 0 ==> can_count(pool, now),
        pool.checked_out < usize::MAX && pool.checkout_count < u64::MAX && pool.reuse_count
            < u64::MAX && (forall|i: int|
            0 <= i < pool.idle.len() ==> (#[trigger] pool.idle[i]).reuse_count < u64::MAX)
            ==> can_count(pool, now),
{
    lemma_usable_part(pool.config, pool.idle, now);
    let usable = usable_part(pool.config, pool.idle, now);
    if usable.len() > 0 {
        assert(usable.last() == pool.idle[usable.len() - 1]);
    }
}

} // verus!
