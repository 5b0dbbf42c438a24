//! Keeping idle sessions alive: pings with a random token, each to be answered by
//! a pong with the same token in time.

use vstd::prelude::*;
use vstd::string::*;

use crate::error::IoError;
use crate::session::frame::{Frame, FrameError, Received};
use crate::session::lifecycle::SessionEvent;
use crate::text::{decimal, decimal_text};
use crate::time::{Duration, MAX_NANOS};

verus! {

/// When sessions are pinged, and how long the answer may take.
#[derive(Debug, Clone, Copy)]
pub struct KeepaliveDriver {
    interval: Duration,
    timeout: Duration,
}

/// Why a ping failed.
#[derive(Debug)]
pub enum KeepaliveError {
    Timeout,
    TokenMismatch { expected: u32, received: u32 },
    UnexpectedResponse,
    Io(IoError),
}

/// The text that describes an error.
pub open spec fn keepalive_error_text(error: KeepaliveError) -> Seq<char> {
    match error {
        KeepaliveError::Timeout => "keepalive timeout"@,
        KeepaliveError::TokenMismatch { expected, received } => {
            "keepalive token mismatch: expected "@ + decimal_text(expected as nat) + ", got "@
                + decimal_text(received as nat)
        },
        KeepaliveError::UnexpectedResponse => "unexpected response frame type"@,
        KeepaliveError::Io(error) => "I/O error: "@ + error.message@,
    }
}

impl KeepaliveError {
    /// Describes the error.
    pub fn to_string(&self) -> (r: String)
        ensures
            r@ == keepalive_error_text(*self),
    {
        match self {
            KeepaliveError::Timeout => "keepalive timeout".to_owned(),
            KeepaliveError::TokenMismatch { expected, received } => {
                let mut text = "keepalive token mismatch: expected ".to_owned();
                text.append(decimal(*expected as u64).as_str());
                text.append(", got ");
                text.append(decimal(*received as u64).as_str());
                text
            },
            KeepaliveError::UnexpectedResponse => "unexpected response frame type".to_owned(),
            KeepaliveError::Io(error) => {
                let mut text = "I/O error: ".to_owned();
                text.append(error.message.as_str());
                text
            },
        }
    }

    /// The failed input or output behind the error, if that is what it was.
    pub fn source(&self) -> (r: Option<&IoError>)
        ensures
            match *self {
                KeepaliveError::Io(error) => r == Some(&error),
                _ => r is None,
            },
    {
        match self {
            KeepaliveError::Io(error) => Some(error),
            _ => None,
        }
    }
}

impl From<IoError> for KeepaliveError {
    fn from(error: IoError) -> (r: Self) {
        KeepaliveError::Io(error)
    }
}

impl vstd::std_specs::convert::FromSpecImpl<IoError> for KeepaliveError {
    open spec fn obeys_from_spec() -> bool {
        true
    }

    open spec fn from_spec(error: IoError) -> Self {
        KeepaliveError::Io(error)
    }
}

/// What an error of the frame layer means for a ping.
pub open spec fn ping_fault(error: FrameError) -> KeepaliveError {
    match error {
        FrameError::Io(error) => KeepaliveError::Io(error),
        _ => KeepaliveError::UnexpectedResponse,
    }
}

/// Turns an error of the frame layer into one of the ping.
pub fn map_frame_error(error: FrameError) -> (r: KeepaliveError)
    ensures
        r == ping_fault(error),
{
    match error {
        FrameError::Io(error) => KeepaliveError::Io(error),
        _ => KeepaliveError::UnexpectedResponse,
    }
}

/// `rand::random`, for a number of 32 bits. Any number can come out, so nothing is
/// said of it.
#[verifier::external_body]
fn random_token() -> (r: u32) {
    rand::random()
}

/// A ping under way.
#[derive(Debug, Clone, Copy, PartialEq, Eq, Structural)]
pub struct PendingPing {
    pub token: u32,
    /// Time that the answer may take
    pub timeout: Duration,
}

/// How a ping ended, and the event to tell of it.
pub open spec fn ping_concluded(token: u32, reply: Received) -> (
    Result<(), KeepaliveError>,
    Option<SessionEvent>,
) {
    match reply {
        Received::TimedOut => (Err(KeepaliveError::Timeout), Some(SessionEvent::PingTimeout)),
        Received::Failed(error) => (Err(ping_fault(error)), None),
        Received::Frame(Frame::Pong { token: received }) => if received == token {
            (Ok(()), Some(SessionEvent::PingAcked))
        } else {
            (Err(KeepaliveError::TokenMismatch { expected: token, received }), None)
        },
        Received::Frame(_) => (Err(KeepaliveError::UnexpectedResponse), None),
    }
}

/// What a session's keepalive does next.
#[derive(Debug, Clone, Copy, PartialEq, Eq, Structural)]
pub enum KeepaliveStep {
    /// Wait, then ping
    Sleep(Duration),
    /// Give the session up
    Evict,
}

impl KeepaliveDriver {
    /// The time between pings.
    pub closed spec fn spec_interval(&self) -> Duration {
        self.interval
    }

    /// The time that an answer may take.
    pub closed spec fn spec_timeout(&self) -> Duration {
        self.timeout
    }

    /// Pings every `interval`, with twice that time for the answer. Where twice
    /// the time is more than can be told, the answer has as long as `interval`.
    pub fn new(interval: Duration) -> (r: Self)
        ensures
            r.spec_interval() == interval,
            if interval@ * 2 <= MAX_NANOS {
                r.spec_timeout()@ == interval@ * 2
            } else {
                r.spec_timeout() == interval
            },
    {
        let timeout = match interval.checked_mul(2) {
            Some(timeout) => timeout,
            None => interval,
        };
        KeepaliveDriver { interval, timeout }
    }

    pub fn interval(&self) -> (r: Duration)
        ensures
            r == self.spec_interval(),
    {
        self.interval
    }

    pub fn timeout(&self) -> (r: Duration)
        ensures
            r == self.spec_timeout(),
    {
        self.timeout
    }

    /// Starts a ping with a random token.
    pub fn ping(&self) -> (r: PendingPing)
        ensures
            r.timeout == self.spec_timeout(),
    {
        self.ping_with(random_token())
    }

    /// Starts a ping with the given token.
    pub fn ping_with(&self, token: u32) -> (r: PendingPing)
        ensures
            r == (PendingPing { token, timeout: self.spec_timeout() }),
    {
        PendingPing { token, timeout: self.timeout }
    }

    /// What the keepalive of a session starts with.
    pub fn first_step(&self) -> (r: KeepaliveStep)
        ensures
            r == KeepaliveStep::Sleep(self.spec_interval()),
    {
        KeepaliveStep::Sleep(self.interval)
    }

    /// What the keepalive of a session goes on with after a ping.
    pub fn next_step(&self, pinged: &Result<(), KeepaliveError>) -> (r: KeepaliveStep)
        ensures
            r == (if *pinged is Ok {
                KeepaliveStep::Sleep(self.spec_interval())
            } else {
                KeepaliveStep::Evict
            }),
    {
        match pinged {
            Ok(_) => KeepaliveStep::Sleep(self.interval),
            Err(_) => KeepaliveStep::Evict,
        }
    }
}

impl PendingPing {
    /// The frame to send.
    pub fn request(&self) -> (r: Frame)
        ensures
            r == (Frame::Ping { token: self.token }),
    {
        Frame::Ping { token: self.token }
    }

    /// Goes on from sending the frame: the answer is awaited, or the ping failed.
    pub fn sent(&self, outcome: Result<(), FrameError>) -> (r: Result<
        SessionEvent,
        KeepaliveError,
    >)
        ensures
            r == (match outcome {
                Ok(_) => Ok::<SessionEvent, KeepaliveError>(SessionEvent::PingSent),
                Err(error) => Err::<SessionEvent, KeepaliveError>(ping_fault(error)),
            }),
    {
        match outcome {
            Ok(_) => Ok(SessionEvent::PingSent),
            Err(error) => Err(map_frame_error(error)),
        }
    }

    /// Goes on from the wait for the answer.
    pub fn conclude(&self, reply: Received) -> (r: (
        Result<(), KeepaliveError>,
        Option<SessionEvent>,
    ))
        ensures
            r == ping_concluded(self.token, reply),
    {
        match reply {
            Received::TimedOut => (Err(KeepaliveError::Timeout), Some(SessionEvent::PingTimeout)),
            Received::Failed(error) => (Err(map_frame_error(error)), None),
            Received::Frame(Frame::Pong { token: received }) => {
                if received == self.token {
                    (Ok(()), Some(SessionEvent::PingAcked))
                } else {
                    (Err(KeepaliveError::TokenMismatch { expected: self.token, received }), None)
                }
            },
            Received::Frame(_) => (Err(KeepaliveError::UnexpectedResponse), None),
        }
    }
}

/// A ping succeeds on a pong with its own token and on nothing else.
pub proof fn law_only_the_right_pong_acknowledges(token: u32, reply: Received)
    ensures
        ping_concluded(token, reply).0 is Ok <==> reply == Received::Frame(Frame::Pong { token }),
        ping_concluded(token, reply).0 is Ok <==> ping_concluded(token, reply).1 == Some(
            SessionEvent::PingAcked,
        ),
{
}

/// A ping ends as its answer says. The pong with its token acknowledges it, a pong with
/// another one is a mismatch of the two, any other frame is unexpected, and no answer in
/// time is a timeout. Failed input or output is passed on, and bytes that are no frame
/// count as an unexpected answer. Only an acknowledgement and a timeout are events.
pub proof fn law_pings_end_as_their_answer_says(token: u32, reply: Received)
    ensures
        ({
            let (result, event) = ping_concluded(token, reply);
            match reply {
                Received::Frame(Frame::Pong { token: received }) => if received == token {
                    result == Ok::<(), KeepaliveError>(()) && event == Some(SessionEvent::PingAcked)
                } else {
                    &&& result == Err::<(), KeepaliveError>(
                        (KeepaliveError::TokenMismatch { expected: token, received }),
                    )
                    &&& event is None
                },
                Received::Frame(_) => result == Err::<(), KeepaliveError>(
                    KeepaliveError::UnexpectedResponse,
                ) && event is None,
                Received::Failed(FrameError::Io(error)) => result == Err::<(), KeepaliveError>(
                    KeepaliveError::Io(error),
                ) && event is None,
                Received::Failed(_) => result == Err::<(), KeepaliveError>(
                    KeepaliveError::UnexpectedResponse,
                ) && event is None,
                Received::TimedOut => result == Err::<(), KeepaliveError>(KeepaliveError::Timeout)
                    && event == Some(SessionEvent::PingTimeout),
            }
        }),
{
}

/// Failed input or output is passed on as it is, and anything else that the frame layer
/// complains of is an unexpected answer.
pub proof fn law_frame_faults_are_unexpected_answers(error: FrameError)
    ensures
        error matches FrameError::Io(cause) ==> ping_fault(error) == KeepaliveError::Io(cause),
        error !is Io ==> ping_fault(error) is UnexpectedResponse,
{
}

/// Failed pings are described in words, a mismatch with both tokens.
pub proof fn law_failed_pings_are_described(expected: u32, received: u32, error: IoError)
    ensures
        keepalive_error_text(KeepaliveError::Timeout) == "keepalive timeout"@,
        keepalive_error_text((KeepaliveError::TokenMismatch { expected, received }))
            == "keepalive token mismatch: expected "@ + decimal_text(expected as nat) + ", got "@
            + decimal_text(received as nat),
        keepalive_error_text(KeepaliveError::UnexpectedResponse)
            == "unexpected response frame type"@,
        keepalive_error_text(KeepaliveError::Io(error)) == "I/O error: "@ + error.message@,
{
}

/// A driver pings at the interval that it was made with and waits twice as long for the
/// answer, or as long where twice as long cannot be told. A ping carries its token and
/// that time, and asks with that token.
pub proof fn law_pings_wait_two_intervals(
    interval: Duration,
    made: KeepaliveDriver,
    driver: &KeepaliveDriver,
    span: Duration,
    token: u32,
    ping: PendingPing,
    pending: &PendingPing,
    request: Frame,
)
    ensures
        call_ensures(KeepaliveDriver::new, (interval,), made) ==> {
            &&& made.spec_interval() == interval
            &&& interval@ * 2 <= 18_446_744_073_709_551_615_999_999_999 ==> made.spec_timeout()@
                == interval@ * 2
            &&& interval@ * 2 > 18_446_744_073_709_551_615_999_999_999 ==> made.spec_timeout()
                == interval
        },
        call_ensures(KeepaliveDriver::interval, (driver,), span) ==> span == driver.spec_interval(),
        call_ensures(KeepaliveDriver::timeout, (driver,), span) ==> span == driver.spec_timeout(),
        call_ensures(KeepaliveDriver::ping, (driver,), ping) ==> ping.timeout
            == driver.spec_timeout(),
        call_ensures(KeepaliveDriver::ping_with, (driver, token), ping) ==> {
            &&& ping.token == token
            &&& ping.timeout == driver.spec_timeout()
        },
        call_ensures(PendingPing::request, (pending,), request) ==> request == (Frame::Ping {
            token: pending.token,
        }),
{
}

/// A session is pinged after each interval until a ping fails, and is given up then. A
/// ping that was sent is an event, one that could not be sent has failed, and one that
/// was answered ends as the law on answers says.
pub proof fn law_sessions_are_pinged_until_one_fails(
    driver: &KeepaliveDriver,
    pinged: &Result<(), KeepaliveError>,
    step: KeepaliveStep,
    pending: &PendingPing,
    outcome: Result<(), FrameError>,
    sent: Result<SessionEvent, KeepaliveError>,
    reply: Received,
    concluded: (Result<(), KeepaliveError>, Option<SessionEvent>),
    error: FrameError,
    fault: KeepaliveError,
)
    ensures
        call_ensures(KeepaliveDriver::first_step, (driver,), step) ==> step
            == KeepaliveStep::Sleep(driver.spec_interval()),
        call_ensures(KeepaliveDriver::next_step, (driver, pinged), step) ==> {
            &&& *pinged is Ok ==> step == KeepaliveStep::Sleep(driver.spec_interval())
            &&& *pinged is Err <==> step is Evict
        },
        call_ensures(PendingPing::sent, (pending, outcome), sent) ==> match outcome {
            Ok(_) => sent == Ok::<SessionEvent, KeepaliveError>(SessionEvent::PingSent),
            Err(error) => sent == Err::<SessionEvent, KeepaliveError>(ping_fault(error)),
        },
        call_ensures(PendingPing::conclude, (pending, reply), concluded) ==> concluded
            == ping_concluded(pending.token, reply),
        call_ensures(map_frame_error, (error,), fault) ==> fault == ping_fault(error),
{
}

/// Failed pings are told in words, and with the failed input or output behind them.
pub proof fn law_failed_pings_are_told_as_described(
    error: &KeepaliveError,
    text: String,
    source: Option<&IoError>,
)
    ensures
        call_ensures(KeepaliveError::to_string, (error,), text) ==> text@ == keepalive_error_text(
            *error,
        ),
        call_ensures(KeepaliveError::source, (error,), source) ==> match *error {
            KeepaliveError::Io(cause) => source == Some(&cause),
            _ => source is None,
        },
{
}

} // verus!
