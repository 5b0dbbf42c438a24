//! Carrying out one request of a session: where it goes, and the relaying of bytes
//! between the session and the target. The relay is a state machine. The caller
//! reports what it read, does what the relay asks for, and asks whether the
//! request is over.

use vstd::prelude::*;
use vstd::string::*;
use vstd::utf8::{encode_utf8, valid_utf8};

use crate::addr::{Addr, IpAddr, SocketAddr};
use crate::error::IoError;
use crate::session::frame::{fits, frame_error_text, frame_text, Frame, FrameError};
use crate::text::{decimal, decimal_text};
use crate::time::Duration;

verus! {

/// The command that asks for a TCP connection.
pub const CMD_CONNECT: u8 = 0x01;

/// The address type of an IPv4 address.
pub const ATYP_IPV4: u8 = 0x01;

/// The address type of a domain name.
pub const ATYP_DOMAIN: u8 = 0x03;

/// The address type of an IPv6 address.
pub const ATYP_IPV6: u8 = 0x04;

/// The reason of an end-of-request frame when all went well.
pub const END_REQUEST_OK: u8 = 0x00;

/// The most bytes that are read from the target at a time.
pub const RELAY_BUFFER_LEN: usize = 16384;

/// Why a request cannot be carried out.
#[derive(Debug, Clone, Copy, PartialEq, Eq, Structural)]
pub enum OpenRequestError {
    UnsupportedCommand(u8),
    InvalidIpv4Length,
    InvalidIpv6Length,
    InvalidDomainEncoding,
    UnsupportedAddressType(u8),
}

/// The text that describes an error.
pub open spec fn open_request_error_text(error: OpenRequestError) -> Seq<char> {
    match error {
        OpenRequestError::UnsupportedCommand(cmd) => "unsupported reusable request command: "@
            + decimal_text(cmd as nat),
        OpenRequestError::InvalidIpv4Length => "invalid ipv4 address length"@,
        OpenRequestError::InvalidIpv6Length => "invalid ipv6 address length"@,
        OpenRequestError::InvalidDomainEncoding => "invalid domain address encoding"@,
        OpenRequestError::UnsupportedAddressType(atyp) => "unsupported address type: "@
            + decimal_text(atyp as nat),
    }
}

impl OpenRequestError {
    /// Describes the error.
    pub fn to_string(&self) -> (r: String)
        ensures
            r@ == open_request_error_text(*self),
    {
        match self {
            OpenRequestError::UnsupportedCommand(cmd) => {
                let mut text = "unsupported reusable request command: ".to_owned();
                text.append(decimal(*cmd as u64).as_str());
                text
            },
            OpenRequestError::InvalidIpv4Length => "invalid ipv4 address length".to_owned(),
            OpenRequestError::InvalidIpv6Length => "invalid ipv6 address length".to_owned(),
            OpenRequestError::InvalidDomainEncoding => "invalid domain address encoding".to_owned(),
            OpenRequestError::UnsupportedAddressType(atyp) => {
                let mut text = "unsupported address type: ".to_owned();
                text.append(decimal(*atyp as u64).as_str());
                text
            },
        }
    }
}

/// The error type of `String::from_utf8`.
#[verifier::external_type_specification]
#[verifier::external_body]
pub struct ExFromUtf8Error(std::string::FromUtf8Error);

/// `String::from_utf8` succeeds on valid UTF-8 and on nothing else, and the string
/// that it makes has the bytes that it was given.
pub assume_specification[ String::from_utf8 ](vec: Vec<u8>) -> (r: Result<
    String,
    std::string::FromUtf8Error,
>)
    ensures
        match r {
            Ok(text) => valid_utf8(vec@) && encode_utf8(text@) == vec@,
            Err(_) => !valid_utf8(vec@),
        },
;

/// Whether `target` is what an address type, address bytes and a port mean.
pub open spec fn addresses(atyp: u8, addr: Seq<u8>, port: u16, target: Addr) -> bool {
    match target {
        Addr::SocketAddr(socket) => {
            &&& socket.port == port
            &&& socket.flowinfo == 0
            &&& socket.scope_id == 0
            &&& match socket.ip {
                IpAddr::V4(bytes) => atyp == ATYP_IPV4 && bytes@ == addr,
                IpAddr::V6(bytes) => atyp == ATYP_IPV6 && bytes@ == addr,
            }
        },
        Addr::Domain(name, domain_port) => {
            &&& atyp == ATYP_DOMAIN
            &&& encode_utf8(name@) == addr
            &&& domain_port == port
        },
    }
}

/// What is wrong with an address type and address bytes, if anything is.
pub open spec fn address_fault(atyp: u8, addr: Seq<u8>) -> Option<OpenRequestError> {
    if atyp == ATYP_IPV4 {
        if addr.len() == 4 {
            None
        } else {
            Some(OpenRequestError::InvalidIpv4Length)
        }
    } else if atyp == ATYP_IPV6 {
        if addr.len() == 16 {
            None
        } else {
            Some(OpenRequestError::InvalidIpv6Length)
        }
    } else if atyp == ATYP_DOMAIN {
        if valid_utf8(addr) {
            None
        } else {
            Some(OpenRequestError::InvalidDomainEncoding)
        }
    } else {
        Some(OpenRequestError::UnsupportedAddressType(atyp))
    }
}

/// What is wrong with an open request, if anything is.
pub open spec fn request_fault(cmd: u8, atyp: u8, addr: Seq<u8>) -> Option<OpenRequestError> {
    if cmd != CMD_CONNECT {
        Some(OpenRequestError::UnsupportedCommand(cmd))
    } else {
        address_fault(atyp, addr)
    }
}

/// Reads the address of an open request.
pub fn frame_addr_to_trojan_addr(atyp: u8, addr: Vec<u8>, port: u16) -> (r: Result<
    Addr,
    OpenRequestError,
>)
    ensures
        match r {
            Ok(target) => address_fault(atyp, addr@) is None && addresses(
                atyp,
                addr@,
                port,
                target,
            ),
            Err(error) => address_fault(atyp, addr@) == Some(error),
        },
{
    match atyp {
        ATYP_IPV4 => {
            if addr.len() != 4 {
                return Err(OpenRequestError::InvalidIpv4Length);
            }
            let bytes: [u8; 4] = [addr[0], addr[1], addr[2], addr[3]];
            assert(bytes@ =~= addr@);
            Ok(
                Addr::SocketAddr(
                    SocketAddr { ip: IpAddr::V4(bytes), port, flowinfo: 0, scope_id: 0 },
                ),
            )
        },
        ATYP_IPV6 => {
            if addr.len() != 16 {
                return Err(OpenRequestError::InvalidIpv6Length);
            }
            let bytes: [u8; 16] = [
                addr[0],
                addr[1],
                addr[2],
                addr[3],
                addr[4],
                addr[5],
                addr[6],
                addr[7],
                addr[8],
                addr[9],
                addr[10],
                addr[11],
                addr[12],
                addr[13],
                addr[14],
                addr[15],
            ];
            assert(bytes@ =~= addr@);
            Ok(
                Addr::SocketAddr(
                    SocketAddr { ip: IpAddr::V6(bytes), port, flowinfo: 0, scope_id: 0 },
                ),
            )
        },
        ATYP_DOMAIN => match String::from_utf8(addr) {
            Ok(name) => Ok(Addr::Domain(name, port)),
            Err(_) => Err(OpenRequestError::InvalidDomainEncoding),
        },
        other => Err(OpenRequestError::UnsupportedAddressType(other)),
    }
}

/// Decides where an open request is to be relayed to.
pub fn relay_open_request(cmd: u8, atyp: u8, addr: Vec<u8>, port: u16) -> (r: Result<
    Addr,
    OpenRequestError,
>)
    ensures
        match r {
            Ok(target) => request_fault(cmd, atyp, addr@) is None && addresses(
                atyp,
                addr@,
                port,
                target,
            ),
            Err(error) => request_fault(cmd, atyp, addr@) == Some(error),
        },
{
    if cmd != CMD_CONNECT {
        return Err(OpenRequestError::UnsupportedCommand(cmd));
    }
    frame_addr_to_trojan_addr(atyp, addr, port)
}

/// Why the relaying of a request failed.
#[derive(Debug)]
pub enum RelayError {
    /// The target could not be connected to
    Connect(IoError),
    /// The session could not be read from or written to
    Frame(FrameError),
    /// Writing to the target failed
    TargetWrite(IoError),
    /// Reading from the target failed
    TargetRead(IoError),
    /// The client gave the request up, for the reason given
    ClientReset(u8),
    /// The client sent a frame that has no place in a request
    UnexpectedFrame(Frame),
    /// The server shut down and the request took too long to finish
    DrainTimeout,
}

/// The text that describes an error.
pub open spec fn relay_error_text(error: RelayError) -> Seq<char> {
    match error {
        RelayError::Connect(_) => "failed to connect reusable request target"@,
        RelayError::Frame(error) => frame_error_text(error@),
        RelayError::TargetWrite(_) => "failed to write reusable data to target"@,
        RelayError::TargetRead(_) => "failed to read target response"@,
        RelayError::ClientReset(reason) => "client reset reusable request: "@ + decimal_text(
            reason as nat,
        ),
        RelayError::UnexpectedFrame(frame) => "unexpected reusable request frame: "@ + frame_text(
            frame@,
        ),
        RelayError::DrainTimeout => "timed out draining reusable request during shutdown"@,
    }
}

/// The failed input or output behind an error, if that is what it was.
pub open spec fn relay_error_source(error: RelayError) -> Option<IoError> {
    match error {
        RelayError::Connect(error) => Some(error),
        RelayError::Frame(FrameError::Io(error)) => Some(error),
        RelayError::TargetWrite(error) => Some(error),
        RelayError::TargetRead(error) => Some(error),
        _ => None,
    }
}

impl RelayError {
    /// Describes the error.
    pub fn to_string(&self) -> (r: String)
        ensures
            r@ == relay_error_text(*self),
    {
        match self {
            RelayError::Connect(_) => "failed to connect reusable request target".to_owned(),
            RelayError::Frame(error) => error.to_string(),
            RelayError::TargetWrite(_) => "failed to write reusable data to target".to_owned(),
            RelayError::TargetRead(_) => "failed to read target response".to_owned(),
            RelayError::ClientReset(reason) => {
                let mut text = "client reset reusable request: ".to_owned();
                text.append(decimal(*reason as u64).as_str());
                text
            },
            RelayError::UnexpectedFrame(frame) => {
                let mut text = "unexpected reusable request frame: ".to_owned();
                text.append(frame.to_text().as_str());
                text
            },
            RelayError::DrainTimeout => {
                "timed out draining reusable request during shutdown".to_owned()
            },
        }
    }

    /// The failed input or output behind the error, if that is what it was.
    pub fn source(&self) -> (r: Option<&IoError>)
        ensures
            match r {
                Some(error) => relay_error_source(*self) == Some(*error),
                None => relay_error_source(*self) is None,
            },
    {
        match self {
            RelayError::Connect(error) => Some(error),
            RelayError::Frame(error) => error.source(),
            RelayError::TargetWrite(error) => Some(error),
            RelayError::TargetRead(error) => Some(error),
            _ => None,
        }
    }
}

/// Goes on from connecting to the target: with the connection, or not at all.
pub fn target_connected<T>(outcome: Result<T, IoError>) -> (r: Result<T, RelayError>)
    ensures
        r == (match outcome {
            Ok(connection) => Ok::<T, RelayError>(connection),
            Err(error) => Err::<T, RelayError>(RelayError::Connect(error)),
        }),
{
    match outcome {
        Ok(connection) => Ok(connection),
        Err(error) => Err(RelayError::Connect(error)),
    }
}

/// What the caller is to do next.
pub enum RelayAction {
    /// Write bytes to the target
    WriteTarget(Vec<u8>),
    /// Shut the way to the target down; failure is no matter
    EndTarget,
    /// Send a frame to the client
    Send(Frame),
    /// Start the time to finish anew
    RestartDrain(Duration),
    /// Nothing
    Wait,
    /// Give the request up
    Fail(RelayError),
}

/// The state of a request that is being relayed.
#[derive(Debug)]
pub struct Relay {
    /// Bytes from the client to the target so far
    pub tx: u64,
    /// Bytes from the target to the client so far
    pub rx: u64,
    /// Whether the client has said all it has to say
    pub client_ended: bool,
    /// Whether the target has said all it has to say
    pub target_ended: bool,
    /// Whether the server is shutting down
    pub draining: bool,
    /// Time to finish once the server shuts down
    pub drain_timeout: Duration,
}

/// What a frame from the client makes of a request.
pub open spec fn client_frame_relayed(relay: Relay, frame: Result<Frame, FrameError>) -> (
    Relay,
    RelayAction,
) {
    match frame {
        Ok(Frame::Data(data)) => (
            Relay { tx: (relay.tx + data@.len()) as u64, ..relay },
            RelayAction::WriteTarget(data),
        ),
        Ok(Frame::EndRequest { reason }) => (
            Relay { client_ended: true, ..relay },
            RelayAction::EndTarget,
        ),
        Ok(Frame::Reset { reason }) => (relay, RelayAction::Fail(RelayError::ClientReset(reason))),
        Ok(Frame::Ping { token }) => (relay, RelayAction::Send(Frame::Pong { token })),
        Ok(frame) => (relay, RelayAction::Fail(RelayError::UnexpectedFrame(frame))),
        Err(error) => (relay, RelayAction::Fail(RelayError::Frame(error))),
    }
}

/// What a read from the target makes of a request. No bytes mean that the target
/// has ended.
pub open spec fn target_bytes_relayed(relay: Relay, read: Result<Vec<u8>, IoError>) -> (
    Relay,
    RelayAction,
) {
    match read {
        Ok(bytes) => if bytes@.len() == 0 {
            (
                Relay { target_ended: true, ..relay },
                RelayAction::Send(Frame::EndRequest { reason: END_REQUEST_OK }),
            )
        } else {
            (
                Relay { rx: (relay.rx + bytes@.len()) as u64, ..relay },
                RelayAction::Send(Frame::Data(bytes)),
            )
        },
        Err(error) => (relay, RelayAction::Fail(RelayError::TargetRead(error))),
    }
}

/// What a change of the shutdown flag makes of a request.
pub open spec fn shutdown_relayed(relay: Relay, shutdown: bool) -> (Relay, RelayAction) {
    if shutdown {
        (Relay { draining: true, ..relay }, RelayAction::RestartDrain(relay.drain_timeout))
    } else {
        (relay, RelayAction::Wait)
    }
}

impl Relay {
    /// Starts a request. The shutdown flag may be set already.
    pub fn new(shutdown: bool, drain_timeout: Duration) -> (r: Self)
        ensures
            r == (Relay {
                tx: 0,
                rx: 0,
                client_ended: false,
                target_ended: false,
                draining: shutdown,
                drain_timeout,
            }),
    {
        Relay {
            tx: 0,
            rx: 0,
            client_ended: false,
            target_ended: false,
            draining: shutdown,
            drain_timeout,
        }
    }

    /// Whether frames from the client are still awaited.
    pub fn awaits_client(&self) -> (r: bool)
        ensures
            r == !self.client_ended,
    {
        !self.client_ended
    }

    /// Whether bytes from the target are still awaited.
    pub fn awaits_target(&self) -> (r: bool)
        ensures
            r == !self.target_ended,
    {
        !self.target_ended
    }

    /// Whether the shutdown flag is still watched, as opposed to the time to finish.
    pub fn awaits_shutdown(&self) -> (r: bool)
        ensures
            r == !self.draining,
    {
        !self.draining
    }

    /// Goes on from a frame that the client sent, or that could not be read.
    pub fn client_frame(&mut self, frame: Result<Frame, FrameError>) -> (r: RelayAction)
        requires
            frame matches Ok(Frame::Data(data)) ==> old(self).tx + data@.len() <= u64::MAX,
        ensures
            (*final(self), r) == client_frame_relayed(*old(self), frame),
    {
        match frame {
            Ok(Frame::Data(data)) => {
                self.tx = self.tx + data.len() as u64;
                RelayAction::WriteTarget(data)
            },
            Ok(Frame::EndRequest { reason }) => {
                self.client_ended = true;
                RelayAction::EndTarget
            },
            Ok(Frame::Reset { reason }) => RelayAction::Fail(RelayError::ClientReset(reason)),
            Ok(Frame::Ping { token }) => RelayAction::Send(Frame::Pong { token }),
            Ok(frame) => RelayAction::Fail(RelayError::UnexpectedFrame(frame)),
            Err(error) => RelayAction::Fail(RelayError::Frame(error)),
        }
    }

    /// Goes on from bytes that the target sent, or that could not be read.
    pub fn target_bytes(&mut self, read: Result<Vec<u8>, IoError>) -> (r: RelayAction)
        requires
            read matches Ok(bytes) ==> old(self).rx + bytes@.len() <= u64::MAX,
        ensures
            (*final(self), r) == target_bytes_relayed(*old(self), read),
    {
        match read {
            Ok(bytes) => {
                if bytes.len() == 0 {
                    self.target_ended = true;
                    RelayAction::Send(Frame::EndRequest { reason: END_REQUEST_OK })
                } else {
                    self.rx = self.rx + bytes.len() as u64;
                    RelayAction::Send(Frame::Data(bytes))
                }
            },
            Err(error) => RelayAction::Fail(RelayError::TargetRead(error)),
        }
    }

    /// Goes on from a change of the shutdown flag.
    pub fn shutdown_changed(&mut self, shutdown: bool) -> (r: RelayAction)
        ensures
            (*final(self), r) == shutdown_relayed(*old(self), shutdown),
    {
        if shutdown {
            self.draining = true;
            RelayAction::RestartDrain(self.drain_timeout)
        } else {
            RelayAction::Wait
        }
    }

    /// Goes on from the end of the time to finish.
    pub fn drain_elapsed(&self) -> (r: RelayAction)
        ensures
            r == RelayAction::Fail(RelayError::DrainTimeout),
    {
        RelayAction::Fail(RelayError::DrainTimeout)
    }

    /// Goes on from writing bytes to the target: the request does, or has failed.
    pub fn wrote_target(&self, outcome: Result<(), IoError>) -> (r: Result<(), RelayError>)
        ensures
            r == (match outcome {
                Ok(_) => Ok::<(), RelayError>(()),
                Err(error) => Err::<(), RelayError>(RelayError::TargetWrite(error)),
            }),
    {
        match outcome {
            Ok(_) => Ok(()),
            Err(error) => Err(RelayError::TargetWrite(error)),
        }
    }

    /// Goes on from sending a frame to the client: the request does, or has failed.
    pub fn sent_frame(&self, outcome: Result<(), FrameError>) -> (r: Result<(), RelayError>)
        ensures
            r == (match outcome {
                Ok(_) => Ok::<(), RelayError>(()),
                Err(error) => Err::<(), RelayError>(RelayError::Frame(error)),
            }),
    {
        match outcome {
            Ok(_) => Ok(()),
            Err(error) => Err(RelayError::Frame(error)),
        }
    }

    /// The bytes relayed to and from the target, once the request is over.
    pub fn finished(&self) -> (r: Option<(u64, u64)>)
        ensures
            r == (if self.client_ended && self.target_ended {
                Some((self.tx, self.rx))
            } else {
                None
            }),
    {
        if self.client_ended && self.target_ended {
            Some((self.tx, self.rx))
        } else {
            None
        }
    }
}

/// What can happen to a request.
pub enum RelayEvent {
    ClientFrame(Result<Frame, FrameError>),
    TargetBytes(Result<Vec<u8>, IoError>),
    ShutdownChanged(bool),
    DrainElapsed,
}

/// Whether the relay may be told of `event`: it awaits it, and no counter runs
/// over.
pub open spec fn awaited(relay: Relay, event: RelayEvent) -> bool {
    match event {
        RelayEvent::ClientFrame(frame) => {
            &&& !relay.client_ended
            &&& frame matches Ok(Frame::Data(data)) ==> relay.tx + data@.len() <= u64::MAX
        },
        RelayEvent::TargetBytes(read) => {
            &&& !relay.target_ended
            &&& read matches Ok(bytes) ==> bytes@.len() <= RELAY_BUFFER_LEN && relay.rx
                + bytes@.len() <= u64::MAX
        },
        RelayEvent::ShutdownChanged(_) => !relay.draining,
        RelayEvent::DrainElapsed => relay.draining,
    }
}

/// What an event makes of a request.
pub open spec fn relay_step(relay: Relay, event: RelayEvent) -> (Relay, RelayAction) {
    match event {
        RelayEvent::ClientFrame(frame) => client_frame_relayed(relay, frame),
        RelayEvent::TargetBytes(read) => target_bytes_relayed(relay, read),
        RelayEvent::ShutdownChanged(shutdown) => shutdown_relayed(relay, shutdown),
        RelayEvent::DrainElapsed => (relay, RelayAction::Fail(RelayError::DrainTimeout)),
    }
}

/// The bytes that an action moves from the client to the target.
pub open spec fn bytes_to_target(action: RelayAction) -> Seq<u8> {
    match action {
        RelayAction::WriteTarget(data) => data@,
        _ => Seq::<u8>::empty(),
    }
}

/// The bytes that an action moves from the target to the client.
pub open spec fn bytes_to_client(action: RelayAction) -> Seq<u8> {
    match action {
        RelayAction::Send(Frame::Data(data)) => data@,
        _ => Seq::<u8>::empty(),
    }
}

/// The counters tell what was relayed: with every step they grow by the number of
/// bytes that the step moves.
pub proof fn law_counters_tell_what_was_relayed(relay: Relay, event: RelayEvent)
    requires
        awaited(relay, event),
    ensures
        relay_step(relay, event).0.tx == relay.tx + bytes_to_target(
            relay_step(relay, event).1,
        ).len(),
        relay_step(relay, event).0.rx == relay.rx + bytes_to_client(
            relay_step(relay, event).1,
        ).len(),
{
}

/// Bytes go through unchanged: what the client sends as data is what is written to
/// the target, and what the target sends is what the client is sent as data.
pub proof fn law_bytes_go_through_unchanged(relay: Relay, data: Vec<u8>)
    requires
        data@.len() > 0,
    ensures
        bytes_to_target(relay_step(relay, RelayEvent::ClientFrame(Ok(Frame::Data(data)))).1)
            == data@,
        bytes_to_client(relay_step(relay, RelayEvent::TargetBytes(Ok(data))).1) == data@,
{
}

/// Every frame that a relay sends can be sent.
pub proof fn law_relayed_frames_fit(relay: Relay, event: RelayEvent)
    requires
        awaited(relay, event),
    ensures
        relay_step(relay, event).1 matches RelayAction::Send(frame) ==> fits(frame@),
{
}

/// What has ended stays ended, and a shutdown is not taken back.
pub proof fn law_ends_are_kept(relay: Relay, event: RelayEvent)
    requires
        awaited(relay, event),
    ensures
        relay.client_ended ==> relay_step(relay, event).0.client_ended,
        relay.target_ended ==> relay_step(relay, event).0.target_ended,
        relay.draining ==> relay_step(relay, event).0.draining,
{
}

/// Whether a request can be told of `events` one after the other without failing.
pub open spec fn runs(relay: Relay, events: Seq<RelayEvent>) -> bool
    decreases events.len(),
{
    events.len() > 0 ==> {
        let (next, action) = relay_step(relay, events[0]);
        &&& awaited(relay, events[0])
        &&& !(action is Fail)
        &&& runs(next, events.drop_first())
    }
}

/// A request after it was told of `events`.
pub open spec fn relay_after(relay: Relay, events: Seq<RelayEvent>) -> Relay
    decreases events.len(),
{
    if events.len() == 0 {
        relay
    } else {
        relay_after(relay_step(relay, events[0]).0, events.drop_first())
    }
}

/// All that a request has written to the target after it was told of `events`.
pub open spec fn written_to_target(relay: Relay, events: Seq<RelayEvent>) -> Seq<u8>
    decreases events.len(),
{
    if events.len() == 0 {
        Seq::<u8>::empty()
    } else {
        let (next, action) = relay_step(relay, events[0]);
        bytes_to_target(action) + written_to_target(next, events.drop_first())
    }
}

/// All that a request has sent to the client as data after it was told of `events`.
pub open spec fn sent_to_client(relay: Relay, events: Seq<RelayEvent>) -> Seq<u8>
    decreases events.len(),
{
    if events.len() == 0 {
        Seq::<u8>::empty()
    } else {
        let (next, action) = relay_step(relay, events[0]);
        bytes_to_client(action) + sent_to_client(next, events.drop_first())
    }
}

/// The bytes that the client sends as data in the course of `events`.
pub open spec fn client_data(events: Seq<RelayEvent>) -> Seq<u8>
    decreases events.len(),
{
    if events.len() == 0 {
        Seq::<u8>::empty()
    } else {
        let first = match events[0] {
            RelayEvent::ClientFrame(Ok(Frame::Data(data))) => data@,
            _ => Seq::<u8>::empty(),
        };
        first + client_data(events.drop_first())
    }
}

/// The bytes that the target sends in the course of `events`.
pub open spec fn target_data(events: Seq<RelayEvent>) -> Seq<u8>
    decreases events.len(),
{
    if events.len() == 0 {
        Seq::<u8>::empty()
    } else {
        let first = match events[0] {
            RelayEvent::TargetBytes(Ok(bytes)) => bytes@,
            _ => Seq::<u8>::empty(),
        };
        first + target_data(events.drop_first())
    }
}

/// A request that does not fail carries both streams whole and in order, and
/// counts them: the target is written what the client sent, the client is sent
/// what the target sent, and the counters are the lengths of the two.
pub proof fn law_requests_carry_both_streams(relay: Relay, events: Seq<RelayEvent>)
    requires
        runs(relay, events),
    ensures
        written_to_target(relay, events) == client_data(events),
        sent_to_client(relay, events) == target_data(events),
        relay_after(relay, events).tx == relay.tx + client_data(events).len(),
        relay_after(relay, events).rx == relay.rx + target_data(events).len(),
    decreases events.len(),
{
    if events.len() > 0 {
        let next = relay_step(relay, events[0]).0;
        law_requests_carry_both_streams(next, events.drop_first());
        law_counters_tell_what_was_relayed(relay, events[0]);
        match events[0] {
            RelayEvent::TargetBytes(Ok(bytes)) => {
                assert(bytes_to_client(relay_step(relay, events[0]).1) =~= bytes@);
            },
            _ => {},
        }
    }
}

/// The frames that an action sends to the client.
pub open spec fn frames_of(action: RelayAction) -> Seq<Frame> {
    match action {
        RelayAction::Send(frame) => seq![frame],
        _ => Seq::<Frame>::empty(),
    }
}

/// All frames that a request has sent to the client after it was told of `events`.
pub open spec fn frames_sent(relay: Relay, events: Seq<RelayEvent>) -> Seq<Frame>
    decreases events.len(),
{
    if events.len() == 0 {
        Seq::<Frame>::empty()
    } else {
        let (next, action) = relay_step(relay, events[0]);
        frames_of(action) + frames_sent(next, events.drop_first())
    }
}

/// The tokens of the pings that the client sends in the course of `events`.
pub open spec fn pings_in(events: Seq<RelayEvent>) -> Seq<u32>
    decreases events.len(),
{
    if events.len() == 0 {
        Seq::<u32>::empty()
    } else {
        let first = match events[0] {
            RelayEvent::ClientFrame(Ok(Frame::Ping { token })) => seq![token],
            _ => Seq::<u32>::empty(),
        };
        first + pings_in(events.drop_first())
    }
}

/// The tokens of the pongs among `frames`.
pub open spec fn pongs_in(frames: Seq<Frame>) -> Seq<u32>
    decreases frames.len(),
{
    if frames.len() == 0 {
        Seq::<u32>::empty()
    } else {
        let first = match frames[0] {
            Frame::Pong { token } => seq![token],
            _ => Seq::<u32>::empty(),
        };
        first + pongs_in(frames.drop_first())
    }
}

/// The number of end-of-request frames among `frames`.
pub open spec fn ends_in(frames: Seq<Frame>) -> nat
    decreases frames.len(),
{
    if frames.len() == 0 {
        0
    } else {
        ends_in(frames.drop_first()) + if frames[0] is EndRequest {
            1nat
        } else {
            0nat
        }
    }
}

/// A request that does not fail tells the client of its target's end, and answers
/// pings: one end-of-request frame that all went well is sent when the target has
/// ended and none otherwise, no data follows it, and each ping is answered by the
/// pong with its token, in order. Nothing but data, ends and pongs is sent.
pub proof fn law_requests_tell_the_end_and_answer_pings(relay: Relay, events: Seq<RelayEvent>)
    requires
        runs(relay, events),
    ensures
        ends_in(frames_sent(relay, events)) == (if !relay.target_ended && relay_after(
            relay,
            events,
        ).target_ended {
            1nat
        } else {
            0nat
        }),
        pongs_in(frames_sent(relay, events)) == pings_in(events),
        forall|i: int|
            0 <= i < frames_sent(relay, events).len() ==> match #[trigger] frames_sent(
                relay,
                events,
            )[i] {
                Frame::Data(_) => !relay.target_ended,
                Frame::EndRequest { reason } => reason == END_REQUEST_OK && !relay.target_ended,
                Frame::Pong { .. } => true,
                _ => false,
            },
        forall|i: int, j: int|
            0 <= i < j < frames_sent(relay, events).len() && (#[trigger] frames_sent(
                relay,
                events,
            )[i]) is EndRequest ==> !((#[trigger] frames_sent(relay, events)[j]) is Data),
        relay.target_ended ==> relay_after(relay, events).target_ended,
    decreases events.len(),
{
    if events.len() > 0 {
        let (next, action) = relay_step(relay, events[0]);
        let rest = frames_sent(next, events.drop_first());
        let sent = frames_sent(relay, events);
        law_requests_tell_the_end_and_answer_pings(next, events.drop_first());
        match action {
            RelayAction::Send(frame) => {
                assert(sent == seq![frame] + rest);
                assert(sent.drop_first() =~= rest);
                assert forall|i: int| 0 < i < sent.len() implies #[trigger] sent[i] == rest[i
                    - 1] by {}
            },
            _ => {
                assert(sent =~= rest);
                assert(pings_in(events) =~= pings_in(events.drop_first()));
            },
        }
    }
}

/// An end-of-request frame ends the client's side of a request in the ordinary way,
/// in every state and for every reason: the way to the target is shut down, nothing
/// else changes, and what the target still has to say is relayed as before.
pub proof fn law_clients_may_end_their_side(relay: Relay, reason: u8, bytes: Vec<u8>)
    requires
        relay.rx + bytes@.len() <= u64::MAX,
    ensures
        ({
            let end = RelayEvent::ClientFrame(Ok(Frame::EndRequest { reason }));
            let (ended, action) = relay_step(relay, end);
            let (answered, answer) = relay_step(ended, RelayEvent::TargetBytes(Ok(bytes)));
            &&& action is EndTarget
            &&& ended.client_ended
            &&& ended.target_ended == relay.target_ended
            &&& ended.draining == relay.draining
            &&& ended.drain_timeout == relay.drain_timeout
            &&& ended.tx == relay.tx
            &&& ended.rx == relay.rx
            &&& client_frame_relayed(relay, Ok(Frame::EndRequest { reason })) == (ended, action)
            &&& bytes@.len() > 0 ==> answer == RelayAction::Send(Frame::Data(bytes))
            &&& bytes@.len() > 0 ==> answered == Relay { rx: answered.rx, ..ended }
            &&& answered.rx == relay.rx + bytes@.len()
        }),
{
}

/// A request fails on a client's reset, a frame that has no place in a request, a
/// failed read and the end of the time to finish, and on nothing else. The failure
/// says which of these it was, and changes nothing.
pub proof fn law_requests_fail_only_for_a_reason(relay: Relay, event: RelayEvent)
    ensures
        ({
            let (next, action) = relay_step(relay, event);
            &&& action is Fail ==> next == relay
            &&& match event {
                RelayEvent::ClientFrame(Err(error)) => action == RelayAction::Fail(
                    RelayError::Frame(error),
                ),
                RelayEvent::ClientFrame(Ok(frame)) => {
                    &&& frame is Data || frame is EndRequest || frame is Ping <==> action !is Fail
                    &&& frame matches Frame::Reset { reason } ==> action == RelayAction::Fail(
                        RelayError::ClientReset(reason),
                    )
                    &&& frame is ClientHello || frame is OpenRequest || frame is Pong || frame
                        is Close ==> action == RelayAction::Fail(RelayError::UnexpectedFrame(frame))
                },
                RelayEvent::TargetBytes(Ok(_)) => action !is Fail,
                RelayEvent::TargetBytes(Err(error)) => action == RelayAction::Fail(
                    RelayError::TargetRead(error),
                ),
                RelayEvent::ShutdownChanged(_) => action !is Fail,
                RelayEvent::DrainElapsed => action == RelayAction::Fail(RelayError::DrainTimeout),
            }
        }),
{
}

/// Data goes to the other side as it came and is counted on its own side alone. A
/// ping is answered with its token and changes nothing. The target's end is told to
/// the client once, as a good one. A shutdown starts the time to finish.
pub proof fn law_events_are_relayed_one_by_one(relay: Relay, event: RelayEvent)
    requires
        match event {
            RelayEvent::ClientFrame(Ok(Frame::Data(data))) => relay.tx + data@.len() <= u64::MAX,
            RelayEvent::TargetBytes(Ok(bytes)) => relay.rx + bytes@.len() <= u64::MAX,
            RelayEvent::ShutdownChanged(_) => !relay.draining,
            _ => true,
        },
    ensures
        ({
            let (next, action) = relay_step(relay, event);
            match event {
                RelayEvent::ClientFrame(Ok(Frame::Data(data))) => {
                    &&& action == RelayAction::WriteTarget(data)
                    &&& next.tx == relay.tx + data@.len()
                    &&& next == Relay { tx: next.tx, ..relay }
                },
                RelayEvent::ClientFrame(Ok(Frame::Ping { token })) => {
                    &&& action == RelayAction::Send(Frame::Pong { token })
                    &&& next == relay
                },
                RelayEvent::TargetBytes(Ok(bytes)) => if bytes@.len() > 0 {
                    &&& action == RelayAction::Send(Frame::Data(bytes))
                    &&& next.rx == relay.rx + bytes@.len()
                    &&& next == Relay { rx: next.rx, ..relay }
                } else {
                    &&& action == RelayAction::Send(Frame::EndRequest { reason: 0 })
                    &&& next == Relay { target_ended: true, ..relay }
                },
                RelayEvent::ShutdownChanged(set) => {
                    &&& next == Relay { draining: set, ..relay }
                    &&& set ==> action == RelayAction::RestartDrain(relay.drain_timeout)
                    &&& !set ==> action is Wait
                },
                _ => true,
            }
        }),
{
}

/// An open request can be carried out exactly if it asks for a TCP connection to four
/// bytes of IPv4 address, sixteen of IPv6 address, or a domain name in UTF-8. What is
/// wrong with any other is told, the command first.
pub proof fn law_requests_are_refused_for_what_is_wrong(cmd: u8, atyp: u8, addr: Seq<u8>)
    ensures
        ({
            let fault = request_fault(cmd, atyp, addr);
            &&& fault is None <==> cmd == 1 && (atyp == 1 && addr.len() == 4 || atyp == 4
                && addr.len() == 16 || atyp == 3 && valid_utf8(addr))
            &&& cmd != 1 <==> fault == Some(OpenRequestError::UnsupportedCommand(cmd))
            &&& cmd == 1 && atyp == 1 && addr.len() != 4 <==> fault == Some(
                OpenRequestError::InvalidIpv4Length,
            )
            &&& cmd == 1 && atyp == 4 && addr.len() != 16 <==> fault == Some(
                OpenRequestError::InvalidIpv6Length,
            )
            &&& cmd == 1 && atyp == 3 && !valid_utf8(addr) <==> fault == Some(
                OpenRequestError::InvalidDomainEncoding,
            )
            &&& cmd == 1 && atyp != 1 && atyp != 3 && atyp != 4 <==> fault == Some(
                OpenRequestError::UnsupportedAddressType(atyp),
            )
            &&& cmd == 1 ==> fault == address_fault(atyp, addr)
        }),
{
}

/// The target of a request is the one that the client named: its port, and the bytes
/// of its address as those of its kind.
pub proof fn law_targets_are_those_named(atyp: u8, addr: Seq<u8>, port: u16, target: Addr)
    requires
        addresses(atyp, addr, port, target),
    ensures
        atyp == 1 || atyp == 3 || atyp == 4,
        atyp == 3 ==> (target matches Addr::Domain(name, p) && p == port && encode_utf8(name@)
            == addr),
        atyp != 3 ==> (target matches Addr::SocketAddr(socket) && socket.port == port
            && socket.flowinfo == 0 && socket.scope_id == 0 && match socket.ip {
            IpAddr::V4(bytes) => atyp == 1 && bytes@ == addr,
            IpAddr::V6(bytes) => atyp == 4 && bytes@ == addr,
        }),
{
}

/// Two requests with the same target name the same address, of the same kind, and the
/// same port.
pub proof fn law_targets_tell_requests_apart(
    atyp: u8,
    addr: Seq<u8>,
    port: u16,
    other_atyp: u8,
    other_addr: Seq<u8>,
    other_port: u16,
    target: Addr,
)
    requires
        addresses(atyp, addr, port, target),
        addresses(other_atyp, other_addr, other_port, target),
    ensures
        atyp == other_atyp,
        addr == other_addr,
        port == other_port,
{
}

/// Errors are described in words that say what failed, with the number that goes with
/// them.
pub proof fn law_errors_are_described(
    number: u8,
    error: IoError,
    frame_error: FrameError,
    frame: Frame,
)
    ensures
        open_request_error_text(OpenRequestError::UnsupportedCommand(number))
            == "unsupported reusable request command: "@ + decimal_text(number as nat),
        open_request_error_text(OpenRequestError::InvalidIpv4Length)
            == "invalid ipv4 address length"@,
        open_request_error_text(OpenRequestError::InvalidIpv6Length)
            == "invalid ipv6 address length"@,
        open_request_error_text(OpenRequestError::InvalidDomainEncoding)
            == "invalid domain address encoding"@,
        open_request_error_text(OpenRequestError::UnsupportedAddressType(number))
            == "unsupported address type: "@ + decimal_text(number as nat),
        relay_error_text(RelayError::Connect(error)) == "failed to connect reusable request target"@,
        relay_error_text(RelayError::Frame(frame_error)) == frame_error_text(frame_error@),
        relay_error_text(RelayError::TargetWrite(error))
            == "failed to write reusable data to target"@,
        relay_error_text(RelayError::TargetRead(error)) == "failed to read target response"@,
        relay_error_text(RelayError::ClientReset(number)) == "client reset reusable request: "@
            + decimal_text(number as nat),
        relay_error_text(RelayError::UnexpectedFrame(frame))
            == "unexpected reusable request frame: "@ + frame_text(frame@),
        relay_error_text(RelayError::DrainTimeout)
            == "timed out draining reusable request during shutdown"@,
        relay_error_source(RelayError::Connect(error)) == Some(error),
        relay_error_source(RelayError::TargetWrite(error)) == Some(error),
        relay_error_source(RelayError::TargetRead(error)) == Some(error),
        relay_error_source(RelayError::Frame(frame_error)) == match frame_error {
            FrameError::Io(error) => Some(error),
            _ => None,
        },
        relay_error_source(RelayError::ClientReset(number)) is None,
        relay_error_source(RelayError::UnexpectedFrame(frame)) is None,
        relay_error_source(RelayError::DrainTimeout) is None,
{
}

/// A relay that is told of something takes the step that the laws on steps speak of.
pub proof fn law_relays_take_the_steps(
    relay: &mut Relay,
    frame: Result<Frame, FrameError>,
    read: Result<Vec<u8>, IoError>,
    shutdown: bool,
    action: RelayAction,
)
    ensures
        call_ensures(Relay::client_frame, (relay, frame), action) ==> (*final(relay), action)
            == relay_step(*old(relay), RelayEvent::ClientFrame(frame)),
        call_ensures(Relay::target_bytes, (relay, read), action) ==> (*final(relay), action)
            == relay_step(*old(relay), RelayEvent::TargetBytes(read)),
        call_ensures(Relay::shutdown_changed, (relay, shutdown), action) ==> (
            *final(relay),
            action,
        ) == relay_step(*old(relay), RelayEvent::ShutdownChanged(shutdown)),
{
}

/// A new request has relayed nothing and awaits both sides. Each side is awaited until
/// it has ended, the shutdown until it has come, and the request is over, with both
/// counts, when both sides have ended.
pub proof fn law_requests_last_until_both_sides_have_ended(
    shutdown: bool,
    drain_timeout: Duration,
    fresh: Relay,
    relay: &Relay,
    awaits: bool,
    counts: Option<(u64, u64)>,
    action: RelayAction,
)
    ensures
        call_ensures(Relay::new, (shutdown, drain_timeout), fresh) ==> {
            &&& fresh.tx == 0 && fresh.rx == 0
            &&& !fresh.client_ended && !fresh.target_ended
            &&& fresh.draining == shutdown
            &&& fresh.drain_timeout == drain_timeout
        },
        call_ensures(Relay::awaits_client, (relay,), awaits) ==> awaits == !relay.client_ended,
        call_ensures(Relay::awaits_target, (relay,), awaits) ==> awaits == !relay.target_ended,
        call_ensures(Relay::awaits_shutdown, (relay,), awaits) ==> awaits == !relay.draining,
        call_ensures(Relay::finished, (relay,), counts) ==> {
            &&& counts is Some <==> relay.client_ended && relay.target_ended
            &&& counts matches Some((tx, rx)) ==> tx == relay.tx && rx == relay.rx
        },
        call_ensures(Relay::drain_elapsed, (relay,), action) ==> action == RelayAction::Fail(
            RelayError::DrainTimeout,
        ),
{
}

/// A request goes on after a good connect, write or send, and has failed after a bad
/// one: for that very failure.
pub proof fn law_bad_outcomes_fail_requests<T>(
    relay: &Relay,
    connection: Result<T, IoError>,
    connected: Result<T, RelayError>,
    written: Result<(), IoError>,
    sent: Result<(), FrameError>,
    r: Result<(), RelayError>,
)
    ensures
        call_ensures(target_connected::<T>, (connection,), connected) ==> match connection {
            Ok(target) => connected == Ok::<T, RelayError>(target),
            Err(error) => connected == Err::<T, RelayError>(RelayError::Connect(error)),
        },
        call_ensures(Relay::wrote_target, (relay, written), r) ==> match written {
            Ok(_) => r is Ok,
            Err(error) => r == Err::<(), RelayError>(RelayError::TargetWrite(error)),
        },
        call_ensures(Relay::sent_frame, (relay, sent), r) ==> match sent {
            Ok(_) => r is Ok,
            Err(error) => r == Err::<(), RelayError>(RelayError::Frame(error)),
        },
{
}

/// An open request that asks for a TCP connection to an address of a known kind and
/// length is relayed to that address and port, and any other is refused for what is
/// wrong with it.
pub proof fn law_open_requests_lead_to_their_target(
    cmd: u8,
    atyp: u8,
    addr: Vec<u8>,
    port: u16,
    r: Result<Addr, OpenRequestError>,
)
    requires
        call_ensures(relay_open_request, (cmd, atyp, addr, port), r) || cmd == 1 && call_ensures(
            frame_addr_to_trojan_addr,
            (atyp, addr, port),
            r,
        ),
    ensures
        r is Ok <==> cmd == 1 && (atyp == 1 && addr@.len() == 4 || atyp == 4 && addr@.len() == 16
            || atyp == 3 && valid_utf8(addr@)),
        r matches Ok(Addr::Domain(name, p)) ==> atyp == 3 && encode_utf8(name@) == addr@ && p
            == port,
        r matches Ok(Addr::SocketAddr(socket)) ==> {
            &&& socket.port == port
            &&& socket.flowinfo == 0 && socket.scope_id == 0
            &&& socket.ip matches IpAddr::V4(bytes) ==> atyp == 1 && bytes@ == addr@
            &&& socket.ip matches IpAddr::V6(bytes) ==> atyp == 4 && bytes@ == addr@
        },
        r matches Err(error) ==> match error {
            OpenRequestError::UnsupportedCommand(c) => cmd != 1 && c == cmd,
            OpenRequestError::InvalidIpv4Length => cmd == 1 && atyp == 1,
            OpenRequestError::InvalidIpv6Length => cmd == 1 && atyp == 4,
            OpenRequestError::InvalidDomainEncoding => cmd == 1 && atyp == 3,
            OpenRequestError::UnsupportedAddressType(t) => cmd == 1 && t == atyp,
        },
{
}

/// Errors are told in the words that the law on descriptions gives, and with what is
/// behind them.
pub proof fn law_errors_are_told_as_described(
    request_error: &OpenRequestError,
    error: &RelayError,
    text: String,
    source: Option<&IoError>,
)
    ensures
        call_ensures(OpenRequestError::to_string, (request_error,), text) ==> text@
            == open_request_error_text(*request_error),
        call_ensures(RelayError::to_string, (error,), text) ==> text@ == relay_error_text(*error),
        call_ensures(RelayError::source, (error,), source) ==> match source {
            Some(cause) => relay_error_source(*error) == Some(*cause),
            None => relay_error_source(*error) is None,
        },
{
}

} // verus!
