//! Agreeing on what a session can do: the client tells its version and its
//! capabilities, the server answers with its own, and both go by what they share.

use vstd::hash_set::StringHashSet;
use vstd::prelude::*;
use vstd::string::*;

use crate::error::{IoError, IoErrorKind, IoErrorView};
use crate::session::frame::{
    decoded, fits, frame_error_text, law_decode_reads_what_encode_wrote, wire_bytes, Frame,
    FrameError, FrameErrorView, FrameView, Received, PROTOCOL_VERSION,
};
use crate::session::lifecycle::{reason_index, CloseReason};

verus! {

/// The capability to carry more than one request.
pub const CAP_REUSE: u16 = 0x0001;

/// The capability to answer pings.
pub const CAP_KEEPALIVE: u16 = 0x0002;

/// Time that the other side has to answer, in seconds.
pub const NEGOTIATION_TIMEOUT_SECS: u64 = 5;

/// A set of capabilities, one bit for each.
#[derive(Debug, Clone, Copy, PartialEq, Eq, Structural)]
pub struct Capabilities(u16);

/// Whether the capability whose bit is `cap` is among `bits`.
pub open spec fn has_cap(bits: u16, cap: u16) -> bool {
    bits & cap != 0
}

impl Capabilities {
    /// The bits of the set.
    pub closed spec fn spec_bits(self) -> u16 {
        self.0
    }

    pub fn new(bits: u16) -> (r: Self)
        ensures
            r.spec_bits() == bits,
    {
        Capabilities(bits)
    }

    pub fn reuse(self) -> (r: bool)
        ensures
            r == has_cap(self.spec_bits(), CAP_REUSE),
    {
        self.0 & CAP_REUSE != 0
    }

    pub fn keepalive(self) -> (r: bool)
        ensures
            r == has_cap(self.spec_bits(), CAP_KEEPALIVE),
    {
        self.0 & CAP_KEEPALIVE != 0
    }

    pub fn bits(self) -> (r: u16)
        ensures
            r == self.spec_bits(),
    {
        self.0
    }

    /// The capabilities that both sets have.
    pub fn intersect(self, other: Capabilities) -> (r: Capabilities)
        ensures
            r.spec_bits() == self.spec_bits() & other.spec_bits(),
            forall|cap: u16|
                has_cap(r.spec_bits(), cap) ==> has_cap(self.spec_bits(), cap) && has_cap(
                    other.spec_bits(),
                    cap,
                ),
    {
        proof {
            let a = self.0;
            let b = other.0;
            assert forall|cap: u16| has_cap(a & b, cap) implies has_cap(a, cap) && has_cap(
                b,
                cap,
            ) by {
                assert((a & b) & cap != 0 ==> a & cap != 0 && b & cap != 0) by (bit_vector);
            }
        }
        Capabilities(self.0 & other.0)
    }
}

/// What two sides have agreed on.
#[derive(Debug, Clone, Copy, PartialEq, Eq, Structural)]
pub struct NegotiatedCapabilities {
    pub reuse: bool,
    pub keepalive: bool,
    pub server_version: u8,
}

/// What two sides with the given capabilities agree on.
pub open spec fn agreement(client: u16, server: u16, version: u8) -> NegotiatedCapabilities {
    NegotiatedCapabilities {
        reuse: has_cap(client, CAP_REUSE) && has_cap(server, CAP_REUSE),
        keepalive: has_cap(client, CAP_KEEPALIVE) && has_cap(server, CAP_KEEPALIVE),
        server_version: version,
    }
}

impl NegotiatedCapabilities {
    /// What two sides with the given capabilities agree on.
    pub fn from_intersect(
        client_caps: Capabilities,
        server_caps: Capabilities,
        version: u8,
    ) -> (r: Self)
        ensures
            r == agreement(client_caps.spec_bits(), server_caps.spec_bits(), version),
    {
        let shared = client_caps.intersect(server_caps);
        proof {
            law_sharing_is_intersection(client_caps.0, server_caps.0, 0);
        }
        NegotiatedCapabilities {
            reuse: shared.reuse(),
            keepalive: shared.keepalive(),
            server_version: version,
        }
    }
}

/// Why two sides did not come to an agreement.
#[derive(Debug)]
pub enum NegotiationError {
    ServerRejected { reason: u8 },
    VersionMismatch { client: u8, server: u8 },
    NoResponse,
    UnexpectedFrame,
    Io(IoError),
}

/// What a [`NegotiationError`] says.
pub enum NegotiationErrorView {
    ServerRejected { reason: u8 },
    VersionMismatch { client: u8, server: u8 },
    NoResponse,
    UnexpectedFrame,
    Io(IoErrorView),
}

impl View for NegotiationError {
    type V = NegotiationErrorView;

    open spec fn view(&self) -> NegotiationErrorView {
        match self {
            NegotiationError::ServerRejected { reason } => NegotiationErrorView::ServerRejected {
                reason: *reason,
            },
            NegotiationError::VersionMismatch { client, server } => {
                NegotiationErrorView::VersionMismatch { client: *client, server: *server }
            },
            NegotiationError::NoResponse => NegotiationErrorView::NoResponse,
            NegotiationError::UnexpectedFrame => NegotiationErrorView::UnexpectedFrame,
            NegotiationError::Io(error) => NegotiationErrorView::Io(error@),
        }
    }
}

/// What an error of the frame layer means for a negotiation. Bytes that make no
/// sense count as failed input.
pub open spec fn negotiation_fault(error: FrameErrorView) -> NegotiationErrorView {
    match error {
        FrameErrorView::Io(error) => NegotiationErrorView::Io(error),
        FrameErrorView::UnexpectedEof => NegotiationErrorView::NoResponse,
        other => NegotiationErrorView::Io(
            IoErrorView { kind: IoErrorKind::InvalidData, message: frame_error_text(other) },
        ),
    }
}

impl From<FrameError> for NegotiationError {
    fn from(error: FrameError) -> (r: Self)
        ensures
            r@ == negotiation_fault(error@),
    {
        match error {
            FrameError::Io(error) => NegotiationError::Io(error),
            FrameError::UnexpectedEof => NegotiationError::NoResponse,
            other => NegotiationError::Io(
                IoError { kind: IoErrorKind::InvalidData, message: other.to_string() },
            ),
        }
    }
}

impl vstd::std_specs::convert::FromSpecImpl<FrameError> for NegotiationError {
    open spec fn obeys_from_spec() -> bool {
        false
    }

    open spec fn from_spec(error: FrameError) -> Self {
        arbitrary()
    }
}

/// Whether the result of a negotiation is what `expected` says.
pub open spec fn negotiates_to(
    r: Result<NegotiatedCapabilities, NegotiationError>,
    expected: Result<NegotiatedCapabilities, NegotiationErrorView>,
) -> bool {
    match r {
        Ok(agreed) => expected == Ok::<NegotiatedCapabilities, NegotiationErrorView>(agreed),
        Err(error) => expected == Err::<NegotiatedCapabilities, NegotiationErrorView>(error@),
    }
}

/// Whether a client accepts a server of the given version.
pub fn client_accepts_server_version(server_version: u8) -> (r: bool)
    ensures
        r == (server_version >= PROTOCOL_VERSION),
{
    server_version >= PROTOCOL_VERSION
}

/// Whether a server accepts a client of the given version.
pub fn server_accepts_client_version(client_version: u8) -> (r: bool)
    ensures
        r == (client_version <= PROTOCOL_VERSION),
{
    client_version <= PROTOCOL_VERSION
}

/// The frame that tells the version and the given capabilities.
pub open spec fn hello_frame(caps: u16) -> Frame {
    Frame::ClientHello { version: PROTOCOL_VERSION, capabilities: caps }
}

/// The frame that tells the version and the given capabilities. It opens a
/// negotiation, and accepts one.
pub fn hello(caps: Capabilities) -> (r: Frame)
    ensures
        r == hello_frame(caps.spec_bits()),
{
    Frame::ClientHello { version: PROTOCOL_VERSION, capabilities: caps.bits() }
}

/// What the server's answer means to a client.
pub open spec fn client_concluded(client_caps: u16, reply: Received) -> Result<
    NegotiatedCapabilities,
    NegotiationErrorView,
> {
    match reply {
        Received::Frame(Frame::ClientHello { version, capabilities }) => if version
            >= PROTOCOL_VERSION {
            Ok(agreement(client_caps, capabilities, version))
        } else {
            Err(
                NegotiationErrorView::VersionMismatch { client: PROTOCOL_VERSION, server: version },
            )
        },
        Received::Frame(Frame::Close { reason }) => Err(
            NegotiationErrorView::ServerRejected { reason },
        ),
        Received::Frame(_) => Err(NegotiationErrorView::NoResponse),
        Received::Failed(error) => Err(negotiation_fault(error@)),
        Received::TimedOut => Err(NegotiationErrorView::NoResponse),
    }
}

/// Concludes a negotiation on the client's side, which has sent its hello.
pub fn negotiate_client(client_caps: Capabilities, reply: Received) -> (r: Result<
    NegotiatedCapabilities,
    NegotiationError,
>)
    ensures
        negotiates_to(r, client_concluded(client_caps.spec_bits(), reply)),
{
    match reply {
        Received::Frame(Frame::ClientHello { version, capabilities }) => {
            if !client_accepts_server_version(version) {
                return Err(
                    NegotiationError::VersionMismatch { client: PROTOCOL_VERSION, server: version },
                );
            }
            Ok(
                NegotiatedCapabilities::from_intersect(
                    client_caps,
                    Capabilities::new(capabilities),
                    version,
                ),
            )
        },
        Received::Frame(Frame::Close { reason }) => Err(
            NegotiationError::ServerRejected { reason },
        ),
        Received::Frame(_) => Err(NegotiationError::NoResponse),
        Received::Failed(error) => Err(NegotiationError::from(error)),
        Received::TimedOut => Err(NegotiationError::NoResponse),
    }
}

/// How a server answers, and what comes of it once the answer is sent.
#[derive(Debug)]
pub struct ServerConclusion {
    pub answer: Option<Frame>,
    pub result: Result<NegotiatedCapabilities, NegotiationError>,
}

/// The answer of a server to what a client sent.
pub open spec fn server_answer(server_caps: u16, received: Received) -> Option<Frame> {
    match received {
        Received::Frame(Frame::ClientHello { version, capabilities }) => if version
            <= PROTOCOL_VERSION {
            Some(hello_frame(server_caps))
        } else {
            Some(Frame::Close { reason: reason_index(CloseReason::VersionMismatch) })
        },
        _ => None,
    }
}

/// What a client's first frame means to a server.
pub open spec fn server_concluded(server_caps: u16, received: Received) -> Result<
    NegotiatedCapabilities,
    NegotiationErrorView,
> {
    match received {
        Received::Frame(Frame::ClientHello { version, capabilities }) => if version
            <= PROTOCOL_VERSION {
            Ok(agreement(capabilities, server_caps, PROTOCOL_VERSION))
        } else {
            Err(
                NegotiationErrorView::VersionMismatch { client: version, server: PROTOCOL_VERSION },
            )
        },
        Received::Frame(_) => Err(NegotiationErrorView::UnexpectedFrame),
        Received::Failed(error) => Err(negotiation_fault(error@)),
        Received::TimedOut => Err(NegotiationErrorView::NoResponse),
    }
}

/// Concludes a negotiation on the server's side. The result stands once the
/// answer, if there is one, is sent.
pub fn negotiate_server(server_caps: Capabilities, received: Received) -> (r: ServerConclusion)
    ensures
        r.answer == server_answer(server_caps.spec_bits(), received),
        negotiates_to(r.result, server_concluded(server_caps.spec_bits(), received)),
{
    match received {
        Received::Frame(Frame::ClientHello { version, capabilities }) => {
            if !server_accepts_client_version(version) {
                return ServerConclusion {
                    answer: Some(Frame::Close { reason: CloseReason::VersionMismatch.index() }),
                    result: Err(
                        NegotiationError::VersionMismatch {
                            client: version,
                            server: PROTOCOL_VERSION,
                        },
                    ),
                };
            }
            ServerConclusion {
                answer: Some(hello(server_caps)),
                result: Ok(
                    NegotiatedCapabilities::from_intersect(
                        Capabilities::new(capabilities),
                        server_caps,
                        PROTOCOL_VERSION,
                    ),
                ),
            }
        },
        Received::Frame(_) => ServerConclusion {
            answer: None,
            result: Err(NegotiationError::UnexpectedFrame),
        },
        Received::Failed(error) => ServerConclusion {
            answer: None,
            result: Err(NegotiationError::from(error)),
        },
        Received::TimedOut => ServerConclusion {
            answer: None,
            result: Err(NegotiationError::NoResponse),
        },
    }
}

/// The endpoints that are known not to support reusable sessions.
pub struct FallbackTracker {
    warned: StringHashSet,
}

/// Whether a warning about `endpoint` is due, with those in `noted` warned about.
pub open spec fn warning_due(noted: Set<Seq<char>>, endpoint: Seq<char>) -> bool {
    !noted.contains(endpoint)
}

impl View for FallbackTracker {
    type V = Set<Seq<char>>;

    closed spec fn view(&self) -> Set<Seq<char>> {
        self.warned@
    }
}

impl FallbackTracker {
    pub fn new() -> (r: Self)
        ensures
            r@ == Set::<Seq<char>>::empty(),
    {
        FallbackTracker { warned: StringHashSet::new() }
    }

    /// How many endpoints were noted.
    pub fn len(&self) -> (r: usize)
        ensures
            r == self@.len(),
    {
        self.warned.len()
    }

    /// Whether `endpoint` was noted.
    pub fn contains(&self, endpoint: &str) -> (r: bool)
        ensures
            r == self@.contains(endpoint@),
    {
        self.warned.contains(endpoint)
    }

    /// Notes that `endpoint` does not support reusable sessions. Tells whether
    /// that is news, and a warning is due.
    pub fn warn_fallback(&mut self, endpoint: &str) -> (r: bool)
        ensures
            r == warning_due(old(self)@, endpoint@),
            final(self)@ == old(self)@.insert(endpoint@),
    {
        self.warned.insert(endpoint.to_owned())
    }
}

impl Default for FallbackTracker {
    fn default() -> (r: Self)
        ensures
            r@ == Set::<Seq<char>>::empty(),
    {
        FallbackTracker::new()
    }
}

/// The exchange of hellos, as frames: what the client ends with and what the
/// server ends with, when both frames arrive.
pub open spec fn exchange(client_caps: u16, server_caps: u16) -> (
    Result<NegotiatedCapabilities, NegotiationErrorView>,
    Result<NegotiatedCapabilities, NegotiationErrorView>,
) {
    let request = Received::Frame(hello_frame(client_caps));
    let answer = server_answer(server_caps, request);
    (client_concluded(client_caps, Received::Frame(answer.unwrap())), server_concluded(
        server_caps,
        request,
    ))
}

/// A client and a server of this version always agree, and both go by the same
/// capabilities: those that both have.
pub proof fn law_both_sides_agree(client_caps: u16, server_caps: u16)
    ensures
        exchange(client_caps, server_caps).0 == exchange(client_caps, server_caps).1,
        exchange(client_caps, server_caps).0 == Ok::<NegotiatedCapabilities, NegotiationErrorView>(
            agreement(client_caps, server_caps, PROTOCOL_VERSION),
        ),
{
}

/// What is agreed on is never more than either side offered, and does not depend
/// on which side is the client.
pub proof fn law_agreement_is_what_both_offer(a: u16, b: u16, version: u8)
    ensures
        agreement(a, b, version).reuse ==> has_cap(a, CAP_REUSE) && has_cap(b, CAP_REUSE),
        agreement(a, b, version).keepalive ==> has_cap(a, CAP_KEEPALIVE) && has_cap(
            b,
            CAP_KEEPALIVE,
        ),
        agreement(a, b, version) == agreement(b, a, version),
        agreement(a, b, version) == agreement(a & b, a & b, version),
{
    law_sharing_is_intersection(a, b, 0);
}

/// Sharing is commutative, idempotent and associative, and what is shared with
/// nobody is nothing.
pub proof fn law_sharing_is_intersection(a: u16, b: u16, c: u16)
    ensures
        a & b == b & a,
        a & a == a,
        (a & b) & c == a & (b & c),
        a & 0 == 0,
        has_cap(a & b, CAP_REUSE) == (has_cap(a, CAP_REUSE) && has_cap(b, CAP_REUSE)),
        has_cap(a & b, CAP_KEEPALIVE) == (has_cap(a, CAP_KEEPALIVE) && has_cap(b, CAP_KEEPALIVE)),
{
    assert(a & b == b & a && a & a == a && (a & b) & c == a & (b & c) && a & 0 == 0)
        by (bit_vector);
    assert((a & b) & 1u16 != 0 <==> a & 1u16 != 0 && b & 1u16 != 0) by (bit_vector);
    assert((a & b) & 2u16 != 0 <==> a & 2u16 != 0 && b & 2u16 != 0) by (bit_vector);
}

/// A client that is too new for the server is told so by a close frame, and both
/// sides end without an agreement.
pub proof fn law_newer_clients_are_refused(
    client_version: u8,
    client_caps: u16,
    server_caps: u16,
)
    requires
        client_version > PROTOCOL_VERSION,
    ensures
        ({
            let request = Received::Frame(
                (Frame::ClientHello { version: client_version, capabilities: client_caps }),
            );
            let reason = reason_index(CloseReason::VersionMismatch);
            &&& server_answer(server_caps, request) == Some((Frame::Close { reason }))
            &&& server_concluded(server_caps, request) == Err::<
                NegotiatedCapabilities,
                NegotiationErrorView,
            >(
                (NegotiationErrorView::VersionMismatch {
                    client: client_version,
                    server: PROTOCOL_VERSION,
                }),
            )
            &&& client_concluded(client_caps, Received::Frame((Frame::Close { reason }))) == Err::<
                NegotiatedCapabilities,
                NegotiationErrorView,
            >((NegotiationErrorView::ServerRejected { reason }))
        }),
{
}

/// The server answers nothing but a hello, and whatever else it gets ends the
/// negotiation without an agreement.
pub proof fn law_only_hellos_are_answered(server_caps: u16, received: Received)
    ensures
        server_answer(server_caps, received) is Some <==> (received matches Received::Frame(
            frame,
        ) && frame is ClientHello),
        server_concluded(server_caps, received) is Ok ==> server_answer(server_caps, received)
            == Some(hello_frame(server_caps)),
{
}

/// Hellos arrive as they were sent, whatever follows them.
pub proof fn law_hellos_survive_the_wire(caps: u16, rest: Seq<u8>)
    ensures
        fits(hello_frame(caps)@),
        decoded(wire_bytes(hello_frame(caps)@) + rest) == Ok::<FrameView, FrameErrorView>(
            hello_frame(caps)@,
        ),
{
    law_decode_reads_what_encode_wrote(hello_frame(caps)@, rest);
}

/// A warning is due once for each endpoint, and none stands in for another.
pub proof fn law_warnings_are_given_once(
    noted: Set<Seq<char>>,
    endpoint: Seq<char>,
    other: Seq<char>,
)
    ensures
        !warning_due(noted.insert(endpoint), endpoint),
        other != endpoint ==> warning_due(noted.insert(endpoint), other) == warning_due(
            noted,
            other,
        ),
        warning_due(Set::empty(), endpoint),
{
}

/// Reuse and keepalive are agreed on exactly if both sides offer them, each by its own
/// bit, and the version is the one that was told.
pub proof fn law_capabilities_are_agreed_on_bit_by_bit(client: u16, server: u16, version: u8)
    ensures
        agreement(client, server, version).reuse <==> client & 0x0001 != 0 && server & 0x0001 != 0,
        agreement(client, server, version).keepalive <==> client & 0x0002 != 0 && server & 0x0002
            != 0,
        agreement(client, server, version).server_version == version,
        has_cap(client, 0x0001) <==> client & 0x0001 != 0,
        has_cap(client, 0x0002) <==> client & 0x0002 != 0,
{
}

/// A hello tells the version in use and the very capabilities of the side that sends
/// it.
pub proof fn law_hellos_tell_version_and_capabilities(caps: u16)
    ensures
        hello_frame(caps) == (Frame::ClientHello { version: 1, capabilities: caps }),
{
}

/// A client comes to an agreement exactly on a hello of its version or a newer one, and
/// goes by the version that the server told. An older one is a mismatch of the two, a
/// close is a rejection for its reason, any other frame and silence are no response.
pub proof fn law_clients_go_by_the_answer(client_caps: u16, reply: Received)
    ensures
        ({
            let result = client_concluded(client_caps, reply);
            match reply {
                Received::Frame(Frame::ClientHello { version, capabilities }) => if version >= 1 {
                    &&& result is Ok
                    &&& result->Ok_0.server_version == version
                    &&& result->Ok_0.reuse <==> client_caps & 1 != 0 && capabilities & 1 != 0
                    &&& result->Ok_0.keepalive <==> client_caps & 2 != 0 && capabilities & 2 != 0
                } else {
                    result == Err::<NegotiatedCapabilities, NegotiationErrorView>(
                        (NegotiationErrorView::VersionMismatch { client: 1, server: version }),
                    )
                },
                Received::Frame(Frame::Close { reason }) => result == Err::<
                    NegotiatedCapabilities,
                    NegotiationErrorView,
                >((NegotiationErrorView::ServerRejected { reason })),
                Received::Frame(_) => result == Err::<NegotiatedCapabilities, NegotiationErrorView>(
                    NegotiationErrorView::NoResponse,
                ),
                Received::TimedOut => result == Err::<NegotiatedCapabilities, NegotiationErrorView>(
                    NegotiationErrorView::NoResponse,
                ),
                Received::Failed(_) => result is Err,
            }
        }),
{
}

/// A server comes to an agreement exactly on a hello of its version or an older one, and
/// answers it with its own version and capabilities. A newer one is answered with a
/// close and is a mismatch of the two. Any other frame is unexpected and silence is no
/// response, and neither is answered.
pub proof fn law_servers_go_by_the_hello(server_caps: u16, received: Received)
    ensures
        ({
            let result = server_concluded(server_caps, received);
            let answer = server_answer(server_caps, received);
            match received {
                Received::Frame(Frame::ClientHello { version, capabilities }) => if version <= 1 {
                    &&& answer == Some(
                        (Frame::ClientHello { version: 1, capabilities: server_caps }),
                    )
                    &&& result is Ok
                    &&& result->Ok_0.server_version == 1
                    &&& result->Ok_0.reuse <==> capabilities & 1 != 0 && server_caps & 1 != 0
                    &&& result->Ok_0.keepalive <==> capabilities & 2 != 0 && server_caps & 2 != 0
                } else {
                    &&& answer == Some((Frame::Close { reason: 10 }))
                    &&& result == Err::<NegotiatedCapabilities, NegotiationErrorView>(
                        (NegotiationErrorView::VersionMismatch { client: version, server: 1 }),
                    )
                },
                Received::Frame(_) => answer is None && result == Err::<
                    NegotiatedCapabilities,
                    NegotiationErrorView,
                >(NegotiationErrorView::UnexpectedFrame),
                Received::TimedOut => answer is None && result == Err::<
                    NegotiatedCapabilities,
                    NegotiationErrorView,
                >(NegotiationErrorView::NoResponse),
                Received::Failed(_) => answer is None && result is Err,
            }
        }),
{
}

/// Failed input or output ends a negotiation as it is, an early end is no response, and
/// bytes that are no frame are failed input, described as the frame layer does. Both
/// sides see it alike.
pub proof fn law_frame_faults_end_a_negotiation(caps: u16, error: FrameError)
    ensures
        ({
            let fault = negotiation_fault(error@);
            &&& match error@ {
                FrameErrorView::Io(cause) => fault == NegotiationErrorView::Io(cause),
                FrameErrorView::UnexpectedEof => fault == NegotiationErrorView::NoResponse,
                _ => fault matches NegotiationErrorView::Io(cause) && cause.kind is InvalidData
                    && cause.message == frame_error_text(error@),
            }
            &&& client_concluded(caps, Received::Failed(error)) == Err::<
                NegotiatedCapabilities,
                NegotiationErrorView,
            >(fault)
            &&& server_concluded(caps, Received::Failed(error)) == Err::<
                NegotiatedCapabilities,
                NegotiationErrorView,
            >(fault)
        }),
{
}

/// Both sides conclude a negotiation as the laws on answers and hellos say.
pub proof fn law_negotiations_are_concluded_by_the_laws(
    caps: Capabilities,
    received: Received,
    at_client: Result<NegotiatedCapabilities, NegotiationError>,
    at_server: ServerConclusion,
    request: Frame,
)
    ensures
        call_ensures(negotiate_client, (caps, received), at_client) ==> match at_client {
            Ok(agreed) => client_concluded(caps.spec_bits(), received) == Ok::<
                NegotiatedCapabilities,
                NegotiationErrorView,
            >(agreed),
            Err(error) => client_concluded(caps.spec_bits(), received) == Err::<
                NegotiatedCapabilities,
                NegotiationErrorView,
            >(error@),
        },
        call_ensures(negotiate_server, (caps, received), at_server) ==> {
            &&& at_server.answer == server_answer(caps.spec_bits(), received)
            &&& match at_server.result {
                Ok(agreed) => server_concluded(caps.spec_bits(), received) == Ok::<
                    NegotiatedCapabilities,
                    NegotiationErrorView,
                >(agreed),
                Err(error) => server_concluded(caps.spec_bits(), received) == Err::<
                    NegotiatedCapabilities,
                    NegotiationErrorView,
                >(error@),
            }
        },
        call_ensures(hello, (caps,), request) ==> request == (Frame::ClientHello {
            version: 1,
            capabilities: caps.spec_bits(),
        }),
{
}

/// Capabilities are the bits they were made of: the lowest is reuse, the next is
/// keepalive, and two sets share the bits that both have. A client takes servers of
/// version one and later, a server clients of version one and earlier.
pub proof fn law_capabilities_are_their_bits(
    bits: u16,
    a: Capabilities,
    b: Capabilities,
    made: Capabilities,
    shared: Capabilities,
    version: u8,
    agreed: NegotiatedCapabilities,
    told: u16,
    is: bool,
)
    ensures
        call_ensures(Capabilities::new, (bits,), made) ==> made.spec_bits() == bits,
        call_ensures(Capabilities::bits, (a,), told) ==> told == a.spec_bits(),
        call_ensures(Capabilities::reuse, (a,), is) ==> (is <==> a.spec_bits() & 0x0001 != 0),
        call_ensures(Capabilities::keepalive, (a,), is) ==> (is <==> a.spec_bits() & 0x0002 != 0),
        call_ensures(Capabilities::intersect, (a, b), shared) ==> shared.spec_bits()
            == a.spec_bits() & b.spec_bits(),
        call_ensures(NegotiatedCapabilities::from_intersect, (a, b, version), agreed) ==> {
            &&& agreed.reuse <==> a.spec_bits() & 0x0001 != 0 && b.spec_bits() & 0x0001 != 0
            &&& agreed.keepalive <==> a.spec_bits() & 0x0002 != 0 && b.spec_bits() & 0x0002 != 0
            &&& agreed.server_version == version
        },
        call_ensures(client_accepts_server_version, (version,), is) ==> (is <==> version >= 1),
        call_ensures(server_accepts_client_version, (version,), is) ==> (is <==> version <= 1),
{
}

/// A tracker starts with no endpoint, tells which were noted and how many, and notes one
/// more: that is news exactly if it was not noted before.
pub proof fn law_trackers_note_endpoints(
    made: FallbackTracker,
    tracker: &FallbackTracker,
    noting: &mut FallbackTracker,
    endpoint: &str,
    is: bool,
    n: usize,
)
    ensures
        call_ensures(FallbackTracker::new, (), made) ==> made@ == Set::<Seq<char>>::empty(),
        call_ensures(FallbackTracker::contains, (tracker, endpoint), is) ==> is
            == tracker@.contains(endpoint@),
        call_ensures(FallbackTracker::len, (tracker,), n) ==> n == tracker@.len(),
        call_ensures(FallbackTracker::warn_fallback, (noting, endpoint), is) ==> {
            &&& is <==> !old(noting)@.contains(endpoint@)
            &&& final(noting)@ == old(noting)@.insert(endpoint@)
        },
{
}

} // verus!
