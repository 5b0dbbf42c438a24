//! The frame format: a type byte, a two-byte big-endian payload length and the
//! payload.

use vstd::prelude::*;
use vstd::slice::{slice_subrange, slice_to_vec};
use vstd::string::*;

use crate::error::{IoError, IoErrorView};
use crate::text::{decimal, decimal_text};

verus! {

pub const FRAME_CLIENT_HELLO: u8 = 0x01;

pub const FRAME_OPEN_REQUEST: u8 = 0x02;

pub const FRAME_DATA: u8 = 0x03;

pub const FRAME_END_REQUEST: u8 = 0x04;

pub const FRAME_RESET: u8 = 0x05;

pub const FRAME_PING: u8 = 0x06;

pub const FRAME_PONG: u8 = 0x07;

pub const FRAME_CLOSE: u8 = 0x08;

/// The largest payload that the two length bytes can announce.
pub const MAX_FRAME_PAYLOAD: usize = 65535;

/// The version of the protocol that this library speaks.
pub const PROTOCOL_VERSION: u8 = 1;

/// The size of a frame without its payload.
pub const FRAME_HEADER_LEN: usize = 3;

/// Why bytes are not a frame, or a frame could not be moved.
#[derive(Debug)]
pub enum FrameError {
    UnknownFrameType(u8),
    OversizedPayload(usize),
    UnexpectedEof,
    InvalidPayload(String),
    Io(IoError),
}

/// What a [`FrameError`] says.
pub enum FrameErrorView {
    UnknownFrameType(u8),
    OversizedPayload(usize),
    UnexpectedEof,
    InvalidPayload(Seq<char>),
    Io(IoErrorView),
}

impl View for FrameError {
    type V = FrameErrorView;

    open spec fn view(&self) -> FrameErrorView {
        match self {
            FrameError::UnknownFrameType(frame_type) => FrameErrorView::UnknownFrameType(
                *frame_type,
            ),
            FrameError::OversizedPayload(len) => FrameErrorView::OversizedPayload(*len),
            FrameError::UnexpectedEof => FrameErrorView::UnexpectedEof,
            FrameError::InvalidPayload(message) => FrameErrorView::InvalidPayload(message@),
            FrameError::Io(error) => FrameErrorView::Io(error@),
        }
    }
}

/// The text that describes an error.
pub open spec fn frame_error_text(error: FrameErrorView) -> Seq<char> {
    match error {
        FrameErrorView::UnknownFrameType(frame_type) => "unknown frame type: "@ + decimal_text(
            frame_type as nat,
        ),
        FrameErrorView::OversizedPayload(len) => "oversized payload: "@ + decimal_text(len as nat)
            + " bytes"@,
        FrameErrorView::UnexpectedEof => "unexpected end of input"@,
        FrameErrorView::InvalidPayload(message) => "invalid payload: "@ + message,
        FrameErrorView::Io(error) => "I/O error: "@ + error.message,
    }
}

impl FrameError {
    /// Describes the error.
    pub fn to_string(&self) -> (r: String)
        ensures
            r@ == frame_error_text(self@),
    {
        match self {
            FrameError::UnknownFrameType(frame_type) => {
                let mut text = "unknown frame type: ".to_owned();
                text.append(decimal(*frame_type as u64).as_str());
                text
            },
            FrameError::OversizedPayload(len) => {
                let mut text = "oversized payload: ".to_owned();
                text.append(decimal(*len as u64).as_str());
                text.append(" bytes");
                text
            },
            FrameError::UnexpectedEof => "unexpected end of input".to_owned(),
            FrameError::InvalidPayload(message) => {
                let mut text = "invalid payload: ".to_owned();
                text.append(message.as_str());
                text
            },
            FrameError::Io(error) => {
                let mut text = "I/O error: ".to_owned();
                text.append(error.message.as_str());
                text
            },
        }
    }

    /// The failed input or output behind the error, if that is what it was.
    pub fn source(&self) -> (r: Option<&IoError>)
        ensures
            match *self {
                FrameError::Io(error) => r == Some(&error),
                _ => r is None,
            },
    {
        match self {
            FrameError::Io(error) => Some(error),
            _ => None,
        }
    }
}

impl From<IoError> for FrameError {
    fn from(error: IoError) -> (r: Self) {
        FrameError::Io(error)
    }
}

impl vstd::std_specs::convert::FromSpecImpl<IoError> for FrameError {
    open spec fn obeys_from_spec() -> bool {
        true
    }

    open spec fn from_spec(error: IoError) -> Self {
        FrameError::Io(error)
    }
}

/// One message of the session protocol.
#[derive(Debug, Clone, PartialEq)]
pub enum Frame {
    ClientHello { version: u8, capabilities: u16 },
    OpenRequest { cmd: u8, atyp: u8, addr: Vec<u8>, port: u16 },
    Data(Vec<u8>),
    EndRequest { reason: u8 },
    Reset { reason: u8 },
    Ping { token: u32 },
    Pong { token: u32 },
    Close { reason: u8 },
}

/// What a [`Frame`] says.
pub enum FrameView {
    ClientHello { version: u8, capabilities: u16 },
    OpenRequest { cmd: u8, atyp: u8, addr: Seq<u8>, port: u16 },
    Data(Seq<u8>),
    EndRequest { reason: u8 },
    Reset { reason: u8 },
    Ping { token: u32 },
    Pong { token: u32 },
    Close { reason: u8 },
}

impl View for Frame {
    type V = FrameView;

    open spec fn view(&self) -> FrameView {
        match self {
            Frame::ClientHello { version, capabilities } => FrameView::ClientHello {
                version: *version,
                capabilities: *capabilities,
            },
            Frame::OpenRequest { cmd, atyp, addr, port } => FrameView::OpenRequest {
                cmd: *cmd,
                atyp: *atyp,
                addr: addr@,
                port: *port,
            },
            Frame::Data(data) => FrameView::Data(data@),
            Frame::EndRequest { reason } => FrameView::EndRequest { reason: *reason },
            Frame::Reset { reason } => FrameView::Reset { reason: *reason },
            Frame::Ping { token } => FrameView::Ping { token: *token },
            Frame::Pong { token } => FrameView::Pong { token: *token },
            Frame::Close { reason } => FrameView::Close { reason: *reason },
        }
    }
}

/// Bytes as numbers with commas between them.
pub open spec fn list_text(bytes: Seq<u8>) -> Seq<char>
    decreases bytes.len(),
{
    if bytes.len() == 0 {
        Seq::<char>::empty()
    } else if bytes.len() == 1 {
        decimal_text(bytes[0] as nat)
    } else {
        list_text(bytes.drop_last()) + ", "@ + decimal_text(bytes.last() as nat)
    }
}

/// A field of a frame as text.
pub open spec fn field_text(name: Seq<char>, value: nat) -> Seq<char> {
    name + ": "@ + decimal_text(value)
}

/// A frame as text, with its fields by name.
pub open spec fn frame_text(frame: FrameView) -> Seq<char> {
    match frame {
        FrameView::ClientHello { version, capabilities } => "ClientHello { "@ + field_text(
            "version"@,
            version as nat,
        ) + ", "@ + field_text("capabilities"@, capabilities as nat) + " }"@,
        FrameView::OpenRequest { cmd, atyp, addr, port } => "OpenRequest { "@ + field_text(
            "cmd"@,
            cmd as nat,
        ) + ", "@ + field_text("atyp"@, atyp as nat) + ", addr: ["@ + list_text(addr) + "], "@
            + field_text("port"@, port as nat) + " }"@,
        FrameView::Data(data) => "Data(["@ + list_text(data) + "])"@,
        FrameView::EndRequest { reason } => "EndRequest { "@ + field_text(
            "reason"@,
            reason as nat,
        ) + " }"@,
        FrameView::Reset { reason } => "Reset { "@ + field_text("reason"@, reason as nat) + " }"@,
        FrameView::Ping { token } => "Ping { "@ + field_text("token"@, token as nat) + " }"@,
        FrameView::Pong { token } => "Pong { "@ + field_text("token"@, token as nat) + " }"@,
        FrameView::Close { reason } => "Close { "@ + field_text("reason"@, reason as nat) + " }"@,
    }
}

fn append_field(text: &mut String, name: &str, value: u64)
    ensures
        final(text)@ == old(text)@ + field_text(name@, value as nat),
{
    text.append(name);
    text.append(": ");
    text.append(decimal(value).as_str());
    assert(text@ =~= old(text)@ + field_text(name@, value as nat));
}

fn append_list(text: &mut String, bytes: &Vec<u8>)
    ensures
        final(text)@ == old(text)@ + list_text(bytes@),
{
    let ghost start = text@;
    let mut i: usize = 0;
    assert(bytes@.take(0) =~= Seq::<u8>::empty());
    assert(text@ =~= start + list_text(bytes@.take(0)));
    while i < bytes.len()
        invariant
            i <= bytes@.len(),
            text@ == start + list_text(bytes@.take(i as int)),
        decreases bytes@.len() - i,
    {
        let ghost next = bytes@.take(i + 1);
        assert(next.drop_last() =~= bytes@.take(i as int));
        assert(next.last() == bytes@[i as int]);
        if i > 0 {
            text.append(", ");
        }
        text.append(decimal(bytes[i] as u64).as_str());
        assert(text@ =~= start + list_text(next));
        i = i + 1;
    }
    assert(bytes@.take(i as int) =~= bytes@);
}

/// How the wait for a frame ended.
pub enum Received {
    Frame(Frame),
    Failed(FrameError),
    /// The time for it was over first
    TimedOut,
}

/// The two bytes of `n`, the more significant one first.
pub open spec fn be_u16(n: u16) -> Seq<u8> {
    seq![(n / 256) as u8, (n % 256) as u8]
}

/// The number whose two bytes are `hi` and `lo`.
pub open spec fn u16_of(hi: u8, lo: u8) -> u16 {
    (hi * 256 + lo) as u16
}

/// The four bytes of `n`, the most significant one first.
pub open spec fn be_u32(n: u32) -> Seq<u8> {
    seq![
        (n / 0x1000000) as u8,
        (n / 0x10000 % 256) as u8,
        (n / 256 % 256) as u8,
        (n % 256) as u8,
    ]
}

/// The number whose four bytes are `a` to `d`.
pub open spec fn u32_of(a: u8, b: u8, c: u8, d: u8) -> u32 {
    (a * 0x1000000 + b * 0x10000 + c * 256 + d) as u32
}

/// The type byte of a frame.
pub open spec fn type_byte(frame: FrameView) -> u8 {
    match frame {
        FrameView::ClientHello { .. } => FRAME_CLIENT_HELLO,
        FrameView::OpenRequest { .. } => FRAME_OPEN_REQUEST,
        FrameView::Data(_) => FRAME_DATA,
        FrameView::EndRequest { .. } => FRAME_END_REQUEST,
        FrameView::Reset { .. } => FRAME_RESET,
        FrameView::Ping { .. } => FRAME_PING,
        FrameView::Pong { .. } => FRAME_PONG,
        FrameView::Close { .. } => FRAME_CLOSE,
    }
}

/// The payload of a frame.
pub open spec fn payload_bytes(frame: FrameView) -> Seq<u8> {
    match frame {
        FrameView::ClientHello { version, capabilities } => seq![version] + be_u16(capabilities),
        FrameView::OpenRequest { cmd, atyp, addr, port } => seq![cmd, atyp] + addr + be_u16(port),
        FrameView::Data(data) => data,
        FrameView::EndRequest { reason } => seq![reason],
        FrameView::Reset { reason } => seq![reason],
        FrameView::Ping { token } => be_u32(token),
        FrameView::Pong { token } => be_u32(token),
        FrameView::Close { reason } => seq![reason],
    }
}

/// Whether the payload of a frame is short enough for its length to be announced.
pub open spec fn fits(frame: FrameView) -> bool {
    payload_bytes(frame).len() <= MAX_FRAME_PAYLOAD
}

/// A frame as it goes over the wire.
pub open spec fn wire_bytes(frame: FrameView) -> Seq<u8> {
    seq![type_byte(frame)] + be_u16(payload_bytes(frame).len() as u16) + payload_bytes(frame)
}

/// The complaint about a payload of `got` bytes where `expected` were due.
pub open spec fn length_complaint(name: Seq<char>, expected: nat, got: nat) -> Seq<char> {
    name + " payload must be "@ + decimal_text(expected) + " bytes, got "@ + decimal_text(got)
}

/// The complaint about an open request without room for its fixed fields.
pub open spec fn short_open_request() -> Seq<char> {
    "open request payload too short"@
}

/// The length that a frame's header announces.
pub open spec fn announced_len(bytes: Seq<u8>) -> nat {
    u16_of(bytes[1], bytes[2]) as nat
}

/// What a payload of a fixed length means: `frame` if it has that length.
pub open spec fn sized(
    payload: Seq<u8>,
    expected: nat,
    name: Seq<char>,
    frame: FrameView,
) -> Result<FrameView, FrameErrorView> {
    if payload.len() == expected {
        Ok(frame)
    } else {
        Err(FrameErrorView::InvalidPayload(length_complaint(name, expected, payload.len())))
    }
}

/// What a type byte and a payload mean.
pub open spec fn interpreted(frame_type: u8, payload: Seq<u8>) -> Result<
    FrameView,
    FrameErrorView,
> {
    let n = payload.len() as int;
    if frame_type == FRAME_CLIENT_HELLO {
        sized(
            payload,
            3,
            "client hello"@,
            FrameView::ClientHello {
                version: payload[0],
                capabilities: u16_of(payload[1], payload[2]),
            },
        )
    } else if frame_type == FRAME_OPEN_REQUEST {
        if n < 4 {
            Err(FrameErrorView::InvalidPayload(short_open_request()))
        } else {
            Ok(
                FrameView::OpenRequest {
                    cmd: payload[0],
                    atyp: payload[1],
                    addr: payload.subrange(2, n - 2),
                    port: u16_of(payload[n - 2], payload[n - 1]),
                },
            )
        }
    } else if frame_type == FRAME_DATA {
        Ok(FrameView::Data(payload))
    } else if frame_type == FRAME_END_REQUEST {
        sized(payload, 1, "end request"@, FrameView::EndRequest { reason: payload[0] })
    } else if frame_type == FRAME_RESET {
        sized(payload, 1, "reset"@, FrameView::Reset { reason: payload[0] })
    } else if frame_type == FRAME_PING {
        sized(
            payload,
            4,
            "ping"@,
            FrameView::Ping { token: u32_of(payload[0], payload[1], payload[2], payload[3]) },
        )
    } else if frame_type == FRAME_PONG {
        sized(
            payload,
            4,
            "pong"@,
            FrameView::Pong { token: u32_of(payload[0], payload[1], payload[2], payload[3]) },
        )
    } else if frame_type == FRAME_CLOSE {
        sized(payload, 1, "close"@, FrameView::Close { reason: payload[0] })
    } else {
        Err(FrameErrorView::UnknownFrameType(frame_type))
    }
}

/// What the bytes at the start of `bytes` mean. Bytes after the first frame play
/// no part.
pub open spec fn decoded(bytes: Seq<u8>) -> Result<FrameView, FrameErrorView> {
    if bytes.len() < 3 || bytes.len() < 3 + announced_len(bytes) {
        Err(FrameErrorView::UnexpectedEof)
    } else {
        interpreted(bytes[0], bytes.subrange(3, (3 + announced_len(bytes)) as int))
    }
}

/// Whether a decoder's result is what `expected` says.
pub open spec fn decodes_to(
    r: Result<Frame, FrameError>,
    expected: Result<FrameView, FrameErrorView>,
) -> bool {
    match r {
        Ok(frame) => expected == Ok::<FrameView, FrameErrorView>(frame@),
        Err(error) => expected == Err::<FrameView, FrameErrorView>(error@),
    }
}

fn read_u16(hi: u8, lo: u8) -> (r: u16)
    ensures
        r == u16_of(hi, lo),
{
    hi as u16 * 256 + lo as u16
}

fn read_u32(a: u8, b: u8, c: u8, d: u8) -> (r: u32)
    ensures
        r == u32_of(a, b, c, d),
{
    a as u32 * 0x1000000 + b as u32 * 0x10000 + c as u32 * 256 + d as u32
}

fn push_u16(buf: &mut Vec<u8>, n: u16)
    ensures
        final(buf)@ == old(buf)@ + be_u16(n),
{
    buf.push((n / 256) as u8);
    buf.push((n % 256) as u8);
    assert(buf@ =~= old(buf)@ + be_u16(n));
}

fn push_u32(buf: &mut Vec<u8>, n: u32)
    ensures
        final(buf)@ == old(buf)@ + be_u32(n),
{
    buf.push((n / 0x1000000) as u8);
    buf.push((n / 0x10000 % 256) as u8);
    buf.push((n / 256 % 256) as u8);
    buf.push((n % 256) as u8);
    assert(buf@ =~= old(buf)@ + be_u32(n));
}

fn push_bytes(buf: &mut Vec<u8>, bytes: &Vec<u8>)
    ensures
        final(buf)@ == old(buf)@ + bytes@,
{
    buf.extend_from_slice(bytes.as_slice());
    assert(buf@ =~= old(buf)@ + bytes@);
}

fn push_frame(buf: &mut Vec<u8>, frame_type: u8, payload: &Vec<u8>)
    requires
        payload@.len() <= MAX_FRAME_PAYLOAD,
    ensures
        final(buf)@ == old(buf)@ + (seq![frame_type] + be_u16(payload@.len() as u16) + payload@),
{
    buf.push(frame_type);
    push_u16(buf, payload.len() as u16);
    push_bytes(buf, payload);
    assert(buf@ =~= old(buf)@ + (seq![frame_type] + be_u16(payload@.len() as u16) + payload@));
}

/// Checks that a payload has the length that its frame type fixes.
fn require_len(payload: &[u8], expected: usize, frame_name: &str) -> (r: Result<(), FrameError>)
    ensures
        match r {
            Ok(_) => payload@.len() == expected,
            Err(error) => payload@.len() != expected && error@ == FrameErrorView::InvalidPayload(
                length_complaint(frame_name@, expected as nat, payload@.len()),
            ),
        },
{
    if payload.len() == expected {
        Ok(())
    } else {
        let mut text = frame_name.to_owned();
        text.append(" payload must be ");
        text.append(decimal(expected as u64).as_str());
        text.append(" bytes, got ");
        text.append(decimal(payload.len() as u64).as_str());
        Err(FrameError::InvalidPayload(text))
    }
}

impl Frame {
    /// The frame as text, with its fields by name.
    pub fn to_text(&self) -> (r: String)
        ensures
            r@ == frame_text(self@),
    {
        let (name, field, value) = match self {
            Frame::ClientHello { version, capabilities } => {
                let mut text = "ClientHello { ".to_owned();
                append_field(&mut text, "version", *version as u64);
                text.append(", ");
                append_field(&mut text, "capabilities", *capabilities as u64);
                text.append(" }");
                return text;
            },
            Frame::OpenRequest { cmd, atyp, addr, port } => {
                let mut text = "OpenRequest { ".to_owned();
                append_field(&mut text, "cmd", *cmd as u64);
                text.append(", ");
                append_field(&mut text, "atyp", *atyp as u64);
                text.append(", addr: [");
                append_list(&mut text, addr);
                text.append("], ");
                append_field(&mut text, "port", *port as u64);
                text.append(" }");
                return text;
            },
            Frame::Data(data) => {
                let mut text = "Data([".to_owned();
                append_list(&mut text, data);
                text.append("])");
                return text;
            },
            Frame::EndRequest { reason } => ("EndRequest { ", "reason", *reason as u64),
            Frame::Reset { reason } => ("Reset { ", "reason", *reason as u64),
            Frame::Ping { token } => ("Ping { ", "token", *token as u64),
            Frame::Pong { token } => ("Pong { ", "token", *token as u64),
            Frame::Close { reason } => ("Close { ", "reason", *reason as u64),
        };
        let mut text = name.to_owned();
        append_field(&mut text, field, value);
        text.append(" }");
        text
    }

    /// The type byte and the payload of this frame.
    pub fn payload(&self) -> (r: (u8, Vec<u8>))
        ensures
            r.0 == type_byte(self@),
            r.1@ == payload_bytes(self@),
    {
        let mut payload: Vec<u8> = Vec::new();
        match self {
            Frame::ClientHello { version, capabilities } => {
                payload.push(*version);
                push_u16(&mut payload, *capabilities);
                assert(payload@ =~= payload_bytes(self@));
                (FRAME_CLIENT_HELLO, payload)
            },
            Frame::OpenRequest { cmd, atyp, addr, port } => {
                payload.push(*cmd);
                payload.push(*atyp);
                push_bytes(&mut payload, addr);
                push_u16(&mut payload, *port);
                assert(payload@ =~= payload_bytes(self@));
                (FRAME_OPEN_REQUEST, payload)
            },
            Frame::Data(data) => {
                push_bytes(&mut payload, data);
                assert(payload@ =~= payload_bytes(self@));
                (FRAME_DATA, payload)
            },
            Frame::EndRequest { reason } => {
                payload.push(*reason);
                assert(payload@ =~= payload_bytes(self@));
                (FRAME_END_REQUEST, payload)
            },
            Frame::Reset { reason } => {
                payload.push(*reason);
                assert(payload@ =~= payload_bytes(self@));
                (FRAME_RESET, payload)
            },
            Frame::Ping { token } => {
                push_u32(&mut payload, *token);
                assert(payload@ =~= payload_bytes(self@));
                (FRAME_PING, payload)
            },
            Frame::Pong { token } => {
                push_u32(&mut payload, *token);
                assert(payload@ =~= payload_bytes(self@));
                (FRAME_PONG, payload)
            },
            Frame::Close { reason } => {
                payload.push(*reason);
                assert(payload@ =~= payload_bytes(self@));
                (FRAME_CLOSE, payload)
            },
        }
    }

    /// Appends this frame to `buf`.
    pub fn encode(&self, buf: &mut Vec<u8>)
        requires
            fits(self@),
        ensures
            final(buf)@ == old(buf)@ + wire_bytes(self@),
    {
        let (frame_type, payload) = self.payload();
        push_frame(buf, frame_type, &payload);
        assert(buf@ =~= old(buf)@ + wire_bytes(self@));
    }

    /// Appends this frame to `buf`, or says that its payload is too long and
    /// leaves `buf` as it is.
    pub fn try_encode(&self, buf: &mut Vec<u8>) -> (r: Result<(), FrameError>)
        ensures
            match r {
                Ok(_) => fits(self@) && final(buf)@ == old(buf)@ + wire_bytes(self@),
                Err(error) => {
                    &&& !fits(self@)
                    &&& error@ == FrameErrorView::OversizedPayload(
                        payload_bytes(self@).len() as usize,
                    )
                    &&& final(buf)@ == old(buf)@
                },
            },
    {
        let (frame_type, payload) = self.payload();
        if payload.len() > MAX_FRAME_PAYLOAD {
            return Err(FrameError::OversizedPayload(payload.len()));
        }
        push_frame(buf, frame_type, &payload);
        assert(buf@ =~= old(buf)@ + wire_bytes(self@));
        Ok(())
    }

    /// Reads the frame at the start of `bytes`.
    pub fn decode(bytes: &[u8]) -> (r: Result<Self, FrameError>)
        ensures
            decodes_to(r, decoded(bytes@)),
    {
        if bytes.len() < FRAME_HEADER_LEN {
            return Err(FrameError::UnexpectedEof);
        }
        let frame_type: u8 = bytes[0];
        let payload_len: usize = read_u16(bytes[1], bytes[2]) as usize;
        if bytes.len() - FRAME_HEADER_LEN < payload_len {
            return Err(FrameError::UnexpectedEof);
        }
        let payload = slice_subrange(bytes, FRAME_HEADER_LEN, FRAME_HEADER_LEN + payload_len);
        match frame_type {
            FRAME_CLIENT_HELLO => {
                require_len(payload, 3, "client hello")?;
                Ok(
                    Frame::ClientHello {
                        version: payload[0],
                        capabilities: read_u16(payload[1], payload[2]),
                    },
                )
            },
            FRAME_OPEN_REQUEST => {
                if payload.len() < 4 {
                    return Err(
                        FrameError::InvalidPayload("open request payload too short".to_owned()),
                    );
                }
                let n: usize = payload.len();
                Ok(
                    Frame::OpenRequest {
                        cmd: payload[0],
                        atyp: payload[1],
                        addr: slice_to_vec(slice_subrange(payload, 2, n - 2)),
                        port: read_u16(payload[n - 2], payload[n - 1]),
                    },
                )
            },
            FRAME_DATA => Ok(Frame::Data(slice_to_vec(payload))),
            FRAME_END_REQUEST => {
                require_len(payload, 1, "end request")?;
                Ok(Frame::EndRequest { reason: payload[0] })
            },
            FRAME_RESET => {
                require_len(payload, 1, "reset")?;
                Ok(Frame::Reset { reason: payload[0] })
            },
            FRAME_PING => {
                require_len(payload, 4, "ping")?;
                Ok(Frame::Ping { token: read_u32(payload[0], payload[1], payload[2], payload[3]) })
            },
            FRAME_PONG => {
                require_len(payload, 4, "pong")?;
                Ok(Frame::Pong { token: read_u32(payload[0], payload[1], payload[2], payload[3]) })
            },
            FRAME_CLOSE => {
                require_len(payload, 1, "close")?;
                Ok(Frame::Close { reason: payload[0] })
            },
            other => Err(FrameError::UnknownFrameType(other)),
        }
    }
}

/// The number of payload bytes that follow a frame's header.
pub fn payload_len(header: &[u8; 3]) -> (r: usize)
    ensures
        r == announced_len(header@),
{
    read_u16(header[1], header[2]) as usize
}

/// Puts a header and the payload that followed it together, and reads the frame
/// that they make up.
pub fn assemble(header: &[u8; 3], payload: &Vec<u8>) -> (r: Result<Frame, FrameError>)
    ensures
        decodes_to(r, decoded(header@ + payload@)),
{
    let mut full: Vec<u8> = Vec::new();
    full.push(header[0]);
    full.push(header[1]);
    full.push(header[2]);
    push_bytes(&mut full, payload);
    assert(full@ =~= header@ + payload@);
    Frame::decode(full.as_slice())
}

proof fn lemma_u16_round_trip(n: u16)
    ensures
        u16_of(be_u16(n)[0], be_u16(n)[1]) == n,
{
}

proof fn lemma_be_u16_of(hi: u8, lo: u8)
    ensures
        be_u16(u16_of(hi, lo)) == seq![hi, lo],
{
    assert(be_u16(u16_of(hi, lo)) =~= seq![hi, lo]);
}

proof fn lemma_u32_round_trip(n: u32)
    ensures
        u32_of(be_u32(n)[0], be_u32(n)[1], be_u32(n)[2], be_u32(n)[3]) == n,
{
    assert(n / 0x1000000 < 256 && (n / 0x1000000) * 0x1000000 + (n / 0x10000 % 256) * 0x10000 + (n
        / 256 % 256) * 256 + n % 256 == n) by (bit_vector);
}

proof fn lemma_be_u32_of(a: u8, b: u8, c: u8, d: u8)
    ensures
        be_u32(u32_of(a, b, c, d)) == seq![a, b, c, d],
{
    let n = u32_of(a, b, c, d);
    assert(n == a * 0x1000000 + b * 0x10000 + c * 256 + d);
    assert(n / 0x1000000 == a);
    assert(n / 0x10000 == a * 256 + b);
    assert(n / 256 == a * 0x10000 + b * 256 + c);
    assert(n % 256 == d);
    assert(be_u32(n) =~= seq![a, b, c, d]);
}

proof fn lemma_interpreted_payload(frame: FrameView)
    ensures
        interpreted(type_byte(frame), payload_bytes(frame)) == Ok::<FrameView, FrameErrorView>(
            frame,
        ),
{
    let payload = payload_bytes(frame);
    match frame {
        FrameView::ClientHello { version, capabilities } => {
            lemma_u16_round_trip(capabilities);
            assert(payload[1] == be_u16(capabilities)[0]);
            assert(payload[2] == be_u16(capabilities)[1]);
        },
        FrameView::OpenRequest { cmd, atyp, addr, port } => {
            lemma_u16_round_trip(port);
            let n = payload.len() as int;
            assert(payload.subrange(2, n - 2) =~= addr);
            assert(payload[n - 2] == be_u16(port)[0]);
            assert(payload[n - 1] == be_u16(port)[1]);
        },
        FrameView::Ping { token } => {
            lemma_u32_round_trip(token);
        },
        FrameView::Pong { token } => {
            lemma_u32_round_trip(token);
        },
        _ => {},
    }
}

proof fn lemma_payload_of_interpreted(frame_type: u8, payload: Seq<u8>, frame: FrameView)
    requires
        interpreted(frame_type, payload) == Ok::<FrameView, FrameErrorView>(frame),
    ensures
        type_byte(frame) == frame_type,
        payload_bytes(frame) == payload,
{
    match frame {
        FrameView::ClientHello { version, capabilities } => {
            lemma_be_u16_of(payload[1], payload[2]);
        },
        FrameView::OpenRequest { cmd, atyp, addr, port } => {
            let n = payload.len() as int;
            lemma_be_u16_of(payload[n - 2], payload[n - 1]);
        },
        FrameView::Ping { token } => {
            lemma_be_u32_of(payload[0], payload[1], payload[2], payload[3]);
        },
        FrameView::Pong { token } => {
            lemma_be_u32_of(payload[0], payload[1], payload[2], payload[3]);
        },
        _ => {},
    }
    assert(payload_bytes(frame) =~= payload);
}

proof fn lemma_wire_header(frame: FrameView, rest: Seq<u8>)
    requires
        fits(frame),
    ensures
        (wire_bytes(frame) + rest).len() >= 3 + payload_bytes(frame).len(),
        (wire_bytes(frame) + rest)[0] == type_byte(frame),
        announced_len(wire_bytes(frame) + rest) == payload_bytes(frame).len(),
        (wire_bytes(frame) + rest).subrange(3, (3 + payload_bytes(frame).len()) as int)
            == payload_bytes(frame),
{
    let bytes = wire_bytes(frame) + rest;
    let len = payload_bytes(frame).len() as u16;
    lemma_u16_round_trip(len);
    assert(bytes[1] == be_u16(len)[0]);
    assert(bytes[2] == be_u16(len)[1]);
    assert(bytes.subrange(3, (3 + payload_bytes(frame).len()) as int) =~= payload_bytes(frame));
}

/// What a decoder reads is what an encoder wrote: a frame that fits, with
/// anything behind it, is read back as it was.
pub proof fn law_decode_reads_what_encode_wrote(frame: FrameView, rest: Seq<u8>)
    requires
        fits(frame),
    ensures
        decoded(wire_bytes(frame) + rest) == Ok::<FrameView, FrameErrorView>(frame),
{
    lemma_wire_header(frame, rest);
    lemma_interpreted_payload(frame);
}

/// A frame has one form on the wire: bytes that decode to a frame are the bytes
/// that encoding the frame gives, up to where the frame ends.
pub proof fn law_encode_writes_what_decode_read(bytes: Seq<u8>, frame: FrameView)
    requires
        decoded(bytes) == Ok::<FrameView, FrameErrorView>(frame),
    ensures
        fits(frame),
        wire_bytes(frame) == bytes.take((3 + announced_len(bytes)) as int),
{
    let n = announced_len(bytes);
    let payload = bytes.subrange(3, (3 + n) as int);
    lemma_payload_of_interpreted(bytes[0], payload, frame);
    lemma_be_u16_of(bytes[1], bytes[2]);
    assert(wire_bytes(frame) =~= bytes.take((3 + n) as int));
}

/// Frames on a stream cannot be mistaken for one another: where two frames start
/// the same stream, they are the same frame and leave the same rest.
pub proof fn law_frames_are_prefix_free(
    f: FrameView,
    after_f: Seq<u8>,
    g: FrameView,
    after_g: Seq<u8>,
)
    requires
        fits(f),
        fits(g),
        wire_bytes(f) + after_f == wire_bytes(g) + after_g,
    ensures
        f == g,
        after_f == after_g,
{
    law_decode_reads_what_encode_wrote(f, after_f);
    law_decode_reads_what_encode_wrote(g, after_g);
    let n = wire_bytes(f).len() as int;
    assert((wire_bytes(f) + after_f).skip(n) =~= after_f);
    assert((wire_bytes(g) + after_g).skip(n) =~= after_g);
}

/// A frame that was cut short is never taken for another one: every proper
/// prefix of it is reported as an early end of input.
#[verifier::rlimit(30)]
pub proof fn law_truncated_frames_are_detected(frame: FrameView, n: int)
    requires
        fits(frame),
        0 <= n < wire_bytes(frame).len(),
    ensures
        decoded(wire_bytes(frame).take(n)) == Err::<FrameView, FrameErrorView>(
            FrameErrorView::UnexpectedEof,
        ),
{
    lemma_wire_header(frame, Seq::<u8>::empty());
    assert(wire_bytes(frame) + Seq::<u8>::empty() =~= wire_bytes(frame));
    if n >= 3 {
        let cut = wire_bytes(frame).take(n);
        assert(cut[1] == wire_bytes(frame)[1]);
        assert(cut[2] == wire_bytes(frame)[2]);
    }
}

/// A frame may be read in two steps: its header first, then as many bytes as the
/// header announces. What they make up is what the stream starts with.
pub proof fn law_frames_are_read_in_two_steps(stream: Seq<u8>)
    requires
        stream.len() >= 3,
        stream.len() >= 3 + announced_len(stream),
    ensures
        announced_len(stream.take(3)) == announced_len(stream),
        decoded(stream.take(3) + stream.subrange(3, (3 + announced_len(stream)) as int)) == decoded(
            stream,
        ),
{
    let n = announced_len(stream);
    let read = stream.take(3) + stream.subrange(3, (3 + n) as int);
    assert(read =~= stream.take((3 + n) as int));
    assert(read.subrange(3, (3 + n) as int) =~= stream.subrange(3, (3 + n) as int));
}

/// A sequence of frames as it goes over the wire.
pub open spec fn wire_stream(frames: Seq<FrameView>) -> Seq<u8>
    decreases frames.len(),
{
    if frames.len() == 0 {
        Seq::<u8>::empty()
    } else {
        wire_bytes(frames[0]) + wire_stream(frames.drop_first())
    }
}

/// The frames that are read from `bytes` one after the other, until one cannot
/// be read.
#[verifier::opaque]
pub open spec fn frames_in(bytes: Seq<u8>) -> Seq<FrameView>
    decreases bytes.len(),
{
    match decoded(bytes) {
        Ok(frame) => seq![frame] + frames_in(bytes.skip((3 + announced_len(bytes)) as int)),
        Err(_) => Seq::<FrameView>::empty(),
    }
}

proof fn lemma_frames_in_step(frame: FrameView, rest: Seq<u8>)
    requires
        fits(frame),
    ensures
        frames_in(wire_bytes(frame) + rest) == seq![frame] + frames_in(rest),
{
    reveal_with_fuel(frames_in, 1);
    let bytes = wire_bytes(frame) + rest;
    let n = (3 + announced_len(bytes)) as int;
    assert(decoded(bytes) == Ok::<FrameView, FrameErrorView>(frame)) by {
        law_decode_reads_what_encode_wrote(frame, rest);
    }
    assert(bytes.skip(n) == rest) by {
        lemma_wire_header(frame, rest);
        assert(wire_bytes(frame).len() == n);
        assert(bytes.skip(n) =~= rest);
    }
}

proof fn lemma_no_frames_in_nothing()
    ensures
        frames_in(Seq::<u8>::empty()) == Seq::<FrameView>::empty(),
{
    reveal_with_fuel(frames_in, 1);
}

/// Frames that are written to a stream one after the other are read from it one
/// after the other.
pub proof fn law_stream_carries_frames_in_order(frames: Seq<FrameView>)
    requires
        forall|i: int| 0 <= i < frames.len() ==> fits(#[trigger] frames[i]),
    ensures
        frames_in(wire_stream(frames)) == frames,
    decreases frames.len(),
{
    if frames.len() > 0 {
        let first = frames[0];
        let rest = frames.drop_first();
        assert forall|i: int| 0 <= i < rest.len() implies fits(#[trigger] rest[i]) by {
            assert(rest[i] == frames[i + 1]);
        }
        law_stream_carries_frames_in_order(rest);
        lemma_frames_in_step(first, wire_stream(rest));
        assert(seq![first] + rest =~= frames);
    } else {
        lemma_no_frames_in_nothing();
    }
}

/// Frames have a fixed form on the wire: the number of their type, the length of the
/// payload in two bytes, and the fields one after the other. Numbers go with their
/// most significant byte first.
pub proof fn law_frames_have_a_fixed_form(frame: FrameView)
    requires
        fits(frame),
    ensures
        ({
            let w = wire_bytes(frame);
            match frame {
                FrameView::ClientHello { version, capabilities } => {
                    &&& w.len() == 6
                    &&& w.take(3) == seq![1u8, 0u8, 3u8]
                    &&& w[3] == version
                    &&& w[4] * 256 + w[5] == capabilities
                },
                FrameView::OpenRequest { cmd, atyp, addr, port } => {
                    &&& w.len() == 7 + addr.len()
                    &&& w[0] == 2
                    &&& w[1] * 256 + w[2] == 4 + addr.len()
                    &&& w[3] == cmd
                    &&& w[4] == atyp
                    &&& w.subrange(5, w.len() - 2) == addr
                    &&& w[w.len() - 2] * 256 + w[w.len() - 1] == port
                },
                FrameView::Data(data) => {
                    &&& w.len() == 3 + data.len()
                    &&& w[0] == 3
                    &&& w[1] * 256 + w[2] == data.len()
                    &&& w.skip(3) == data
                },
                FrameView::EndRequest { reason } => w == seq![4u8, 0u8, 1u8, reason],
                FrameView::Reset { reason } => w == seq![5u8, 0u8, 1u8, reason],
                FrameView::Ping { token } => {
                    &&& w.len() == 7
                    &&& w.take(3) == seq![6u8, 0u8, 4u8]
                    &&& w[3] * 0x1000000 + w[4] * 0x10000 + w[5] * 256 + w[6] == token
                },
                FrameView::Pong { token } => {
                    &&& w.len() == 7
                    &&& w.take(3) == seq![7u8, 0u8, 4u8]
                    &&& w[3] * 0x1000000 + w[4] * 0x10000 + w[5] * 256 + w[6] == token
                },
                FrameView::Close { reason } => w == seq![8u8, 0u8, 1u8, reason],
            }
        }),
{
    let w = wire_bytes(frame);
    match frame {
        FrameView::ClientHello { version, capabilities } => {
            assert(w.take(3) =~= seq![1u8, 0u8, 3u8]);
        },
        FrameView::OpenRequest { cmd, atyp, addr, port } => {
            assert(w.subrange(5, w.len() - 2) =~= addr);
        },
        FrameView::Data(data) => {
            assert(w.skip(3) =~= data);
        },
        FrameView::EndRequest { reason } => {
            assert(w =~= seq![4u8, 0u8, 1u8, reason]);
        },
        FrameView::Reset { reason } => {
            assert(w =~= seq![5u8, 0u8, 1u8, reason]);
        },
        FrameView::Ping { token } => {
            lemma_u32_round_trip(token);
            assert(w.take(3) =~= seq![6u8, 0u8, 4u8]);
        },
        FrameView::Pong { token } => {
            lemma_u32_round_trip(token);
            assert(w.take(3) =~= seq![7u8, 0u8, 4u8]);
        },
        FrameView::Close { reason } => {
            assert(w =~= seq![8u8, 0u8, 1u8, reason]);
        },
    }
}

/// A frame can be sent exactly if its payload is at most 65535 bytes long. Only data
/// and addresses can make it longer.
pub proof fn law_frames_fit_by_their_length(frame: FrameView)
    ensures
        fits(frame) <==> match frame {
            FrameView::Data(data) => data.len() <= 65535,
            FrameView::OpenRequest { addr, .. } => addr.len() <= 65531,
            _ => true,
        },
        frame matches FrameView::Data(data) ==> payload_bytes(frame).len() == data.len(),
        frame matches FrameView::OpenRequest { addr, .. } ==> payload_bytes(frame).len()
            == addr.len() + 4,
{
}

/// Bytes are a frame exactly if they hold a whole header, all the payload that the
/// header announces, a known type, and a payload of the length that the type asks for.
/// What is wrong with any others is told, in this order.
pub proof fn law_bytes_are_refused_for_what_is_wrong(bytes: Seq<u8>)
    ensures
        ({
            let n = bytes[1] * 256 + bytes[2];
            let whole = bytes.len() >= 3 && bytes.len() >= 3 + n;
            let t = bytes[0];
            let known = 1 <= t <= 8;
            let sound = match t {
                1 => n == 3,
                2 => n >= 4,
                3 => true,
                4 => n == 1,
                5 => n == 1,
                6 => n == 4,
                7 => n == 4,
                _ => n == 1,
            };
            &&& bytes.len() >= 3 ==> announced_len(bytes) == n
            &&& decoded(bytes) is Ok <==> whole && known && sound
            &&& !whole <==> decoded(bytes) == Err::<FrameView, FrameErrorView>(
                FrameErrorView::UnexpectedEof,
            )
            &&& whole && !known ==> decoded(bytes) == Err::<FrameView, FrameErrorView>(
                FrameErrorView::UnknownFrameType(t),
            )
            &&& whole && known && !sound ==> decoded(bytes) is Err && decoded(bytes)->Err_0
                is InvalidPayload
        }),
{
}

/// A payload of the wrong length is refused with the name of the frame, the length
/// that is asked for and the length that it has.
pub proof fn law_wrong_lengths_are_told(bytes: Seq<u8>, t: u8, expected: nat, name: Seq<char>)
    requires
        bytes.len() >= 3,
        bytes.len() >= 3 + bytes[1] * 256 + bytes[2],
        bytes[0] == t,
        bytes[1] * 256 + bytes[2] != expected,
        t == 1 && expected == 3 && name == "client hello"@ || t == 4 && expected == 1 && name
            == "end request"@ || t == 5 && expected == 1 && name == "reset"@ || t == 6 && expected
            == 4 && name == "ping"@ || t == 7 && expected == 4 && name == "pong"@ || t == 8
            && expected == 1 && name == "close"@,
    ensures
        decoded(bytes) == Err::<FrameView, FrameErrorView>(
            FrameErrorView::InvalidPayload(
                name + " payload must be "@ + decimal_text(expected) + " bytes, got "@
                    + decimal_text((bytes[1] * 256 + bytes[2]) as nat),
            ),
        ),
{
}

/// An open request without room for its fixed fields is refused in words.
pub proof fn law_short_open_requests_are_told(bytes: Seq<u8>)
    requires
        bytes.len() >= 3,
        bytes.len() >= 3 + bytes[1] * 256 + bytes[2],
        bytes[0] == 2,
        bytes[1] * 256 + bytes[2] < 4,
    ensures
        decoded(bytes) == Err::<FrameView, FrameErrorView>(
            FrameErrorView::InvalidPayload("open request payload too short"@),
        ),
{
}

/// Errors are described in words, with what goes with them.
pub proof fn law_frame_errors_are_described(
    frame_type: u8,
    len: usize,
    message: Seq<char>,
    error: IoErrorView,
)
    ensures
        frame_error_text(FrameErrorView::UnknownFrameType(frame_type)) == "unknown frame type: "@
            + decimal_text(frame_type as nat),
        frame_error_text(FrameErrorView::OversizedPayload(len)) == "oversized payload: "@
            + decimal_text(len as nat) + " bytes"@,
        frame_error_text(FrameErrorView::UnexpectedEof) == "unexpected end of input"@,
        frame_error_text(FrameErrorView::InvalidPayload(message)) == "invalid payload: "@ + message,
        frame_error_text(FrameErrorView::Io(error)) == "I/O error: "@ + error.message,
{
}

/// Bytes are listed one by one, with commas between them.
pub proof fn law_bytes_are_listed_one_by_one(bytes: Seq<u8>, last: u8)
    ensures
        list_text(Seq::<u8>::empty()).len() == 0,
        list_text(seq![last]) == decimal_text(last as nat),
        bytes.len() > 0 ==> list_text(bytes.push(last)) == list_text(bytes) + ", "@ + decimal_text(
            last as nat,
        ),
{
    assert(bytes.push(last).drop_last() =~= bytes);
}

/// Frames are shown with their name and their fields, each by its name and value.
pub proof fn law_frames_are_shown_with_their_fields(frame: FrameView)
    ensures
        frame_text(frame) == match frame {
            FrameView::ClientHello { version, capabilities } => "ClientHello { version: "@
                + decimal_text(version as nat) + ", capabilities: "@ + decimal_text(
                capabilities as nat,
            ) + " }"@,
            FrameView::OpenRequest { cmd, atyp, addr, port } => "OpenRequest { cmd: "@
                + decimal_text(cmd as nat) + ", atyp: "@ + decimal_text(atyp as nat) + ", addr: ["@
                + list_text(addr) + "], port: "@ + decimal_text(port as nat) + " }"@,
            FrameView::Data(data) => "Data(["@ + list_text(data) + "])"@,
            FrameView::EndRequest { reason } => "EndRequest { reason: "@ + decimal_text(
                reason as nat,
            ) + " }"@,
            FrameView::Reset { reason } => "Reset { reason: "@ + decimal_text(reason as nat)
                + " }"@,
            FrameView::Ping { token } => "Ping { token: "@ + decimal_text(token as nat) + " }"@,
            FrameView::Pong { token } => "Pong { token: "@ + decimal_text(token as nat) + " }"@,
            FrameView::Close { reason } => "Close { reason: "@ + decimal_text(reason as nat)
                + " }"@,
        },
{
    reveal_strlit(": ");
    reveal_strlit(", ");
    match frame {
        FrameView::ClientHello { version, capabilities } => {
            reveal_strlit("ClientHello { ");
            reveal_strlit("version");
            reveal_strlit("ClientHello { version: ");
            reveal_strlit("capabilities");
            reveal_strlit(", capabilities: ");
            assert("ClientHello { "@ + "version"@ + ": "@ =~= "ClientHello { version: "@);
            assert(", "@ + "capabilities"@ + ": "@ =~= ", capabilities: "@);
            assert(frame_text(frame) =~= "ClientHello { "@ + "version"@ + ": "@ + decimal_text(
                version as nat,
            ) + (", "@ + "capabilities"@ + ": "@) + decimal_text(capabilities as nat) + " }"@);
        },
        FrameView::OpenRequest { cmd, atyp, addr, port } => {
            reveal_strlit("OpenRequest { ");
            reveal_strlit("cmd");
            reveal_strlit("OpenRequest { cmd: ");
            reveal_strlit("atyp");
            reveal_strlit(", atyp: ");
            reveal_strlit("], ");
            reveal_strlit("port");
            reveal_strlit("], port: ");
            assert("OpenRequest { "@ + "cmd"@ + ": "@ =~= "OpenRequest { cmd: "@);
            assert(", "@ + "atyp"@ + ": "@ =~= ", atyp: "@);
            assert("], "@ + "port"@ + ": "@ =~= "], port: "@);
            assert(frame_text(frame) =~= "OpenRequest { "@ + "cmd"@ + ": "@ + decimal_text(
                cmd as nat,
            ) + (", "@ + "atyp"@ + ": "@) + decimal_text(atyp as nat) + ", addr: ["@ + list_text(
                addr,
            ) + ("], "@ + "port"@ + ": "@) + decimal_text(port as nat) + " }"@);
        },
        FrameView::Data(_) => {},
        FrameView::EndRequest { reason } => {
            reveal_strlit("EndRequest { ");
            reveal_strlit("reason");
            reveal_strlit("EndRequest { reason: ");
            assert("EndRequest { "@ + "reason"@ + ": "@ =~= "EndRequest { reason: "@);
            assert(frame_text(frame) =~= "EndRequest { "@ + "reason"@ + ": "@ + decimal_text(
                reason as nat,
            ) + " }"@);
        },
        FrameView::Reset { reason } => {
            reveal_strlit("Reset { ");
            reveal_strlit("reason");
            reveal_strlit("Reset { reason: ");
            assert("Reset { "@ + "reason"@ + ": "@ =~= "Reset { reason: "@);
            assert(frame_text(frame) =~= "Reset { "@ + "reason"@ + ": "@ + decimal_text(
                reason as nat,
            ) + " }"@);
        },
        FrameView::Ping { token } => {
            reveal_strlit("Ping { ");
            reveal_strlit("token");
            reveal_strlit("Ping { token: ");
            assert("Ping { "@ + "token"@ + ": "@ =~= "Ping { token: "@);
            assert(frame_text(frame) =~= "Ping { "@ + "token"@ + ": "@ + decimal_text(token as nat)
                + " }"@);
        },
        FrameView::Pong { token } => {
            reveal_strlit("Pong { ");
            reveal_strlit("token");
            reveal_strlit("Pong { token: ");
            assert("Pong { "@ + "token"@ + ": "@ =~= "Pong { token: "@);
            assert(frame_text(frame) =~= "Pong { "@ + "token"@ + ": "@ + decimal_text(token as nat)
                + " }"@);
        },
        FrameView::Close { reason } => {
            reveal_strlit("Close { ");
            reveal_strlit("reason");
            reveal_strlit("Close { reason: ");
            assert("Close { "@ + "reason"@ + ": "@ =~= "Close { reason: "@);
            assert(frame_text(frame) =~= "Close { "@ + "reason"@ + ": "@ + decimal_text(
                reason as nat,
            ) + " }"@);
        },
    }
}

/// Encoding appends the form on the wire of a frame that fits, and refuses one that does
/// not with the length of its payload, leaving the bytes as they were.
pub proof fn law_encoders_append_the_wire_form(
    frame: &Frame,
    buf: &mut Vec<u8>,
    tried: Result<(), FrameError>,
)
    ensures
        fits(frame@) && call_ensures(Frame::encode, (frame, buf), ()) ==> final(buf)@ == old(buf)@
            + wire_bytes(frame@),
        call_ensures(Frame::try_encode, (frame, buf), tried) ==> {
            &&& tried is Ok <==> fits(frame@)
            &&& tried is Ok ==> final(buf)@ == old(buf)@ + wire_bytes(frame@)
            &&& tried matches Err(error) ==> {
                &&& error@ == FrameErrorView::OversizedPayload(
                    payload_bytes(frame@).len() as usize,
                )
                &&& final(buf)@ == old(buf)@
            }
        },
{
}

/// Decoding gives what the laws on bytes say of the bytes, also where a frame was read
/// in two steps, and the length of a payload is the number in the header.
pub proof fn law_decoders_read_what_the_bytes_say(
    bytes: &[u8],
    header: &[u8; 3],
    payload: &Vec<u8>,
    r: Result<Frame, FrameError>,
    len: usize,
)
    ensures
        call_ensures(Frame::decode, (bytes,), r) ==> match r {
            Ok(frame) => decoded(bytes@) == Ok::<FrameView, FrameErrorView>(frame@),
            Err(error) => decoded(bytes@) == Err::<FrameView, FrameErrorView>(error@),
        },
        call_ensures(assemble, (header, payload), r) ==> match r {
            Ok(frame) => decoded(header@ + payload@) == Ok::<FrameView, FrameErrorView>(frame@),
            Err(error) => decoded(header@ + payload@) == Err::<FrameView, FrameErrorView>(error@),
        },
        call_ensures(payload_len, (header,), len) ==> len == header@[1] * 256 + header@[2],
{
}

/// Frames and errors are shown as the laws on their texts say.
pub proof fn law_frames_are_told_as_described(
    frame: &Frame,
    error: &FrameError,
    text: String,
    source: Option<&IoError>,
    parts: (u8, Vec<u8>),
)
    ensures
        call_ensures(Frame::to_text, (frame,), text) ==> text@ == frame_text(frame@),
        call_ensures(FrameError::to_string, (error,), text) ==> text@ == frame_error_text(error@),
        call_ensures(FrameError::source, (error,), source) ==> match *error {
            FrameError::Io(cause) => source == Some(&cause),
            _ => source is None,
        },
        call_ensures(Frame::payload, (frame,), parts) ==> parts.0 == type_byte(frame@)
            && parts.1@ == payload_bytes(frame@),
        fits(frame@) && call_ensures(Frame::payload, (frame,), parts) ==> parts.0 == wire_bytes(
            frame@,
        )[0] && parts.1@ =~= wire_bytes(frame@).skip(3),
{
}

} // verus!
