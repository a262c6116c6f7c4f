//! Data exchanged between the client-side context manager and the
//! server-side dispatcher, and the decisions both sides take on it.

pub mod dispatch;
pub mod handshake_proto;

use std::hash::{DefaultHasher, Hash, Hasher};
use vstd::std_specs::hash::DefaultHasherAdditionalSpecFns;

use vstd::prelude::*;

verus! {

/// Max payload size of a single datagram.
pub const BYTE_BUF_SIZE: usize = 65535;

/// Method invocation errors
#[derive(Debug, Clone, Copy, PartialEq, Eq, Structural)]
pub enum InvokeError {
    /// The remote is unable to find a handler for the given payload.
    HandlerNotFound,
    /// The method signature of the response does not match the payload.
    SignatureNotMatched,
    /// The context manager is unable to get a response from the remote
    RequestTimedOut,
    /// Deserialization of the payload failed
    DeserializationFailed,
    /// Connection to the remote was unsuccessful
    RemoteConnectionFailed,
    /// Unable to send data to the remote
    DataTransmissionFailed,
    /// Remote received an error
    RemoteReceiveError,
    /// Invalid data
    InvalidData,
    /// The request is a duplicate
    DuplicateRequest,
}

/// Route and handle the bytes of a remote method invocation.
///
/// The handler routes the bytes of a remote method invocation to the
/// appropriate method call, and returns the encoded result.
pub trait PayloadHandler {
    fn handle_payload(&mut self, payload_bytes: &[u8]) -> Result<Vec<u8>, InvokeError>;
}

/// Handle middleware messages, either from the client or remote.
pub trait HandleMiddleware: Sized {
    fn handle_middleware(&self, data: MiddlewareData) -> Self;
}

/// Transmitter sends stuff to the receiver
#[derive(Clone, Copy, Debug)]
pub struct Transmitter;

/// Receiver sends stuff to the transmitter
#[derive(Clone, Copy, Debug)]
pub struct Receiver;

/// Middleware-specific data sent between the context manager and the dispatcher
#[derive(Debug, Clone)]
pub enum MiddlewareData {
    /// Send a message to the remote, expects an echo
    Ping,
    /// Remote method invocation payload, request or response
    Payload(Vec<u8>),
    /// Remote callback payload
    Callback(Vec<u8>),
    /// Err messages go here
    Error(InvokeError),
    /// An acknowledgement that a message has been received, with a number
    /// that lets the sender check the receipt.
    Ack(u64),
    /// A size transmission.
    Size(usize),
    /// A no-op.
    NoOp,
}

impl MiddlewareData {
    /// Whether this is a ping.
    pub fn is_ping(&self) -> (res: bool)
        ensures
            res <==> self is Ping,
    {
        match self {
            MiddlewareData::Ping => true,
            _ => false,
        }
    }
}

/// What the dispatcher does with a request it has received.
#[derive(Debug, Clone)]
pub enum DispatchAction {
    /// Answer with a ping.
    RespondPing,
    /// Hand the bytes to the payload handler and answer with its result.
    HandlePayload(Vec<u8>),
    /// Hand the bytes to the callback handler.
    HandleCallback(Vec<u8>),
    /// Drop the request without answering (stray errors and acks).
    Ignore,
    /// A kind of request the dispatcher has no handling for.
    Unsupported,
}

/// Decides how the dispatcher treats a received request.
pub fn dispatch_action(data: MiddlewareData) -> (res: DispatchAction)
    ensures
        data is Ping ==> res is RespondPing,
        data matches MiddlewareData::Payload(p) ==> res == DispatchAction::HandlePayload(p),
        data matches MiddlewareData::Callback(c) ==> res == DispatchAction::HandleCallback(c),
        (data is Error || data is Ack) ==> res is Ignore,
        (data is Size || data is NoOp) ==> res is Unsupported,
{
    match data {
        MiddlewareData::Ping => DispatchAction::RespondPing,
        MiddlewareData::Payload(p) => DispatchAction::HandlePayload(p),
        MiddlewareData::Callback(c) => DispatchAction::HandleCallback(c),
        MiddlewareData::Error(_) => DispatchAction::Ignore,
        MiddlewareData::Ack(_) => DispatchAction::Ignore,
        MiddlewareData::Size(_) => DispatchAction::Unsupported,
        MiddlewareData::NoOp => DispatchAction::Unsupported,
    }
}

/// Wraps the result of a payload handler into the response sent back.
pub fn payload_response(res: Result<Vec<u8>, InvokeError>) -> (out: MiddlewareData)
    ensures
        res matches Ok(p) ==> out == MiddlewareData::Payload(p),
        res matches Err(e) ==> out == MiddlewareData::Error(e),
{
    match res {
        Ok(p) => MiddlewareData::Payload(p),
        Err(e) => MiddlewareData::Error(e),
    }
}

/// Unwraps the dispatcher's answer to an invocation: the response payload,
/// the remote's error, or `None` for an answer of another kind.
pub fn invocation_response(resp: MiddlewareData) -> (out: Option<Result<Vec<u8>, InvokeError>>)
    ensures
        resp matches MiddlewareData::Payload(p) ==> out == Some(Ok::<Vec<u8>, InvokeError>(p)),
        resp matches MiddlewareData::Error(e) ==> out == Some(Err::<Vec<u8>, InvokeError>(e)),
        !(resp is Payload || resp is Error) ==> out is None,
{
    match resp {
        MiddlewareData::Payload(p) => Some(Ok(p)),
        MiddlewareData::Error(e) => Some(Err(e)),
        _ => None,
    }
}

/// Kinds of I/O failure that the library maps to its own errors.
#[derive(Debug, Clone, Copy, PartialEq, Eq, Structural)]
pub enum IoErrorKind {
    NotFound,
    PermissionDenied,
    ConnectionRefused,
    ConnectionReset,
    ConnectionAborted,
    NotConnected,
    AddrInUse,
    AddrNotAvailable,
    BrokenPipe,
    AlreadyExists,
    WouldBlock,
    InvalidInput,
    InvalidData,
    TimedOut,
    WriteZero,
    Interrupted,
    Unsupported,
    UnexpectedEof,
    OutOfMemory,
    Other,
    /// Any kind not listed above.
    Uncategorized,
}

impl InvokeError {
    /// The invocation error that an I/O failure of kind `kind` becomes;
    /// `None` for the kinds that have no invocation error.
    pub fn from_io_kind(kind: IoErrorKind) -> (res: Option<InvokeError>)
        ensures
            (kind is ConnectionRefused || kind is ConnectionReset || kind is ConnectionAborted
                || kind is NotConnected || kind is AddrInUse || kind is AddrNotAvailable
                || kind is BrokenPipe) ==> res == Some(InvokeError::DataTransmissionFailed),
            (kind is InvalidInput || kind is InvalidData) ==> res == Some(InvokeError::InvalidData),
            (kind is TimedOut || kind is Uncategorized) ==> res == Some(InvokeError::RequestTimedOut),
            (kind is NotFound || kind is PermissionDenied || kind is AlreadyExists
                || kind is WouldBlock || kind is WriteZero || kind is Interrupted
                || kind is Unsupported || kind is UnexpectedEof || kind is OutOfMemory
                || kind is Other) ==> res is None,
    {
        match kind {
            IoErrorKind::ConnectionRefused | IoErrorKind::ConnectionReset
            | IoErrorKind::ConnectionAborted | IoErrorKind::NotConnected | IoErrorKind::AddrInUse
            | IoErrorKind::AddrNotAvailable | IoErrorKind::BrokenPipe => Some(
                InvokeError::DataTransmissionFailed,
            ),
            IoErrorKind::InvalidInput | IoErrorKind::InvalidData => Some(InvokeError::InvalidData),
            IoErrorKind::TimedOut | IoErrorKind::Uncategorized => Some(InvokeError::RequestTimedOut),
            _ => None,
        }
    }

    /// The I/O failure kind that an invocation error becomes.
    pub fn io_kind(&self) -> (res: IoErrorKind)
        ensures
            *self is HandlerNotFound ==> res is NotFound,
            (*self is SignatureNotMatched || *self is DeserializationFailed
                || *self is InvalidData) ==> res is InvalidData,
            *self is RequestTimedOut ==> res is TimedOut,
            *self is RemoteConnectionFailed ==> res is ConnectionRefused,
            (*self is DataTransmissionFailed || *self is RemoteReceiveError) ==> res is BrokenPipe,
            *self is DuplicateRequest ==> res is Interrupted,
    {
        match self {
            InvokeError::HandlerNotFound => IoErrorKind::NotFound,
            InvokeError::SignatureNotMatched => IoErrorKind::InvalidData,
            InvokeError::RequestTimedOut => IoErrorKind::TimedOut,
            InvokeError::DeserializationFailed => IoErrorKind::InvalidData,
            InvokeError::RemoteConnectionFailed => IoErrorKind::ConnectionRefused,
            InvokeError::DataTransmissionFailed => IoErrorKind::BrokenPipe,
            InvokeError::RemoteReceiveError => IoErrorKind::BrokenPipe,
            InvokeError::InvalidData => IoErrorKind::InvalidData,
            InvokeError::DuplicateRequest => IoErrorKind::Interrupted,
        }
    }
}

/// An IPv4 socket address.
#[derive(Debug, Clone, Copy, PartialEq, Eq, Structural)]
pub struct SockAddrV4 {
    /// The address as a number, first octet most significant.
    pub ip: u32,
    /// The port.
    pub port: u16,
}

/// Recommended payload to be sent between transmission protocols.
#[derive(Debug, Clone)]
pub enum TransmissionPacket {
    /// Data payload
    Data {
        /// sequence number
        seq: u32,
        /// Hash value of bytes
        hash: u64,
        data: Vec<u8>,
        /// Indicates if this is the last packet
        last: bool,
    },
    /// For recipients of this packet, switch transmissions to this new target
    SwitchToAddress(SockAddrV4),
    /// A request for a sequence number
    Sequence(u64),
    /// An ack packet, along with a number.
    Ack(u64),
    /// Signals the completion of the transfer
    Complete,
}

/// Feeds `bytes` to `state` with `Hash::hash` for byte slices. Nothing is
/// claimed of what is written: std lets it differ between platforms.
#[verifier::external_body]
pub(crate) fn hash_bytes_into(bytes: &[u8], state: &mut DefaultHasher) {
    bytes.hash(state)
}

/// The hash that checks the integrity of `bytes`: a new `DefaultHasher`
/// that was written the bytes, finished.
pub open spec fn data_hash(bytes: Seq<u8>) -> u64 {
    DefaultHasher::spec_finish(seq![bytes])
}

/// The primary hash method used for verifying the integrity of data: the
/// bytes written to a new `DefaultHasher` in one write, then finished.
pub(crate) fn hash_primary(bytes: &[u8]) -> (res: u64)
    ensures
        res == data_hash(bytes@),
{
    let mut state = DefaultHasher::new();
    state.write(bytes);
    proof {
        assert(state@ =~= seq![bytes@]);
    }
    state.finish()
}

/// What a sender learns from the answer to a transmission.
#[derive(Debug, Clone, Copy, PartialEq, Eq, Structural)]
pub enum AckOutcome {
    /// The answer acknowledges exactly the bytes sent.
    Matched,
    /// The answer is an ack for other bytes.
    Mismatched,
    /// The answer is not an ack.
    NotAnAck,
}

/// The outcome of an answer, given the hash the sender expects.
pub open spec fn ack_outcome_spec(packet: TransmissionPacket, expected: u64) -> AckOutcome {
    match packet {
        TransmissionPacket::Ack(h) => if h == expected {
            AckOutcome::Matched
        } else {
            AckOutcome::Mismatched
        },
        _ => AckOutcome::NotAnAck,
    }
}

/// Checks the answer to a transmission against the hash of what was sent.
pub fn ack_outcome(packet: &TransmissionPacket, expected: u64) -> (res: AckOutcome)
    ensures
        res == ack_outcome_spec(*packet, expected),
{
    match packet {
        TransmissionPacket::Ack(h) => {
            if *h == expected {
                AckOutcome::Matched
            } else {
                AckOutcome::Mismatched
            }
        },
        _ => AckOutcome::NotAnAck,
    }
}

/// Checks the answer to a transmission of `payload`: the payload is hashed
/// here and the hash compared with [`ack_outcome`].
pub fn check_ack(packet: &TransmissionPacket, payload: &[u8]) -> (res: AckOutcome)
    ensures
        packet is Ack ==> (res is Matched || res is Mismatched),
        !(packet is Ack) ==> res is NotAnAck,
        res == ack_outcome_spec(*packet, data_hash(payload@)),
{
    let expected = hash_primary(payload);
    ack_outcome(packet, expected)
}

/// The acknowledgement for a received hash.
pub fn ack_with(hash: u64) -> (res: TransmissionPacket)
    ensures
        res == TransmissionPacket::Ack(hash),
{
    TransmissionPacket::Ack(hash)
}

/// The acknowledgement a receiver sends back for `received`: the hash of
/// the bytes, made here, in an ack.
pub fn ack_for(received: &[u8]) -> (res: TransmissionPacket)
    ensures
        res is Ack,
        res == TransmissionPacket::Ack(data_hash(received@)),
{
    ack_with(hash_primary(received))
}

/// The ack a receiver sends for the bytes it got matches at the sender
/// exactly when the sender's bytes hash the same: in particular an ack for
/// the very bytes sent always matches.
pub proof fn lemma_ack_for_same_bytes_matches(received: Seq<u8>, sent: Seq<u8>)
    ensures
        ack_outcome_spec(TransmissionPacket::Ack(data_hash(received)), data_hash(sent)) is Matched
            <==> data_hash(received) == data_hash(sent),
        received == sent ==> ack_outcome_spec(TransmissionPacket::Ack(data_hash(received)), data_hash(sent)) is Matched,
{
}

/// An acknowledgement of a hash is matched by a sender expecting that hash,
/// and not by one expecting another.
pub proof fn lemma_ack_matches_same_hash(h: u64, expected: u64)
    ensures
        ack_outcome_spec(TransmissionPacket::Ack(h), expected) is Matched <==> h == expected,
        ack_outcome_spec(TransmissionPacket::Ack(h), expected) is Mismatched <==> h != expected,
{
}

/// A uniformly random `u64`.
///
/// Calls `rand::random::<u64>()`; the result depends on chance, so nothing
/// is stated of it.
#[verifier::external_body]
fn random_u64() -> (res: u64) {
    rand::random::<u64>()
}

/// Whether a random draw `rand` falls in the lowest `1 / frac` of the range.
pub open spec fn draw_hits(rand: u64, frac: u32) -> bool {
    rand < u64::MAX / (frac as u64)
}

/// Decides, from a random draw, whether a "1 in `frac`" event happens.
pub fn decide_with_probability(rand: u64, frac: u32) -> (res: bool)
    requires
        frac > 0,
    ensures
        res == draw_hits(rand, frac),
{
    let threshold = u64::MAX / (frac as u64);
    rand < threshold
}

/// Returns the outcome of an event of probability `1` in `frac`.
///
/// The draw is random; [`decide_with_probability`] states the decision taken
/// for each draw.
pub fn probability_frac(frac: u32) -> (res: bool)
    requires
        frac > 0,
{
    let r = random_u64();
    decide_with_probability(r, frac)
}

/// Every sent item needs an ack back. Compatible with [`FaultyRequestAckProto`].
#[derive(Debug, Clone, Copy, Default)]
pub struct RequestAckProto;

/// A faulty version that is compatible with [`RequestAckProto`].
///
/// The proto fails to transmit every 1 in `frac` invocations on average.
#[derive(Debug, Clone, Copy)]
pub struct FaultyRequestAckProto {
    frac: u32,
}

impl FaultyRequestAckProto {
    /// The inverse drop probability.
    pub closed spec fn frac(&self) -> u32 {
        self.frac
    }

    /// Create the protocol with a drop probability of 1 in `frac`.
    pub fn from_frac(frac: u32) -> (res: Self)
        ensures
            res.frac() == frac,
    {
        Self { frac }
    }

    /// Returns the inverse drop probability.
    pub fn get_frac(&self) -> (res: u32)
        ensures
            res == self.frac(),
    {
        self.frac
    }
}

/// Packets are sent without checking if they have been received.
///
/// All data is sent in a single datagram (at most 65507 bytes).
#[derive(Debug, Clone, Copy)]
pub struct DefaultProto;

/// A faulty version of [`DefaultProto`].
#[derive(Debug, Clone, Copy)]
pub struct FaultyDefaultProto {
    frac: u32,
}

impl FaultyDefaultProto {
    /// The inverse drop probability.
    pub closed spec fn frac(&self) -> u32 {
        self.frac
    }

    /// Create the protocol with a drop probability of 1 in `frac`.
    pub fn from_frac(frac: u32) -> (res: Self)
        ensures
            res.frac() == frac,
    {
        Self { frac }
    }

    /// Returns the inverse drop probability.
    pub fn get_frac(&self) -> (res: u32)
        ensures
            res == self.frac(),
    {
        self.frac
    }
}

} // verus!
