//! The decisions of the handshake protocol.
//!
//! Every packet sent by the source must be acknowledged by the sink. The
//! payload is cut into segments that the receiver requests one by one by
//! sequence number, so payloads of any size can be transferred.

use vstd::prelude::*;

use super::{data_hash, hash_primary, SockAddrV4, TransmissionPacket};
use crate::fsm::TransitableState;

verus! {

/// Sends payloads with the handshake protocol.
#[derive(Debug, Clone, Copy)]
pub struct HandshakeProto;

/// A faulty version that is compatible with [`HandshakeProto`].
#[derive(Debug, Clone, Copy)]
pub struct FaultyHandshakeProto {
    frac: u32,
}

impl FaultyHandshakeProto {
    /// The inverse drop probability.
    pub closed spec fn frac(&self) -> u32 {
        self.frac
    }

    /// Create the protocol with a drop probability of 1 in `frac`.
    pub fn from_frac(frac: u32) -> (res: Self)
        ensures
            res.frac() == frac,
    {
        Self { frac }
    }

    /// Returns the inverse drop probability.
    pub fn get_frac(&self) -> (res: u32)
        ensures
            res == self.frac(),
    {
        self.frac
    }
}

/// Transmitter states
#[derive(Debug, Clone, Copy, PartialEq, Eq, Structural)]
pub enum HandshakeTx {
    /// tx sends its new address to rx
    SendAddressChange,
    /// tx sending packets, hands over control to rx
    Transmit,
    /// tx complete
    Complete,
}

/// State transition events for [`HandshakeTx`]
#[derive(Debug, Clone, Copy, PartialEq, Eq, Structural)]
pub enum HandshakeTxEvent {
    /// tx has received a new destination address to send to
    ReceiveNewAddr,
    /// Last packet has been acknowledged
    AcknowledgeLast,
}

/// Receiver states
#[derive(Debug, Clone, Copy, PartialEq, Eq, Structural)]
pub enum HandshakeRx {
    /// rx awaiting a change in address
    AwaitAddressChange,
    /// rx receiving packets, takes control over tx
    Receive,
    /// rx complete
    Complete,
}

/// State transition events for [`HandshakeRx`]
#[derive(Debug, Clone, Copy, PartialEq, Eq, Structural)]
pub enum HandshakeRxEvent {
    /// The new address is sent back to tx
    SendNewAddr,
    /// All packets received
    ReceivedAll,
}

/// The transmitter's transition function.
pub open spec fn tx_next(s: HandshakeTx, e: HandshakeTxEvent) -> HandshakeTx {
    match (s, e) {
        (HandshakeTx::SendAddressChange, HandshakeTxEvent::ReceiveNewAddr) => HandshakeTx::Transmit,
        (HandshakeTx::Transmit, HandshakeTxEvent::AcknowledgeLast) => HandshakeTx::Complete,
        // on a repeated address change, go back to the previous state
        (HandshakeTx::Transmit, HandshakeTxEvent::ReceiveNewAddr) => HandshakeTx::SendAddressChange,
        _ => s,
    }
}

/// The receiver's transition function.
pub open spec fn rx_next(s: HandshakeRx, e: HandshakeRxEvent) -> HandshakeRx {
    match (s, e) {
        (HandshakeRx::AwaitAddressChange, HandshakeRxEvent::SendNewAddr) => HandshakeRx::Receive,
        (HandshakeRx::Receive, HandshakeRxEvent::ReceivedAll) => HandshakeRx::Complete,
        _ => s,
    }
}

impl Default for HandshakeTx {
    fn default() -> (res: Self)
        ensures
            res == HandshakeTx::SendAddressChange,
    {
        HandshakeTx::SendAddressChange
    }
}

impl Default for HandshakeRx {
    fn default() -> (res: Self)
        ensures
            res == HandshakeRx::AwaitAddressChange,
    {
        HandshakeRx::AwaitAddressChange
    }
}

impl TransitableState for HandshakeTx {
    type Event = HandshakeTxEvent;

    fn ingest(&mut self, event: HandshakeTxEvent)
        ensures
            *final(self) == tx_next(*old(self), event),
    {
        *self = match (*self, event) {
            (HandshakeTx::SendAddressChange, HandshakeTxEvent::ReceiveNewAddr) => HandshakeTx::Transmit,
            (HandshakeTx::Transmit, HandshakeTxEvent::AcknowledgeLast) => HandshakeTx::Complete,
            (HandshakeTx::Transmit, HandshakeTxEvent::ReceiveNewAddr) => HandshakeTx::SendAddressChange,
            (s, _) => s,
        };
    }
}

impl TransitableState for HandshakeRx {
    type Event = HandshakeRxEvent;

    fn ingest(&mut self, event: HandshakeRxEvent)
        ensures
            *final(self) == rx_next(*old(self), event),
    {
        *self = match (*self, event) {
            (HandshakeRx::AwaitAddressChange, HandshakeRxEvent::SendNewAddr) => HandshakeRx::Receive,
            (HandshakeRx::Receive, HandshakeRxEvent::ReceivedAll) => HandshakeRx::Complete,
            (s, _) => s,
        };
    }
}

/// Once complete, the transmitter stays complete whatever it is told.
pub proof fn lemma_tx_complete_is_final(e: HandshakeTxEvent)
    ensures
        tx_next(HandshakeTx::Complete, e) == HandshakeTx::Complete,
{
}

/// Once complete, the receiver stays complete whatever it is told.
pub proof fn lemma_rx_complete_is_final(e: HandshakeRxEvent)
    ensures
        rx_next(HandshakeRx::Complete, e) == HandshakeRx::Complete,
{
}

/// The receiver only moves forward: each transition is the identity or the
/// next state in the order `AwaitAddressChange`, `Receive`, `Complete`.
pub proof fn lemma_rx_moves_forward(s: HandshakeRx, e: HandshakeRxEvent)
    ensures
        rx_next(s, e) == s || (s is AwaitAddressChange && rx_next(s, e) is Receive) || (
        s is Receive && rx_next(s, e) is Complete),
{
}

/// This is a conservative limit on the payload of one data packet.
pub const MAX_PACKET_PAYLOAD_SIZE: usize = 51_200;

/// The largest payload one UDP datagram carries.
pub const MAX_DATAGRAM_PAYLOAD: usize = 65_507;

/// Whether a payload of `len` bytes fits in one UDP datagram.
pub fn datagram_fits(len: usize) -> (res: bool)
    ensures
        res == (len <= MAX_DATAGRAM_PAYLOAD),
{
    len <= MAX_DATAGRAM_PAYLOAD
}

/// Number of segments a payload of `len` bytes is cut into.
pub open spec fn num_segments_spec(len: nat) -> nat {
    ((len + MAX_PACKET_PAYLOAD_SIZE - 1) / (MAX_PACKET_PAYLOAD_SIZE as int)) as nat
}

/// Segment `k` of payload `p`.
pub open spec fn segment(p: Seq<u8>, k: nat) -> Seq<u8> {
    let start = k * MAX_PACKET_PAYLOAD_SIZE;
    let end = if start + MAX_PACKET_PAYLOAD_SIZE <= p.len() {
        start + MAX_PACKET_PAYLOAD_SIZE
    } else {
        p.len() as int
    };
    p.subrange(start as int, end)
}

/// Segments `0..m` of `p`, in order.
pub open spec fn segments_upto(p: Seq<u8>, m: nat) -> Seq<u8>
    decreases m,
{
    if m == 0 {
        seq![]
    } else {
        segments_upto(p, (m - 1) as nat) + segment(p, (m - 1) as nat)
    }
}

/// Number of segments a payload of `len` bytes is cut into.
pub fn num_segments(len: usize) -> (res: usize)
    ensures
        res == num_segments_spec(len as nat),
{
    len / MAX_PACKET_PAYLOAD_SIZE + if len % MAX_PACKET_PAYLOAD_SIZE == 0 {
        0
    } else {
        1
    }
}

/// The data packet that answers a request for segment `seq` of `payload`;
/// `None` when the payload has no such segment. It carries the segment's
/// hash.
pub fn data_packet(payload: &[u8], seq: u64) -> (res: Option<TransmissionPacket>)
    ensures
        seq >= num_segments_spec(payload@.len()) ==> res is None,
        seq < num_segments_spec(payload@.len()) ==> (res matches Some(
            TransmissionPacket::Data { seq: s, hash, data, last },
        ) && s == seq as u32 && data@ == segment(
            payload@,
            seq as nat,
        ) && hash == data_hash(data@) && last == (seq + 1 == num_segments_spec(payload@.len()))),
{
    let n = num_segments(payload.len());
    if seq >= n as u64 {
        return None;
    }
    let start = seq as usize * MAX_PACKET_PAYLOAD_SIZE;
    let last = seq as usize + 1 == n;
    let end = if last {
        payload.len()
    } else {
        start + MAX_PACKET_PAYLOAD_SIZE
    };
    let data_slice = &payload[start..end];
    let hash = hash_primary(data_slice);
    let mut data: Vec<u8> = Vec::new();
    crate::ser_de::extend_bytes(&mut data, data_slice);
    assert(data@ =~= segment(payload@, seq as nat));
    Some(TransmissionPacket::Data { seq: seq as u32, hash, data, last })
}

/// The segments of a payload, taken in order, make up the payload.
pub proof fn lemma_segments_cover_payload(p: Seq<u8>)
    ensures
        segments_upto(p, num_segments_spec(p.len())) == p,
{
    lemma_segments_prefix(p, num_segments_spec(p.len()));
    assert(p.subrange(0, p.len() as int) =~= p);
}

/// The first `m` segments make up the first `m * MAX_PACKET_PAYLOAD_SIZE` bytes.
proof fn lemma_segments_prefix(p: Seq<u8>, m: nat)
    requires
        m <= num_segments_spec(p.len()),
    ensures
        segments_upto(p, m) == p.subrange(
            0,
            if m * MAX_PACKET_PAYLOAD_SIZE <= p.len() {
                m * MAX_PACKET_PAYLOAD_SIZE
            } else {
                p.len() as int
            },
        ),
    decreases m,
{
    if m == 0 {
        assert(p.subrange(0, 0) =~= Seq::<u8>::empty());
    } else {
        lemma_segments_prefix(p, (m - 1) as nat);
        let k = (m - 1) as nat;
        assert(k * MAX_PACKET_PAYLOAD_SIZE < p.len());
        let a = p.subrange(0, k * MAX_PACKET_PAYLOAD_SIZE);
        assert(a + segment(p, k) =~= p.subrange(
            0,
            if m * MAX_PACKET_PAYLOAD_SIZE <= p.len() {
                m * MAX_PACKET_PAYLOAD_SIZE
            } else {
                p.len() as int
            },
        ));
    }
}

/// What the transmitter does after receiving a packet while transmitting.
#[derive(Debug, Clone, Copy, PartialEq, Eq, Structural)]
pub enum TxStep {
    /// Send the requested segment.
    SendSegment(u64),
    /// Leave the transmit loop (the state has changed).
    Exit,
    /// Keep waiting for requests.
    Wait,
}

/// The transmitter's reaction to a packet received in the transmit state.
pub fn tx_on_packet(state: &mut HandshakeTx, packet: &TransmissionPacket) -> (res: TxStep)
    ensures
        packet is SwitchToAddress ==> res is Exit && *final(state) == tx_next(
            *old(state),
            HandshakeTxEvent::ReceiveNewAddr,
        ),
        packet is Complete ==> res is Exit && *final(state) == tx_next(
            *old(state),
            HandshakeTxEvent::AcknowledgeLast,
        ),
        packet matches TransmissionPacket::Sequence(n) ==> res == TxStep::SendSegment(*n)
            && *final(state) == *old(state),
        (packet is Data || packet is Ack) ==> res is Wait && *final(state) == *old(state),
{
    match packet {
        TransmissionPacket::SwitchToAddress(_) => {
            state.ingest(HandshakeTxEvent::ReceiveNewAddr);
            TxStep::Exit
        },
        TransmissionPacket::Sequence(n) => TxStep::SendSegment(*n),
        TransmissionPacket::Complete => {
            state.ingest(HandshakeTxEvent::AcknowledgeLast);
            TxStep::Exit
        },
        _ => TxStep::Wait,
    }
}

/// The transmitter's reaction to the answer to its address change: the
/// receiver's new address, if the answer carries one.
pub fn tx_on_address_reply(state: &mut HandshakeTx, packet: &TransmissionPacket) -> (res: Option<
    SockAddrV4,
>)
    ensures
        packet matches TransmissionPacket::SwitchToAddress(a) ==> res == Some(*a) && *final(state)
            == tx_next(*old(state), HandshakeTxEvent::ReceiveNewAddr),
        !(packet is SwitchToAddress) ==> res is None && *final(state) == *old(state),
{
    match packet {
        TransmissionPacket::SwitchToAddress(a) => {
            state.ingest(HandshakeTxEvent::ReceiveNewAddr);
            Some(*a)
        },
        _ => None,
    }
}

/// The address carried by an address-change packet, if it is one.
pub fn switch_address(packet: &TransmissionPacket) -> (res: Option<SockAddrV4>)
    ensures
        packet matches TransmissionPacket::SwitchToAddress(a) ==> res == Some(*a),
        !(packet is SwitchToAddress) ==> res is None,
{
    match packet {
        TransmissionPacket::SwitchToAddress(a) => Some(*a),
        _ => None,
    }
}

/// Whether a packet received after the final acknowledgement asks for it
/// again (a repeated `Complete`); any other packet is an error.
pub fn final_ack_repeat(packet: &TransmissionPacket) -> (res: bool)
    ensures
        res <==> packet is Complete,
{
    match packet {
        TransmissionPacket::Complete => true,
        _ => false,
    }
}

/// What the receiver does after handling a packet.
#[derive(Debug, Clone, Copy, PartialEq, Eq, Structural)]
pub enum RxStep {
    /// Request the next (or the same) segment.
    Continue,
    /// Leave the receive loop (the state has changed).
    Finished,
}

/// The receiver's progress through a transfer.
pub struct RxSession {
    /// The next sequence number expected.
    sequence_num: u64,
    /// The sequence number requested last and how many times in a row.
    repeated: Option<(u64, u8)>,
    /// Maximum number of consecutive requests for one sequence number.
    retries: u8,
    /// The data received so far.
    data: Vec<u8>,
}

/// The session after `packet` is handled, when its integrity check came out
/// `intact` (a data packet's hash matching its data).
pub open spec fn rx_step(
    pre: RxSession,
    s0: HandshakeRx,
    packet: TransmissionPacket,
    intact: bool,
    post: RxSession,
    s1: HandshakeRx,
    res: RxStep,
) -> bool {
    &&& post.retries() == pre.retries()
    &&& post.last_request() == pre.last_request()
    &&& post.requests() == pre.requests()
    &&& match packet {
        TransmissionPacket::Data { seq, hash, data, last } => {
            if seq == pre.next_seq() as u32 && intact {
                &&& post.received() == pre.received() + data@
                &&& post.next_seq() == pre.next_seq() + 1
                &&& (last ==> res is Finished && s1 == rx_next(s0, HandshakeRxEvent::ReceivedAll))
                &&& (!last ==> res is Continue && s1 == s0)
            } else {
                &&& post.received() == pre.received()
                &&& post.next_seq() == pre.next_seq()
                &&& res is Continue
                &&& s1 == s0
            }
        },
        TransmissionPacket::SwitchToAddress(_) => {
            &&& res is Finished
            &&& s1 == rx_next(s0, HandshakeRxEvent::SendNewAddr)
            &&& post.received() == pre.received()
            &&& post.next_seq() == pre.next_seq()
        },
        TransmissionPacket::Complete => {
            &&& res is Finished
            &&& s1 == rx_next(s0, HandshakeRxEvent::ReceivedAll)
            &&& post.received() == pre.received()
            &&& post.next_seq() == pre.next_seq()
        },
        _ => {
            &&& res is Continue
            &&& s1 == s0
            &&& post.received() == pre.received()
            &&& post.next_seq() == pre.next_seq()
        },
    }
}

/// Whether a packet arrived intact: a data packet carries the hash of its
/// data; other packets carry nothing to check.
pub open spec fn packet_intact(packet: TransmissionPacket) -> bool {
    match packet {
        TransmissionPacket::Data { seq: _, hash, data, last: _ } => hash == data_hash(data@),
        _ => true,
    }
}

/// A receiver takes a data packet into the payload exactly when it carries
/// the expected sequence number and the hash of its data: then the data is
/// appended and the next segment becomes expected. Any other data packet
/// leaves the payload and the expected number as they were, and the
/// session goes on.
pub proof fn lemma_rx_accepts_only_intact_expected_data(
    pre: RxSession,
    s0: HandshakeRx,
    packet: TransmissionPacket,
    post: RxSession,
    s1: HandshakeRx,
    res: RxStep,
)
    requires
        rx_step(pre, s0, packet, packet_intact(packet), post, s1, res),
    ensures
        match packet {
            TransmissionPacket::Data { seq, hash, data, last } => {
                &&& (post.next_seq() != pre.next_seq() <==> (seq == pre.next_seq() as u32 && hash
                    == data_hash(data@)))
                &&& (seq == pre.next_seq() as u32 && hash == data_hash(data@)) ==> post.received()
                    == pre.received() + data@ && post.next_seq() == pre.next_seq() + 1
                &&& !(seq == pre.next_seq() as u32 && hash == data_hash(data@)) ==> post.received()
                    == pre.received() && res is Continue && s1 == s0
            },
            _ => post.received() == pre.received() && post.next_seq() == pre.next_seq(),
        },
{
}

/// A segment as the sender makes it is taken by a receiver that expects it:
/// its data is appended to what was received.
pub proof fn lemma_sent_segment_accepted(
    payload: Seq<u8>,
    seq: u64,
    pre: RxSession,
    s0: HandshakeRx,
    post: RxSession,
    s1: HandshakeRx,
    res: RxStep,
    packet: TransmissionPacket,
)
    requires
        seq < num_segments_spec(payload.len()),
        pre.next_seq() == seq,
        packet matches TransmissionPacket::Data { seq: s, hash, data, last } && s == seq as u32
            && data@ == segment(payload, seq as nat) && hash == data_hash(data@),
        rx_step(pre, s0, packet, packet_intact(packet), post, s1, res),
    ensures
        post.received() == pre.received() + segment(payload, seq as nat),
        post.next_seq() == seq + 1,
{
}

impl RxSession {
    /// The next sequence number expected.
    pub closed spec fn next_seq(&self) -> u64 {
        self.sequence_num
    }

    /// The sequence number requested last, if any.
    pub closed spec fn last_request(&self) -> Option<u64> {
        match self.repeated {
            Some((s, _)) => Some(s),
            None => None,
        }
    }

    /// How many times in a row the sequence number requested last was
    /// requested.
    pub closed spec fn requests(&self) -> nat {
        match self.repeated {
            Some((_, c)) => c as nat,
            None => 0,
        }
    }

    /// The retry limit.
    pub closed spec fn retries(&self) -> u8 {
        self.retries
    }

    /// The data received so far.
    pub closed spec fn received(&self) -> Seq<u8> {
        self.data@
    }

    /// Well-formedness: the request count never exceeds the retry limit.
    pub closed spec fn wf(&self) -> bool {
        self.requests() <= self.retries
    }

    /// Start receiving with at most `retries` consecutive requests per segment.
    pub fn new(retries: u8) -> (res: Self)
        ensures
            res.wf(),
            res.next_seq() == 0,
            res.last_request() is None,
            res.requests() == 0,
            res.retries() == retries,
            res.received() == Seq::<u8>::empty(),
    {
        Self { sequence_num: 0, repeated: None, retries, data: Vec::new() }
    }

    /// The sequence number to request next, or `None` when the number
    /// requested last has already been requested `retries` times in a row
    /// (the transfer timed out); the count is checked before it starts over
    /// for a new number.
    pub fn next_request(&mut self) -> (res: Option<u64>)
        requires
            old(self).wf(),
        ensures
            final(self).wf(),
            final(self).next_seq() == old(self).next_seq(),
            final(self).retries() == old(self).retries(),
            final(self).received() == old(self).received(),
            old(self).requests() >= old(self).retries() ==> res is None && final(self).last_request()
                == old(self).last_request() && final(self).requests() == old(self).requests(),
            old(self).requests() < old(self).retries() ==> {
                &&& res == Some(old(self).next_seq())
                &&& final(self).last_request() == Some(old(self).next_seq())
                &&& final(self).requests() == if old(self).last_request() == Some(
                    old(self).next_seq(),
                ) {
                    old(self).requests() + 1
                } else {
                    1
                }
            },
    {
        let (last, count): (Option<u64>, u8) = match self.repeated {
            Some((s, c)) => (Some(s), c),
            None => (None, 0),
        };
        if count >= self.retries {
            return None;
        }
        let next_count: u8 = match last {
            Some(s) => if s == self.sequence_num {
                count + 1
            } else {
                1
            },
            None => 1,
        };
        self.repeated = Some((self.sequence_num, next_count));
        Some(self.sequence_num)
    }

    /// Handles a packet received while in the receive state, its integrity
    /// check having come out `intact`.
    ///
    /// A data packet is accepted when it carries the expected sequence number
    /// and is intact: its data is appended and the next segment becomes
    /// expected. An accepted last packet, an address change or a completion
    /// end the loop.
    pub fn on_checked_packet(
        &mut self,
        state: &mut HandshakeRx,
        packet: TransmissionPacket,
        intact: bool,
    ) -> (res: RxStep)
        requires
            old(self).wf(),
            old(self).next_seq() < u64::MAX,
        ensures
            final(self).wf(),
            rx_step(*old(self), *old(state), packet, intact, *final(self), *final(state), res),
    {
        match packet {
            TransmissionPacket::Data { seq, hash: _, data, last } => {
                if seq == self.sequence_num as u32 && intact {
                    crate::ser_de::extend_bytes(&mut self.data, data.as_slice());
                    self.sequence_num = self.sequence_num + 1;
                    if last {
                        state.ingest(HandshakeRxEvent::ReceivedAll);
                        RxStep::Finished
                    } else {
                        RxStep::Continue
                    }
                } else {
                    RxStep::Continue
                }
            },
            TransmissionPacket::SwitchToAddress(_) => {
                state.ingest(HandshakeRxEvent::SendNewAddr);
                RxStep::Finished
            },
            TransmissionPacket::Complete => {
                state.ingest(HandshakeRxEvent::ReceivedAll);
                RxStep::Finished
            },
            _ => RxStep::Continue,
        }
    }

    /// Handles a packet received while in the receive state: a data packet's
    /// hash is checked against the hash of its data made here, then
    /// [`RxSession::on_checked_packet`] acts.
    pub fn on_packet(&mut self, state: &mut HandshakeRx, packet: TransmissionPacket) -> (res: RxStep)
        requires
            old(self).wf(),
            old(self).next_seq() < u64::MAX,
        ensures
            final(self).wf(),
            rx_step(*old(self), *old(state), packet, true, *final(self), *final(state), res)
                || rx_step(*old(self), *old(state), packet, false, *final(self), *final(state), res),
            rx_step(*old(self), *old(state), packet, packet_intact(packet), *final(self), *final(state), res),
    {
        let intact = match &packet {
            TransmissionPacket::Data { seq: _, hash, data, last: _ } => *hash == hash_primary(
                data.as_slice(),
            ),
            _ => true,
        };
        self.on_checked_packet(state, packet, intact)
    }

    /// The data received so far.
    pub fn received_data(&self) -> (res: &Vec<u8>)
        ensures
            res@ == self.received(),
    {
        &self.data
    }

    /// Ends the session, returning the data received.
    pub fn into_data(self) -> (res: Vec<u8>)
        ensures
            res@ == self.received(),
    {
        self.data
    }
}

} // verus!
