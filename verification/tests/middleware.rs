use std::time::{Duration, Instant};
use rfs::fsm::TransitableState;
use rfs::middleware::dispatch::{hash_to_boolean, DuplicateFilter};
use rfs::middleware::handshake_proto::{
    data_packet, datagram_fits, num_segments, HandshakeRx, HandshakeRxEvent, HandshakeTx, HandshakeTxEvent, RxSession,
    RxStep, MAX_PACKET_PAYLOAD_SIZE,
};
use rfs::middleware::{
    ack_for, check_ack, decide_with_probability, probability_frac, AckOutcome, FaultyRequestAckProto,
    InvokeError, IoErrorKind, TransmissionPacket,
};

/// The hash the library checks data against, as carried by an ack.
fn hash_primary(bytes: &[u8]) -> u64 {
    match ack_for(bytes) {
        TransmissionPacket::Ack(h) => h,
        _ => unreachable!(),
    }
}

#[derive(Clone, Copy, Debug)]
enum SimpleMachine {
    Off,
    On,
    Running,
}

impl Default for SimpleMachine {
    fn default() -> Self {
        SimpleMachine::Off
    }
}

enum SimpleMachineEvents {
    PowerButtonPress,
    Start,
    Stop,
}

impl TransitableState for SimpleMachine {
    type Event = SimpleMachineEvents;

    fn ingest(&mut self, event: Self::Event) {
        *self = match (*self, event) {
            (SimpleMachine::Off, SimpleMachineEvents::PowerButtonPress) => SimpleMachine::On,
            (SimpleMachine::On, SimpleMachineEvents::PowerButtonPress) => SimpleMachine::Off,
            (SimpleMachine::On, SimpleMachineEvents::Start) => SimpleMachine::Running,
            (SimpleMachine::Running, SimpleMachineEvents::Stop) => SimpleMachine::On,
            (SimpleMachine::Running, SimpleMachineEvents::PowerButtonPress) => SimpleMachine::Off,
            (s, _) => s,
        }
    }
}

#[test]
fn test_state_transitions() {
    let mut machine = SimpleMachine::default();

    machine.ingest(SimpleMachineEvents::PowerButtonPress);
    assert!(matches!(machine, SimpleMachine::On));

    machine.ingest(SimpleMachineEvents::Start);
    assert!(matches!(machine, SimpleMachine::Running));

    machine.ingest(SimpleMachineEvents::Start);
    assert!(matches!(machine, SimpleMachine::Running));

    machine.ingest(SimpleMachineEvents::Stop);
    assert!(matches!(machine, SimpleMachine::On));

    machine.ingest(SimpleMachineEvents::Start);
    assert!(matches!(machine, SimpleMachine::Running));

    machine.ingest(SimpleMachineEvents::PowerButtonPress);
    assert!(matches!(machine, SimpleMachine::Off));
}

#[test]
fn test_prob() {
    let frac = 10;

    let probs = (0..64)
        .into_iter()
        .map(|_| match probability_frac(frac) {
            true => 1,
            false => 0,
        })
        .collect::<Vec<_>>();

    let s: i32 = probs.iter().sum();

    println!("1 in {} yields {}", frac, s);
}

#[test]
fn test_hash_to_bool() {
    for _ in 0..100 {
        let now = format!("{:?}", std::time::Instant::now());
        let res = hash_to_boolean(now.as_bytes());

        println!("{:?}", res);
    }
}

/// Waits for `ms` milliseconds of the monotonic clock.
fn wait_ms(ms: u64) {
    let start = Instant::now();
    while start.elapsed() < Duration::from_millis(ms) {}
}

#[test]
fn test_block_duplicates() {
    // lifetime of 200 ms times 4 retries, on the clock
    let mut filter = DuplicateFilter::new(200_000_000, 4);

    let data = vec![1, 2, 3, 4, 5];
    let res = filter.process(&data);
    assert_eq!(res, Some(data.clone()));

    let res = filter.process(&data);
    assert_eq!(res, None);

    wait_ms(500);
    let res = filter.process(&data);
    assert_eq!(res, None);

    wait_ms(500);
    let res = filter.process(&data);
    assert_eq!(res, Some(data.clone()));
}

#[test]
fn block_duplicates_at_given_times() {
    // lifetime of 200 ms times 4 retries, times in nanoseconds
    let mut filter = DuplicateFilter::new(200_000_000, 4);

    let data = vec![1, 2, 3, 4, 5];
    let res = filter.process_at(&data, 0);

    assert_eq!(res, Some(data.clone()));

    let res = filter.process_at(&data, 0);
    assert_eq!(res, None);

    let res = filter.process_at(&data, 500_000_000);
    assert_eq!(res, None);

    let res = filter.process_at(&data, 1_000_000_000);
    assert_eq!(res, Some(data.clone()));
}

#[test]
fn duplicate_filter_keeps_other_data_apart() {
    let mut filter = DuplicateFilter::new(100, 1);
    assert!(filter.process_at(&[1], 10).is_some());
    assert!(filter.process_at(&[2], 20).is_some());
    assert!(filter.process_at(&[1], 60).is_none());
    // exactly the lifetime later is still blocked
    assert!(filter.process_at(&[1], 110).is_none());
    assert!(filter.process_at(&[1], 111).is_some());
    assert!(filter.process_at(&[2], 111).is_none());
    assert!(filter.process_at(&[2], 121).is_some());
}

#[test]
fn duplicate_filter_compares_below_a_millisecond() {
    // a lifetime of 800 ms: a repeat 800.5 ms later passes
    let mut filter = DuplicateFilter::new(400_000_000, 2);
    assert!(filter.process_at(&[3], 0).is_some());
    assert!(filter.process_at(&[3], 800_000_000).is_none());
    assert!(filter.process_at(&[3], 800_500_000).is_some());
}

#[test]
fn duplicate_filter_without_lifetime_lets_all_through() {
    let mut filter = DuplicateFilter::new(100, 0);
    assert!(filter.process_at(&[9], 5).is_some());
    assert!(filter.process_at(&[9], 5).is_some());
}

#[test]
fn duplicate_filter_with_clock() {
    let mut filter = DuplicateFilter::new(60_000_000_000, 1);
    assert!(filter.process(&[4, 2]).is_some());
    assert!(filter.process(&[4, 2]).is_none());
}

#[test]
fn hash_to_boolean_is_deterministic() {
    let a = hash_to_boolean(b"same bytes");
    let b = hash_to_boolean(b"same bytes");
    assert_eq!(a, b);
}

#[test]
fn ack_checks() {
    let payload = vec![1u8, 2, 3];
    let ack = ack_for(&payload);
    assert!(matches!(ack, TransmissionPacket::Ack(_)));
    assert_eq!(check_ack(&ack, &payload), AckOutcome::Matched);
    assert_eq!(check_ack(&ack, &[1u8, 2]), AckOutcome::Mismatched);
    assert_eq!(check_ack(&TransmissionPacket::Complete, &payload), AckOutcome::NotAnAck);
}

#[test]
fn probability_decisions() {
    // one in one always hits
    assert!(decide_with_probability(12345, 1));
    assert!(decide_with_probability(0, 10));
    assert!(!decide_with_probability(u64::MAX - 1, 10));
    let faulty = FaultyRequestAckProto::from_frac(7);
    assert_eq!(faulty.get_frac(), 7);
}

#[test]
fn invoke_error_io_kinds() {
    assert_eq!(InvokeError::from_io_kind(IoErrorKind::TimedOut), Some(InvokeError::RequestTimedOut));
    assert_eq!(InvokeError::from_io_kind(IoErrorKind::BrokenPipe), Some(InvokeError::DataTransmissionFailed));
    assert_eq!(InvokeError::from_io_kind(IoErrorKind::InvalidData), Some(InvokeError::InvalidData));
    assert_eq!(InvokeError::from_io_kind(IoErrorKind::NotFound), None);
    assert_eq!(InvokeError::HandlerNotFound.io_kind(), IoErrorKind::NotFound);
    assert_eq!(InvokeError::DuplicateRequest.io_kind(), IoErrorKind::Interrupted);
}

#[test]
fn handshake_transitions() {
    let mut tx = HandshakeTx::default();
    assert_eq!(tx, HandshakeTx::SendAddressChange);
    tx.ingest(HandshakeTxEvent::ReceiveNewAddr);
    assert_eq!(tx, HandshakeTx::Transmit);
    tx.ingest(HandshakeTxEvent::AcknowledgeLast);
    assert_eq!(tx, HandshakeTx::Complete);
    tx.ingest(HandshakeTxEvent::ReceiveNewAddr);
    assert_eq!(tx, HandshakeTx::Complete);

    let mut rx = HandshakeRx::default();
    assert_eq!(rx, HandshakeRx::AwaitAddressChange);
    rx.ingest(HandshakeRxEvent::SendNewAddr);
    assert_eq!(rx, HandshakeRx::Receive);
    rx.ingest(HandshakeRxEvent::ReceivedAll);
    assert_eq!(rx, HandshakeRx::Complete);
}

#[test]
fn segments_cover_payload() {
    assert_eq!(num_segments(0), 0);
    assert_eq!(num_segments(1), 1);
    assert_eq!(num_segments(MAX_PACKET_PAYLOAD_SIZE), 1);
    assert_eq!(num_segments(MAX_PACKET_PAYLOAD_SIZE + 1), 2);

    let payload: Vec<u8> = (0..(MAX_PACKET_PAYLOAD_SIZE + 10)).map(|i| (i % 251) as u8).collect();
    let mut rebuilt = Vec::new();
    for seq in 0..num_segments(payload.len()) {
        match data_packet(&payload, seq as u64) {
            Some(TransmissionPacket::Data { seq: s, hash, data, last }) => {
                assert_eq!(s as usize, seq);
                assert_eq!(hash, hash_primary(&data));
                assert_eq!(last, seq + 1 == num_segments(payload.len()));
                rebuilt.extend_from_slice(&data);
            }
            _ => panic!("segment missing"),
        }
    }
    assert_eq!(rebuilt, payload);
    assert!(data_packet(&payload, 2).is_none());
}

#[test]
fn receiver_session_collects_segments() {
    let mut session = RxSession::new(3);
    let mut state = HandshakeRx::Receive;
    assert_eq!(session.next_request(), Some(0));

    let first = vec![1u8, 2];
    let step = session.on_packet(
        &mut state,
        TransmissionPacket::Data { seq: 0, hash: hash_primary(&first), data: first.clone(), last: false },
    );
    assert!(matches!(step, RxStep::Continue));
    assert_eq!(session.next_request(), Some(1));

    // a corrupted packet is ignored
    let step = session.on_packet(
        &mut state,
        TransmissionPacket::Data { seq: 1, hash: 0, data: vec![9], last: true },
    );
    assert!(matches!(step, RxStep::Continue));
    assert_eq!(session.next_request(), Some(1));

    let second = vec![3u8];
    let step = session.on_packet(
        &mut state,
        TransmissionPacket::Data { seq: 1, hash: hash_primary(&second), data: second.clone(), last: true },
    );
    assert!(matches!(step, RxStep::Finished));
    assert_eq!(state, HandshakeRx::Complete);
    assert_eq!(session.into_data(), vec![1u8, 2, 3]);
}

#[test]
fn receiver_session_counts_requests_per_sequence() {
    let mut session = RxSession::new(2);
    assert_eq!(session.next_request(), Some(0));
    assert_eq!(session.next_request(), Some(0));
    // two requests in a row for segment 0: the transfer timed out
    assert_eq!(session.next_request(), None);
    assert_eq!(session.next_request(), None);
}

#[test]
fn receiver_session_checks_count_before_new_sequence() {
    // with one retry, a second request of any kind times out, even for the
    // next segment after the first was accepted
    let mut session = RxSession::new(1);
    let mut state = HandshakeRx::Receive;
    assert_eq!(session.next_request(), Some(0));
    let first = vec![7u8];
    let step = session.on_packet(
        &mut state,
        TransmissionPacket::Data { seq: 0, hash: hash_primary(&first), data: first.clone(), last: false },
    );
    assert!(matches!(step, RxStep::Continue));
    assert_eq!(session.next_request(), None);

    let mut none = RxSession::new(0);
    assert_eq!(none.next_request(), None);
}

#[test]
fn receiver_session_checked_packets() {
    let mut session = RxSession::new(4);
    let mut state = HandshakeRx::Receive;
    // the integrity verdict is handed in: a mismatch leaves the data as it was
    let step = session.on_checked_packet(
        &mut state,
        TransmissionPacket::Data { seq: 0, hash: 5, data: vec![1], last: true },
        false,
    );
    assert!(matches!(step, RxStep::Continue));
    assert!(session.received_data().is_empty());
    let step = session.on_checked_packet(
        &mut state,
        TransmissionPacket::Data { seq: 0, hash: 5, data: vec![1], last: true },
        true,
    );
    assert!(matches!(step, RxStep::Finished));
    assert_eq!(state, HandshakeRx::Complete);
    assert_eq!(session.into_data(), vec![1u8]);
}

#[test]
fn datagram_payload_limit() {
    assert!(datagram_fits(0));
    assert!(datagram_fits(65_507));
    assert!(!datagram_fits(65_508));
}
