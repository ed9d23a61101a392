use telemetry_node::codec::connack::{encode_connack, ConnectAck};
use telemetry_node::codec::connect::{decode_connect, ConnectRequest};
use telemetry_node::codec::error::EncodeError;
use telemetry_node::codec::publish::{decode_publish, encode_publish, Delivery, QoS};
use telemetry_node::codec::wire::{frame_progress, FrameProgress};
use telemetry_node::session::{
    next_packet_id, pump, PumpStep, Session, SessionError, SessionEvent, SessionState,
};

/// A stream that records what is written and answers reads from a script.
struct MockStream {
    written: Vec<u8>,
    incoming: Vec<u8>,
    at: usize,
    fail_writes: bool,
}

impl MockStream {
    fn new(incoming: Vec<u8>) -> MockStream {
        MockStream { written: Vec::new(), incoming, at: 0, fail_writes: false }
    }

    fn write_all(&mut self, bytes: &[u8]) -> Result<(), ()> {
        if self.fail_writes {
            return Err(());
        }
        self.written.extend_from_slice(bytes);
        Ok(())
    }

    fn read_exact(&mut self, n: usize) -> Result<Vec<u8>, ()> {
        if self.at + n > self.incoming.len() {
            return Err(());
        }
        let bytes = self.incoming[self.at..self.at + n].to_vec();
        self.at += n;
        Ok(bytes)
    }

    fn read_frame(&mut self) -> Option<Vec<u8>> {
        let mut buffer = Vec::new();
        loop {
            match frame_progress(&buffer) {
                FrameProgress::Need(n) => buffer.extend(self.read_exact(n).ok()?),
                FrameProgress::Complete => return Some(buffer),
                FrameProgress::Invalid => return Some(buffer),
            }
        }
    }
}

/// The blocking handshake, as an application runs it over a stream.
fn connect(stream: &mut MockStream, identity: ConnectRequest) -> Result<Session, SessionError> {
    let mut session = Session::new(identity);
    let request = session.connect()?;
    if stream.write_all(&request).is_err() {
        return Err(session.transport_failed());
    }
    match stream.read_frame() {
        Some(reply) => session.accept(&reply)?,
        None => return Err(session.transport_failed()),
    }
    Ok(session)
}

fn identity() -> ConnectRequest {
    ConnectRequest::new("node-1", true, 60).unwrap()
}

fn ready_session() -> Session {
    let mut stream = MockStream::new(encode_connack(false, ConnectAck::Accepted));
    connect(&mut stream, identity()).unwrap()
}

#[test]
fn accepted_handshake_opens_the_session() {
    let mut stream = MockStream::new(encode_connack(false, ConnectAck::Accepted));
    let session = connect(&mut stream, identity()).unwrap();
    assert_eq!(session.state(), SessionState::Ready);
    assert_eq!(decode_connect(&stream.written), Ok(identity()));
}

#[test]
fn rejected_handshake_closes_the_session() {
    let mut stream = MockStream::new(encode_connack(false, ConnectAck::IdentifierRejected));
    let outcome = connect(&mut stream, identity());
    assert_eq!(outcome.err(), Some(SessionError::Rejected(ConnectAck::IdentifierRejected)));

    // Step by step: the session is closed and publishes nothing.
    let mut session = Session::new(identity());
    session.connect().unwrap();
    assert_eq!(session.state(), SessionState::Handshaking);
    assert_eq!(
        session.accept(&encode_connack(false, ConnectAck::IdentifierRejected)),
        Err(SessionError::Rejected(ConnectAck::IdentifierRejected))
    );
    assert_eq!(session.state(), SessionState::Closed);
    assert_eq!(
        session.publish("measurements", b"x", QoS::AtMostOnce),
        Err(SessionError::NotReady)
    );
    assert_eq!(session.subscribe("measurements"), Err(SessionError::NotReady));
    assert_eq!(session.connect(), Err(SessionError::NotReady));
    assert_eq!(session.state(), SessionState::Closed);
}

#[test]
fn every_refusal_is_reported_with_its_verdict() {
    for verdict in [
        ConnectAck::ProtocolRejected,
        ConnectAck::IdentifierRejected,
        ConnectAck::ServerUnavailable,
        ConnectAck::BadCredentials,
        ConnectAck::NotAuthorized,
    ] {
        let mut stream = MockStream::new(encode_connack(false, verdict));
        assert_eq!(
            connect(&mut stream, identity()).err(),
            Some(SessionError::Rejected(verdict))
        );
    }
}

#[test]
fn handshake_transport_failures() {
    // The stream ends before the acknowledgment.
    let mut stream = MockStream::new(vec![0x20, 0x02, 0x00]);
    assert_eq!(connect(&mut stream, identity()).err(), Some(SessionError::Transport));
    // The write fails.
    let mut stream = MockStream::new(encode_connack(false, ConnectAck::Accepted));
    stream.fail_writes = true;
    assert_eq!(connect(&mut stream, identity()).err(), Some(SessionError::Transport));
    // The reply is no acknowledgment, or carries an unknown return code.
    for reply in [vec![0x30, 0x02, 0x00, 0x00], vec![0x20, 0x02, 0x00, 0x06], vec![0x20, 0x01, 0x00]] {
        let mut session = Session::new(identity());
        session.connect().unwrap();
        assert_eq!(session.accept(&reply), Err(SessionError::Transport));
        assert_eq!(session.state(), SessionState::Closed);
    }
}

#[test]
fn operations_out_of_state_change_nothing() {
    let mut session = Session::new(identity());
    assert_eq!(session.state(), SessionState::Unconnected);
    assert_eq!(
        session.accept(&encode_connack(false, ConnectAck::Accepted)),
        Err(SessionError::NotReady)
    );
    assert_eq!(session.publish("t", b"x", QoS::AtMostOnce), Err(SessionError::NotReady));
    assert_eq!(session.state(), SessionState::Unconnected);
    assert!(session.connect().is_ok());
    assert_eq!(session.connect(), Err(SessionError::NotReady));
    assert_eq!(session.state(), SessionState::Handshaking);
    assert_eq!(session.publish("t", b"x", QoS::AtMostOnce), Err(SessionError::NotReady));

    let mut session = ready_session();
    assert_eq!(
        session.accept(&encode_connack(false, ConnectAck::Accepted)),
        Err(SessionError::NotReady)
    );
    assert_eq!(session.state(), SessionState::Ready);
}

#[test]
fn publish_frames_the_message() {
    let mut session = ready_session();
    let payload = "23\u{b0}C 47%RH".as_bytes();
    let frame = session.publish("measurements", payload, QoS::AtMostOnce).unwrap();
    assert_eq!(
        Ok(frame.clone()),
        encode_publish("measurements", Delivery::AtMostOnce, false, payload)
    );
    let decoded = decode_publish(&frame).unwrap();
    assert_eq!(decoded.topic, "measurements");
    assert_eq!(decoded.payload, payload);
    assert_eq!(decoded.delivery.qos(), QoS::AtMostOnce);
    assert!(!decoded.retain);
    assert_eq!(session.state(), SessionState::Ready);
}

#[test]
fn packet_identifiers_count_up() {
    let mut session = ready_session();
    let first = session.publish("t", b"", QoS::AtLeastOnce).unwrap();
    assert_eq!(decode_publish(&first).unwrap().delivery, Delivery::AtLeastOnce(1));
    // The unacknowledged level uses no identifier.
    let second = session.publish("t", b"", QoS::AtMostOnce).unwrap();
    assert_eq!(decode_publish(&second).unwrap().delivery, Delivery::AtMostOnce);
    let third = session.publish("t", b"", QoS::ExactlyOnce).unwrap();
    assert_eq!(decode_publish(&third).unwrap().delivery, Delivery::ExactlyOnce(2));
    // A message that cannot be framed uses none either.
    assert_eq!(
        session.publish("a/#", b"", QoS::AtLeastOnce),
        Err(SessionError::Invalid(EncodeError::WildcardInTopic))
    );
    let subscribe = session.subscribe("a/#").unwrap();
    assert_eq!(subscribe, vec![0x82, 8, 0x00, 0x03, 0x00, 0x03, b'a', b'/', b'#', 0x00]);
    assert_eq!(
        session.subscribe(""),
        Err(SessionError::Invalid(EncodeError::EmptyTopic))
    );
    let fourth = session.publish("t", b"", QoS::AtLeastOnce).unwrap();
    assert_eq!(decode_publish(&fourth).unwrap().delivery, Delivery::AtLeastOnce(4));
}

#[test]
fn packet_identifiers_skip_zero() {
    assert_eq!(next_packet_id(0), 1);
    assert_eq!(next_packet_id(1), 2);
    assert_eq!(next_packet_id(65_534), 65_535);
    assert_eq!(next_packet_id(65_535), 1);
}

#[test]
fn publish_errors_keep_the_session_open() {
    let mut session = ready_session();
    assert_eq!(
        session.publish("", b"x", QoS::AtMostOnce),
        Err(SessionError::Invalid(EncodeError::EmptyTopic))
    );
    let too_long = "t".repeat(65_536);
    assert_eq!(
        session.publish(&too_long, b"x", QoS::AtMostOnce),
        Err(SessionError::Invalid(EncodeError::TopicTooLong))
    );
    assert_eq!(session.state(), SessionState::Ready);
    assert!(session.publish("t", b"x", QoS::AtMostOnce).is_ok());
}

#[test]
fn close_and_transport_failure_end_the_session() {
    let mut session = ready_session();
    assert_eq!(session.close(), Some(vec![0xe0, 0x00]));
    assert_eq!(session.state(), SessionState::Closed);
    assert_eq!(session.close(), None);
    assert_eq!(session.publish("t", b"x", QoS::AtMostOnce), Err(SessionError::NotReady));

    let mut session = ready_session();
    assert_eq!(session.transport_failed(), SessionError::Transport);
    assert_eq!(session.state(), SessionState::Closed);

    let mut session = Session::new(identity());
    assert_eq!(session.close(), None);
    assert_eq!(session.state(), SessionState::Closed);
}

#[test]
fn pump_dispatches_one_event_per_frame() {
    let message = encode_publish("measurements", Delivery::AtMostOnce, false, b"21C").unwrap();
    assert_eq!(
        pump(Some(&message)),
        PumpStep::Dispatch(SessionEvent::Received {
            topic: "measurements".to_string(),
            payload: b"21C".to_vec(),
        })
    );
    assert_eq!(
        pump(Some(&[0x20, 0x02, 0x00, 0x00])),
        PumpStep::Dispatch(SessionEvent::Connected)
    );
    assert_eq!(
        pump(Some(&[0x20, 0x02, 0x00, 0x05])),
        PumpStep::Dispatch(SessionEvent::Disconnected)
    );
    assert_eq!(
        pump(Some(&[0x90, 0x03, 0x00, 0x02, 0x00])),
        PumpStep::Dispatch(SessionEvent::Subscribed(2))
    );
    assert_eq!(
        pump(Some(&[0x40, 0x02, 0x00, 0x09])),
        PumpStep::Dispatch(SessionEvent::Published(9))
    );
}

#[test]
fn pump_survives_a_bad_frame_and_stops_at_the_end() {
    let mut incoming: Vec<u8> = Vec::new();
    incoming.extend_from_slice(&[0x40, 0x02, 0x00, 0x01]);
    incoming.extend_from_slice(&[0xd0, 0x00]);
    incoming.extend_from_slice(&[0x30, 0x03, 0x00, 0x01, b'#']);
    incoming.extend_from_slice(&[0x40, 0x02, 0x00, 0x02]);
    let mut stream = MockStream::new(incoming);
    let mut events = Vec::new();
    let mut faults = Vec::new();
    loop {
        let frame = stream.read_frame();
        match pump(frame.as_deref()) {
            PumpStep::Dispatch(event) => events.push(event),
            PumpStep::Skip(error) => faults.push(error),
            PumpStep::Stop(event) => {
                events.push(event);
                break;
            }
        }
    }
    assert_eq!(
        events,
        vec![SessionEvent::Published(1), SessionEvent::Published(2), SessionEvent::Disconnected]
    );
    assert_eq!(faults, vec![SessionError::Malformed, SessionError::Malformed]);
}
