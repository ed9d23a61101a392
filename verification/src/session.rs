//! The session with the broker: the connect handshake, publish and
//! subscribe, and the inbound pump.
//!
//! A session never touches the stream. Its operations hand the caller the
//! bytes to write, and take the bytes the caller read. The caller writes
//! from one thread only and reads from one thread only; the pump functions
//! need no session, so the reading thread shares nothing with the writing
//! one, and the packet identifier counter needs no lock.
//!
//! The pump has to be reading before the first publish or subscribe is
//! written: what the broker sends before that is lost.

use vstd::prelude::*;
use vstd::string::StringSliceAdditionalSpecFns;
use crate::codec::connack::{decode_connack, spec_decode_connack, ConnectAck};
use crate::codec::connect::{encode_connect, spec_encode_connect, ConnectFields, ConnectRequest};
use crate::codec::error::{DecodeError, EncodeError};
use crate::codec::inbound::{decode_inbound, spec_decode_inbound, Inbound, InboundFields};
use crate::codec::publish::{
    encode_publish,
    spec_encode_publish,
    spec_publish_error,
    Delivery,
    QoS,
};
use crate::codec::subscribe::{
    encode_disconnect,
    encode_subscribe,
    spec_check_filter,
    spec_encode_disconnect,
    spec_encode_subscribe,
};

verus! {

/// Where a session stands in its life.
#[derive(Clone, Copy, Debug, PartialEq, Eq, Structural)]
pub enum SessionState {
    /// Nothing has been sent.
    Unconnected,
    /// The connection request is out; the acknowledgment is awaited.
    Handshaking,
    /// The broker accepted; publish and subscribe are open.
    Ready,
    /// The session is over.
    Closed,
}

/// Why a session operation failed.
#[derive(Clone, Copy, Debug, PartialEq, Eq, Structural)]
pub enum SessionError {
    /// The stream failed, or the handshake reply was not an acknowledgment.
    Transport,
    /// The broker refused the connection with this verdict.
    Rejected(ConnectAck),
    /// A frame from the broker could not be decoded.
    Malformed,
    /// The session is not in the state the operation needs.
    NotReady,
    /// The message cannot be framed.
    Invalid(EncodeError),
}

/// What the inbound pump tells the application.
#[derive(Debug, PartialEq, Eq)]
pub enum SessionEvent {
    /// A message arrived.
    Received { topic: String, payload: Vec<u8> },
    /// The broker acknowledged a connection.
    Connected,
    /// The broker refused a connection, or the stream has ended.
    Disconnected,
    /// The broker acknowledged the subscribe with this packet identifier.
    Subscribed(u16),
    /// The broker acknowledged the publish with this packet identifier.
    Published(u16),
}

/// A session event as plain values.
pub enum SessionEventFields {
    Received { topic: Seq<char>, payload: Seq<u8> },
    Connected,
    Disconnected,
    Subscribed(u16),
    Published(u16),
}

impl View for SessionEvent {
    type V = SessionEventFields;

    open spec fn view(&self) -> SessionEventFields {
        match self {
            SessionEvent::Received { topic, payload } => SessionEventFields::Received {
                topic: topic@,
                payload: payload@,
            },
            SessionEvent::Connected => SessionEventFields::Connected,
            SessionEvent::Disconnected => SessionEventFields::Disconnected,
            SessionEvent::Subscribed(id) => SessionEventFields::Subscribed(*id),
            SessionEvent::Published(id) => SessionEventFields::Published(*id),
        }
    }
}

/// What the pump does with one read.
#[derive(Debug, PartialEq, Eq)]
pub enum PumpStep {
    /// Hand the event to the application and read on.
    Dispatch(SessionEvent),
    /// Log the error and read on: one bad frame does not end the pump.
    Skip(SessionError),
    /// Hand the event to the application and stop reading.
    Stop(SessionEvent),
}

/// A pump step as plain values.
pub enum PumpStepFields {
    Dispatch(SessionEventFields),
    Skip(SessionError),
    Stop(SessionEventFields),
}

impl View for PumpStep {
    type V = PumpStepFields;

    open spec fn view(&self) -> PumpStepFields {
        match self {
            PumpStep::Dispatch(event) => PumpStepFields::Dispatch(event@),
            PumpStep::Skip(error) => PumpStepFields::Skip(*error),
            PumpStep::Stop(event) => PumpStepFields::Stop(event@),
        }
    }
}

impl SessionState {
    /// How far along its life a session is.
    pub open spec fn rank(self) -> nat {
        match self {
            SessionState::Unconnected => 0,
            SessionState::Handshaking => 1,
            SessionState::Ready => 2,
            SessionState::Closed => 3,
        }
    }
}

/// The packet identifier after `last`: one more, and 1 after the largest, so
/// that 0 is never used.
pub open spec fn spec_next_packet_id(last: u16) -> u16 {
    if last == u16::MAX {
        1
    } else {
        (last + 1) as u16
    }
}

/// The end of the handshake: what the session becomes and what the caller is
/// told, from the bytes read in answer to the connection request. Only an
/// acknowledgment with `Accepted` opens the session; another verdict closes
/// it with `Rejected`, and bytes that are no acknowledgment close it with
/// `Transport`.
pub open spec fn spec_accept(reply: Seq<u8>) -> (SessionState, Result<(), SessionError>) {
    match spec_decode_connack(reply) {
        Ok(ConnectAck::Accepted) => (SessionState::Ready, Ok(())),
        Ok(verdict) => (SessionState::Closed, Err(SessionError::Rejected(verdict))),
        Err(_) => (SessionState::Closed, Err(SessionError::Transport)),
    }
}

/// What publishing gives in a session in `state` whose last packet
/// identifier was `last`: the frame of the message, not retained and under
/// the next packet identifier where the delivery level has one; `NotReady`
/// unless the session is open; `Invalid` where the message cannot be framed.
pub open spec fn spec_publish(
    state: SessionState,
    last: u16,
    topic: Seq<u8>,
    payload: Seq<u8>,
    qos: QoS,
) -> Result<Seq<u8>, SessionError> {
    let delivery = Delivery::spec_of(qos, spec_next_packet_id(last));
    if state != SessionState::Ready {
        Err(SessionError::NotReady)
    } else {
        match spec_publish_error(topic, delivery, payload) {
            Some(e) => Err(SessionError::Invalid(e)),
            None => Ok(spec_encode_publish(topic, delivery, false, payload)),
        }
    }
}

/// What subscribing gives in a session in `state` whose last packet
/// identifier was `last`: the request frame under the next packet
/// identifier, asking for the unacknowledged delivery level; `NotReady`
/// unless the session is open; `Invalid` where the filter cannot be framed.
pub open spec fn spec_subscribe(state: SessionState, last: u16, topic: Seq<u8>) -> Result<
    Seq<u8>,
    SessionError,
> {
    if state != SessionState::Ready {
        Err(SessionError::NotReady)
    } else {
        match spec_check_filter(topic) {
            Err(e) => Err(SessionError::Invalid(e)),
            Ok(_) => Ok(spec_encode_subscribe(spec_next_packet_id(last), topic, QoS::AtMostOnce)),
        }
    }
}

/// The event for a frame from the broker.
pub open spec fn spec_event_of(frame: InboundFields) -> SessionEventFields {
    match frame {
        InboundFields::ConnAck(ConnectAck::Accepted) => SessionEventFields::Connected,
        InboundFields::ConnAck(_) => SessionEventFields::Disconnected,
        InboundFields::Publish(fields) => SessionEventFields::Received {
            topic: fields.topic,
            payload: fields.payload,
        },
        InboundFields::PubAck(id) => SessionEventFields::Published(id),
        InboundFields::SubAck(id) => SessionEventFields::Subscribed(id),
    }
}

/// What the pump does with one read: `None` is a stream that has ended or
/// failed, `Some` the bytes of one frame.
pub open spec fn spec_pump(input: Option<Seq<u8>>) -> PumpStepFields {
    match input {
        None => PumpStepFields::Stop(SessionEventFields::Disconnected),
        Some(bytes) => match spec_decode_inbound(bytes) {
            Ok(frame) => PumpStepFields::Dispatch(spec_event_of(frame)),
            Err(_) => PumpStepFields::Skip(SessionError::Malformed),
        },
    }
}

/// The event for a frame from the broker.
pub fn event_of(frame: Inbound) -> (event: SessionEvent)
    ensures
        event@ == spec_event_of(frame@),
{
    match frame {
        Inbound::ConnAck(ConnectAck::Accepted) => SessionEvent::Connected,
        Inbound::ConnAck(_) => SessionEvent::Disconnected,
        Inbound::Publish(frame) => SessionEvent::Received {
            topic: frame.topic,
            payload: frame.payload,
        },
        Inbound::PubAck(id) => SessionEvent::Published(id),
        Inbound::SubAck(id) => SessionEvent::Subscribed(id),
    }
}

/// One step of the inbound pump. The caller reads one frame from the stream
/// and passes its bytes, or `None` when the stream has ended or failed, and
/// goes on reading unless the step is `Stop`.
pub fn pump(input: Option<&[u8]>) -> (step: PumpStep)
    ensures
        step@ == spec_pump(
            match input {
                Some(bytes) => Some(bytes@),
                None => None,
            },
        ),
{
    match input {
        None => PumpStep::Stop(SessionEvent::Disconnected),
        Some(bytes) => match decode_inbound(bytes) {
            Ok(frame) => PumpStep::Dispatch(event_of(frame)),
            Err(_) => PumpStep::Skip(SessionError::Malformed),
        },
    }
}

/// The client's side of one connection to a broker.
pub struct Session {
    identity: ConnectRequest,
    state: SessionState,
    last_id: u16,
}

impl Session {
    /// Where the session stands.
    pub closed spec fn spec_state(&self) -> SessionState {
        self.state
    }

    /// What the session says of itself when it connects.
    pub closed spec fn spec_identity(&self) -> ConnectFields {
        self.identity@
    }

    /// The packet identifier that was given out last, 0 before the first.
    pub closed spec fn spec_last_packet_id(&self) -> u16 {
        self.last_id
    }

    /// A session for the given identity, with nothing sent yet.
    pub fn new(identity: ConnectRequest) -> (r: Session)
        ensures
            r.spec_state() == SessionState::Unconnected,
            r.spec_identity() == identity@,
            r.spec_last_packet_id() == 0,
    {
        Session { identity, state: SessionState::Unconnected, last_id: 0 }
    }

    /// Where the session stands.
    pub fn state(&self) -> (r: SessionState)
        ensures
            r == self.spec_state(),
    {
        self.state
    }

    /// Starts the handshake: hands out the connection request to write, and
    /// awaits the acknowledgment from then on. Only a session that has sent
    /// nothing can connect.
    pub fn connect(&mut self) -> (r: Result<Vec<u8>, SessionError>)
        ensures
            final(self).spec_state().rank() >= old(self).spec_state().rank(),
            final(self).spec_identity() == old(self).spec_identity(),
            final(self).spec_last_packet_id() == old(self).spec_last_packet_id(),
            old(self).spec_state() == SessionState::Unconnected ==> r is Ok && r->Ok_0@
                == spec_encode_connect(old(self).spec_identity()) && final(self).spec_state()
                == SessionState::Handshaking,
            old(self).spec_state() != SessionState::Unconnected ==> r == Err::<
                Vec<u8>,
                SessionError,
            >(SessionError::NotReady) && final(self).spec_state() == old(self).spec_state(),
    {
        match self.state {
            SessionState::Unconnected => {
                self.state = SessionState::Handshaking;
                Ok(encode_connect(&self.identity))
            },
            _ => Err(SessionError::NotReady),
        }
    }

    /// Ends the handshake with the bytes read in answer to the connection
    /// request.
    pub fn accept(&mut self, reply: &[u8]) -> (r: Result<(), SessionError>)
        ensures
            final(self).spec_state().rank() >= old(self).spec_state().rank(),
            final(self).spec_identity() == old(self).spec_identity(),
            final(self).spec_last_packet_id() == old(self).spec_last_packet_id(),
            old(self).spec_state() == SessionState::Handshaking ==> (final(self).spec_state(), r)
                == spec_accept(reply@),
            old(self).spec_state() != SessionState::Handshaking ==> r == Err::<(), SessionError>(
                SessionError::NotReady,
            ) && final(self).spec_state() == old(self).spec_state(),
    {
        match self.state {
            SessionState::Handshaking => match decode_connack(reply) {
                Ok(ConnectAck::Accepted) => {
                    self.state = SessionState::Ready;
                    Ok(())
                },
                Ok(verdict) => {
                    self.state = SessionState::Closed;
                    Err(SessionError::Rejected(verdict))
                },
                Err(_) => {
                    self.state = SessionState::Closed;
                    Err(SessionError::Transport)
                },
            },
            _ => Err(SessionError::NotReady),
        }
    }

    /// Records that the stream failed: the session is over, whatever state
    /// it was in. Returns the error to hand on.
    pub fn transport_failed(&mut self) -> (r: SessionError)
        ensures
            final(self).spec_state().rank() >= old(self).spec_state().rank(),
            r == SessionError::Transport,
            final(self).spec_state() == SessionState::Closed,
            final(self).spec_identity() == old(self).spec_identity(),
            final(self).spec_last_packet_id() == old(self).spec_last_packet_id(),
    {
        self.state = SessionState::Closed;
        SessionError::Transport
    }

    /// Frames one message, not retained, for the caller to write. At the
    /// acknowledged delivery levels the frame carries the packet identifier
    /// after the last one given out. No acknowledgment is awaited: a result
    /// of `Ok` says that the frame was built, and once the caller has
    /// written it, that the bytes were handed to the transport.
    pub fn publish(&mut self, topic: &str, payload: &[u8], qos: QoS) -> (r: Result<
        Vec<u8>,
        SessionError,
    >)
        ensures
            final(self).spec_state().rank() >= old(self).spec_state().rank(),
            final(self).spec_state() == old(self).spec_state(),
            final(self).spec_identity() == old(self).spec_identity(),
            match spec_publish(
                old(self).spec_state(),
                old(self).spec_last_packet_id(),
                topic.spec_bytes(),
                payload@,
                qos,
            ) {
                Ok(frame) => r is Ok && r->Ok_0@ == frame,
                Err(e) => r == Err::<Vec<u8>, SessionError>(e),
            },
            final(self).spec_last_packet_id() == if r is Ok && qos != QoS::AtMostOnce {
                spec_next_packet_id(old(self).spec_last_packet_id())
            } else {
                old(self).spec_last_packet_id()
            },
    {
        match self.state {
            SessionState::Ready => {},
            _ => { return Err(SessionError::NotReady); },
        }
        let id = next_packet_id(self.last_id);
        match encode_publish(topic, Delivery::of(qos, id), false, payload) {
            Ok(frame) => {
                match qos {
                    QoS::AtMostOnce => {},
                    _ => { self.last_id = id; },
                }
                Ok(frame)
            },
            Err(e) => Err(SessionError::Invalid(e)),
        }
    }

    /// Frames a subscribe request for one topic filter, for the caller to
    /// write. The filter may hold wildcards. Messages are asked for at the
    /// unacknowledged delivery level, since this client acknowledges none.
    /// The broker's acknowledgment comes through the pump, as
    /// `Subscribed` with the packet identifier of the request.
    pub fn subscribe(&mut self, topic: &str) -> (r: Result<Vec<u8>, SessionError>)
        ensures
            final(self).spec_state().rank() >= old(self).spec_state().rank(),
            final(self).spec_state() == old(self).spec_state(),
            final(self).spec_identity() == old(self).spec_identity(),
            match spec_subscribe(
                old(self).spec_state(),
                old(self).spec_last_packet_id(),
                topic.spec_bytes(),
            ) {
                Ok(frame) => r is Ok && r->Ok_0@ == frame,
                Err(e) => r == Err::<Vec<u8>, SessionError>(e),
            },
            final(self).spec_last_packet_id() == if r is Ok {
                spec_next_packet_id(old(self).spec_last_packet_id())
            } else {
                old(self).spec_last_packet_id()
            },
    {
        match self.state {
            SessionState::Ready => {},
            _ => { return Err(SessionError::NotReady); },
        }
        let id = next_packet_id(self.last_id);
        match encode_subscribe(id, topic, QoS::AtMostOnce) {
            Ok(frame) => {
                self.last_id = id;
                Ok(frame)
            },
            Err(e) => Err(SessionError::Invalid(e)),
        }
    }

    /// Ends the session. An open session hands out the disconnect notice to
    /// write before the stream is dropped.
    pub fn close(&mut self) -> (r: Option<Vec<u8>>)
        ensures
            final(self).spec_state().rank() >= old(self).spec_state().rank(),
            final(self).spec_state() == SessionState::Closed,
            final(self).spec_identity() == old(self).spec_identity(),
            final(self).spec_last_packet_id() == old(self).spec_last_packet_id(),
            old(self).spec_state() == SessionState::Ready ==> r is Some && r->Some_0@
                == spec_encode_disconnect(),
            old(self).spec_state() != SessionState::Ready ==> r is None,
    {
        let notice = match self.state {
            SessionState::Ready => Some(encode_disconnect()),
            _ => None,
        };
        self.state = SessionState::Closed;
        notice
    }
}

/// The packet identifier after `last`.
pub fn next_packet_id(last: u16) -> (r: u16)
    ensures
        r == spec_next_packet_id(last),
        r != 0,
{
    if last == u16::MAX {
        1
    } else {
        last + 1
    }
}

/// A refused connection never opens: whatever acknowledgment the broker
/// sends with a verdict other than `Accepted`, the handshake ends in `Closed`
/// with `Rejected` and that verdict.
pub proof fn lemma_refusal_closes(flags: u8, verdict: ConnectAck)
    requires
        verdict != ConnectAck::Accepted,
    ensures
        spec_accept(crate::codec::connack::spec_encode_connack(flags, verdict)) == (
            SessionState::Closed,
            Err::<(), SessionError>(SessionError::Rejected(verdict)),
        ),
{
    crate::codec::connack::lemma_connack_roundtrip(flags, verdict);
}

/// A session that is not open publishes nothing: in particular none after a
/// refused handshake.
pub proof fn lemma_closed_publishes_nothing(
    state: SessionState,
    last: u16,
    topic: Seq<u8>,
    payload: Seq<u8>,
    qos: QoS,
)
    requires
        state != SessionState::Ready,
    ensures
        spec_publish(state, last, topic, payload, qos) == Err::<Seq<u8>, SessionError>(
            SessionError::NotReady,
        ),
        spec_subscribe(state, last, topic) == Err::<Seq<u8>, SessionError>(
            SessionError::NotReady,
        ),
{
}

/// The handshake opens the session exactly when the reply decodes to
/// `Accepted`; every other reply closes it with an error.
pub proof fn lemma_accept_outcomes(reply: Seq<u8>)
    ensures
        spec_accept(reply).0 == SessionState::Ready <==> spec_decode_connack(reply) == Ok::<
            ConnectAck,
            DecodeError,
        >(ConnectAck::Accepted),
        spec_accept(reply).0 == SessionState::Ready <==> spec_accept(reply).1 is Ok,
        spec_accept(reply).0 == SessionState::Ready || spec_accept(reply).0
            == SessionState::Closed,
{
}

} // verus!
