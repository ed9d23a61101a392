//! The telemetry cycle: take a measurement, format it, publish it, trigger
//! the next acquisition and rest, over and over. Any failure ends the cycle
//! for good; nothing is retried here.

use vstd::prelude::*;
use vstd::string::StringExecFns;
use vstd::utf8::encode_utf8;
use crate::codec::publish::QoS;
use crate::session::{spec_next_packet_id, spec_publish, Session, SessionError, SessionState};

verus! {

/// The rest between two cycles, in seconds.
pub const SAMPLE_INTERVAL: u32 = 8;

/// One reading of the sensor, in thousandths.
#[derive(Clone, Copy, Debug, PartialEq, Eq, Structural)]
pub struct Measurement {
    /// Temperature in thousandths of a degree Celsius.
    pub millidegrees: i32,
    /// Relative humidity in thousandths of a percent.
    pub millipercent: i32,
}

/// A number of thousandths rounded to whole units: to the nearest, and of two
/// equally near to the even one.
pub open spec fn spec_round_half_even(milli: nat) -> nat {
    let whole = milli / 1000;
    let rest = milli % 1000;
    if rest > 500 || (rest == 500 && whole % 2 == 1) {
        whole + 1
    } else {
        whole
    }
}

/// The character of a decimal digit.
pub open spec fn spec_digit(d: nat) -> char {
    ((48 + d) as u8) as char
}

/// A number in decimal, without leading zeros.
pub open spec fn spec_decimal(n: nat) -> Seq<char>
    decreases n,
{
    if n < 10 {
        seq![spec_digit(n)]
    } else {
        spec_decimal(n / 10) + seq![spec_digit(n % 10)]
    }
}

/// A number of thousandths as text, rounded to whole units. A negative
/// number keeps its sign even where it rounds to zero.
pub open spec fn spec_rounded(milli: int) -> Seq<char> {
    if milli < 0 {
        seq!['-'] + spec_decimal(spec_round_half_even((-milli) as nat))
    } else {
        spec_decimal(spec_round_half_even(milli as nat))
    }
}

/// The message for a measurement: the temperature, `°C`, a space, the
/// humidity, `%RH`, both rounded to whole units.
pub open spec fn spec_format_measurement(measurement: Measurement) -> Seq<char> {
    spec_rounded(measurement.millidegrees as int) + seq!['\u{b0}', 'C', ' '] + spec_rounded(
        measurement.millipercent as int,
    ) + seq!['%', 'R', 'H']
}

/// Rounding gives the nearest whole number, and where two are equally near,
/// the even one.
pub proof fn lemma_round_is_nearest(milli: nat)
    ensures
        -500 <= 1000 * spec_round_half_even(milli) - milli <= 500,
        1000 * spec_round_half_even(milli) - milli == 500 || 1000 * spec_round_half_even(milli)
            - milli == -500 ==> spec_round_half_even(milli) % 2 == 0,
{
}

/// Rounds a number of thousandths to whole units.
pub fn round_half_even(milli: u32) -> (r: u32)
    ensures
        r == spec_round_half_even(milli as nat),
{
    let whole = milli / 1000;
    let rest = milli % 1000;
    if rest > 500 || (rest == 500 && whole % 2 == 1) {
        whole + 1
    } else {
        whole
    }
}

/// The text of a decimal digit.
fn digit_text(d: u32) -> (r: &'static str)
    requires
        d < 10,
    ensures
        r@ == seq![spec_digit(d as nat)],
{
    proof {
        reveal_strlit("0");
        reveal_strlit("1");
        reveal_strlit("2");
        reveal_strlit("3");
        reveal_strlit("4");
        reveal_strlit("5");
        reveal_strlit("6");
        reveal_strlit("7");
        reveal_strlit("8");
        reveal_strlit("9");
    }
    let r = match d {
        0 => "0",
        1 => "1",
        2 => "2",
        3 => "3",
        4 => "4",
        5 => "5",
        6 => "6",
        7 => "7",
        8 => "8",
        _ => "9",
    };
    assert(r@ =~= seq![spec_digit(d as nat)]);
    r
}

/// Appends `n` in decimal to `out`.
pub fn append_decimal(out: &mut String, n: u32)
    ensures
        final(out)@ == old(out)@ + spec_decimal(n as nat),
    decreases n,
{
    if n >= 10 {
        append_decimal(out, n / 10);
    }
    let ghost before = out@;
    out.append(digit_text(n % 10));
    assert(out@ =~= old(out)@ + spec_decimal(n as nat));
}

/// Appends a number of thousandths to `out`, rounded to whole units.
pub fn append_rounded(out: &mut String, milli: i32)
    ensures
        final(out)@ == old(out)@ + spec_rounded(milli as int),
{
    if milli < 0 {
        proof {
            reveal_strlit("-");
        }
        out.append("-");
        let magnitude: u32 = (-(milli as i64)) as u32;
        append_decimal(out, round_half_even(magnitude));
        assert(out@ =~= old(out)@ + spec_rounded(milli as int));
    } else {
        append_decimal(out, round_half_even(milli as u32));
    }
}

/// Formats a measurement as the short text that is published, such as
/// `23°C 47%RH`.
pub fn format_measurement(measurement: &Measurement) -> (text: String)
    ensures
        text@ == spec_format_measurement(*measurement),
{
    let mut text = String::new();
    append_rounded(&mut text, measurement.millidegrees);
    proof {
        reveal_strlit("\u{b0}C ");
        reveal_strlit("%RH");
    }
    text.append("\u{b0}C ");
    append_rounded(&mut text, measurement.millipercent);
    text.append("%RH");
    assert(text@ =~= spec_format_measurement(*measurement));
    text
}

/// Why the telemetry cycle ended.
#[derive(Clone, Copy, Debug, PartialEq, Eq, Structural)]
pub enum TelemetryError {
    /// The sensor gave no measurement.
    Measurement,
    /// The message could not be published.
    Publish(SessionError),
    /// The caller reported something that does not answer the action it was
    /// given.
    OutOfTurn,
}

/// Where the telemetry cycle stands.
#[derive(Clone, Copy, Debug, PartialEq, Eq, Structural)]
pub enum TelemetryState {
    /// A measurement is awaited.
    Sensing,
    /// The frame of the message is being written.
    Sending,
    /// The next acquisition is triggered and the node sleeps.
    Resting,
    /// The cycle has ended with an error.
    Aborted(TelemetryError),
}

/// What happened since the last action.
#[derive(Clone, Copy, Debug, PartialEq, Eq, Structural)]
pub enum TelemetryEvent {
    /// The sensor gave this measurement.
    Measured(Measurement),
    /// The sensor failed.
    MeasurementFailed,
    /// The frame was written to the stream.
    Sent,
    /// Writing the frame failed.
    SendFailed,
    /// The rest is over.
    Rested,
}

/// What the caller has to do next.
#[derive(Debug, PartialEq, Eq)]
pub enum TelemetryAction {
    /// Await the sensor's measurement and report `Measured` or
    /// `MeasurementFailed`.
    Sense,
    /// Write these bytes to the stream and report `Sent` or `SendFailed`.
    Send(Vec<u8>),
    /// Trigger the next acquisition, sleep for this many seconds and report
    /// `Rested`.
    Rest { seconds: u32 },
    /// Give up: the error is fatal.
    Abort(TelemetryError),
}

/// An action as plain values.
pub enum TelemetryActionFields {
    Sense,
    Send(Seq<u8>),
    Rest { seconds: u32 },
    Abort(TelemetryError),
}

impl View for TelemetryAction {
    type V = TelemetryActionFields;

    open spec fn view(&self) -> TelemetryActionFields {
        match self {
            TelemetryAction::Sense => TelemetryActionFields::Sense,
            TelemetryAction::Send(frame) => TelemetryActionFields::Send(frame@),
            TelemetryAction::Rest { seconds } => TelemetryActionFields::Rest { seconds: *seconds },
            TelemetryAction::Abort(error) => TelemetryActionFields::Abort(*error),
        }
    }
}

/// The next state and action of the cycle. `framed` is what the session
/// gives for the message of a measurement: its frame, or the error that ends
/// the cycle.
pub open spec fn spec_cycle_step(
    state: TelemetryState,
    event: TelemetryEvent,
    framed: Result<Seq<u8>, SessionError>,
) -> (TelemetryState, TelemetryActionFields) {
    match state {
        TelemetryState::Aborted(error) => (state, TelemetryActionFields::Abort(error)),
        TelemetryState::Sensing => match event {
            TelemetryEvent::Measured(_) => match framed {
                Ok(frame) => (TelemetryState::Sending, TelemetryActionFields::Send(frame)),
                Err(e) => spec_abort(TelemetryError::Publish(e)),
            },
            TelemetryEvent::MeasurementFailed => spec_abort(TelemetryError::Measurement),
            _ => spec_abort(TelemetryError::OutOfTurn),
        },
        TelemetryState::Sending => match event {
            TelemetryEvent::Sent => (
                TelemetryState::Resting,
                TelemetryActionFields::Rest { seconds: SAMPLE_INTERVAL },
            ),
            TelemetryEvent::SendFailed => spec_abort(
                TelemetryError::Publish(SessionError::Transport),
            ),
            _ => spec_abort(TelemetryError::OutOfTurn),
        },
        TelemetryState::Resting => match event {
            TelemetryEvent::Rested => (TelemetryState::Sensing, TelemetryActionFields::Sense),
            _ => spec_abort(TelemetryError::OutOfTurn),
        },
    }
}

/// The end of the cycle with the given error.
pub open spec fn spec_abort(error: TelemetryError) -> (TelemetryState, TelemetryActionFields) {
    (TelemetryState::Aborted(error), TelemetryActionFields::Abort(error))
}

/// The bytes of the message that an event asks to publish: the formatted
/// measurement, or nothing for an event that carries none.
pub open spec fn spec_message(event: TelemetryEvent) -> Seq<u8> {
    match event {
        TelemetryEvent::Measured(measurement) => encode_utf8(
            spec_format_measurement(measurement),
        ),
        _ => Seq::empty(),
    }
}

/// The telemetry cycle of one node, which owns the session it publishes
/// through.
pub struct TelemetryLoop {
    session: Session,
    topic: String,
    qos: QoS,
    state: TelemetryState,
}

impl TelemetryLoop {
    /// Where the cycle stands.
    pub closed spec fn spec_state(&self) -> TelemetryState {
        self.state
    }

    /// The session the cycle publishes through.
    pub closed spec fn spec_session(&self) -> Session {
        self.session
    }

    /// The topic the cycle publishes to.
    pub closed spec fn spec_topic(&self) -> Seq<char> {
        self.topic@
    }

    /// The delivery level the cycle publishes at.
    pub closed spec fn spec_qos(&self) -> QoS {
        self.qos
    }

    /// A cycle that publishes through `session` to `topic`. Its first action
    /// is `Sense`.
    pub fn new(session: Session, topic: &str, qos: QoS) -> (r: TelemetryLoop)
        ensures
            r.spec_state() == TelemetryState::Sensing,
            r.spec_session() == session,
            r.spec_topic() == topic@,
            r.spec_qos() == qos,
    {
        TelemetryLoop { session, topic: topic.to_owned(), qos, state: TelemetryState::Sensing }
    }

    /// Where the cycle stands.
    pub fn state(&self) -> (r: TelemetryState)
        ensures
            r == self.spec_state(),
    {
        self.state
    }

    /// The session the cycle publishes through.
    pub fn session(&self) -> (r: &Session)
        ensures
            *r == self.spec_session(),
    {
        &self.session
    }

    /// Ends the cycle and gives the session back.
    pub fn into_session(self) -> (r: Session)
        ensures
            r == self.spec_session(),
    {
        self.session
    }

    /// Takes what the caller reports and says what to do next. A measurement
    /// is formatted and framed by the session; a failure of the sensor, of
    /// the framing or of the write ends the cycle, and a failed write closes
    /// the session too.
    pub fn step(&mut self, event: TelemetryEvent) -> (action: TelemetryAction)
        ensures
            (final(self).spec_state(), action@) == spec_cycle_step(
                old(self).spec_state(),
                event,
                spec_publish(
                    old(self).spec_session().spec_state(),
                    old(self).spec_session().spec_last_packet_id(),
                    encode_utf8(old(self).spec_topic()),
                    spec_message(event),
                    old(self).spec_qos(),
                ),
            ),
            final(self).spec_topic() == old(self).spec_topic(),
            final(self).spec_qos() == old(self).spec_qos(),
            final(self).spec_session().spec_identity() == old(self).spec_session().spec_identity(),
            final(self).spec_session().spec_state() == if old(self).spec_state()
                == TelemetryState::Sending && event == TelemetryEvent::SendFailed {
                SessionState::Closed
            } else {
                old(self).spec_session().spec_state()
            },
            final(self).spec_session().spec_last_packet_id() == if action is Send && old(
                self,
            ).spec_qos() != QoS::AtMostOnce {
                spec_next_packet_id(old(self).spec_session().spec_last_packet_id())
            } else {
                old(self).spec_session().spec_last_packet_id()
            },
    {
        match self.state {
            TelemetryState::Aborted(error) => TelemetryAction::Abort(error),
            TelemetryState::Sensing => match event {
                TelemetryEvent::Measured(measurement) => {
                    let message = format_measurement(&measurement);
                    match self.session.publish(
                        self.topic.as_str(),
                        message.as_str().as_bytes(),
                        self.qos,
                    ) {
                        Ok(frame) => {
                            self.state = TelemetryState::Sending;
                            TelemetryAction::Send(frame)
                        },
                        Err(e) => self.abort(TelemetryError::Publish(e)),
                    }
                },
                TelemetryEvent::MeasurementFailed => self.abort(TelemetryError::Measurement),
                _ => self.abort(TelemetryError::OutOfTurn),
            },
            TelemetryState::Sending => match event {
                TelemetryEvent::Sent => {
                    self.state = TelemetryState::Resting;
                    TelemetryAction::Rest { seconds: SAMPLE_INTERVAL }
                },
                TelemetryEvent::SendFailed => {
                    let error = self.session.transport_failed();
                    self.abort(TelemetryError::Publish(error))
                },
                _ => self.abort(TelemetryError::OutOfTurn),
            },
            TelemetryState::Resting => match event {
                TelemetryEvent::Rested => {
                    self.state = TelemetryState::Sensing;
                    TelemetryAction::Sense
                },
                _ => self.abort(TelemetryError::OutOfTurn),
            },
        }
    }

    fn abort(&mut self, error: TelemetryError) -> (action: TelemetryAction)
        ensures
            final(self).spec_state() == TelemetryState::Aborted(error),
            action == TelemetryAction::Abort(error),
            final(self).spec_session() == old(self).spec_session(),
            final(self).spec_topic() == old(self).spec_topic(),
            final(self).spec_qos() == old(self).spec_qos(),
    {
        self.state = TelemetryState::Aborted(error);
        TelemetryAction::Abort(error)
    }
}

/// A cycle that has ended stays ended: every report is answered with the
/// same error.
pub proof fn lemma_abort_is_final(
    error: TelemetryError,
    event: TelemetryEvent,
    framed: Result<Seq<u8>, SessionError>,
)
    ensures
        spec_cycle_step(TelemetryState::Aborted(error), event, framed) == spec_abort(error),
{
}

/// Nothing is retried: a failed measurement, a message that cannot be
/// framed and a failed write each end the cycle at once.
pub proof fn lemma_failures_are_fatal(framed: Result<Seq<u8>, SessionError>, m: Measurement)
    ensures
        spec_cycle_step(TelemetryState::Sensing, TelemetryEvent::MeasurementFailed, framed)
            == spec_abort(TelemetryError::Measurement),
        spec_cycle_step(TelemetryState::Sending, TelemetryEvent::SendFailed, framed) == spec_abort(
            TelemetryError::Publish(SessionError::Transport),
        ),
        framed matches Err(e) ==> spec_cycle_step(
            TelemetryState::Sensing,
            TelemetryEvent::Measured(m),
            framed,
        ) == spec_abort(TelemetryError::Publish(e)),
{
}

} // verus!
