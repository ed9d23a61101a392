//! The publish frame: a message for a topic.

use vstd::prelude::*;
use vstd::slice::slice_subrange;
use vstd::slice::slice_to_vec;
use vstd::string::StringSliceAdditionalSpecFns;
use vstd::utf8::{decode_utf8, encode_scalar, encode_utf8, has_width_1_encoding, valid_utf8};
use vstd::utf8::{encode_utf8_decode_utf8, encode_utf8_valid_utf8};
use crate::codec::error::{DecodeError, EncodeError};
use crate::codec::remaining_length::MAX_REMAINING_LENGTH;
use crate::codec::wire::{
    append_bytes,
    append_u16,
    build_frame,
    lemma_frame_roundtrip,
    read_u16,
    spec_frame,
    spec_split_frame,
    spec_text,
    spec_u16,
    spec_u16_from,
    split_frame,
    text_from_utf8,
};

verus! {

/// The most bytes a topic may have: what a 16-bit length prefix can announce.
pub const MAX_TOPIC_LEN: usize = 65_535;

/// The delivery level of a message.
#[derive(Clone, Copy, Debug, PartialEq, Eq, Structural)]
pub enum QoS {
    /// Sent once, never acknowledged.
    AtMostOnce,
    /// Acknowledged by the receiver.
    AtLeastOnce,
    /// Acknowledged in two steps.
    ExactlyOnce,
}

/// The delivery level of one publish frame, together with the packet
/// identifier that the acknowledged levels put on the wire.
#[derive(Clone, Copy, Debug, PartialEq, Eq, Structural)]
pub enum Delivery {
    /// Sent once, never acknowledged; the frame carries no identifier.
    AtMostOnce,
    /// Acknowledged by the receiver, under this packet identifier.
    AtLeastOnce(u16),
    /// Acknowledged in two steps, under this packet identifier.
    ExactlyOnce(u16),
}

impl QoS {
    /// The two-bit number of this level in a fixed header.
    pub open spec fn spec_level(self) -> u8 {
        match self {
            QoS::AtMostOnce => 0,
            QoS::AtLeastOnce => 1,
            QoS::ExactlyOnce => 2,
        }
    }

    /// The two-bit number of this level in a fixed header.
    pub fn level(self) -> (r: u8)
        ensures
            r == self.spec_level(),
    {
        match self {
            QoS::AtMostOnce => 0,
            QoS::AtLeastOnce => 1,
            QoS::ExactlyOnce => 2,
        }
    }
}

impl Delivery {
    /// The delivery level without the identifier.
    pub open spec fn spec_qos(self) -> QoS {
        match self {
            Delivery::AtMostOnce => QoS::AtMostOnce,
            Delivery::AtLeastOnce(_) => QoS::AtLeastOnce,
            Delivery::ExactlyOnce(_) => QoS::ExactlyOnce,
        }
    }

    /// The packet identifier, for the levels that have one.
    pub open spec fn spec_packet_id(self) -> Option<u16> {
        match self {
            Delivery::AtMostOnce => None,
            Delivery::AtLeastOnce(id) => Some(id),
            Delivery::ExactlyOnce(id) => Some(id),
        }
    }

    /// The delivery of the given level under the given packet identifier,
    /// which the unacknowledged level drops.
    pub open spec fn spec_of(qos: QoS, packet_id: u16) -> Delivery {
        match qos {
            QoS::AtMostOnce => Delivery::AtMostOnce,
            QoS::AtLeastOnce => Delivery::AtLeastOnce(packet_id),
            QoS::ExactlyOnce => Delivery::ExactlyOnce(packet_id),
        }
    }

    /// The delivery level without the identifier.
    pub fn qos(self) -> (r: QoS)
        ensures
            r == self.spec_qos(),
    {
        match self {
            Delivery::AtMostOnce => QoS::AtMostOnce,
            Delivery::AtLeastOnce(_) => QoS::AtLeastOnce,
            Delivery::ExactlyOnce(_) => QoS::ExactlyOnce,
        }
    }

    /// The packet identifier, for the levels that have one.
    pub fn packet_id(self) -> (r: Option<u16>)
        ensures
            r == self.spec_packet_id(),
    {
        match self {
            Delivery::AtMostOnce => None,
            Delivery::AtLeastOnce(id) => Some(id),
            Delivery::ExactlyOnce(id) => Some(id),
        }
    }

    /// The delivery of the given level under the given packet identifier,
    /// which the unacknowledged level drops.
    pub fn of(qos: QoS, packet_id: u16) -> (r: Delivery)
        ensures
            r == Delivery::spec_of(qos, packet_id),
            r.spec_qos() == qos,
    {
        match qos {
            QoS::AtMostOnce => Delivery::AtMostOnce,
            QoS::AtLeastOnce => Delivery::AtLeastOnce(packet_id),
            QoS::ExactlyOnce => Delivery::ExactlyOnce(packet_id),
        }
    }
}

/// A decoded publish frame.
#[derive(Debug, PartialEq, Eq)]
pub struct PublishFrame {
    pub topic: String,
    pub delivery: Delivery,
    pub retain: bool,
    pub payload: Vec<u8>,
}

/// The fields of a publish frame as plain values.
pub struct PublishFields {
    pub topic: Seq<char>,
    pub delivery: Delivery,
    pub retain: bool,
    pub payload: Seq<u8>,
}

impl View for PublishFrame {
    type V = PublishFields;

    open spec fn view(&self) -> PublishFields {
        PublishFields {
            topic: self.topic@,
            delivery: self.delivery,
            retain: self.retain,
            payload: self.payload@,
        }
    }
}

/// Whether a byte is one of the two wildcard characters, `#` and `+`.
pub open spec fn is_wildcard(byte: u8) -> bool {
    byte == 0x23 || byte == 0x2b
}

/// Whether a wildcard character occurs among the bytes of a topic. In UTF-8
/// the bytes of `#` and `+` occur in no other character's encoding.
pub open spec fn has_wildcard(topic: Seq<u8>) -> bool {
    exists|i: int| 0 <= i < topic.len() && is_wildcard(#[trigger] topic[i])
}

/// Whether `#` or `+` occurs in a text.
pub open spec fn text_has_wildcard(text: Seq<char>) -> bool {
    exists|i: int| 0 <= i < text.len() && (#[trigger] text[i] == '#' || text[i] == '+')
}

/// The bytes of one character in UTF-8 hold a wildcard byte exactly when the
/// character is `#` or `+`: a character below 128 is its own single byte, and
/// every byte of a longer encoding is 128 or more.
proof fn lemma_wildcard_scalar(c: char)
    ensures
        has_wildcard(encode_scalar(c as u32)) <==> (c == '#' || c == '+'),
        encode_scalar(c as u32).len() >= 1,
{
    let v = c as u32;
    let bytes = encode_scalar(v);
    assert(v <= 0x7F ==> (v & 0x7F) as u8 == v) by (bit_vector);
    assert(0xC0u8 | ((v >> 6) & 0x1F) as u8 >= 0x80) by (bit_vector);
    assert(0xE0u8 | ((v >> 12) & 0x0F) as u8 >= 0x80) by (bit_vector);
    assert(0xF0u8 | ((v >> 18) & 0x7) as u8 >= 0x80) by (bit_vector);
    assert(0x80u8 | (v & 0x3F) as u8 >= 0x80) by (bit_vector);
    assert(0x80u8 | ((v >> 6) & 0x3F) as u8 >= 0x80) by (bit_vector);
    assert(0x80u8 | ((v >> 12) & 0x3F) as u8 >= 0x80) by (bit_vector);
    if has_width_1_encoding(v) {
        assert(bytes[0] == v);
        if c == '#' || c == '+' {
            assert(is_wildcard(bytes[0]));
        }
    } else {
        assert(forall|i: int| 0 <= i < bytes.len() ==> bytes[i] >= 0x80);
    }
}

/// A wildcard byte occurs in the UTF-8 encoding of a text exactly when `#`
/// or `+` occurs in the text: whether a topic holds a wildcard can be read
/// off its bytes.
pub proof fn lemma_wildcard_bytes(text: Seq<char>)
    ensures
        has_wildcard(encode_utf8(text)) <==> text_has_wildcard(text),
    decreases text.len(),
{
    if text.len() > 0 {
        let first = encode_scalar(text[0] as u32);
        let rest = encode_utf8(text.drop_first());
        let all = encode_utf8(text);
        lemma_wildcard_scalar(text[0]);
        lemma_wildcard_bytes(text.drop_first());
        assert(all == first + rest);
        if has_wildcard(all) {
            let i = choose|i: int| 0 <= i < all.len() && is_wildcard(#[trigger] all[i]);
            if i < first.len() {
                assert(is_wildcard(first[i]));
                assert(text[0] == '#' || text[0] == '+');
            } else {
                assert(is_wildcard(rest[i - first.len()]));
                let k = choose|k: int|
                    0 <= k < text.drop_first().len() && (#[trigger] text.drop_first()[k] == '#'
                        || text.drop_first()[k] == '+');
                assert(text[k + 1] == '#' || text[k + 1] == '+');
            }
        }
        if text_has_wildcard(text) {
            let k = choose|k: int| 0 <= k < text.len() && (#[trigger] text[k] == '#' || text[k]
                == '+');
            if k == 0 {
                let i = choose|i: int| 0 <= i < first.len() && is_wildcard(#[trigger] first[i]);
                assert(is_wildcard(all[i]));
            } else {
                assert(text.drop_first()[k - 1] == '#' || text.drop_first()[k - 1] == '+');
                let i = choose|i: int| 0 <= i < rest.len() && is_wildcard(#[trigger] rest[i]);
                assert(is_wildcard(all[i + first.len()]));
            }
        }
    }
}

/// What is wrong with the bytes of a topic to publish to, if anything: the
/// first of no bytes at all, too many bytes, a wildcard.
pub open spec fn spec_check_topic(topic: Seq<u8>) -> Result<(), EncodeError> {
    if topic.len() == 0 {
        Err(EncodeError::EmptyTopic)
    } else if topic.len() > MAX_TOPIC_LEN {
        Err(EncodeError::TopicTooLong)
    } else if has_wildcard(topic) {
        Err(EncodeError::WildcardInTopic)
    } else {
        Ok(())
    }
}

/// Checks a topic to publish to: it must have at least one byte and no more
/// than `MAX_TOPIC_LEN`, and neither `#` nor `+` may occur in it.
pub fn check_topic(topic: &str) -> (r: Result<(), EncodeError>)
    ensures
        r == spec_check_topic(topic.spec_bytes()),
        r == Err::<(), EncodeError>(EncodeError::WildcardInTopic) <==> 1
            <= topic.spec_bytes().len() <= MAX_TOPIC_LEN && text_has_wildcard(topic@),
{
    proof {
        lemma_wildcard_bytes(topic@);
    }
    check_topic_bytes(topic.as_bytes())
}

/// Checks the bytes of a topic to publish to.
pub fn check_topic_bytes(topic: &[u8]) -> (r: Result<(), EncodeError>)
    ensures
        r == spec_check_topic(topic@),
{
    if topic.len() == 0 {
        return Err(EncodeError::EmptyTopic);
    }
    if topic.len() > MAX_TOPIC_LEN {
        return Err(EncodeError::TopicTooLong);
    }
    let mut i: usize = 0;
    while i < topic.len()
        invariant
            1 <= topic@.len() <= MAX_TOPIC_LEN,
            i <= topic@.len(),
            forall|k: int| 0 <= k < i ==> !is_wildcard(#[trigger] topic@[k]),
        decreases topic@.len() - i,
    {
        let byte = topic[i];
        if byte == 0x23 || byte == 0x2b {
            assert(is_wildcard(topic@[i as int]));
            return Err(EncodeError::WildcardInTopic);
        }
        i = i + 1;
    }
    Ok(())
}

/// The fixed header byte of a publish frame: type 3 in the high half, then
/// the delivery level in bits 2 and 1 and the retain flag in bit 0.
pub open spec fn spec_publish_header(qos: QoS, retain: bool) -> u8 {
    (0x30 + 2 * qos.spec_level() + if retain { 1int } else { 0int }) as u8
}

/// The two bytes of the packet identifier, for the levels that have one.
pub open spec fn spec_packet_id_bytes(delivery: Delivery) -> Seq<u8> {
    match delivery.spec_packet_id() {
        Some(id) => spec_u16(id),
        None => Seq::empty(),
    }
}

/// The content of a publish frame: the topic, the packet identifier where the
/// delivery level has one, and the payload filling the rest.
pub open spec fn spec_publish_content(topic: Seq<u8>, delivery: Delivery, payload: Seq<u8>) -> Seq<
    u8,
> {
    spec_text(topic) + spec_packet_id_bytes(delivery) + payload
}

/// Why a message cannot be framed, if it cannot: what is wrong with the
/// topic, or else a content too large for the remaining-length field.
pub open spec fn spec_publish_error(topic: Seq<u8>, delivery: Delivery, payload: Seq<u8>) -> Option<
    EncodeError,
> {
    match spec_check_topic(topic) {
        Err(e) => Some(e),
        Ok(_) => if spec_publish_content(topic, delivery, payload).len() > MAX_REMAINING_LENGTH {
            Some(EncodeError::FrameTooLarge)
        } else {
            None
        },
    }
}

/// The publish frame for a message.
pub open spec fn spec_encode_publish(
    topic: Seq<u8>,
    delivery: Delivery,
    retain: bool,
    payload: Seq<u8>,
) -> Seq<u8> {
    spec_frame(
        spec_publish_header(delivery.spec_qos(), retain),
        spec_publish_content(topic, delivery, payload),
    )
}

/// The delivery level that a fixed header byte names, if it names one.
pub open spec fn spec_header_qos(header: u8) -> Option<QoS> {
    let level = (header % 16) / 2 % 4;
    if level == 0 {
        Some(QoS::AtMostOnce)
    } else if level == 1 {
        Some(QoS::AtLeastOnce)
    } else if level == 2 {
        Some(QoS::ExactlyOnce)
    } else {
        None
    }
}

/// Reads the content of a publish frame whose header names `qos`.
pub open spec fn spec_decode_publish_content(qos: QoS, retain: bool, content: Seq<u8>) -> Result<
    PublishFields,
    DecodeError,
> {
    if content.len() < 2 {
        Err(DecodeError::Malformed)
    } else {
        let length = spec_u16_from(content[0], content[1]);
        let id_bytes: int = if qos == QoS::AtMostOnce {
            0
        } else {
            2
        };
        if content.len() < 2 + length + id_bytes {
            Err(DecodeError::Malformed)
        } else {
            let topic = content.subrange(2, 2 + length);
            if spec_check_topic(topic) is Err || !valid_utf8(topic) {
                Err(DecodeError::Malformed)
            } else {
                Ok(
                    PublishFields {
                        topic: decode_utf8(topic),
                        delivery: Delivery::spec_of(
                            qos,
                            spec_u16_from(content[2 + length], content[3 + length]),
                        ),
                        retain,
                        payload: content.skip(2 + length + id_bytes),
                    },
                )
            }
        }
    }
}

/// Reads a publish frame. The duplicate flag in the header is not looked at.
pub open spec fn spec_decode_publish(bytes: Seq<u8>) -> Result<PublishFields, DecodeError> {
    match spec_split_frame(bytes) {
        Err(e) => Err(e),
        Ok((header, content)) => if header / 16 != 3 {
            Err(DecodeError::Malformed)
        } else {
            match spec_header_qos(header) {
                None => Err(DecodeError::Malformed),
                Some(qos) => spec_decode_publish_content(qos, header % 2 == 1, content),
            }
        },
    }
}

/// Decoding the frame of a message that can be framed gives the message
/// back: the same topic, delivery, retain flag and payload.
pub proof fn lemma_publish_roundtrip(fields: PublishFields)
    requires
        spec_publish_error(encode_utf8(fields.topic), fields.delivery, fields.payload) is None,
    ensures
        spec_decode_publish(
            spec_encode_publish(
                encode_utf8(fields.topic),
                fields.delivery,
                fields.retain,
                fields.payload,
            ),
        ) == Ok::<PublishFields, DecodeError>(fields),
{
    let topic = encode_utf8(fields.topic);
    let qos = fields.delivery.spec_qos();
    let header = spec_publish_header(qos, fields.retain);
    let content = spec_publish_content(topic, fields.delivery, fields.payload);
    let id = spec_packet_id_bytes(fields.delivery);
    let n = topic.len() as int;
    let k = id.len() as int;
    lemma_frame_roundtrip(header, content);
    encode_utf8_valid_utf8(fields.topic);
    encode_utf8_decode_utf8(fields.topic);
    assert(spec_header_qos(header) == Some(qos));
    assert(header / 16 == 3);
    assert((header % 2 == 1) == fields.retain);
    assert(content[0] == (topic.len() as u16 / 256) as u8);
    assert(content[1] == (topic.len() as u16 % 256) as u8);
    assert(content.subrange(2, 2 + n) =~= topic);
    assert(content.skip(2 + n + k) =~= fields.payload);
    match fields.delivery {
        Delivery::AtMostOnce => {},
        Delivery::AtLeastOnce(id) => {
            assert(content[2 + n] == (id / 256) as u8);
            assert(content[3 + n] == (id % 256) as u8);
        },
        Delivery::ExactlyOnce(id) => {
            assert(content[2 + n] == (id / 256) as u8);
            assert(content[3 + n] == (id % 256) as u8);
        },
    }
    let decoded = spec_decode_publish_content(qos, fields.retain, content)->Ok_0;
    assert(decoded.topic == fields.topic);
    assert(decoded.payload == fields.payload);
    assert(decoded.delivery == fields.delivery);
}

/// Encodes a publish frame, or says why the message cannot be framed.
pub fn encode_publish(topic: &str, delivery: Delivery, retain: bool, payload: &[u8]) -> (r: Result<
    Vec<u8>,
    EncodeError,
>)
    ensures
        match r {
            Ok(frame) => spec_publish_error(topic.spec_bytes(), delivery, payload@) is None
                && frame@ == spec_encode_publish(topic.spec_bytes(), delivery, retain, payload@),
            Err(e) => spec_publish_error(topic.spec_bytes(), delivery, payload@) == Some(e),
        },
{
    let name = topic.as_bytes();
    match check_topic_bytes(name) {
        Err(e) => { return Err(e); },
        Ok(_) => {},
    }
    let id_bytes: usize = match delivery {
        Delivery::AtMostOnce => 0,
        _ => 2,
    };
    let limit = MAX_REMAINING_LENGTH as usize;
    if payload.len() > limit || 2 + name.len() + id_bytes + payload.len() > limit {
        return Err(EncodeError::FrameTooLarge);
    }
    let mut content: Vec<u8> = Vec::new();
    append_u16(&mut content, name.len() as u16);
    append_bytes(&mut content, name);
    match delivery {
        Delivery::AtMostOnce => {},
        Delivery::AtLeastOnce(id) => { append_u16(&mut content, id); },
        Delivery::ExactlyOnce(id) => { append_u16(&mut content, id); },
    }
    append_bytes(&mut content, payload);
    assert(content@ =~= spec_publish_content(name@, delivery, payload@));
    let header: u8 = 0x30 + 2 * delivery.qos().level() + if retain { 1 } else { 0 };
    Ok(build_frame(header, content.as_slice()))
}

/// Decodes a publish frame. The input must hold the frame and nothing else.
pub fn decode_publish(bytes: &[u8]) -> (r: Result<PublishFrame, DecodeError>)
    ensures
        match spec_decode_publish(bytes@) {
            Ok(fields) => r is Ok && r->Ok_0@ == fields,
            Err(e) => r == Err::<PublishFrame, DecodeError>(e),
        },
{
    let (header, content) = match split_frame(bytes) {
        Ok(parts) => parts,
        Err(e) => { return Err(e); },
    };
    if header / 16 != 3 {
        return Err(DecodeError::Malformed);
    }
    let level = (header % 16) / 2 % 4;
    let qos = if level == 0 {
        QoS::AtMostOnce
    } else if level == 1 {
        QoS::AtLeastOnce
    } else if level == 2 {
        QoS::ExactlyOnce
    } else {
        return Err(DecodeError::Malformed);
    };
    let retain = header % 2 == 1;
    if content.len() < 2 {
        return Err(DecodeError::Malformed);
    }
    let length = read_u16(content, 0) as usize;
    let id_bytes: usize = if level == 0 { 0 } else { 2 };
    if content.len() - 2 < length + id_bytes {
        return Err(DecodeError::Malformed);
    }
    let name = slice_subrange(content, 2, 2 + length);
    if check_topic_bytes(name).is_err() {
        return Err(DecodeError::Malformed);
    }
    let topic = match text_from_utf8(name) {
        None => { return Err(DecodeError::Malformed); },
        Some(text) => text,
    };
    proof {
        encode_utf8_decode_utf8(topic@);
    }
    let packet_id = if level == 0 { 0 } else { read_u16(content, 2 + length) };
    let payload = slice_subrange(content, 2 + length + id_bytes, content.len());
    assert(payload@ =~= content@.skip(2 + length + id_bytes));
    Ok(
        PublishFrame {
            topic: topic.to_owned(),
            delivery: Delivery::of(qos, packet_id),
            retain,
            payload: slice_to_vec(payload),
        },
    )
}

} // verus!
