//! The frames around a subscription and the end of a session: the subscribe
//! request and the disconnect notice.

use vstd::prelude::*;
use vstd::string::StringSliceAdditionalSpecFns;
use crate::codec::error::EncodeError;
use crate::codec::publish::{QoS, MAX_TOPIC_LEN};
use crate::codec::wire::{append_bytes, append_u16, build_frame, spec_frame, spec_text, spec_u16};

verus! {

/// The fixed header byte of a subscribe request.
pub const SUBSCRIBE_HEADER: u8 = 0x82;

/// The fixed header byte of a disconnect notice.
pub const DISCONNECT_HEADER: u8 = 0xe0;

/// The content of a subscribe request for one topic filter: the packet
/// identifier, the filter, and the delivery level asked for.
pub open spec fn spec_subscribe_content(packet_id: u16, topic: Seq<u8>, qos: QoS) -> Seq<u8> {
    spec_u16(packet_id) + spec_text(topic) + seq![qos.spec_level()]
}

/// The subscribe request frame for one topic filter.
pub open spec fn spec_encode_subscribe(packet_id: u16, topic: Seq<u8>, qos: QoS) -> Seq<u8> {
    spec_frame(SUBSCRIBE_HEADER, spec_subscribe_content(packet_id, topic, qos))
}

/// What is wrong with the bytes of a topic filter, if anything. A filter may
/// hold wildcards.
pub open spec fn spec_check_filter(topic: Seq<u8>) -> Result<(), EncodeError> {
    if topic.len() == 0 {
        Err(EncodeError::EmptyTopic)
    } else if topic.len() > MAX_TOPIC_LEN {
        Err(EncodeError::TopicTooLong)
    } else {
        Ok(())
    }
}

/// Encodes a subscribe request for one topic filter, or says what is wrong
/// with the filter.
pub fn encode_subscribe(packet_id: u16, topic: &str, qos: QoS) -> (r: Result<Vec<u8>, EncodeError>)
    ensures
        match r {
            Ok(frame) => spec_check_filter(topic.spec_bytes()) is Ok && frame@
                == spec_encode_subscribe(packet_id, topic.spec_bytes(), qos),
            Err(e) => spec_check_filter(topic.spec_bytes()) == Err::<(), EncodeError>(e),
        },
{
    let name = topic.as_bytes();
    if name.len() == 0 {
        return Err(EncodeError::EmptyTopic);
    }
    if name.len() > MAX_TOPIC_LEN {
        return Err(EncodeError::TopicTooLong);
    }
    let mut content: Vec<u8> = Vec::new();
    append_u16(&mut content, packet_id);
    append_u16(&mut content, name.len() as u16);
    append_bytes(&mut content, name);
    content.push(qos.level());
    assert(content@ =~= spec_subscribe_content(packet_id, name@, qos));
    Ok(build_frame(SUBSCRIBE_HEADER, content.as_slice()))
}

/// The disconnect notice: a header byte and an empty content.
pub open spec fn spec_encode_disconnect() -> Seq<u8> {
    seq![DISCONNECT_HEADER, 0u8]
}

/// Encodes the disconnect notice.
pub fn encode_disconnect() -> (frame: Vec<u8>)
    ensures
        frame@ == spec_encode_disconnect(),
        frame@ == spec_frame(DISCONNECT_HEADER, Seq::empty()),
{
    let content: Vec<u8> = Vec::new();
    let frame = build_frame(DISCONNECT_HEADER, content.as_slice());
    assert(frame@ =~= spec_encode_disconnect());
    assert(content@ =~= Seq::<u8>::empty());
    frame
}

} // verus!
