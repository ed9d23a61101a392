//! What a broker sends: one decoder for every frame the client understands.

use vstd::prelude::*;
use crate::codec::connack::{decode_connack, spec_decode_connack, ConnectAck, CONNACK_HEADER};
use crate::codec::error::DecodeError;
use crate::codec::publish::{decode_publish, spec_decode_publish, PublishFields, PublishFrame};
use crate::codec::wire::{read_u16, spec_split_frame, spec_u16_from, split_frame};

verus! {

/// The fixed header byte of a publish acknowledgment.
pub const PUBACK_HEADER: u8 = 0x40;

/// The fixed header byte of a subscribe acknowledgment.
pub const SUBACK_HEADER: u8 = 0x90;

/// A frame from the broker.
#[derive(Debug, PartialEq, Eq)]
pub enum Inbound {
    /// The verdict on a connection request.
    ConnAck(ConnectAck),
    /// A message for a topic the client subscribed to.
    Publish(PublishFrame),
    /// The acknowledgment of the publish with this packet identifier.
    PubAck(u16),
    /// The acknowledgment of the subscribe with this packet identifier.
    SubAck(u16),
}

/// A frame from the broker as plain values.
pub enum InboundFields {
    ConnAck(ConnectAck),
    Publish(PublishFields),
    PubAck(u16),
    SubAck(u16),
}

impl View for Inbound {
    type V = InboundFields;

    open spec fn view(&self) -> InboundFields {
        match self {
            Inbound::ConnAck(ack) => InboundFields::ConnAck(*ack),
            Inbound::Publish(frame) => InboundFields::Publish(frame@),
            Inbound::PubAck(id) => InboundFields::PubAck(*id),
            Inbound::SubAck(id) => InboundFields::SubAck(*id),
        }
    }
}

/// Reads a frame from the broker. The header byte tells the kind: a
/// connection acknowledgment, a publish, a publish acknowledgment of two
/// bytes, or a subscribe acknowledgment of a packet identifier and at least
/// one return code. Every other kind is malformed to this client.
pub open spec fn spec_decode_inbound(bytes: Seq<u8>) -> Result<InboundFields, DecodeError> {
    match spec_split_frame(bytes) {
        Err(e) => Err(e),
        Ok((header, content)) => {
            if header == CONNACK_HEADER {
                match spec_decode_connack(bytes) {
                    Ok(ack) => Ok(InboundFields::ConnAck(ack)),
                    Err(e) => Err(e),
                }
            } else if header / 16 == 3 {
                match spec_decode_publish(bytes) {
                    Ok(fields) => Ok(InboundFields::Publish(fields)),
                    Err(e) => Err(e),
                }
            } else if header == PUBACK_HEADER {
                if content.len() == 2 {
                    Ok(InboundFields::PubAck(spec_u16_from(content[0], content[1])))
                } else {
                    Err(DecodeError::Malformed)
                }
            } else if header == SUBACK_HEADER {
                if content.len() >= 3 {
                    Ok(InboundFields::SubAck(spec_u16_from(content[0], content[1])))
                } else {
                    Err(DecodeError::Malformed)
                }
            } else {
                Err(DecodeError::Malformed)
            }
        },
    }
}

/// Decodes a frame from the broker. The input must hold the frame and
/// nothing else.
pub fn decode_inbound(bytes: &[u8]) -> (r: Result<Inbound, DecodeError>)
    ensures
        match spec_decode_inbound(bytes@) {
            Ok(fields) => r is Ok && r->Ok_0@ == fields,
            Err(e) => r == Err::<Inbound, DecodeError>(e),
        },
{
    let (header, content) = match split_frame(bytes) {
        Ok(parts) => parts,
        Err(e) => { return Err(e); },
    };
    if header == CONNACK_HEADER {
        match decode_connack(bytes) {
            Ok(ack) => Ok(Inbound::ConnAck(ack)),
            Err(e) => Err(e),
        }
    } else if header / 16 == 3 {
        match decode_publish(bytes) {
            Ok(frame) => Ok(Inbound::Publish(frame)),
            Err(e) => Err(e),
        }
    } else if header == PUBACK_HEADER {
        if content.len() == 2 {
            Ok(Inbound::PubAck(read_u16(content, 0)))
        } else {
            Err(DecodeError::Malformed)
        }
    } else if header == SUBACK_HEADER {
        if content.len() >= 3 {
            Ok(Inbound::SubAck(read_u16(content, 0)))
        } else {
            Err(DecodeError::Malformed)
        }
    } else {
        Err(DecodeError::Malformed)
    }
}

} // verus!
