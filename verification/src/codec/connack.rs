//! The connection acknowledgment: the broker's answer to a connection
//! request.

use vstd::prelude::*;
use crate::codec::error::DecodeError;
use crate::codec::wire::{spec_frame, spec_split_frame, split_frame, build_frame, lemma_frame_roundtrip};

verus! {

/// The fixed header byte of a connection acknowledgment.
pub const CONNACK_HEADER: u8 = 0x20;

/// The broker's verdict on a connection request. Only `Accepted` lets the
/// session go on.
#[derive(Clone, Copy, Debug, PartialEq, Eq, Structural)]
pub enum ConnectAck {
    /// The connection stands.
    Accepted,
    /// The broker does not speak the protocol level asked for.
    ProtocolRejected,
    /// The broker does not accept the client identifier.
    IdentifierRejected,
    /// The broker cannot serve now.
    ServerUnavailable,
    /// User name or password are malformed.
    BadCredentials,
    /// The client may not connect.
    NotAuthorized,
}

/// The verdict that a return-code byte stands for, if it stands for one.
pub open spec fn spec_return_code(code: u8) -> Option<ConnectAck> {
    if code == 0 {
        Some(ConnectAck::Accepted)
    } else if code == 1 {
        Some(ConnectAck::ProtocolRejected)
    } else if code == 2 {
        Some(ConnectAck::IdentifierRejected)
    } else if code == 3 {
        Some(ConnectAck::ServerUnavailable)
    } else if code == 4 {
        Some(ConnectAck::BadCredentials)
    } else if code == 5 {
        Some(ConnectAck::NotAuthorized)
    } else {
        None
    }
}

impl ConnectAck {
    /// The return-code byte of this verdict.
    pub open spec fn spec_code(self) -> u8 {
        match self {
            ConnectAck::Accepted => 0,
            ConnectAck::ProtocolRejected => 1,
            ConnectAck::IdentifierRejected => 2,
            ConnectAck::ServerUnavailable => 3,
            ConnectAck::BadCredentials => 4,
            ConnectAck::NotAuthorized => 5,
        }
    }

    /// The verdict that a return-code byte stands for: 0 is `Accepted`, 1 to
    /// 5 are the five refusals in the order of the enumeration, and no other
    /// byte is a verdict.
    pub fn from_code(code: u8) -> (r: Option<ConnectAck>)
        ensures
            r == spec_return_code(code),
            r is Some <==> code <= 5,
            r matches Some(ack) ==> ack.spec_code() == code,
    {
        match code {
            0 => Some(ConnectAck::Accepted),
            1 => Some(ConnectAck::ProtocolRejected),
            2 => Some(ConnectAck::IdentifierRejected),
            3 => Some(ConnectAck::ServerUnavailable),
            4 => Some(ConnectAck::BadCredentials),
            5 => Some(ConnectAck::NotAuthorized),
            _ => None,
        }
    }

    /// The return-code byte of this verdict.
    pub fn code(self) -> (r: u8)
        ensures
            r == self.spec_code(),
            spec_return_code(r) == Some(self),
    {
        match self {
            ConnectAck::Accepted => 0,
            ConnectAck::ProtocolRejected => 1,
            ConnectAck::IdentifierRejected => 2,
            ConnectAck::ServerUnavailable => 3,
            ConnectAck::BadCredentials => 4,
            ConnectAck::NotAuthorized => 5,
        }
    }
}

/// Reads the content of a connection acknowledgment: a flags byte, which is
/// not looked at, and the return code.
pub open spec fn spec_decode_connack_content(content: Seq<u8>) -> Result<ConnectAck, DecodeError> {
    if content.len() != 2 {
        Err(DecodeError::Malformed)
    } else {
        match spec_return_code(content[1]) {
            Some(ack) => Ok(ack),
            None => Err(DecodeError::UnknownReturnCode),
        }
    }
}

/// Reads a connection acknowledgment frame.
pub open spec fn spec_decode_connack(bytes: Seq<u8>) -> Result<ConnectAck, DecodeError> {
    match spec_split_frame(bytes) {
        Err(e) => Err(e),
        Ok((header, content)) => if header != CONNACK_HEADER {
            Err(DecodeError::Malformed)
        } else {
            spec_decode_connack_content(content)
        },
    }
}

/// The acknowledgment frame a broker sends for a verdict, with the given
/// flags byte.
pub open spec fn spec_encode_connack(flags: u8, ack: ConnectAck) -> Seq<u8> {
    spec_frame(CONNACK_HEADER, seq![flags, ack.spec_code()])
}

/// An acknowledgment frame is four bytes: header, the length 2, the flags
/// and the return code.
pub proof fn lemma_connack_bytes(flags: u8, ack: ConnectAck)
    ensures
        spec_encode_connack(flags, ack) == seq![CONNACK_HEADER, 2u8, flags, ack.spec_code()],
{
    assert(spec_encode_connack(flags, ack) =~= seq![CONNACK_HEADER, 2u8, flags, ack.spec_code()]);
}

/// Decoding the acknowledgment frame of a verdict gives the verdict back.
pub proof fn lemma_connack_roundtrip(flags: u8, ack: ConnectAck)
    ensures
        spec_decode_connack(spec_encode_connack(flags, ack)) == Ok::<ConnectAck, DecodeError>(ack),
{
    lemma_frame_roundtrip(CONNACK_HEADER, seq![flags, ack.spec_code()]);
}

/// Of four bytes that start as an acknowledgment does, the last alone
/// decides: a known return code is its verdict, any other byte fails.
pub proof fn lemma_connack_mapping(flags: u8, code: u8)
    ensures
        spec_decode_connack(seq![CONNACK_HEADER, 2u8, flags, code]) == match spec_return_code(
            code,
        ) {
            Some(ack) => Ok::<ConnectAck, DecodeError>(ack),
            None => Err::<ConnectAck, DecodeError>(DecodeError::UnknownReturnCode),
        },
{
    let bytes = seq![CONNACK_HEADER, 2u8, flags, code];
    let content = seq![flags, code];
    assert(bytes =~= spec_frame(CONNACK_HEADER, content));
    lemma_frame_roundtrip(CONNACK_HEADER, content);
}

/// Decodes a connection acknowledgment from bytes already read. The input
/// must hold the frame and nothing else.
pub fn decode_connack(bytes: &[u8]) -> (r: Result<ConnectAck, DecodeError>)
    ensures
        r == spec_decode_connack(bytes@),
{
    let (header, content) = match split_frame(bytes) {
        Ok(parts) => parts,
        Err(e) => { return Err(e); },
    };
    if header != CONNACK_HEADER || content.len() != 2 {
        return Err(DecodeError::Malformed);
    }
    match ConnectAck::from_code(content[1]) {
        Some(ack) => Ok(ack),
        None => Err(DecodeError::UnknownReturnCode),
    }
}

/// Encodes a connection acknowledgment, as a broker would.
pub fn encode_connack(session_present: bool, ack: ConnectAck) -> (frame: Vec<u8>)
    ensures
        frame@ == spec_encode_connack(if session_present { 1u8 } else { 0u8 }, ack),
{
    let mut content: Vec<u8> = Vec::new();
    content.push(if session_present { 1 } else { 0 });
    content.push(ack.code());
    assert(content@ =~= seq![if session_present { 1u8 } else { 0u8 }, ack.spec_code()]);
    build_frame(CONNACK_HEADER, content.as_slice())
}

} // verus!
