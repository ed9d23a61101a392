use vstd::prelude::*;

verus! {

/// Why a value could not be put on the wire.
#[derive(Clone, Copy, Debug, PartialEq, Eq, Structural)]
pub enum EncodeError {
    /// The client identifier has no bytes.
    EmptyClientId,
    /// The client identifier is longer than the protocol allows.
    ClientIdTooLong,
    /// The topic has no bytes.
    EmptyTopic,
    /// The topic does not fit behind a 16-bit length prefix.
    TopicTooLong,
    /// The topic of a publish holds `#` or `+`.
    WildcardInTopic,
    /// The frame's content is larger than a four-byte remaining-length field can announce.
    FrameTooLarge,
}

/// Why a byte sequence is not the frame it was taken for.
#[derive(Clone, Copy, Debug, PartialEq, Eq, Structural)]
pub enum DecodeError {
    /// The input ends before the frame does.
    Truncated,
    /// The input is complete but breaks the framing rules.
    Malformed,
    /// A connection acknowledgment carries a return code outside the known six.
    UnknownReturnCode,
}

} // verus!
