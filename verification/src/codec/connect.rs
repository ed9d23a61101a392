//! The connection request: the first frame a client sends.

use vstd::prelude::*;
use vstd::utf8::{decode_utf8, encode_utf8, valid_utf8};
use vstd::utf8::{decode_utf8_encode_utf8, encode_utf8_decode_utf8, encode_utf8_valid_utf8};
use vstd::slice::slice_subrange;
use crate::codec::error::{DecodeError, EncodeError};
use crate::codec::wire::{
    append_bytes,
    append_u16,
    build_frame,
    lemma_frame_roundtrip,
    read_u16,
    spec_frame,
    spec_split_frame,
    spec_text,
    spec_u16,
    spec_u16_from,
    split_frame,
    text_from_utf8,
};

verus! {

/// The most bytes a client identifier may have. Every broker accepts
/// identifiers up to this length.
pub const MAX_CLIENT_ID_LEN: usize = 23;

/// The fixed header byte of a connection request.
pub const CONNECT_HEADER: u8 = 0x10;

/// The connect-flags byte with only the clean-session bit set.
pub const CLEAN_SESSION_FLAG: u8 = 0x02;

/// What a client says of itself when it connects.
#[derive(Debug, PartialEq, Eq)]
pub struct ConnectRequest {
    client_id: String,
    clean_session: bool,
    keep_alive: u16,
}

/// The fields of a connection request as plain values.
pub struct ConnectFields {
    pub client_id: Seq<char>,
    pub clean_session: bool,
    pub keep_alive: u16,
}

/// A client identifier is valid when it has at least one byte and no more
/// than `MAX_CLIENT_ID_LEN`.
pub open spec fn valid_client_id(client_id: Seq<char>) -> bool {
    1 <= encode_utf8(client_id).len() <= MAX_CLIENT_ID_LEN
}

impl View for ConnectRequest {
    type V = ConnectFields;

    closed spec fn view(&self) -> ConnectFields {
        ConnectFields {
            client_id: self.client_id@,
            clean_session: self.clean_session,
            keep_alive: self.keep_alive,
        }
    }
}

impl ConnectRequest {
    #[verifier::type_invariant]
    spec fn well_formed(self) -> bool {
        valid_client_id(self.client_id@)
    }

    /// A request with the given fields, if the client identifier is valid.
    pub fn new(client_id: &str, clean_session: bool, keep_alive: u16) -> (r: Result<
        ConnectRequest,
        EncodeError,
    >)
        ensures
            encode_utf8(client_id@).len() == 0 ==> r == Err::<ConnectRequest, EncodeError>(
                EncodeError::EmptyClientId,
            ),
            encode_utf8(client_id@).len() > MAX_CLIENT_ID_LEN ==> r == Err::<
                ConnectRequest,
                EncodeError,
            >(EncodeError::ClientIdTooLong),
            valid_client_id(client_id@) ==> r is Ok && r->Ok_0@ == (ConnectFields {
                client_id: client_id@,
                clean_session,
                keep_alive,
            }),
    {
        let length = client_id.as_bytes().len();
        if length == 0 {
            Err(EncodeError::EmptyClientId)
        } else if length > MAX_CLIENT_ID_LEN {
            Err(EncodeError::ClientIdTooLong)
        } else {
            Ok(ConnectRequest { client_id: client_id.to_owned(), clean_session, keep_alive })
        }
    }

    /// The client identifier, which is always a valid one.
    pub fn client_id(&self) -> (r: &str)
        ensures
            r@ == self@.client_id,
            valid_client_id(r@),
    {
        proof {
            use_type_invariant(self);
        }
        self.client_id.as_str()
    }

    /// Whether the broker is asked to forget any earlier session.
    pub fn clean_session(&self) -> (r: bool)
        ensures
            r == self@.clean_session,
    {
        self.clean_session
    }

    /// The keep-alive interval in seconds.
    pub fn keep_alive(&self) -> (r: u16)
        ensures
            r == self@.keep_alive,
    {
        self.keep_alive
    }
}

impl Clone for ConnectRequest {
    fn clone(&self) -> (r: ConnectRequest)
        ensures
            r@ == self@,
    {
        proof {
            use_type_invariant(self);
        }
        ConnectRequest {
            client_id: self.client_id.clone(),
            clean_session: self.clean_session,
            keep_alive: self.keep_alive,
        }
    }
}

/// The connect-flags byte: the clean-session bit and nothing else.
pub open spec fn spec_connect_flags(clean_session: bool) -> u8 {
    if clean_session {
        CLEAN_SESSION_FLAG
    } else {
        0
    }
}

/// Whether `content` starts with the protocol name `MQTT`, length-prefixed,
/// and protocol level 4.
pub open spec fn has_protocol_header(content: Seq<u8>) -> bool {
    &&& content.len() >= 7
    &&& content[0] == 0
    &&& content[1] == 4
    &&& content[2] == 0x4d
    &&& content[3] == 0x51
    &&& content[4] == 0x54
    &&& content[5] == 0x54
    &&& content[6] == 4
}

/// The content of a connection request: protocol name and level, connect
/// flags, keep-alive, client identifier.
pub open spec fn spec_connect_content(fields: ConnectFields) -> Seq<u8> {
    seq![0u8, 4u8, 0x4du8, 0x51u8, 0x54u8, 0x54u8, 4u8, spec_connect_flags(fields.clean_session)]
        + spec_u16(fields.keep_alive) + spec_text(encode_utf8(fields.client_id))
}

/// The connection request frame for `fields`.
pub open spec fn spec_encode_connect(fields: ConnectFields) -> Seq<u8> {
    spec_frame(CONNECT_HEADER, spec_connect_content(fields))
}

/// Reads the content of a connection request.
pub open spec fn spec_decode_connect_content(content: Seq<u8>) -> Result<
    ConnectFields,
    DecodeError,
> {
    if content.len() < 12 || !has_protocol_header(content) {
        Err(DecodeError::Malformed)
    } else if content[7] != 0 && content[7] != CLEAN_SESSION_FLAG {
        Err(DecodeError::Malformed)
    } else {
        let length = spec_u16_from(content[10], content[11]);
        let id = content.skip(12);
        if id.len() != length || length == 0 || length > MAX_CLIENT_ID_LEN || !valid_utf8(id) {
            Err(DecodeError::Malformed)
        } else {
            Ok(
                ConnectFields {
                    client_id: decode_utf8(id),
                    clean_session: content[7] == CLEAN_SESSION_FLAG,
                    keep_alive: spec_u16_from(content[8], content[9]),
                },
            )
        }
    }
}

/// Reads a connection request frame.
pub open spec fn spec_decode_connect(bytes: Seq<u8>) -> Result<ConnectFields, DecodeError> {
    match spec_split_frame(bytes) {
        Err(e) => Err(e),
        Ok((header, content)) => if header != CONNECT_HEADER {
            Err(DecodeError::Malformed)
        } else {
            spec_decode_connect_content(content)
        },
    }
}

/// Decoding the frame of a request with a valid client identifier gives the
/// request's fields back.
pub proof fn lemma_connect_roundtrip(fields: ConnectFields)
    requires
        valid_client_id(fields.client_id),
    ensures
        spec_decode_connect(spec_encode_connect(fields)) == Ok::<ConnectFields, DecodeError>(
            fields,
        ),
{
    let id = encode_utf8(fields.client_id);
    let content = spec_connect_content(fields);
    lemma_frame_roundtrip(CONNECT_HEADER, content);
    encode_utf8_valid_utf8(fields.client_id);
    encode_utf8_decode_utf8(fields.client_id);
    assert(content.len() == 12 + id.len());
    assert(content.skip(12) =~= id);
    assert(content[8] == (fields.keep_alive / 256) as u8);
    assert(content[9] == (fields.keep_alive % 256) as u8);
    assert(content[10] == 0);
    assert(content[11] == id.len() as u8);
    let decoded = spec_decode_connect_content(content)->Ok_0;
    assert(decoded.client_id == fields.client_id);
}

/// A content that reads as a connection request is the content built from
/// the fields read, and those fields hold a valid client identifier.
pub proof fn lemma_connect_content_inverse(content: Seq<u8>)
    requires
        spec_decode_connect_content(content) is Ok,
    ensures
        valid_client_id(spec_decode_connect_content(content)->Ok_0.client_id),
        spec_connect_content(spec_decode_connect_content(content)->Ok_0) == content,
{
    let fields = spec_decode_connect_content(content)->Ok_0;
    let id = content.skip(12);
    decode_utf8_encode_utf8(id);
    assert(spec_connect_content(fields) =~= content);
}

/// Encodes a connection request.
pub fn encode_connect(request: &ConnectRequest) -> (frame: Vec<u8>)
    ensures
        frame@ == spec_encode_connect(request@),
{
    proof {
        use_type_invariant(request);
    }
    let id = request.client_id.as_str().as_bytes();
    let mut content: Vec<u8> = Vec::new();
    content.push(0);
    content.push(4);
    content.push(0x4d);
    content.push(0x51);
    content.push(0x54);
    content.push(0x54);
    content.push(4);
    content.push(if request.clean_session { CLEAN_SESSION_FLAG } else { 0 });
    append_u16(&mut content, request.keep_alive);
    append_u16(&mut content, id.len() as u16);
    append_bytes(&mut content, id);
    assert(content@ =~= spec_connect_content(request@));
    build_frame(CONNECT_HEADER, content.as_slice())
}

/// Decodes a connection request. The input must hold the frame and nothing
/// else.
pub fn decode_connect(bytes: &[u8]) -> (r: Result<ConnectRequest, DecodeError>)
    ensures
        match spec_decode_connect(bytes@) {
            Ok(fields) => r is Ok && r->Ok_0@ == fields,
            Err(e) => r == Err::<ConnectRequest, DecodeError>(e),
        },
{
    let (header, content) = match split_frame(bytes) {
        Ok(parts) => parts,
        Err(e) => { return Err(e); },
    };
    if header != CONNECT_HEADER || content.len() < 12 {
        return Err(DecodeError::Malformed);
    }
    if content[0] != 0 || content[1] != 4 || content[2] != 0x4d || content[3] != 0x51
        || content[4] != 0x54 || content[5] != 0x54 || content[6] != 4 {
        return Err(DecodeError::Malformed);
    }
    let flags = content[7];
    if flags != 0 && flags != CLEAN_SESSION_FLAG {
        return Err(DecodeError::Malformed);
    }
    let keep_alive = read_u16(content, 8);
    let length = read_u16(content, 10) as usize;
    let id = slice_subrange(content, 12, content.len());
    assert(id@ =~= content@.skip(12));
    if id.len() != length || length == 0 || length > MAX_CLIENT_ID_LEN {
        return Err(DecodeError::Malformed);
    }
    match text_from_utf8(id) {
        None => Err(DecodeError::Malformed),
        Some(text) => {
            proof {
                encode_utf8_decode_utf8(text@);
            }
            Ok(
                ConnectRequest {
                    client_id: text.to_owned(),
                    clean_session: flags == CLEAN_SESSION_FLAG,
                    keep_alive,
                },
            )
        },
    }
}

} // verus!
