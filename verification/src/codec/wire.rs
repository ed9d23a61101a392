//! The pieces every frame is made of: the fixed header byte followed by the
//! remaining-length field, big-endian 16-bit numbers, and length-prefixed
//! text.

use vstd::prelude::*;
use vstd::slice::slice_subrange;
use vstd::string::StringSliceAdditionalSpecFns;
use vstd::utf8::valid_utf8;
use crate::codec::error::DecodeError;
use crate::codec::remaining_length::{
    append_remaining_length,
    capacity,
    decode_remaining_length,
    lemma_encoded_size,
    lemma_remaining_length_roundtrip,
    remaining_length_size,
    spec_decode_remaining_length,
    spec_encode_remaining_length,
    MAX_LENGTH_BYTES,
    MAX_REMAINING_LENGTH,
};

verus! {

/// A 16-bit number on the wire, most significant byte first.
pub open spec fn spec_u16(v: u16) -> Seq<u8> {
    seq![(v / 256) as u8, (v % 256) as u8]
}

/// The 16-bit number made of a high and a low byte.
pub open spec fn spec_u16_from(high: u8, low: u8) -> u16 {
    (high * 256 + low) as u16
}

/// Text on the wire: its length in bytes as a 16-bit number, then the bytes.
pub open spec fn spec_text(bytes: Seq<u8>) -> Seq<u8> {
    spec_u16(bytes.len() as u16) + bytes
}

/// A whole frame: the fixed header byte, the length of the content as a
/// remaining-length field, and the content.
pub open spec fn spec_frame(header: u8, content: Seq<u8>) -> Seq<u8> {
    seq![header] + spec_encode_remaining_length(content.len()) + content
}

/// Takes a frame apart into its fixed header byte and its content. The input
/// must hold the frame and nothing else.
pub open spec fn spec_split_frame(bytes: Seq<u8>) -> Result<(u8, Seq<u8>), DecodeError> {
    if bytes.len() == 0 {
        Err(DecodeError::Truncated)
    } else {
        match spec_decode_remaining_length(bytes.skip(1), MAX_LENGTH_BYTES as nat) {
            Err(e) => Err(e),
            Ok((length, taken)) => {
                if bytes.len() < 1 + taken + length {
                    Err(DecodeError::Truncated)
                } else if bytes.len() > 1 + taken + length {
                    Err(DecodeError::Malformed)
                } else {
                    Ok((bytes[0], bytes.skip(1 + taken as int)))
                }
            },
        }
    }
}

/// Splitting a frame gives back the header and the content it was built from.
pub proof fn lemma_frame_roundtrip(header: u8, content: Seq<u8>)
    requires
        content.len() <= MAX_REMAINING_LENGTH,
    ensures
        spec_split_frame(spec_frame(header, content)) == Ok::<(u8, Seq<u8>), DecodeError>(
            (header, content),
        ),
{
    let field = spec_encode_remaining_length(content.len());
    let frame = spec_frame(header, content);
    lemma_encoded_size(content.len());
    lemma_remaining_length_roundtrip(content.len(), content);
    assert(frame.skip(1) =~= field + content);
    assert(frame.skip(1 + remaining_length_size(content.len()) as int) =~= content);
}

/// Appends `source` to `out`.
pub(crate) fn append_bytes(out: &mut Vec<u8>, source: &[u8])
    ensures
        final(out)@ == old(out)@ + source@,
{
    let mut i: usize = 0;
    while i < source.len()
        invariant
            i <= source@.len(),
            out@ == old(out)@ + source@.take(i as int),
        decreases source@.len() - i,
    {
        out.push(source[i]);
        i = i + 1;
        assert(out@ =~= old(out)@ + source@.take(i as int));
    }
    assert(source@.take(i as int) =~= source@);
}

/// Appends `v` as two bytes, most significant first.
pub(crate) fn append_u16(out: &mut Vec<u8>, v: u16)
    ensures
        final(out)@ == old(out)@ + spec_u16(v),
{
    out.push((v / 256) as u8);
    out.push((v % 256) as u8);
    assert(out@ =~= old(out)@ + spec_u16(v));
}

/// Builds the frame with the given fixed header byte around `content`.
pub(crate) fn build_frame(header: u8, content: &[u8]) -> (frame: Vec<u8>)
    requires
        content@.len() <= MAX_REMAINING_LENGTH,
    ensures
        frame@ == spec_frame(header, content@),
{
    let mut frame: Vec<u8> = Vec::new();
    frame.push(header);
    append_remaining_length(&mut frame, content.len() as u32);
    append_bytes(&mut frame, content);
    assert(frame@ =~= spec_frame(header, content@));
    frame
}

/// Reads the 16-bit number at `at`.
pub(crate) fn read_u16(bytes: &[u8], at: usize) -> (v: u16)
    requires
        at + 2 <= bytes@.len(),
    ensures
        v == spec_u16_from(bytes@[at as int], bytes@[at + 1]),
{
    (bytes[at] as u16) * 256 + (bytes[at + 1] as u16)
}

/// Takes a frame apart into its fixed header byte and its content.
pub fn split_frame(bytes: &[u8]) -> (r: Result<(u8, &[u8]), DecodeError>)
    ensures
        match spec_split_frame(bytes@) {
            Ok((header, content)) => r is Ok && r->Ok_0.0 == header && r->Ok_0.1@ == content
                && content.len() <= MAX_REMAINING_LENGTH,
            Err(e) => r == Err::<(u8, &[u8]), DecodeError>(e),
        },
{
    if bytes.len() == 0 {
        return Err(DecodeError::Truncated);
    }
    let rest = slice_subrange(bytes, 1, bytes.len());
    assert(rest@ =~= bytes@.skip(1));
    match decode_remaining_length(rest) {
        Err(e) => Err(e),
        Ok((length, taken)) => {
            let have = bytes.len() - 1 - taken;
            if have < length as usize {
                Err(DecodeError::Truncated)
            } else if have > length as usize {
                Err(DecodeError::Malformed)
            } else {
                let content = slice_subrange(bytes, 1 + taken, bytes.len());
                assert(content@ =~= bytes@.skip(1 + taken as int));
                Ok((bytes[0], content))
            }
        },
    }
}

/// How far a frame has been read.
#[derive(Clone, Copy, Debug, PartialEq, Eq, Structural)]
pub enum FrameProgress {
    /// The frame is not complete: at least this many bytes are still to be
    /// read, and reading exactly this many never goes past the frame's end.
    Need(usize),
    /// The bytes are exactly one frame.
    Complete,
    /// The bytes cannot become a frame: the length field is longer than four
    /// bytes, or bytes follow the frame's end.
    Invalid,
}

/// How far the frame that starts with `bytes` has been read. While the header
/// byte or the length field are incomplete, one more byte is asked for; once
/// the length is known, all that is left of the content.
pub open spec fn spec_frame_progress(bytes: Seq<u8>) -> FrameProgress {
    if bytes.len() == 0 {
        FrameProgress::Need(1)
    } else {
        match spec_decode_remaining_length(bytes.skip(1), MAX_LENGTH_BYTES as nat) {
            Err(DecodeError::Truncated) => FrameProgress::Need(1),
            Err(_) => FrameProgress::Invalid,
            Ok((length, taken)) => {
                let total = 1 + taken + length;
                if bytes.len() < total {
                    FrameProgress::Need((total - bytes.len()) as usize)
                } else if bytes.len() == total {
                    FrameProgress::Complete
                } else {
                    FrameProgress::Invalid
                }
            },
        }
    }
}

/// Progress and splitting agree: a frame is complete exactly when it splits,
/// more bytes are needed exactly when splitting finds it truncated, and it is
/// invalid exactly when splitting finds it malformed.
pub proof fn lemma_progress_matches_split(bytes: Seq<u8>)
    ensures
        spec_frame_progress(bytes) is Complete <==> spec_split_frame(bytes) is Ok,
        spec_frame_progress(bytes) is Need <==> spec_split_frame(bytes) == Err::<
            (u8, Seq<u8>),
            DecodeError,
        >(DecodeError::Truncated),
        spec_frame_progress(bytes) is Invalid <==> spec_split_frame(bytes) == Err::<
            (u8, Seq<u8>),
            DecodeError,
        >(DecodeError::Malformed),
        spec_frame_progress(bytes) matches FrameProgress::Need(n) ==> n >= 1,
{
    reveal_with_fuel(capacity, 5);
    if bytes.len() > 0 {
        lemma_decode_errors(bytes.skip(1), MAX_LENGTH_BYTES as nat);
    }
}

/// Reading a remaining-length field fails in two ways only, and a field that
/// is read takes one to four bytes and announces no more than the maximum.
pub proof fn lemma_decode_errors(bytes: Seq<u8>, limit: nat)
    requires
        limit <= 4,
    ensures
        match spec_decode_remaining_length(bytes, limit) {
            Ok((value, taken)) => value < capacity(limit) && 1 <= taken <= limit && taken
                <= bytes.len(),
            Err(e) => e == DecodeError::Truncated || e == DecodeError::Malformed,
        },
    decreases limit,
{
    reveal_with_fuel(capacity, 5);
    if limit > 0 && bytes.len() > 0 && bytes[0] >= 128 {
        lemma_decode_errors(bytes.skip(1), (limit - 1) as nat);
    }
}

/// Reading a field looks at the field only: bytes behind a field that
/// decodes change nothing.
pub proof fn lemma_decode_ignores_rest(bytes: Seq<u8>, more: Seq<u8>, limit: nat)
    requires
        spec_decode_remaining_length(bytes, limit) is Ok,
    ensures
        spec_decode_remaining_length(bytes + more, limit) == spec_decode_remaining_length(
            bytes,
            limit,
        ),
    decreases limit,
{
    if limit > 0 && bytes.len() > 0 {
        assert((bytes + more)[0] == bytes[0]);
        if bytes[0] >= 128 {
            assert((bytes + more).skip(1) =~= bytes.skip(1) + more);
            lemma_decode_ignores_rest(bytes.skip(1), more, (limit - 1) as nat);
        }
    }
}

/// Reading by progress reaches the end of the frame and never passes it:
/// while the length is not known, one byte is asked for; once it is known,
/// reading the bytes asked for completes the frame.
pub proof fn lemma_progress_completes(bytes: Seq<u8>, more: Seq<u8>)
    requires
        spec_frame_progress(bytes) is Need,
        more.len() == spec_frame_progress(bytes)->Need_0,
    ensures
        bytes.len() == 0 || spec_decode_remaining_length(
            bytes.skip(1),
            MAX_LENGTH_BYTES as nat,
        ) is Err ==> more.len() == 1,
        bytes.len() > 0 && spec_decode_remaining_length(
            bytes.skip(1),
            MAX_LENGTH_BYTES as nat,
        ) is Ok ==> spec_frame_progress(bytes + more) is Complete,
{
    reveal_with_fuel(capacity, 5);
    if bytes.len() > 0 {
        lemma_decode_errors(bytes.skip(1), MAX_LENGTH_BYTES as nat);
        if spec_decode_remaining_length(bytes.skip(1), MAX_LENGTH_BYTES as nat) is Ok {
            lemma_decode_ignores_rest(bytes.skip(1), more, MAX_LENGTH_BYTES as nat);
            assert((bytes + more).skip(1) =~= bytes.skip(1) + more);
        }
    }
}

/// How far the frame that starts with `bytes` has been read.
pub fn frame_progress(bytes: &[u8]) -> (r: FrameProgress)
    ensures
        r == spec_frame_progress(bytes@),
{
    if bytes.len() == 0 {
        return FrameProgress::Need(1);
    }
    let rest = slice_subrange(bytes, 1, bytes.len());
    assert(rest@ =~= bytes@.skip(1));
    proof {
        lemma_decode_errors(rest@, MAX_LENGTH_BYTES as nat);
    }
    match decode_remaining_length(rest) {
        Err(DecodeError::Truncated) => FrameProgress::Need(1),
        Err(_) => FrameProgress::Invalid,
        Ok((length, taken)) => {
            let have = bytes.len() - 1 - taken;
            if have < length as usize {
                FrameProgress::Need(length as usize - have)
            } else if have == length as usize {
                FrameProgress::Complete
            } else {
                FrameProgress::Invalid
            }
        },
    }
}

/// `core::str::from_utf8`: the text that `bytes` spell, if they are valid
/// UTF-8. The contract takes from the standard library that the call succeeds
/// exactly on valid UTF-8 and that the text it hands back is made of the same
/// bytes.
#[verifier::external_body]
pub(crate) fn text_from_utf8<'a>(bytes: &'a [u8]) -> (r: Option<&'a str>)
    ensures
        r is Some <==> valid_utf8(bytes@),
        r matches Some(text) ==> text.spec_bytes() == bytes@,
{
    core::str::from_utf8(bytes).ok()
}

} // verus!
