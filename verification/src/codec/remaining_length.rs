//! The remaining-length field: a little-endian base-128 number of one to four
//! bytes, each byte holding seven value bits and a continuation bit.

use vstd::prelude::*;
use crate::codec::error::{DecodeError, EncodeError};

verus! {

/// The largest value a remaining-length field can announce.
pub const MAX_REMAINING_LENGTH: u32 = 268_435_455;

/// The most bytes a remaining-length field may occupy.
pub const MAX_LENGTH_BYTES: usize = 4;

/// The field for `n`: seven bits per byte, least significant group first,
/// bit 7 set on every byte but the last.
pub open spec fn spec_encode_remaining_length(n: nat) -> Seq<u8>
    decreases n,
{
    if n < 128 {
        seq![n as u8]
    } else {
        seq![(n % 128 + 128) as u8] + spec_encode_remaining_length(n / 128)
    }
}

/// How many bytes the field for `n` takes.
pub open spec fn remaining_length_size(n: nat) -> nat {
    if n < 128 {
        1
    } else if n < 16_384 {
        2
    } else if n < 2_097_152 {
        3
    } else {
        4
    }
}

/// Reads a field from the front of `bytes`, looking at no more than `limit`
/// bytes: the value and the number of bytes it took.
pub open spec fn spec_decode_remaining_length(bytes: Seq<u8>, limit: nat) -> Result<
    (nat, nat),
    DecodeError,
>
    decreases limit,
{
    if limit == 0 {
        Err(DecodeError::Malformed)
    } else if bytes.len() == 0 {
        Err(DecodeError::Truncated)
    } else if bytes[0] < 128 {
        Ok((bytes[0] as nat, 1))
    } else {
        match spec_decode_remaining_length(bytes.skip(1), (limit - 1) as nat) {
            Ok((value, taken)) => Ok(((bytes[0] - 128 + 128 * value) as nat, taken + 1)),
            Err(e) => Err(e),
        }
    }
}

/// The field for `n` has exactly `remaining_length_size(n)` bytes.
pub proof fn lemma_encoded_size(n: nat)
    requires
        n <= MAX_REMAINING_LENGTH,
    ensures
        spec_encode_remaining_length(n).len() == remaining_length_size(n),
{
    reveal_with_fuel(spec_encode_remaining_length, 4);
}

/// Every byte of the field but the last has its continuation bit set, and the
/// last has it clear.
pub proof fn lemma_continuation_bits(n: nat, i: int)
    requires
        n <= MAX_REMAINING_LENGTH,
        0 <= i < remaining_length_size(n),
    ensures
        (spec_encode_remaining_length(n)[i] >= 128) <==> i + 1 < remaining_length_size(n),
{
    reveal_with_fuel(spec_encode_remaining_length, 4);
}

/// Decoding inverts encoding, whatever follows the field.
pub proof fn lemma_remaining_length_roundtrip(n: nat, rest: Seq<u8>)
    requires
        n <= MAX_REMAINING_LENGTH,
    ensures
        spec_decode_remaining_length(
            spec_encode_remaining_length(n) + rest,
            MAX_LENGTH_BYTES as nat,
        ) == Ok::<(nat, nat), DecodeError>((n, remaining_length_size(n))),
{
    lemma_roundtrip_within(n, rest, MAX_LENGTH_BYTES as nat);
}

proof fn lemma_roundtrip_within(n: nat, rest: Seq<u8>, limit: nat)
    requires
        remaining_length_size(n) <= limit <= 4,
        n <= MAX_REMAINING_LENGTH,
    ensures
        spec_decode_remaining_length(spec_encode_remaining_length(n) + rest, limit) == Ok::<
            (nat, nat),
            DecodeError,
        >((n, remaining_length_size(n))),
    decreases n,
{
    let field = spec_encode_remaining_length(n);
    if n < 128 {
        assert((field + rest)[0] == n as u8);
    } else {
        let tail = spec_encode_remaining_length(n / 128);
        assert((field + rest)[0] == (n % 128 + 128) as u8);
        assert((field + rest).skip(1) =~= tail + rest);
        lemma_roundtrip_within(n / 128, rest, (limit - 1) as nat);
    }
}

/// Appends the remaining-length field for `n` to `out`.
pub(crate) fn append_remaining_length(out: &mut Vec<u8>, n: u32)
    requires
        n <= MAX_REMAINING_LENGTH,
    ensures
        final(out)@ == old(out)@ + spec_encode_remaining_length(n as nat),
{
    let mut rest: u32 = n;
    while rest >= 128
        invariant
            rest <= n <= MAX_REMAINING_LENGTH,
            out@ + spec_encode_remaining_length(rest as nat) == old(out)@
                + spec_encode_remaining_length(n as nat),
        decreases rest,
    {
        let ghost before = out@;
        out.push((rest % 128 + 128) as u8);
        proof {
            let tail = spec_encode_remaining_length((rest / 128) as nat);
            assert(spec_encode_remaining_length(rest as nat) == seq![(rest % 128 + 128) as u8]
                + tail);
            assert(out@ + tail =~= before + (seq![(rest % 128 + 128) as u8] + tail));
        }
        rest = rest / 128;
    }
    let ghost before = out@;
    out.push(rest as u8);
    assert(out@ =~= before + spec_encode_remaining_length(rest as nat));
}

/// Encodes `n` as a remaining-length field, or says that `n` is too large
/// for one.
pub fn encode_remaining_length(n: u32) -> (r: Result<Vec<u8>, EncodeError>)
    ensures
        n <= MAX_REMAINING_LENGTH ==> r is Ok && r->Ok_0@ == spec_encode_remaining_length(n as nat)
            && r->Ok_0@.len() == remaining_length_size(n as nat),
        n > MAX_REMAINING_LENGTH ==> r == Err::<Vec<u8>, EncodeError>(EncodeError::FrameTooLarge),
{
    if n > MAX_REMAINING_LENGTH {
        return Err(EncodeError::FrameTooLarge);
    }
    let mut out: Vec<u8> = Vec::new();
    append_remaining_length(&mut out, n);
    proof {
        assert(out@ =~= spec_encode_remaining_length(n as nat));
        lemma_encoded_size(n as nat);
    }
    Ok(out)
}

/// Decodes the remaining-length field at the front of `bytes`: the value and
/// the number of bytes the field occupies.
pub fn decode_remaining_length(bytes: &[u8]) -> (r: Result<(u32, usize), DecodeError>)
    ensures
        match spec_decode_remaining_length(bytes@, MAX_LENGTH_BYTES as nat) {
            Ok((value, taken)) => r == Ok::<(u32, usize), DecodeError>(
                (value as u32, taken as usize),
            ) && value <= MAX_REMAINING_LENGTH && 1 <= taken <= 4 && taken <= bytes@.len(),
            Err(e) => r == Err::<(u32, usize), DecodeError>(e),
        },
{
    proof {
        assert(bytes@.skip(0) =~= bytes@);
        reveal_with_fuel(capacity, 5);
    }
    decode_field(bytes, 0, MAX_LENGTH_BYTES)
}

/// The number of values that `k` bytes of seven bits each can tell apart.
pub open spec fn capacity(k: nat) -> nat
    decreases k,
{
    if k == 0 {
        1
    } else {
        128 * capacity((k - 1) as nat)
    }
}

fn decode_field(bytes: &[u8], start: usize, limit: usize) -> (r: Result<(u32, usize), DecodeError>)
    requires
        start <= bytes@.len(),
        limit <= 4,
    ensures
        match spec_decode_remaining_length(bytes@.skip(start as int), limit as nat) {
            Ok((value, taken)) => r == Ok::<(u32, usize), DecodeError>(
                (value as u32, taken as usize),
            ) && value < capacity(limit as nat) && 1 <= taken <= limit && start + taken
                <= bytes@.len(),
            Err(e) => r == Err::<(u32, usize), DecodeError>(e),
        },
    decreases limit,
{
    proof {
        reveal_with_fuel(capacity, 5);
    }
    if limit == 0 {
        return Err(DecodeError::Malformed);
    }
    if start >= bytes.len() {
        return Err(DecodeError::Truncated);
    }
    let first = bytes[start];
    proof {
        assert(bytes@.skip(start as int)[0] == first);
        assert(bytes@.skip(start as int).skip(1) =~= bytes@.skip(start as int + 1));
    }
    if first < 128 {
        return Ok((first as u32, 1));
    }
    match decode_field(bytes, start + 1, limit - 1) {
        Ok((value, taken)) => Ok(((first - 128) as u32 + 128 * value, taken + 1)),
        Err(e) => Err(e),
    }
}

} // verus!
