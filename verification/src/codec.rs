//! The encoding of values in the TLS presentation language, with
//! variable-size length prefixes on vectors.

use vstd::prelude::*;
use tls_codec::Serialize;
use crate::bytes::append_bytes;

verus! {

/// `Error` of `tls_codec`: what its encoder fails with. Nothing is known of
/// what is inside it.
#[verifier::external_type_specification]
#[verifier::external_body]
pub struct ExCodecError(tls_codec::Error);

/// Failures of encoding.
#[derive(Clone, Copy, Debug, PartialEq, Eq, Structural)]
pub enum CodecError {
    /// A vector is too long to have a length prefix.
    InvalidVectorLength,
    /// A value that must be present before encoding is missing.
    InvalidInput,
    /// The encoder failed where it cannot fail.
    LibraryError,
}

/// The greatest length of a vector that can be encoded.
pub const MAX_VECTOR_LENGTH: usize = 0x3fff_ffff;

/// The encoding of an 8-bit integer.
pub open spec fn u8_encoding(v: u8) -> Seq<u8> {
    seq![v]
}

/// The encoding of a 16-bit integer: big endian.
pub open spec fn u16_encoding(v: u16) -> Seq<u8> {
    seq![(v / 0x100) as u8, (v % 0x100) as u8]
}

/// The encoding of a 32-bit integer: big endian.
pub open spec fn u32_encoding(v: u32) -> Seq<u8> {
    seq![
        (v / 0x100_0000) as u8,
        ((v / 0x1_0000) % 0x100) as u8,
        ((v / 0x100) % 0x100) as u8,
        (v % 0x100) as u8,
    ]
}

/// The encoding of a 64-bit integer: big endian.
pub open spec fn u64_encoding(v: u64) -> Seq<u8> {
    u32_encoding((v / 0x1_0000_0000) as u32) + u32_encoding((v % 0x1_0000_0000) as u32)
}

/// The length prefix of a vector whose content takes `n` bytes: one, two or
/// four bytes, the shortest that holds `n`, with the number of bytes in the
/// two highest bits of the first.
pub open spec fn length_prefix(n: nat) -> Seq<u8>
    recommends
        n <= MAX_VECTOR_LENGTH,
{
    if n <= 0x3f {
        seq![n as u8]
    } else if n <= 0x3fff {
        seq![(0x40 + n / 0x100) as u8, (n % 0x100) as u8]
    } else {
        seq![
            (0x80 + n / 0x100_0000) as u8,
            ((n / 0x1_0000) % 0x100) as u8,
            ((n / 0x100) % 0x100) as u8,
            (n % 0x100) as u8,
        ]
    }
}

/// The encoding of a vector whose encoded content is `content`.
pub open spec fn vector_encoding(content: Seq<u8>) -> Seq<u8> {
    length_prefix(content.len()) + content
}

/// Calls `Serialize::tls_serialize_detached` of `tls_codec` on a
/// `VLByteSlice`. For a content of at most `MAX_VECTOR_LENGTH` bytes the call
/// succeeds and returns the length prefix followed by the content.
#[verifier::external_body]
fn serialize_vl_bytes(content: &[u8]) -> (r: Result<Vec<u8>, tls_codec::Error>)
    requires
        content@.len() <= MAX_VECTOR_LENGTH,
    ensures
        r.is_ok(),
        r.unwrap()@ == vector_encoding(content@),
{
    tls_codec::VLByteSlice(content).tls_serialize_detached()
}

/// Appends the encoding of an 8-bit integer.
pub fn append_u8(out: &mut Vec<u8>, v: u8)
    ensures
        final(out)@ == old(out)@ + u8_encoding(v),
{
    out.push(v);
    assert(out@ == old(out)@ + u8_encoding(v));
}

/// Appends the encoding of a 16-bit integer.
pub fn append_u16(out: &mut Vec<u8>, v: u16)
    ensures
        final(out)@ == old(out)@ + u16_encoding(v),
{
    out.push((v / 0x100) as u8);
    out.push((v % 0x100) as u8);
    assert(out@ == old(out)@ + u16_encoding(v));
}

/// Appends the encoding of a 32-bit integer.
pub fn append_u32(out: &mut Vec<u8>, v: u32)
    ensures
        final(out)@ == old(out)@ + u32_encoding(v),
{
    out.push((v / 0x100_0000) as u8);
    out.push(((v / 0x1_0000) % 0x100) as u8);
    out.push(((v / 0x100) % 0x100) as u8);
    out.push((v % 0x100) as u8);
    assert(out@ == old(out)@ + u32_encoding(v));
}

/// Appends the encoding of a 64-bit integer.
pub fn append_u64(out: &mut Vec<u8>, v: u64)
    ensures
        final(out)@ == old(out)@ + u64_encoding(v),
{
    append_u32(out, (v / 0x1_0000_0000) as u32);
    append_u32(out, (v % 0x1_0000_0000) as u32);
    assert(out@ == old(out)@ + u64_encoding(v));
}

/// Appends the encoding of a vector whose encoded content is `content`.
/// Fails, and leaves `out` as it was, when the content is too long.
pub fn append_vector(out: &mut Vec<u8>, content: &[u8]) -> (r: Result<(), CodecError>)
    ensures
        content@.len() <= MAX_VECTOR_LENGTH ==> r is Ok && final(out)@ == old(out)@ + vector_encoding(content@),
        content@.len() > MAX_VECTOR_LENGTH ==> r == Err::<(), CodecError>(CodecError::InvalidVectorLength) && final(out)@ == old(out)@,
{
    if content.len() > MAX_VECTOR_LENGTH {
        return Err(CodecError::InvalidVectorLength);
    }
    match serialize_vl_bytes(content) {
        Ok(encoded) => {
            append_bytes(out, encoded.as_slice());
            Ok(())
        },
        Err(_) => Err(CodecError::LibraryError),
    }
}

/// The encoding of a vector whose encoded content is `content`.
pub fn encode_vector(content: &[u8]) -> (r: Result<Vec<u8>, CodecError>)
    ensures
        content@.len() <= MAX_VECTOR_LENGTH ==> r is Ok && r.unwrap()@ == vector_encoding(content@),
        content@.len() > MAX_VECTOR_LENGTH ==> r == Err::<Vec<u8>, CodecError>(CodecError::InvalidVectorLength),
{
    let mut out: Vec<u8> = Vec::new();
    match append_vector(&mut out, content) {
        Ok(()) => {
            assert(out@ == vector_encoding(content@));
            Ok(out)
        },
        Err(e) => Err(e),
    }
}

/// The encodings of 16-bit integers, one after the other.
pub open spec fn u16_list_content(values: Seq<u16>) -> Seq<u8>
    decreases values.len(),
{
    if values.len() == 0 {
        Seq::empty()
    } else {
        u16_list_content(values.drop_last()) + u16_encoding(values.last())
    }
}

/// The encodings of 16-bit integers take two bytes each.
pub proof fn lemma_u16_list_content_len(values: Seq<u16>)
    ensures
        u16_list_content(values).len() == 2 * values.len(),
    decreases values.len(),
{
    if values.len() > 0 {
        lemma_u16_list_content_len(values.drop_last());
    }
}

/// The encoding of a vector of 16-bit integers.
pub open spec fn u16_list_encoding(values: Seq<u16>) -> Seq<u8> {
    vector_encoding(u16_list_content(values))
}

/// Appends the encoding of a vector of 16-bit integers. Fails, and leaves
/// `out` as it was, where the vector is too long.
pub fn append_u16_list(out: &mut Vec<u8>, values: &[u16]) -> (r: Result<(), CodecError>)
    ensures
        2 * values@.len() <= MAX_VECTOR_LENGTH ==> r is Ok && final(out)@ == old(out)@ + u16_list_encoding(values@),
        2 * values@.len() > MAX_VECTOR_LENGTH ==> r == Err::<(), CodecError>(CodecError::InvalidVectorLength) && final(out)@ == old(out)@,
{
    if values.len() > MAX_VECTOR_LENGTH / 2 {
        return Err(CodecError::InvalidVectorLength);
    }
    let mut content: Vec<u8> = Vec::new();
    let n: usize = values.len();
    let mut i: usize = 0;
    while i < n
        invariant
            n == values@.len(),
            i <= n,
            content@ == u16_list_content(values@.take(i as int)),
        decreases n - i,
    {
        append_u16(&mut content, values[i]);
        i = i + 1;
        assert(values@.take(i as int).drop_last() == values@.take(i - 1));
    }
    assert(values@.take(n as int) == values@);
    proof {
        lemma_u16_list_content_len(values@);
    }
    append_vector(out, content.as_slice())
}

/// The encodings of 32-bit integers, one after the other.
pub open spec fn u32_list_content(values: Seq<u32>) -> Seq<u8>
    decreases values.len(),
{
    if values.len() == 0 {
        Seq::empty()
    } else {
        u32_list_content(values.drop_last()) + u32_encoding(values.last())
    }
}

/// The encodings of 32-bit integers take four bytes each.
pub proof fn lemma_u32_list_content_len(values: Seq<u32>)
    ensures
        u32_list_content(values).len() == 4 * values.len(),
    decreases values.len(),
{
    if values.len() > 0 {
        lemma_u32_list_content_len(values.drop_last());
    }
}

/// The encoding of a vector of 32-bit integers.
pub open spec fn u32_list_encoding(values: Seq<u32>) -> Seq<u8> {
    vector_encoding(u32_list_content(values))
}

/// Appends the encoding of a vector of 32-bit integers. Fails, and leaves
/// `out` as it was, where the vector is too long.
pub fn append_u32_list(out: &mut Vec<u8>, values: &[u32]) -> (r: Result<(), CodecError>)
    ensures
        4 * values@.len() <= MAX_VECTOR_LENGTH ==> r is Ok && final(out)@ == old(out)@ + u32_list_encoding(values@),
        4 * values@.len() > MAX_VECTOR_LENGTH ==> r == Err::<(), CodecError>(CodecError::InvalidVectorLength) && final(out)@ == old(out)@,
{
    if values.len() > MAX_VECTOR_LENGTH / 4 {
        return Err(CodecError::InvalidVectorLength);
    }
    let mut content: Vec<u8> = Vec::new();
    let n: usize = values.len();
    let mut i: usize = 0;
    while i < n
        invariant
            n == values@.len(),
            i <= n,
            content@ == u32_list_content(values@.take(i as int)),
        decreases n - i,
    {
        append_u32(&mut content, values[i]);
        i = i + 1;
        assert(values@.take(i as int).drop_last() == values@.take(i - 1));
    }
    assert(values@.take(n as int) == values@);
    proof {
        lemma_u32_list_content_len(values@);
    }
    append_vector(out, content.as_slice())
}

} // verus!
