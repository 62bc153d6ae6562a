//! Reading values back from their encoding in the TLS presentation
//! language. Each reader takes the bytes and the place to read at, and gives
//! the value with the place behind it. What a reader gives is stated over
//! the bytes from that place on; the laws at the end say that reading is the
//! inverse of encoding.

use vstd::prelude::*;
use vstd::slice::slice_subrange;
use crate::bytes::copy_bytes;
use crate::codec::length_prefix;
use crate::codec::u32_encoding;
use crate::codec::u64_encoding;
use crate::codec::u8_encoding;
use crate::codec::vector_encoding;
use crate::codec::MAX_VECTOR_LENGTH;

verus! {

/// Failures of reading.
#[derive(Clone, Copy, Debug, PartialEq, Eq, Structural)]
pub enum ReadError {
    /// The bytes end before the value does.
    EndOfStream,
    /// A length prefix announces eight bytes, or takes more bytes than the
    /// length needs.
    InvalidVectorLength,
    /// Bytes are left behind the value.
    TrailingData,
    /// A number stands for no value of its kind.
    UnknownValue,
}

/// The 8-bit integer at the start of `bytes`, and the bytes behind it.
pub open spec fn spec_read_u8(bytes: Seq<u8>) -> Result<(u8, Seq<u8>), ReadError> {
    if bytes.len() < 1 {
        Err(ReadError::EndOfStream)
    } else {
        Ok((bytes[0], bytes.skip(1)))
    }
}

/// The 32-bit integer at the start of `bytes`, and the bytes behind it.
pub open spec fn spec_read_u32(bytes: Seq<u8>) -> Result<(u32, Seq<u8>), ReadError> {
    if bytes.len() < 4 {
        Err(ReadError::EndOfStream)
    } else {
        Ok(((bytes[0] * 0x100_0000 + bytes[1] * 0x1_0000 + bytes[2] * 0x100 + bytes[3]) as u32, bytes.skip(4)))
    }
}

/// The 64-bit integer at the start of `bytes`, and the bytes behind it.
pub open spec fn spec_read_u64(bytes: Seq<u8>) -> Result<(u64, Seq<u8>), ReadError> {
    match spec_read_u32(bytes) {
        Err(e) => Err(e),
        Ok((high, rest)) => match spec_read_u32(rest) {
            Err(e) => Err(e),
            Ok((low, rest)) => Ok(((high * 0x1_0000_0000 + low) as u64, rest)),
        },
    }
}

/// The length that the prefix at the start of `bytes` gives, and the number
/// of bytes that the prefix takes. The two highest bits of the first byte
/// say how many bytes the prefix has; a prefix of eight bytes is refused,
/// and so is one that is longer than its length needs.
pub open spec fn spec_read_length(bytes: Seq<u8>) -> Result<(nat, nat), ReadError> {
    if bytes.len() < 1 {
        Err(ReadError::EndOfStream)
    } else if bytes[0] >= 0xc0 {
        Err(ReadError::InvalidVectorLength)
    } else if bytes[0] < 0x40 {
        Ok((bytes[0] as nat, 1))
    } else if bytes[0] < 0x80 {
        if bytes.len() < 2 {
            Err(ReadError::EndOfStream)
        } else if bytes[0] == 0x40 && bytes[1] <= 0x3f {
            Err(ReadError::InvalidVectorLength)
        } else {
            Ok((((bytes[0] - 0x40) * 0x100 + bytes[1]) as nat, 2))
        }
    } else {
        if bytes.len() < 4 {
            Err(ReadError::EndOfStream)
        } else if bytes[0] == 0x80 && bytes[1] == 0 && bytes[2] <= 0x3f {
            Err(ReadError::InvalidVectorLength)
        } else {
            Ok((((bytes[0] - 0x80) * 0x100_0000 + bytes[1] * 0x1_0000 + bytes[2] * 0x100 + bytes[3]) as nat, 4))
        }
    }
}

/// The content of the vector at the start of `bytes`, and the bytes behind
/// the vector.
pub open spec fn spec_read_vector(bytes: Seq<u8>) -> Result<(Seq<u8>, Seq<u8>), ReadError> {
    match spec_read_length(bytes) {
        Err(e) => Err(e),
        Ok((length, size)) => if bytes.len() < size + length {
            Err(ReadError::EndOfStream)
        } else {
            Ok((bytes.subrange(size as int, (size + length) as int), bytes.skip((size + length) as int)))
        },
    }
}

/// Whether reading gave, from the place `at` on, what `expected` says: the
/// same value with the place of the bytes left, or the same failure.
pub open spec fn is_read<T>(r: Result<(T, usize), ReadError>, bytes: Seq<u8>, at: usize, expected: Result<(T, Seq<u8>), ReadError>) -> bool {
    match expected {
        Ok((value, rest)) => r is Ok && r.unwrap().0 == value && at <= r.unwrap().1 <= bytes.len() && bytes.skip(r.unwrap().1 as int) == rest,
        Err(e) => r == Err::<(T, usize), ReadError>(e),
    }
}

/// Whether reading gave, from the place `at` on, the bytes that `expected`
/// says with the place of the bytes left, or the same failure.
pub open spec fn is_read_bytes(r: Result<(Vec<u8>, usize), ReadError>, bytes: Seq<u8>, at: usize, expected: Result<(Seq<u8>, Seq<u8>), ReadError>) -> bool {
    match expected {
        Ok((value, rest)) => r is Ok && r.unwrap().0@ == value && at <= r.unwrap().1 <= bytes.len() && bytes.skip(r.unwrap().1 as int) == rest,
        Err(e) => r is Err && r->Err_0 == e,
    }
}

/// Reads an 8-bit integer.
pub fn read_u8(bytes: &[u8], at: usize) -> (r: Result<(u8, usize), ReadError>)
    requires
        at <= bytes@.len(),
    ensures
        is_read(r, bytes@, at, spec_read_u8(bytes@.skip(at as int))),
{
    if bytes.len() - at < 1 {
        return Err(ReadError::EndOfStream);
    }
    assert(bytes@.skip(at as int).skip(1) == bytes@.skip(at + 1));
    Ok((bytes[at], at + 1))
}

/// Reads a 32-bit integer.
pub fn read_u32(bytes: &[u8], at: usize) -> (r: Result<(u32, usize), ReadError>)
    requires
        at <= bytes@.len(),
    ensures
        is_read(r, bytes@, at, spec_read_u32(bytes@.skip(at as int))),
{
    if bytes.len() - at < 4 {
        return Err(ReadError::EndOfStream);
    }
    assert(bytes@.skip(at as int).skip(4) == bytes@.skip(at + 4));
    let b0: u32 = bytes[at] as u32;
    let b1: u32 = bytes[at + 1] as u32;
    let b2: u32 = bytes[at + 2] as u32;
    let b3: u32 = bytes[at + 3] as u32;
    Ok((b0 * 0x100_0000 + b1 * 0x1_0000 + b2 * 0x100 + b3, at + 4))
}

/// Reads a 64-bit integer.
pub fn read_u64(bytes: &[u8], at: usize) -> (r: Result<(u64, usize), ReadError>)
    requires
        at <= bytes@.len(),
    ensures
        is_read(r, bytes@, at, spec_read_u64(bytes@.skip(at as int))),
{
    let (high, at) = match read_u32(bytes, at) {
        Ok(read) => read,
        Err(e) => {
            return Err(e);
        },
    };
    let (low, at) = match read_u32(bytes, at) {
        Ok(read) => read,
        Err(e) => {
            return Err(e);
        },
    };
    let high: u64 = high as u64;
    let low: u64 = low as u64;
    Ok((high * 0x1_0000_0000 + low, at))
}

/// Reads a length prefix: gives the length and the place behind the prefix.
pub fn read_length(bytes: &[u8], at: usize) -> (r: Result<(usize, usize), ReadError>)
    requires
        at <= bytes@.len(),
    ensures
        r is Ok == spec_read_length(bytes@.skip(at as int)) is Ok,
        r matches Ok(read) ==> spec_read_length(bytes@.skip(at as int)) == Ok::<(nat, nat), ReadError>((read.0 as nat, (read.1 - at) as nat)) && at < read.1 <= bytes@.len()
            && read.0 <= MAX_VECTOR_LENGTH,
        r matches Err(e) ==> spec_read_length(bytes@.skip(at as int)) == Err::<(nat, nat), ReadError>(e),
{
    let left: usize = bytes.len() - at;
    if left < 1 {
        return Err(ReadError::EndOfStream);
    }
    let first: u8 = bytes[at];
    if first >= 0xc0 {
        Err(ReadError::InvalidVectorLength)
    } else if first < 0x40 {
        Ok((first as usize, at + 1))
    } else if first < 0x80 {
        if left < 2 {
            return Err(ReadError::EndOfStream);
        }
        let b0: usize = (first - 0x40) as usize;
        let b1: usize = bytes[at + 1] as usize;
        let length: usize = b0 * 0x100 + b1;
        if length <= 0x3f {
            return Err(ReadError::InvalidVectorLength);
        }
        Ok((length, at + 2))
    } else {
        if left < 4 {
            return Err(ReadError::EndOfStream);
        }
        let b0: usize = (first - 0x80) as usize;
        let b1: usize = bytes[at + 1] as usize;
        let b2: usize = bytes[at + 2] as usize;
        let b3: usize = bytes[at + 3] as usize;
        let length: usize = b0 * 0x100_0000 + b1 * 0x1_0000 + b2 * 0x100 + b3;
        if length <= 0x3fff {
            return Err(ReadError::InvalidVectorLength);
        }
        Ok((length, at + 4))
    }
}

/// Reads a vector: gives its content and the place behind it.
pub fn read_vector(bytes: &[u8], at: usize) -> (r: Result<(Vec<u8>, usize), ReadError>)
    requires
        at <= bytes@.len(),
    ensures
        is_read_bytes(r, bytes@, at, spec_read_vector(bytes@.skip(at as int))),
{
    let (length, start) = match read_length(bytes, at) {
        Ok(read) => read,
        Err(e) => {
            return Err(e);
        },
    };
    if bytes.len() - start < length {
        return Err(ReadError::EndOfStream);
    }
    let content = copy_bytes(slice_subrange(bytes, start, start + length));
    proof {
        let from = bytes@.skip(at as int);
        assert(from.subrange(start - at, start - at + length) == bytes@.subrange(start as int, start + length));
        assert(from.skip(start - at + length) == bytes@.skip(start + length));
    }
    Ok((content, start + length))
}

/// Fails with `TrailingData` where bytes are left at a place.
pub fn expect_end(bytes: &[u8], at: usize) -> (r: Result<(), ReadError>)
    requires
        at <= bytes@.len(),
    ensures
        r is Ok == (bytes@.skip(at as int).len() == 0),
        r matches Err(e) ==> e == ReadError::TrailingData,
{
    if at < bytes.len() {
        Err(ReadError::TrailingData)
    } else {
        Ok(())
    }
}

/// Reading gives back an 8-bit integer that was encoded.
pub proof fn lemma_read_u8_of_encoding(v: u8, rest: Seq<u8>)
    ensures
        spec_read_u8(u8_encoding(v) + rest) == Ok::<(u8, Seq<u8>), ReadError>((v, rest)),
{
    assert((u8_encoding(v) + rest).skip(1) == rest);
}

/// Reading gives back a 32-bit integer that was encoded.
pub proof fn lemma_read_u32_of_encoding(v: u32, rest: Seq<u8>)
    ensures
        spec_read_u32(u32_encoding(v) + rest) == Ok::<(u32, Seq<u8>), ReadError>((v, rest)),
{
    assert((u32_encoding(v) + rest).skip(4) == rest);
}

/// Reading gives back a 64-bit integer that was encoded.
pub proof fn lemma_read_u64_of_encoding(v: u64, rest: Seq<u8>)
    ensures
        spec_read_u64(u64_encoding(v) + rest) == Ok::<(u64, Seq<u8>), ReadError>((v, rest)),
{
    let high = (v / 0x1_0000_0000) as u32;
    let low = (v % 0x1_0000_0000) as u32;
    assert(u64_encoding(v) + rest == u32_encoding(high) + (u32_encoding(low) + rest));
    lemma_read_u32_of_encoding(high, u32_encoding(low) + rest);
    lemma_read_u32_of_encoding(low, rest);
}

/// Reading gives back the length that a prefix was made of.
pub proof fn lemma_read_length_of_prefix(n: nat, rest: Seq<u8>)
    requires
        n <= MAX_VECTOR_LENGTH,
    ensures
        spec_read_length(length_prefix(n) + rest) == Ok::<(nat, nat), ReadError>((n, length_prefix(n).len())),
{
}

/// Reading gives back the content of a vector that was encoded, and leaves
/// what stands behind it.
pub proof fn lemma_read_vector_of_encoding(content: Seq<u8>, rest: Seq<u8>)
    requires
        content.len() <= MAX_VECTOR_LENGTH,
    ensures
        spec_read_vector(vector_encoding(content) + rest) == Ok::<(Seq<u8>, Seq<u8>), ReadError>((content, rest)),
{
    let prefix = length_prefix(content.len());
    let bytes = vector_encoding(content) + rest;
    assert(bytes == prefix + (content + rest));
    lemma_read_length_of_prefix(content.len(), content + rest);
    let size = prefix.len();
    assert(bytes.subrange(size as int, (size + content.len()) as int) == content);
    assert(bytes.skip((size + content.len()) as int) == rest);
}

/// The two bytes of a number below `0x4000` give the number back.
proof fn lemma_two_bytes(b0: int, b1: int)
    requires
        0 <= b0 < 0x40,
        0 <= b1 < 0x100,
    ensures
        (b0 * 0x100 + b1) / 0x100 == b0,
        (b0 * 0x100 + b1) % 0x100 == b1,
{
}

/// The four bytes of a number below `0x4000_0000` give the number back.
proof fn lemma_four_bytes(b0: int, b1: int, b2: int, b3: int)
    requires
        0 <= b0 < 0x40,
        0 <= b1 < 0x100,
        0 <= b2 < 0x100,
        0 <= b3 < 0x100,
    ensures
        (b0 * 0x100_0000 + b1 * 0x1_0000 + b2 * 0x100 + b3) / 0x100_0000 == b0,
        ((b0 * 0x100_0000 + b1 * 0x1_0000 + b2 * 0x100 + b3) / 0x1_0000) % 0x100 == b1,
        ((b0 * 0x100_0000 + b1 * 0x1_0000 + b2 * 0x100 + b3) / 0x100) % 0x100 == b2,
        (b0 * 0x100_0000 + b1 * 0x1_0000 + b2 * 0x100 + b3) % 0x100 == b3,
{
    let n = b0 * 0x100_0000 + b1 * 0x1_0000 + b2 * 0x100 + b3;
    assert(n / 0x1_0000 == b0 * 0x100 + b1);
    assert(n / 0x100 == b0 * 0x1_0000 + b1 * 0x100 + b2);
}

/// A length is read from its prefix only: the bytes that a length was read
/// from start with the prefix of that length.
pub proof fn lemma_read_length_is_of_prefix(bytes: Seq<u8>)
    requires
        spec_read_length(bytes) is Ok,
    ensures
        spec_read_length(bytes).unwrap().0 <= MAX_VECTOR_LENGTH,
        spec_read_length(bytes).unwrap().1 <= bytes.len(),
        bytes.take(spec_read_length(bytes).unwrap().1 as int) == length_prefix(spec_read_length(bytes).unwrap().0),
{
    let n = spec_read_length(bytes).unwrap().0;
    let prefix = length_prefix(n);
    let b0 = bytes[0] as int;
    if b0 < 0x40 {
        assert(bytes.take(1) =~= prefix);
    } else if b0 < 0x80 {
        lemma_two_bytes(b0 - 0x40, bytes[1] as int);
        assert(bytes.take(2) =~= prefix);
    } else {
        lemma_four_bytes(b0 - 0x80, bytes[1] as int, bytes[2] as int, bytes[3] as int);
        assert(bytes.take(4) =~= prefix);
    }
}

/// A vector is read from its encoding only: the bytes that a vector was read
/// from are the encoding of its content, followed by the bytes left.
pub proof fn lemma_read_vector_is_of_encoding(bytes: Seq<u8>)
    requires
        spec_read_vector(bytes) is Ok,
    ensures
        spec_read_vector(bytes).unwrap().0.len() <= MAX_VECTOR_LENGTH,
        bytes == vector_encoding(spec_read_vector(bytes).unwrap().0) + spec_read_vector(bytes).unwrap().1,
{
    lemma_read_length_is_of_prefix(bytes);
    let length = spec_read_length(bytes).unwrap().0;
    let size = spec_read_length(bytes).unwrap().1;
    let content = spec_read_vector(bytes).unwrap().0;
    let rest = spec_read_vector(bytes).unwrap().1;
    assert(content == bytes.subrange(size as int, (size + length) as int));
    assert(rest == bytes.skip((size + length) as int));
    assert(content.len() == length);
    assert(bytes =~= bytes.take(size as int) + content + rest);
}

} // verus!
