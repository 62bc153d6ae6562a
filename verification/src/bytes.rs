//! Helpers on byte strings.

use vstd::prelude::*;

verus! {

/// Appends `bytes` to `out`.
pub fn append_bytes(out: &mut Vec<u8>, bytes: &[u8])
    ensures
        final(out)@ == old(out)@ + bytes@,
{
    let n: usize = bytes.len();
    let mut i: usize = 0;
    while i < n
        invariant
            n == bytes@.len(),
            i <= n,
            out@ == old(out)@ + bytes@.take(i as int),
        decreases n - i,
    {
        out.push(bytes[i]);
        i = i + 1;
        assert(bytes@.take(i as int) == bytes@.take(i - 1).push(bytes@[i - 1]));
    }
    assert(bytes@.take(n as int) == bytes@);
}

/// A copy of `bytes`.
pub fn copy_bytes(bytes: &[u8]) -> (out: Vec<u8>)
    ensures
        out@ == bytes@,
{
    let mut out: Vec<u8> = Vec::new();
    append_bytes(&mut out, bytes);
    out
}

/// Whether two byte strings are equal. Every byte of the shorter length is
/// looked at, whatever the earlier bytes were, so that the time taken does not
/// tell where two strings of one length differ.
pub fn bytes_equal(a: &[u8], b: &[u8]) -> (r: bool)
    ensures
        r == (a@ == b@),
{
    if a.len() != b.len() {
        return false;
    }
    let n: usize = a.len();
    let mut diff: u8 = 0;
    let mut i: usize = 0;
    assert(a@.take(0) =~= b@.take(0));
    while i < n
        invariant
            n == a@.len(),
            n == b@.len(),
            i <= n,
            (diff == 0) == (a@.take(i as int) == b@.take(i as int)),
        decreases n - i,
    {
        let x: u8 = a[i];
        let y: u8 = b[i];
        let d: u8 = diff;
        assert(((d | (x ^ y)) == 0) == (d == 0 && x == y)) by (bit_vector);
        diff = diff | (x ^ y);
        i = i + 1;
        assert(a@.take(i as int) == a@.take(i - 1).push(a@[i - 1]));
        assert(b@.take(i as int) == b@.take(i - 1).push(b@[i - 1]));
        assert((a@.take(i as int) == b@.take(i as int)) == (a@.take(i - 1) == b@.take(i - 1) && x == y)) by {
            if a@.take(i as int) == b@.take(i as int) {
                assert(a@.take(i as int).drop_last() == b@.take(i as int).drop_last());
                assert(a@.take(i as int).drop_last() == a@.take(i - 1));
                assert(b@.take(i as int).drop_last() == b@.take(i - 1));
                assert(a@.take(i as int).last() == x);
                assert(b@.take(i as int).last() == y);
            }
        }
    }
    assert(a@.take(n as int) == a@);
    assert(b@.take(n as int) == b@);
    diff == 0
}

} // verus!
