//! Little-endian integer encodings used by the packet codec.

use vstd::prelude::*;

verus! {

/// The two little-endian bytes of a 16-bit integer.
pub open spec fn spec_le16(x: u16) -> Seq<u8> {
    seq![(x & 0xff) as u8, ((x >> 8) & 0xff) as u8]
}

/// The four little-endian bytes of a 32-bit integer.
pub open spec fn spec_le32(x: u32) -> Seq<u8> {
    seq![
        (x & 0xff) as u8,
        ((x >> 8) & 0xff) as u8,
        ((x >> 16) & 0xff) as u8,
        ((x >> 24) & 0xff) as u8,
    ]
}

/// The eight little-endian bytes of a 64-bit integer.
pub open spec fn spec_le64(x: u64) -> Seq<u8> {
    seq![
        (x & 0xff) as u8,
        ((x >> 8) & 0xff) as u8,
        ((x >> 16) & 0xff) as u8,
        ((x >> 24) & 0xff) as u8,
        ((x >> 32) & 0xff) as u8,
        ((x >> 40) & 0xff) as u8,
        ((x >> 48) & 0xff) as u8,
        ((x >> 56) & 0xff) as u8,
    ]
}

/// The 16-bit integer read from two little-endian bytes.
pub open spec fn spec_u16_of(s: Seq<u8>) -> u16
    recommends
        s.len() == 2,
{
    (s[0] as u16) | (s[1] as u16) << 8
}

/// The 32-bit integer read from four little-endian bytes.
pub open spec fn spec_u32_of(s: Seq<u8>) -> u32
    recommends
        s.len() == 4,
{
    (s[0] as u32) | (s[1] as u32) << 8 | (s[2] as u32) << 16 | (s[3] as u32) << 24
}

/// The 64-bit integer read from eight little-endian bytes.
pub open spec fn spec_u64_of(s: Seq<u8>) -> u64
    recommends
        s.len() == 8,
{
    (s[0] as u64) | (s[1] as u64) << 8 | (s[2] as u64) << 16 | (s[3] as u64) << 24
        | (s[4] as u64) << 32 | (s[5] as u64) << 40 | (s[6] as u64) << 48 | (s[7] as u64) << 56
}

/// Decoding the encoding of a 16-bit integer gives the integer back.
pub proof fn lemma_le16_inverse(x: u16)
    ensures
        spec_u16_of(spec_le16(x)) == x,
{
    assert((((x & 0xff) as u8) as u16) | ((((x >> 8) & 0xff) as u8) as u16) << 8 == x)
        by (bit_vector);
}

/// Decoding the encoding of a 32-bit integer gives the integer back.
pub proof fn lemma_le32_inverse(x: u32)
    ensures
        spec_u32_of(spec_le32(x)) == x,
{
    assert((((x & 0xff) as u8) as u32) | ((((x >> 8) & 0xff) as u8) as u32) << 8
        | ((((x >> 16) & 0xff) as u8) as u32) << 16 | ((((x >> 24) & 0xff) as u8) as u32) << 24
        == x) by (bit_vector);
}

/// Decoding the encoding of a 64-bit integer gives the integer back.
pub proof fn lemma_le64_inverse(x: u64)
    ensures
        spec_u64_of(spec_le64(x)) == x,
{
    assert((((x & 0xff) as u8) as u64) | ((((x >> 8) & 0xff) as u8) as u64) << 8
        | ((((x >> 16) & 0xff) as u8) as u64) << 16 | ((((x >> 24) & 0xff) as u8) as u64) << 24
        | ((((x >> 32) & 0xff) as u8) as u64) << 32 | ((((x >> 40) & 0xff) as u8) as u64) << 40
        | ((((x >> 48) & 0xff) as u8) as u64) << 48 | ((((x >> 56) & 0xff) as u8) as u64) << 56
        == x) by (bit_vector);
}

/// Appends the two little-endian bytes of `x`.
pub fn push_le16(buf: &mut Vec<u8>, x: u16)
    ensures
        final(buf)@ == old(buf)@ + spec_le16(x),
{
    buf.push((x & 0xff) as u8);
    buf.push(((x >> 8) & 0xff) as u8);
    proof {
        assert(final(buf)@ =~= old(buf)@ + spec_le16(x));
    }
}

/// Appends the four little-endian bytes of `x`.
pub fn push_le32(buf: &mut Vec<u8>, x: u32)
    ensures
        final(buf)@ == old(buf)@ + spec_le32(x),
{
    buf.push((x & 0xff) as u8);
    buf.push(((x >> 8) & 0xff) as u8);
    buf.push(((x >> 16) & 0xff) as u8);
    buf.push(((x >> 24) & 0xff) as u8);
    proof {
        assert(final(buf)@ =~= old(buf)@ + spec_le32(x));
    }
}

/// Appends the eight little-endian bytes of `x`.
pub fn push_le64(buf: &mut Vec<u8>, x: u64)
    ensures
        final(buf)@ == old(buf)@ + spec_le64(x),
{
    buf.push((x & 0xff) as u8);
    buf.push(((x >> 8) & 0xff) as u8);
    buf.push(((x >> 16) & 0xff) as u8);
    buf.push(((x >> 24) & 0xff) as u8);
    buf.push(((x >> 32) & 0xff) as u8);
    buf.push(((x >> 40) & 0xff) as u8);
    buf.push(((x >> 48) & 0xff) as u8);
    buf.push(((x >> 56) & 0xff) as u8);
    proof {
        assert(final(buf)@ =~= old(buf)@ + spec_le64(x));
    }
}

/// The eight little-endian bytes of `x`, as an array.
pub fn le64_bytes(x: u64) -> (r: [u8; 8])
    ensures
        r@ == spec_le64(x),
{
    let r: [u8; 8] = [
        (x & 0xff) as u8,
        ((x >> 8) & 0xff) as u8,
        ((x >> 16) & 0xff) as u8,
        ((x >> 24) & 0xff) as u8,
        ((x >> 32) & 0xff) as u8,
        ((x >> 40) & 0xff) as u8,
        ((x >> 48) & 0xff) as u8,
        ((x >> 56) & 0xff) as u8,
    ];
    proof {
        assert(r@ =~= spec_le64(x));
    }
    r
}

/// Reads a 16-bit little-endian integer at `off`.
pub fn read_le16(data: &[u8], off: usize) -> (x: u16)
    requires
        off + 2 <= data@.len(),
    ensures
        x == spec_u16_of(data@.subrange(off as int, off as int + 2)),
{
    let x = (data[off] as u16) | (data[off + 1] as u16) << 8;
    proof {
        let s = data@.subrange(off as int, off as int + 2);
        assert(s[0] == data@[off as int] && s[1] == data@[off as int + 1]);
    }
    x
}

/// Reads a 32-bit little-endian integer at `off`.
pub fn read_le32(data: &[u8], off: usize) -> (x: u32)
    requires
        off + 4 <= data@.len(),
    ensures
        x == spec_u32_of(data@.subrange(off as int, off as int + 4)),
{
    let x = (data[off] as u32) | (data[off + 1] as u32) << 8 | (data[off + 2] as u32) << 16
        | (data[off + 3] as u32) << 24;
    proof {
        let s = data@.subrange(off as int, off as int + 4);
        assert(s[0] == data@[off as int] && s[1] == data@[off as int + 1]
            && s[2] == data@[off as int + 2] && s[3] == data@[off as int + 3]);
    }
    x
}

/// Reads a 64-bit little-endian integer at `off`.
pub fn read_le64(data: &[u8], off: usize) -> (x: u64)
    requires
        off + 8 <= data@.len(),
    ensures
        x == spec_u64_of(data@.subrange(off as int, off as int + 8)),
{
    let x = (data[off] as u64) | (data[off + 1] as u64) << 8 | (data[off + 2] as u64) << 16
        | (data[off + 3] as u64) << 24 | (data[off + 4] as u64) << 32
        | (data[off + 5] as u64) << 40 | (data[off + 6] as u64) << 48
        | (data[off + 7] as u64) << 56;
    proof {
        let s = data@.subrange(off as int, off as int + 8);
        assert(s[0] == data@[off as int] && s[1] == data@[off as int + 1]
            && s[2] == data@[off as int + 2] && s[3] == data@[off as int + 3]
            && s[4] == data@[off as int + 4] && s[5] == data@[off as int + 5]
            && s[6] == data@[off as int + 6] && s[7] == data@[off as int + 7]);
    }
    x
}

/// Compares two byte strings for equality.
pub fn bytes_equal(a: &[u8], b: &[u8]) -> (r: bool)
    ensures
        r <==> a@ == b@,
{
    if a.len() != b.len() {
        proof {
            assert(a@.len() != b@.len());
        }
        return false;
    }
    let n: usize = a.len();
    let mut i: usize = 0;
    while i < n
        invariant
            i <= n,
            n == a@.len() == b@.len(),
            forall|j: int| 0 <= j < i ==> a@[j] == b@[j],
        decreases n - i,
    {
        if a[i] != b[i] {
            return false;
        }
        i = i + 1;
    }
    proof {
        assert(a@ =~= b@);
    }
    true
}

/// Copies the `N` bytes at `off` into an array.
pub fn read_bytes<const N: usize>(data: &[u8], off: usize) -> (r: [u8; N])
    requires
        off + N <= data@.len(),
    ensures
        r@ == data@.subrange(off as int, off as int + N),
{
    let mut r: [u8; N] = [0; N];
    let n: usize = data.len();
    let mut i: usize = 0;
    while i < N
        invariant
            i <= N,
            off + N <= n == data@.len(),
            r@.len() == N,
            forall|j: int| 0 <= j < i ==> r@[j] == data@[off + j],
        decreases N - i,
    {
        r[i] = data[off + i];
        i = i + 1;
    }
    proof {
        assert(r@ =~= data@.subrange(off as int, off as int + N));
    }
    r
}

/// Copies the 16 bytes at `off` into an array.
pub fn read_bytes_16(data: &[u8], off: usize) -> (r: [u8; 16])
    requires
        off + 16 <= data@.len(),
    ensures
        r@ == data@.subrange(off as int, off as int + 16),
{
    read_bytes(data, off)
}

} // verus!
