//! Big-endian integers in byte sequences, read and written through `byteorder`.

use byteorder::{BigEndian, ByteOrder};
use vstd::prelude::*;

verus! {

/// The big-endian `u16` that starts at index `i` of `s`.
pub open spec fn be_u16(s: Seq<u8>, i: int) -> u16 {
    ((s[i] as u16) << 8u16) | (s[i + 1] as u16)
}

/// The big-endian `u32` that starts at index `i` of `s`.
pub open spec fn be_u32(s: Seq<u8>, i: int) -> u32 {
    ((s[i] as u32) << 24u32) | ((s[i + 1] as u32) << 16u32) | ((s[i + 2] as u32) << 8u32) | (
    s[i + 3] as u32)
}

/// The big-endian 48-bit unsigned integer that starts at index `i` of `s`.
pub open spec fn be_u48(s: Seq<u8>, i: int) -> u64 {
    ((s[i] as u64) << 40u64) | ((s[i + 1] as u64) << 32u64) | ((s[i + 2] as u64) << 24u64) | ((
    s[i + 3] as u64) << 16u64) | ((s[i + 4] as u64) << 8u64) | (s[i + 5] as u64)
}

/// The big-endian `u64` that starts at index `i` of `s`.
pub open spec fn be_u64(s: Seq<u8>, i: int) -> u64 {
    ((s[i] as u64) << 56u64) | ((s[i + 1] as u64) << 48u64) | ((s[i + 2] as u64) << 40u64) | ((
    s[i + 3] as u64) << 32u64) | ((s[i + 4] as u64) << 24u64) | ((s[i + 5] as u64) << 16u64) | ((
    s[i + 6] as u64) << 8u64) | (s[i + 7] as u64)
}

/// The two bytes of `n`, most significant first.
pub open spec fn u16_bytes(n: u16) -> Seq<u8> {
    seq![(n >> 8u16) as u8, n as u8]
}

/// The four bytes of `n`, most significant first.
pub open spec fn u32_bytes(n: u32) -> Seq<u8> {
    seq![(n >> 24u32) as u8, (n >> 16u32) as u8, (n >> 8u32) as u8, n as u8]
}

/// The eight bytes of `n`, most significant first.
pub open spec fn u64_bytes(n: u64) -> Seq<u8> {
    seq![
        (n >> 56u64) as u8,
        (n >> 48u64) as u8,
        (n >> 40u64) as u8,
        (n >> 32u64) as u8,
        (n >> 24u64) as u8,
        (n >> 16u64) as u8,
        (n >> 8u64) as u8,
        n as u8,
    ]
}

/// `n` zero bytes.
pub open spec fn zeros(n: nat) -> Seq<u8> {
    Seq::new(n, |i: int| 0u8)
}

/// byteorder's `BigEndian::read_u16` on the bytes of `data` from `pos` on: it decodes the
/// first two of them, most significant first (it panics on fewer than two, which `requires`
/// rules out).
#[verifier::external_body]
pub(crate) fn read_be_u16(data: &[u8], pos: usize) -> (r: u16)
    requires
        pos + 2 <= data@.len(),
    ensures
        r == be_u16(data@, pos as int),
{
    BigEndian::read_u16(&data[pos..])
}

/// byteorder's `BigEndian::read_u32` on the bytes of `data` from `pos` on: it decodes the
/// first four of them, most significant first (it panics on fewer than four).
#[verifier::external_body]
pub(crate) fn read_be_u32(data: &[u8], pos: usize) -> (r: u32)
    requires
        pos + 4 <= data@.len(),
    ensures
        r == be_u32(data@, pos as int),
{
    BigEndian::read_u32(&data[pos..])
}

/// byteorder's `BigEndian::read_u48` on the bytes of `data` from `pos` on: it decodes the
/// first six of them, most significant first, into a `u64` (it panics on fewer than six).
#[verifier::external_body]
pub(crate) fn read_be_u48(data: &[u8], pos: usize) -> (r: u64)
    requires
        pos + 6 <= data@.len(),
    ensures
        r == be_u48(data@, pos as int),
{
    BigEndian::read_u48(&data[pos..])
}

/// byteorder's `BigEndian::read_u64` on the bytes of `data` from `pos` on: it decodes the
/// first eight of them, most significant first (it panics on fewer than eight).
#[verifier::external_body]
pub(crate) fn read_be_u64(data: &[u8], pos: usize) -> (r: u64)
    requires
        pos + 8 <= data@.len(),
    ensures
        r == be_u64(data@, pos as int),
{
    BigEndian::read_u64(&data[pos..])
}

/// byteorder's `BigEndian::write_u16` into a two-byte buffer: the buffer then holds the bytes
/// of `n`, most significant first.
#[verifier::external_body]
pub(crate) fn be_bytes_u16(n: u16) -> (r: [u8; 2])
    ensures
        r@ == u16_bytes(n),
{
    let mut buf = [0u8; 2];
    BigEndian::write_u16(&mut buf, n);
    buf
}

/// byteorder's `BigEndian::write_i16` into a two-byte buffer: it writes `n` as the `u16` of the
/// same bits, most significant byte first.
#[verifier::external_body]
pub(crate) fn be_bytes_i16(n: i16) -> (r: [u8; 2])
    ensures
        r@ == u16_bytes(n as u16),
{
    let mut buf = [0u8; 2];
    BigEndian::write_i16(&mut buf, n);
    buf
}

/// byteorder's `BigEndian::write_u32` into a four-byte buffer: the buffer then holds the bytes
/// of `n`, most significant first.
#[verifier::external_body]
pub(crate) fn be_bytes_u32(n: u32) -> (r: [u8; 4])
    ensures
        r@ == u32_bytes(n),
{
    let mut buf = [0u8; 4];
    BigEndian::write_u32(&mut buf, n);
    buf
}

/// byteorder's `BigEndian::write_u64` into an eight-byte buffer: the buffer then holds the bytes
/// of `n`, most significant first.
#[verifier::external_body]
pub(crate) fn be_bytes_u64(n: u64) -> (r: [u8; 8])
    ensures
        r@ == u64_bytes(n),
{
    let mut buf = [0u8; 8];
    BigEndian::write_u64(&mut buf, n);
    buf
}

/// Appends the big-endian bytes of `n`.
pub(crate) fn put_u16(out: &mut Vec<u8>, n: u16)
    ensures
        final(out)@ == old(out)@ + u16_bytes(n),
{
    let b = be_bytes_u16(n);
    out.push(b[0]);
    out.push(b[1]);
    assert(final(out)@ =~= old(out)@ + u16_bytes(n));
}

/// Appends the big-endian bytes of `n`, as `u16` bits.
pub(crate) fn put_i16(out: &mut Vec<u8>, n: i16)
    ensures
        final(out)@ == old(out)@ + u16_bytes(n as u16),
{
    let b = be_bytes_i16(n);
    out.push(b[0]);
    out.push(b[1]);
    assert(final(out)@ =~= old(out)@ + u16_bytes(n as u16));
}

/// Appends the big-endian bytes of `n`.
pub(crate) fn put_u32(out: &mut Vec<u8>, n: u32)
    ensures
        final(out)@ == old(out)@ + u32_bytes(n),
{
    let b = be_bytes_u32(n);
    out.push(b[0]);
    out.push(b[1]);
    out.push(b[2]);
    out.push(b[3]);
    assert(final(out)@ =~= old(out)@ + u32_bytes(n));
}

/// Appends the big-endian bytes of `n`.
pub(crate) fn put_u64(out: &mut Vec<u8>, n: u64)
    ensures
        final(out)@ == old(out)@ + u64_bytes(n),
{
    let b = be_bytes_u64(n);
    let mut i: usize = 0;
    while i < 8
        invariant
            0 <= i <= 8,
            b@ == u64_bytes(n),
            out@ == old(out)@ + b@.take(i as int),
        decreases 8 - i,
    {
        out.push(b[i]);
        i = i + 1;
        assert(out@ =~= old(out)@ + b@.take(i as int));
    }
    assert(b@.take(8) =~= b@);
}

/// Appends `n` zero bytes.
pub(crate) fn put_zeros(out: &mut Vec<u8>, n: usize)
    ensures
        final(out)@ == old(out)@ + zeros(n as nat),
{
    let mut i: usize = 0;
    while i < n
        invariant
            0 <= i <= n,
            out@ == old(out)@ + zeros(i as nat),
        decreases n - i,
    {
        out.push(0u8);
        i = i + 1;
        assert(out@ =~= old(out)@ + zeros(i as nat));
    }
}

/// Appends all of `bytes`.
pub(crate) fn put_slice(out: &mut Vec<u8>, bytes: &[u8])
    ensures
        final(out)@ == old(out)@ + bytes@,
{
    let mut i: usize = 0;
    while i < bytes.len()
        invariant
            0 <= i <= bytes@.len(),
            out@ == old(out)@ + bytes@.take(i as int),
        decreases bytes@.len() - i,
    {
        out.push(bytes[i]);
        i = i + 1;
        assert(out@ =~= old(out)@ + bytes@.take(i as int));
    }
    assert(bytes@.take(bytes@.len() as int) =~= bytes@);
}

/// Reading back what `u16_bytes` wrote gives the number.
pub proof fn lemma_u16_roundtrip(n: u16, pre: Seq<u8>, post: Seq<u8>)
    ensures
        be_u16(pre + u16_bytes(n) + post, pre.len() as int) == n,
{
    let s = pre + u16_bytes(n) + post;
    let i = pre.len() as int;
    assert(s[i] == (n >> 8u16) as u8);
    assert(s[i + 1] == n as u8);
    assert((((n >> 8u16) as u8) as u16) << 8u16 | ((n as u8) as u16) == n) by (bit_vector);
}

/// Reading back what `u32_bytes` wrote gives the number.
pub proof fn lemma_u32_roundtrip(n: u32, pre: Seq<u8>, post: Seq<u8>)
    ensures
        be_u32(pre + u32_bytes(n) + post, pre.len() as int) == n,
{
    let s = pre + u32_bytes(n) + post;
    let i = pre.len() as int;
    assert(s[i] == (n >> 24u32) as u8);
    assert(s[i + 1] == (n >> 16u32) as u8);
    assert(s[i + 2] == (n >> 8u32) as u8);
    assert(s[i + 3] == n as u8);
    assert((((n >> 24u32) as u8) as u32) << 24u32 | (((n >> 16u32) as u8) as u32) << 16u32 | (((n
        >> 8u32) as u8) as u32) << 8u32 | ((n as u8) as u32) == n) by (bit_vector);
}

/// Reading back what `u64_bytes` wrote gives the number.
pub proof fn lemma_u64_roundtrip(n: u64, pre: Seq<u8>, post: Seq<u8>)
    ensures
        be_u64(pre + u64_bytes(n) + post, pre.len() as int) == n,
{
    let s = pre + u64_bytes(n) + post;
    let i = pre.len() as int;
    assert(s[i] == (n >> 56u64) as u8);
    assert(s[i + 1] == (n >> 48u64) as u8);
    assert(s[i + 2] == (n >> 40u64) as u8);
    assert(s[i + 3] == (n >> 32u64) as u8);
    assert(s[i + 4] == (n >> 24u64) as u8);
    assert(s[i + 5] == (n >> 16u64) as u8);
    assert(s[i + 6] == (n >> 8u64) as u8);
    assert(s[i + 7] == n as u8);
    assert((((n >> 56u64) as u8) as u64) << 56u64 | (((n >> 48u64) as u8) as u64) << 48u64 | (((n
        >> 40u64) as u8) as u64) << 40u64 | (((n >> 32u64) as u8) as u64) << 32u64 | (((n
        >> 24u64) as u8) as u64) << 24u64 | (((n >> 16u64) as u8) as u64) << 16u64 | (((n
        >> 8u64) as u8) as u64) << 8u64 | ((n as u8) as u64) == n) by (bit_vector);
}

/// The big-endian `u16` at `i` is the first byte times 256 plus the second.
pub proof fn lemma_be_u16_value(s: Seq<u8>, i: int)
    requires
        0 <= i,
        i + 2 <= s.len(),
    ensures
        be_u16(s, i) as int == s[i] * 256 + s[i + 1],
{
    let a = s[i];
    let b = s[i + 1];
    assert((((a as u16) << 8u16) | (b as u16)) == a * 256 + b) by (bit_vector);
}

/// The big-endian `u32` at `i` is its four bytes weighted by powers of 256.
pub proof fn lemma_be_u32_value(s: Seq<u8>, i: int)
    requires
        0 <= i,
        i + 4 <= s.len(),
    ensures
        be_u32(s, i) as int == s[i] * 0x1000000 + s[i + 1] * 0x10000 + s[i + 2] * 0x100 + s[i
            + 3],
{
    let a = s[i];
    let b = s[i + 1];
    let c = s[i + 2];
    let d = s[i + 3];
    assert((((a as u32) << 24u32) | ((b as u32) << 16u32) | ((c as u32) << 8u32) | (d as u32))
        == a * 0x1000000 + b * 0x10000 + c * 0x100 + d) by (bit_vector);
}

/// The big-endian 48-bit integer at `i` is its six bytes weighted by powers of 256.
pub proof fn lemma_be_u48_value(s: Seq<u8>, i: int)
    requires
        0 <= i,
        i + 6 <= s.len(),
    ensures
        be_u48(s, i) as int == s[i] * 0x10000000000 + s[i + 1] * 0x100000000 + s[i + 2]
            * 0x1000000 + s[i + 3] * 0x10000 + s[i + 4] * 0x100 + s[i + 5],
{
    let a = s[i];
    let b = s[i + 1];
    let c = s[i + 2];
    let d = s[i + 3];
    let e = s[i + 4];
    let f = s[i + 5];
    assert((((a as u64) << 40u64) | ((b as u64) << 32u64) | ((c as u64) << 24u64) | ((d as u64)
        << 16u64) | ((e as u64) << 8u64) | (f as u64)) == a * 0x10000000000 + b * 0x100000000 + c
        * 0x1000000 + d * 0x10000 + e * 0x100 + f) by (bit_vector);
}

/// The bytes written for a `u16` are its value in base 256, most significant first.
pub proof fn lemma_u16_bytes_value(n: u16)
    ensures
        u16_bytes(n).len() == 2,
        u16_bytes(n)[0] * 256 + u16_bytes(n)[1] == n,
{
    lemma_u16_roundtrip(n, Seq::empty(), Seq::empty());
    assert(Seq::<u8>::empty() + u16_bytes(n) + Seq::<u8>::empty() =~= u16_bytes(n));
    lemma_be_u16_value(u16_bytes(n), 0);
}

/// The bytes written for a `u32` are its value in base 256, most significant first.
pub proof fn lemma_u32_bytes_value(n: u32)
    ensures
        u32_bytes(n).len() == 4,
        u32_bytes(n)[0] * 0x1000000 + u32_bytes(n)[1] * 0x10000 + u32_bytes(n)[2] * 0x100
            + u32_bytes(n)[3] == n,
{
    lemma_u32_roundtrip(n, Seq::empty(), Seq::empty());
    assert(Seq::<u8>::empty() + u32_bytes(n) + Seq::<u8>::empty() =~= u32_bytes(n));
    lemma_be_u32_value(u32_bytes(n), 0);
}

} // verus!
