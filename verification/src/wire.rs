//! Big-endian integers and byte buffers, through the `bytes` crate.
use bytes::{Buf, BufMut, BytesMut};
use vstd::prelude::*;

verus! {

/// The four bytes of `v`, most significant first.
pub open spec fn u32_be_bytes(v: u32) -> Seq<u8> {
    seq![
        ((v >> 24u32) & 0xffu32) as u8,
        ((v >> 16u32) & 0xffu32) as u8,
        ((v >> 8u32) & 0xffu32) as u8,
        (v & 0xffu32) as u8,
    ]
}

/// The number whose big-endian bytes are the first four of `s`.
pub open spec fn u32_from_be_bytes(s: Seq<u8>) -> u32
    recommends
        s.len() >= 4,
{
    ((s[0] as u32) << 24u32) | ((s[1] as u32) << 16u32) | ((s[2] as u32) << 8u32) | (s[3] as u32)
}

/// Decoding the big-endian bytes of a number gives the number back.
pub proof fn lemma_u32_be_roundtrip(v: u32)
    ensures
        u32_be_bytes(v).len() == 4,
        u32_from_be_bytes(u32_be_bytes(v)) == v,
{
    let b0 = ((v >> 24u32) & 0xffu32) as u8;
    let b1 = ((v >> 16u32) & 0xffu32) as u8;
    let b2 = ((v >> 8u32) & 0xffu32) as u8;
    let b3 = (v & 0xffu32) as u8;
    assert(((b0 as u32) << 24u32) | ((b1 as u32) << 16u32) | ((b2 as u32) << 8u32) | (b3 as u32)
        == v) by (bit_vector)
        requires
            b0 == ((v >> 24u32) & 0xffu32) as u8,
            b1 == ((v >> 16u32) & 0xffu32) as u8,
            b2 == ((v >> 8u32) & 0xffu32) as u8,
            b3 == (v & 0xffu32) as u8,
    ;
}

/// Encoding the number read from four bytes gives those bytes back.
pub proof fn lemma_u32_be_bytes_roundtrip(s: Seq<u8>)
    requires
        s.len() == 4,
    ensures
        u32_be_bytes(u32_from_be_bytes(s)) == s,
{
    let b0 = s[0];
    let b1 = s[1];
    let b2 = s[2];
    let b3 = s[3];
    let v = u32_from_be_bytes(s);
    assert(((v >> 24u32) & 0xffu32) as u8 == b0 && ((v >> 16u32) & 0xffu32) as u8 == b1 && ((v
        >> 8u32) & 0xffu32) as u8 == b2 && (v & 0xffu32) as u8 == b3) by (bit_vector)
        requires
            v == ((b0 as u32) << 24u32) | ((b1 as u32) << 16u32) | ((b2 as u32) << 8u32) | (
            b3 as u32),
    ;
    assert(u32_be_bytes(v) =~= s);
}

/// The number read from four big-endian bytes, as arithmetic: the first byte
/// is the most significant.
pub proof fn lemma_u32_from_be_bytes_value(s: Seq<u8>)
    requires
        s.len() >= 4,
    ensures
        u32_from_be_bytes(s) as int == s[0] as int * 0x1000000 + s[1] as int * 0x10000 + s[2] as int
            * 0x100 + s[3] as int,
{
    let b0 = s[0];
    let b1 = s[1];
    let b2 = s[2];
    let b3 = s[3];
    assert(((b0 as u32) << 24u32) | ((b1 as u32) << 16u32) | ((b2 as u32) << 8u32) | (b3 as u32)
        == b0 as u32 * 0x1000000u32 + b1 as u32 * 0x10000u32 + b2 as u32 * 0x100u32 + b3 as u32)
        by (bit_vector);
}

/// The four big-endian bytes of a number, as arithmetic: its base-256 digits,
/// most significant first.
pub proof fn lemma_u32_be_bytes_value(v: u32)
    ensures
        u32_be_bytes(v).len() == 4,
        u32_be_bytes(v)[0] as int == v as int / 0x1000000,
        u32_be_bytes(v)[1] as int == (v as int / 0x10000) % 0x100,
        u32_be_bytes(v)[2] as int == (v as int / 0x100) % 0x100,
        u32_be_bytes(v)[3] as int == v as int % 0x100,
{
    assert(((v >> 24u32) & 0xffu32) == v / 0x1000000u32 && ((v >> 16u32) & 0xffu32) == (v
        / 0x10000u32) % 0x100u32 && ((v >> 8u32) & 0xffu32) == (v / 0x100u32) % 0x100u32 && (v
        & 0xffu32) == v % 0x100u32) by (bit_vector);
}

/// `bytes::Buf::get_u32` on the slice `&src[pos..]`: the four bytes at `pos`,
/// read as a big-endian number. The crate panics when fewer than four bytes
/// remain, which `requires` rules out.
#[verifier::external_body]
pub(crate) fn get_u32_at(src: &[u8], pos: usize) -> (v: u32)
    requires
        pos + 4 <= src@.len(),
    ensures
        v == u32_from_be_bytes(src@.subrange(pos as int, pos + 4)),
{
    let mut rest: &[u8] = &src[pos..];
    rest.get_u32()
}

/// `bytes::BufMut::put_u32` on a `Vec<u8>`: appends the four big-endian bytes
/// of `v`. The vector's growth panics past `isize::MAX` bytes, which
/// `requires` rules out.
#[verifier::external_body]
pub(crate) fn put_u32_vec(buf: &mut Vec<u8>, v: u32)
    requires
        old(buf)@.len() + 4 <= isize::MAX,
    ensures
        final(buf)@ == old(buf)@ + u32_be_bytes(v),
{
    buf.put_u32(v)
}

/// `bytes::BufMut::put_slice` on a `Vec<u8>`: appends the bytes of `src`
/// (the crate forwards to `Vec::extend_from_slice`).
#[verifier::external_body]
pub(crate) fn put_slice_vec(buf: &mut Vec<u8>, src: &[u8])
    requires
        old(buf)@.len() + src@.len() <= isize::MAX,
    ensures
        final(buf)@ == old(buf)@ + src@,
{
    buf.put_slice(src)
}

/// `bytes::BytesMut`, the growable read buffer of a connection.
#[verifier::external_type_specification]
#[verifier::external_body]
pub struct ExBytesMut(BytesMut);

/// The bytes that a `BytesMut` holds, from its read position to its end.
pub uninterp spec fn bytes_mut_contents(buf: BytesMut) -> Seq<u8>;

/// `<bytes::BytesMut as Deref>::deref`: the held bytes as a slice.
#[verifier::external_body]
pub(crate) fn bytes_mut_as_slice(buf: &BytesMut) -> (s: &[u8])
    ensures
        s@ == bytes_mut_contents(*buf),
{
    &buf[..]
}

/// `bytes::BytesMut::is_empty`: whether no bytes are held.
#[verifier::external_body]
pub(crate) fn bytes_mut_is_empty(buf: &BytesMut) -> (b: bool)
    ensures
        b == (bytes_mut_contents(*buf).len() == 0),
{
    buf.is_empty()
}

/// `bytes::BytesMut::len`: the number of held bytes.
#[verifier::external_body]
pub(crate) fn bytes_mut_len(buf: &BytesMut) -> (n: usize)
    ensures
        n == bytes_mut_contents(*buf).len(),
{
    buf.len()
}

/// `<bytes::BytesMut as Buf>::advance`: drops the first `cnt` held bytes.
/// The crate asserts `cnt <= len`, which `requires` states.
#[verifier::external_body]
pub(crate) fn bytes_mut_advance(buf: &mut BytesMut, cnt: usize)
    requires
        cnt <= bytes_mut_contents(*old(buf)).len(),
    ensures
        bytes_mut_contents(*final(buf)) == bytes_mut_contents(*old(buf)).subrange(
            cnt as int,
            bytes_mut_contents(*old(buf)).len() as int,
        ),
{
    buf.advance(cnt)
}

/// `<bytes::BytesMut as BufMut>::put_slice`: appends the bytes of `src`.
/// Growing past `isize::MAX` bytes panics, which `requires` rules out.
#[verifier::external_body]
pub(crate) fn bytes_mut_put_slice(buf: &mut BytesMut, src: &[u8])
    requires
        bytes_mut_contents(*old(buf)).len() + src@.len() <= isize::MAX,
    ensures
        bytes_mut_contents(*final(buf)) == bytes_mut_contents(*old(buf)) + src@,
{
    buf.put_slice(src)
}

} // verus!
