//! The byte buffers that connections fill and drain.
//!
//! `bytes::BytesMut` and `tokio::io::ReadBuf` are used as they are. What they hold is named by
//! [`bytes_of`] and [`filled_of`]; each operation that the library calls has a wrapper here that
//! says what it does to those contents.
use bytes::{Buf, BufMut, BytesMut};
use tokio::io::ReadBuf;
use vstd::prelude::*;

verus! {

/// Declares `bytes::BytesMut`, a growable byte buffer, as an opaque type.
#[verifier::external_type_specification]
#[verifier::external_body]
pub struct ExBytesMut(bytes::BytesMut);

/// Declares `tokio::io::ReadBuf`, the target of one asynchronous read, as an opaque type.
#[verifier::external_type_specification]
#[verifier::external_body]
pub struct ExReadBuf<'a>(tokio::io::ReadBuf<'a>);

/// The bytes that a `BytesMut` holds, first byte first. Spare capacity is no part of them.
pub uninterp spec fn bytes_of(buf: BytesMut) -> Seq<u8>;

/// The filled part of a `ReadBuf`, first byte first.
pub uninterp spec fn filled_of(buf: ReadBuf<'_>) -> Seq<u8>;

/// The part of a `ReadBuf` that counts as initialized, first byte first. The filled part is the start
/// of it.
pub uninterp spec fn initialized_of(buf: ReadBuf<'_>) -> Seq<u8>;

/// The number of bytes that a `ReadBuf` was made to take.
pub uninterp spec fn limit_of(buf: ReadBuf<'_>) -> nat;

/// A `BytesMut` of `len` bytes can grow by `extra` bytes without overflowing its capacity.
///
/// A growing `BytesMut` may at most double an allocation that is less than twice as long as what
/// it holds in the end, and no allocation exceeds `isize::MAX` bytes.
pub open spec fn can_grow(len: nat, extra: nat) -> bool {
    len + extra <= isize::MAX / 4
}

/// The two bytes of `n`, most significant first.
pub open spec fn be16(n: u16) -> Seq<u8> {
    seq![(n / 256) as u8, (n % 256) as u8]
}

/// `BytesMut::with_capacity`: a new buffer that holds no bytes. Nothing is claimed of its capacity.
#[verifier::external_body]
pub(crate) fn with_capacity(capacity: usize) -> (buf: BytesMut)
    requires
        capacity <= isize::MAX,
    ensures
        bytes_of(buf) == Seq::<u8>::empty(),
{
    BytesMut::with_capacity(capacity)
}

/// `BytesMut::len`: the number of bytes held.
#[verifier::external_body]
pub(crate) fn len(buf: &BytesMut) -> (n: usize)
    ensures
        n == bytes_of(*buf).len(),
{
    buf.len()
}

/// `BytesMut::clear`: drops every byte held.
#[verifier::external_body]
pub(crate) fn clear(buf: &mut BytesMut)
    ensures
        bytes_of(*final(buf)) == Seq::<u8>::empty(),
{
    buf.clear()
}

/// `Buf::chunk` of a `BytesMut`: a slice of all the bytes held.
#[verifier::external_body]
pub(crate) fn chunk(buf: &BytesMut) -> (bytes: &[u8])
    ensures
        bytes@ == bytes_of(*buf),
{
    buf.chunk()
}

/// `BufMut::put_u8` on a `BytesMut`: appends one byte.
#[verifier::external_body]
pub(crate) fn put_u8(buf: &mut BytesMut, n: u8)
    requires
        can_grow(bytes_of(*old(buf)).len(), 1),
    ensures
        bytes_of(*final(buf)) == bytes_of(*old(buf)).push(n),
{
    buf.put_u8(n)
}

/// `BufMut::put_u16` on a `BytesMut`: appends two bytes, most significant first.
#[verifier::external_body]
pub(crate) fn put_u16(buf: &mut BytesMut, n: u16)
    requires
        can_grow(bytes_of(*old(buf)).len(), 2),
    ensures
        bytes_of(*final(buf)) == bytes_of(*old(buf)) + be16(n),
{
    buf.put_u16(n)
}

/// `BufMut::put_slice` on a `BytesMut`: appends all of `src`.
#[verifier::external_body]
pub(crate) fn put_slice(buf: &mut BytesMut, src: &[u8])
    requires
        can_grow(bytes_of(*old(buf)).len(), src@.len()),
    ensures
        bytes_of(*final(buf)) == bytes_of(*old(buf)) + src@,
{
    buf.put_slice(src)
}

/// `ReadBuf::uninit` over the spare capacity of a `BytesMut`, which `BufMut::chunk_mut` first
/// extends if there is none: nothing in the read buffer is filled or counts as initialized, and it
/// has room for at least one byte. Whatever is read into it lands behind the bytes that `buf` holds,
/// so these stay as they are. How large the spare capacity is, is not claimed.
#[verifier::external_body]
pub(crate) fn spare_read_buf<'a>(buf: &'a mut BytesMut) -> (read: ReadBuf<'a>)
    requires
        can_grow(bytes_of(*old(buf)).len(), 64),
    ensures
        bytes_of(*final(buf)) == bytes_of(*old(buf)),
        filled_of(read) == Seq::<u8>::empty(),
        initialized_of(read) == Seq::<u8>::empty(),
        limit_of(read) > 0,
{
    buf.chunk_mut();
    ReadBuf::uninit(buf.spare_capacity_mut())
}

/// `ReadBuf::filled`: a slice of the filled part.
#[verifier::external_body]
pub(crate) fn read_filled<'b>(buf: &'b ReadBuf<'_>) -> (bytes: &'b [u8])
    ensures
        bytes@ == filled_of(*buf),
{
    buf.filled()
}

/// `ReadBuf::clear`: empties the filled part. What counts as initialized stays, and so does the room
/// that the buffer was made with.
#[verifier::external_body]
pub(crate) fn read_clear(buf: &mut ReadBuf<'_>)
    ensures
        filled_of(*final(buf)) == Seq::<u8>::empty(),
        initialized_of(*final(buf)) == initialized_of(*old(buf)),
        limit_of(*final(buf)) == limit_of(*old(buf)),
{
    buf.clear()
}

/// A fresh read buffer over the spare capacity of `buf`.
///
/// It starts out empty, with no part that counts as initialized, and can take at least one byte, so
/// that a read that leaves it empty is the end of the stream. The bytes that `buf` holds are not
/// touched through it.
pub fn to_read_buf<'a>(buf: &'a mut BytesMut) -> (read: ReadBuf<'a>)
    requires
        can_grow(bytes_of(*old(buf)).len(), 64),
    ensures
        bytes_of(*final(buf)) == bytes_of(*old(buf)),
        filled_of(read) == Seq::<u8>::empty(),
        initialized_of(read) == Seq::<u8>::empty(),
        limit_of(read) > 0,
{
    spare_read_buf(buf)
}

} // verus!
