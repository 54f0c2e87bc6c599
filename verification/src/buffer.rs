//! Byte buffers of the `bytes` crate, as the verified code sees them.
//!
//! A `Bytes` or `BytesMut` value is opaque to the verifier. Its contents are
//! named by `bytes_seq` and `bytes_mut_seq`, and every operation on a buffer
//! goes through one of the functions below, whose contracts are taken on
//! trust from the crate's source.

use bytes::{BufMut, Bytes, BytesMut};
use vstd::prelude::*;

verus! {

#[verifier::external_type_specification]
#[verifier::external_body]
pub struct ExBytes(bytes::Bytes);

#[verifier::external_type_specification]
#[verifier::external_body]
pub struct ExBytesMut(bytes::BytesMut);

/// The bytes that an immutable buffer holds, in order.
pub uninterp spec fn bytes_seq(b: Bytes) -> Seq<u8>;

/// The bytes that a growable buffer holds, in order.
pub uninterp spec fn bytes_mut_seq(b: BytesMut) -> Seq<u8>;

/// `Bytes::new`: trusted to return a buffer that holds no bytes.
#[verifier::external_body]
pub(crate) fn bytes_new() -> (r: Bytes)
    ensures
        bytes_seq(r) == Seq::<u8>::empty(),
{
    Bytes::new()
}

/// `Bytes::len`: trusted to return the number of bytes held.
#[verifier::external_body]
pub(crate) fn bytes_len(b: &Bytes) -> (r: usize)
    ensures
        r == bytes_seq(*b).len(),
{
    b.len()
}

/// Indexing a `Bytes` through its `Deref` to a slice: trusted to return the
/// byte at position `i`. The index must be in range, since the slice index
/// panics otherwise.
#[verifier::external_body]
pub(crate) fn bytes_get(b: &Bytes, i: usize) -> (r: u8)
    requires
        i < bytes_seq(*b).len(),
    ensures
        r == bytes_seq(*b)[i as int],
{
    b[i]
}

/// `Bytes::clone`: trusted to return a buffer with the same contents.
#[verifier::external_body]
pub(crate) fn bytes_clone(b: &Bytes) -> (r: Bytes)
    ensures
        bytes_seq(r) == bytes_seq(*b),
{
    b.clone()
}

/// `BytesMut::new`: trusted to return a buffer that holds no bytes.
#[verifier::external_body]
pub(crate) fn bytes_mut_new() -> (r: BytesMut)
    ensures
        bytes_mut_seq(r) == Seq::<u8>::empty(),
{
    BytesMut::new()
}

/// `BufMut::put_u8` on a `BytesMut`: trusted to append one byte. The buffer
/// grows by itself, up to the largest allocation, `isize::MAX` bytes; the
/// call is kept below that.
#[verifier::external_body]
pub(crate) fn bytes_mut_put_u8(buf: &mut BytesMut, byte: u8)
    requires
        bytes_mut_seq(*old(buf)).len() < isize::MAX,
    ensures
        bytes_mut_seq(*final(buf)) == bytes_mut_seq(*old(buf)).push(byte),
{
    buf.put_u8(byte)
}

/// `BytesMut::freeze`: trusted to return an immutable buffer with the same
/// contents.
#[verifier::external_body]
pub(crate) fn bytes_mut_freeze(buf: BytesMut) -> (r: Bytes)
    ensures
        bytes_seq(r) == bytes_mut_seq(buf),
{
    buf.freeze()
}

} // verus!
