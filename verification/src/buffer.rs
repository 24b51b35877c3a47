//! Byte buffers of the `bytes` crate, as the rest of the library sees them.
use bytes::BufMut;
use bytes::BytesMut;
use vstd::prelude::*;

verus! {

/// `bytes::BytesMut`, a growable byte buffer. Its contents are named by [`contents`].
#[verifier::external_type_specification]
#[verifier::external_body]
pub struct ExBytesMut(bytes::BytesMut);

/// The bytes that a buffer holds.
pub uninterp spec fn contents(buffer: BytesMut) -> Seq<u8>;

/// `BytesMut::from(&[u8])`: a new buffer with a copy of the given bytes.
#[verifier::external_body]
pub(crate) fn from_slice(data: &[u8]) -> (buffer: BytesMut)
    ensures
        contents(buffer) == data@,
{
    BytesMut::from(data)
}

/// `BytesMut::len`: the number of bytes in the buffer.
#[verifier::external_body]
pub(crate) fn len(buffer: &BytesMut) -> (n: usize)
    ensures
        n == contents(*buffer).len(),
{
    buffer.len()
}

/// `BytesMut::as_ref`: the contents of the buffer as a slice.
#[verifier::external_body]
pub(crate) fn as_slice(buffer: &BytesMut) -> (data: &[u8])
    ensures
        data@ == contents(*buffer),
{
    buffer.as_ref()
}

/// `BytesMut::new`: a buffer that holds nothing.
#[verifier::external_body]
pub(crate) fn new() -> (buffer: BytesMut)
    ensures
        contents(buffer) == Seq::<u8>::empty(),
{
    BytesMut::new()
}

/// `BufMut::put` on a buffer that holds nothing: the buffer then holds the given bytes.
#[verifier::external_body]
pub(crate) fn put(buffer: &mut BytesMut, data: &[u8])
    requires
        contents(*old(buffer)).len() == 0,
    ensures
        contents(*final(buffer)) == data@,
{
    buffer.put(data)
}

/// `BytesMut::split_to`: takes the first `at` bytes out of the buffer and leaves the rest in it.
#[verifier::external_body]
pub(crate) fn split_to(buffer: &mut BytesMut, at: usize) -> (head: BytesMut)
    requires
        at <= contents(*old(buffer)).len(),
    ensures
        contents(head) == contents(*old(buffer)).take(at as int),
        contents(*final(buffer)) == contents(*old(buffer)).skip(at as int),
{
    buffer.split_to(at)
}

} // verus!
