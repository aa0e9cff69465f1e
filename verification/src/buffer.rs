//! Byte buffers of the `bytes` crate, as the codecs read and write them.
use vstd::prelude::*;

verus! {

/// `bytes::BytesMut`, carried through the codecs as an opaque value.
#[verifier::external_type_specification]
#[verifier::external_body]
pub struct ExBytesMut(bytes::BytesMut);

/// The bytes that a `BytesMut` holds, in order.
pub uninterp spec fn buffer_contents(b: bytes::BytesMut) -> Seq<u8>;

/// Calls `BytesMut::extend_from_slice`, which appends `data` to the buffer
/// (growing it first when needed; it does not panic).
#[verifier::external_body]
pub(crate) fn buffer_extend(dst: &mut bytes::BytesMut, data: &[u8])
    ensures
        buffer_contents(*final(dst)) == buffer_contents(*old(dst)) + data@,
{
    dst.extend_from_slice(data);
}

/// Reads the buffer through its `AsRef<[u8]>` impl and copies the slice into
/// a `Vec`: the result holds exactly the buffer's bytes.
#[verifier::external_body]
pub(crate) fn buffer_bytes(b: &bytes::BytesMut) -> (v: Vec<u8>)
    ensures
        v@ == buffer_contents(*b),
{
    let slice: &[u8] = b.as_ref();
    slice.to_vec()
}

/// Calls `BytesMut::split_to(at)`: afterwards the buffer holds the bytes
/// from `at` on and the result holds the first `at` bytes. The call panics
/// when `at` exceeds the length, which `requires` rules out.
#[verifier::external_body]
pub(crate) fn buffer_split_to(b: &mut bytes::BytesMut, at: usize) -> (head: bytes::BytesMut)
    requires
        at <= buffer_contents(*old(b)).len(),
    ensures
        buffer_contents(head) == buffer_contents(*old(b)).take(at as int),
        buffer_contents(*final(b)) == buffer_contents(*old(b)).skip(at as int),
{
    b.split_to(at)
}

} // verus!
