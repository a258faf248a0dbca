//! The codec's boundary with the `bytes` crate: a decode pass reads from a
//! `bytes::Bytes` cursor and an encode pass appends to a `bytes::BytesMut`
//! buffer. Verified code sees both types through the two content functions
//! below and the three wrappers around them; everything else is proved.

use vstd::prelude::*;

verus! {

#[verifier::external_type_specification]
#[verifier::external_body]
pub struct ExBytes(bytes::Bytes);

#[verifier::external_type_specification]
#[verifier::external_body]
pub struct ExBytesMut(bytes::BytesMut);

/// The bytes remaining in a `bytes::Bytes` cursor, in order.
pub uninterp spec fn bytes_content(b: bytes::Bytes) -> Seq<u8>;

/// The bytes held by a `bytes::BytesMut` buffer, in order.
pub uninterp spec fn bytes_mut_content(b: bytes::BytesMut) -> Seq<u8>;

/// Relies on `<Bytes as AsRef<[u8]>>::as_ref`, which returns the remaining
/// bytes of the cursor as one contiguous slice.
#[verifier::external_body]
pub fn bytes_as_slice(b: &bytes::Bytes) -> (s: &[u8])
    ensures
        s@ == bytes_content(*b),
{
    b.as_ref()
}

/// Relies on `<Bytes as bytes::Buf>::advance`, which discards the first `cnt`
/// remaining bytes of the cursor (and panics when `cnt` exceeds them, which
/// the precondition rules out).
#[verifier::external_body]
pub fn bytes_advance(b: &mut bytes::Bytes, cnt: usize)
    requires
        cnt <= bytes_content(*old(b)).len(),
    ensures
        bytes_content(*final(b)) == bytes_content(*old(b)).skip(cnt as int),
{
    bytes::Buf::advance(b, cnt)
}

/// Relies on `BytesMut::extend_from_slice` (what `bytes::BufMut::put` reduces
/// to for a byte slice), which appends the slice to the buffer.
#[verifier::external_body]
pub fn bytes_mut_put(b: &mut bytes::BytesMut, data: &[u8])
    ensures
        bytes_mut_content(*final(b)) == bytes_mut_content(*old(b)) + data@,
{
    b.extend_from_slice(data)
}

} // verus!
