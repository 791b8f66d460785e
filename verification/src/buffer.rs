//! The bytes of an object on their way to the backend.
//!
//! The bytes that a caller sends are gathered in a `bytes::BytesMut`; the
//! backend takes a `bytes::Bytes`, which shares the memory. The library
//! carries the bytes through without reading them.

use vstd::prelude::*;

verus! {

/// `bytes::Bytes`, a shared run of bytes that cannot be changed. Nothing of
/// its inside is known here.
#[verifier::external_type_specification]
#[verifier::external_body]
pub struct ExBytes(bytes::Bytes);

/// `bytes::BytesMut`, a buffer of bytes that can grow. Nothing of its inside
/// is known here.
#[verifier::external_type_specification]
#[verifier::external_body]
pub struct ExBytesMut(bytes::BytesMut);

/// The bytes that a `Bytes` holds, in order.
pub uninterp spec fn shared_bytes(data: bytes::Bytes) -> Seq<u8>;

/// The bytes that a `BytesMut` holds, in order.
pub uninterp spec fn gathered_bytes(data: bytes::BytesMut) -> Seq<u8>;

/// `BytesMut::freeze`: hands the buffer on as a `Bytes` that can no longer
/// be changed. The bytes are the same, in the same order; they are not copied.
#[verifier::external_body]
pub(crate) fn freeze(data: bytes::BytesMut) -> (frozen: bytes::Bytes)
    ensures
        shared_bytes(frozen) == gathered_bytes(data),
{
    data.freeze()
}

} // verus!
