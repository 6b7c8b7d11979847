//! The buffer that a datagram is put together in.

use vstd::prelude::*;

verus! {

/// `bytes::BytesMut`, a growable buffer of bytes. What it holds is spoken
/// of through `packet_bytes` alone.
#[verifier::external_type_specification]
#[verifier::external_body]
pub struct ExBytesMut(bytes::BytesMut);

/// The bytes that a buffer holds, in order: what it derefs to as a slice.
pub uninterp spec fn packet_bytes(packet: bytes::BytesMut) -> Seq<u8>;

/// `BytesMut::new` gives a buffer that holds no byte.
pub assume_specification[ bytes::BytesMut::new ]() -> (packet: bytes::BytesMut)
    ensures
        packet_bytes(packet) == Seq::<u8>::empty(),
;

/// `BytesMut::extend_from_slice` appends the bytes of `extend` to those that
/// the buffer holds, growing it where it must. It panics where the new
/// length cannot be allocated, which the precondition leaves out.
pub assume_specification[ bytes::BytesMut::extend_from_slice ](
    packet: &mut bytes::BytesMut,
    extend: &[u8],
)
    requires
        packet_bytes(*old(packet)).len() + extend@.len() <= isize::MAX,
    ensures
        packet_bytes(*final(packet)) == packet_bytes(*old(packet)) + extend@,
;

} // verus!
