//! Byte buffers: what the pipeline asks of `BytesMut` and `Bytes`.

use bytes::{Bytes, BytesMut};
use vstd::prelude::*;

verus! {

/// `bytes::BytesMut`: a growable buffer, known here by the bytes it holds.
#[verifier::external_type_specification]
#[verifier::external_body]
pub struct ExBytesMut(BytesMut);

/// `bytes::Bytes`: a frozen buffer, known here by the bytes it holds.
#[verifier::external_type_specification]
#[verifier::external_body]
pub struct ExBytes(Bytes);

/// The bytes that a growable buffer holds, in order.
pub uninterp spec fn held(buffer: BytesMut) -> Seq<u8>;

/// The bytes that a frozen buffer holds, in order.
pub uninterp spec fn frozen(bytes: Bytes) -> Seq<u8>;

/// `BytesMut::with_capacity`: a buffer that holds nothing yet. It allocates
/// as a `Vec` does, which panics beyond `isize::MAX` bytes.
pub assume_specification[ BytesMut::with_capacity ](capacity: usize) -> (buffer: BytesMut)
    requires
        capacity <= isize::MAX,
    ensures
        held(buffer) == Seq::<u8>::empty(),
;

/// `BytesMut::len`: how many bytes the buffer holds.
#[verifier::external_body]
pub(crate) fn count(buffer: &BytesMut) -> (len: usize)
    ensures
        len == held(*buffer).len(),
{
    buffer.len()
}

/// `BytesMut::extend_from_slice`: adds the bytes of `extend` after those
/// held. It reserves room first, as a `Vec` does, which panics beyond
/// `isize::MAX` bytes.
pub assume_specification[ BytesMut::extend_from_slice ](buffer: &mut BytesMut, extend: &[u8])
    requires
        held(*old(buffer)).len() + extend@.len() <= isize::MAX,
    ensures
        held(*final(buffer)) == held(*old(buffer)) + extend@,
;

/// `BytesMut::clear`: drops every byte held.
#[verifier::external_body]
pub(crate) fn empty(buffer: &mut BytesMut)
    ensures
        held(*final(buffer)) == Seq::<u8>::empty(),
{
    buffer.clear();
}

/// `BytesMut::freeze`: the same bytes, no longer growable.
pub assume_specification[ BytesMut::freeze ](buffer: BytesMut) -> (bytes: Bytes)
    ensures
        frozen(bytes) == held(buffer),
;

/// `Deref` of `BytesMut`: the bytes held, as a slice.
pub assume_specification<'a>[ <BytesMut as core::ops::Deref>::deref ](buffer: &'a BytesMut) -> (slice: &'a [u8])
    ensures
        slice@ == held(*buffer),
;

/// `Deref` of `Bytes`: the bytes held, as a slice.
pub assume_specification<'a>[ <Bytes as core::ops::Deref>::deref ](bytes: &'a Bytes) -> (slice: &'a [u8])
    ensures
        slice@ == frozen(*bytes),
;

} // verus!
