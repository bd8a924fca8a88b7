use bytes::BytesMut;
use vstd::prelude::*;

verus! {

/// Makes `bytes::BytesMut` known. A value of it is opaque; what it holds is
/// [`bytes_of`].
#[verifier::external_type_specification]
#[verifier::external_body]
pub struct ExBytesMut(bytes::BytesMut);

/// The bytes that a buffer holds, from first to last.
pub uninterp spec fn bytes_of(buffer: BytesMut) -> Seq<u8>;

/// `BytesMut::new`: a buffer that holds nothing.
pub assume_specification[ bytes::BytesMut::new ]() -> (buffer: BytesMut)
    ensures
        bytes_of(buffer) == Seq::<u8>::empty(),
;

/// `BytesMut::len`: the number of bytes that the buffer holds.
pub assume_specification[ bytes::BytesMut::len ](buffer: &BytesMut) -> (len: usize)
    ensures
        len == bytes_of(*buffer).len(),
;

/// `BytesMut::clone`: a second buffer with the same bytes in the same order.
pub assume_specification[ <bytes::BytesMut as Clone>::clone ](buffer: &BytesMut) -> (copy: BytesMut)
    ensures
        bytes_of(copy) == bytes_of(*buffer),
;

} // verus!
