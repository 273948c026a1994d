//! Reference-counted immutable byte buffers, as handed out by the `bytes` crate.
use vstd::prelude::*;

verus! {

#[verifier::external_type_specification]
#[verifier::external_body]
pub struct ExBytes(bytes::Bytes);

/// The bytes that a shared buffer holds.
pub uninterp spec fn bytes_of(b: bytes::Bytes) -> Seq<u8>;

/// Relies on `Bytes::len`: the number of bytes in the buffer.
pub assume_specification[ bytes::Bytes::len ](b: &bytes::Bytes) -> (r: usize)
    ensures
        r == bytes_of(*b).len(),
;

/// Relies on `<Bytes as Clone>::clone`: a new handle on the same bytes.
pub assume_specification[ <bytes::Bytes as Clone>::clone ](b: &bytes::Bytes) -> (r: bytes::Bytes)
    ensures
        bytes_of(r) == bytes_of(*b),
;

/// Relies on `<Bytes as From<Vec<u8>>>::from`: the buffer takes over the vector's bytes.
#[verifier::external_body]
pub(crate) fn share_vec(v: Vec<u8>) -> (r: bytes::Bytes)
    ensures
        bytes_of(r) == v@,
{
    bytes::Bytes::from(v)
}

} // verus!
