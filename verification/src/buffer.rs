//! What is taken for granted of `bytes::Bytes`.

use bytes::Bytes;
use vstd::prelude::*;

verus! {

/// `bytes::Bytes`, a shared buffer of bytes.
#[verifier::external_type_specification]
#[verifier::external_body]
pub struct ExBytes(Bytes);

/// The bytes that a buffer holds.
pub uninterp spec fn buffer_bytes(buffer: Bytes) -> Seq<u8>;

/// `Bytes::from` on a vector: the buffer holds the bytes of the vector.
pub assume_specification[ <Bytes as core::convert::From<Vec<u8>>>::from ](vec: Vec<u8>) -> (buffer:
    Bytes)
    ensures
        buffer_bytes(buffer) == vec@,
;

/// `Bytes::clone`: the clone holds the same bytes.
pub assume_specification[ <Bytes as Clone>::clone ](buffer: &Bytes) -> (copy: Bytes)
    ensures
        buffer_bytes(copy) == buffer_bytes(*buffer),
;

/// `Bytes::len`: the number of bytes held.
pub assume_specification[ Bytes::len ](buffer: &Bytes) -> (len: usize)
    ensures
        len == buffer_bytes(*buffer).len(),
;

} // verus!
