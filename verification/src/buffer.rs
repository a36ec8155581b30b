//! Byte buffers exchanged with devices and over the network (`bytes::Bytes`).
use bytes::Bytes;
use vstd::prelude::*;

verus! {

/// `bytes::Bytes`, a cheaply cloneable and sliceable chunk of memory.
#[verifier::external_type_specification]
#[verifier::external_body]
pub struct ExBytes(Bytes);

/// The bytes a `Bytes` buffer holds.
pub uninterp spec fn bytes_content(b: Bytes) -> Seq<u8>;

/// A buffer that holds a copy of `s` (`Bytes::copy_from_slice`).
#[verifier::external_body]
pub(crate) fn bytes_copy_from_slice(s: &[u8]) -> (r: Bytes)
    ensures
        bytes_content(r) == s@,
{
    Bytes::copy_from_slice(s)
}

/// A buffer that holds the UTF-8 bytes of `s` (`Bytes::from(String)`, which
/// takes `s.into_bytes()`).
#[verifier::external_body]
pub(crate) fn bytes_from_string(s: String) -> (r: Bytes)
    ensures
        bytes_content(r) == vstd::utf8::encode_utf8(s@),
{
    Bytes::from(s)
}

/// A second handle on the same bytes (`Bytes::clone`).
#[verifier::external_body]
pub(crate) fn bytes_clone(b: &Bytes) -> (r: Bytes)
    ensures
        bytes_content(r) == bytes_content(*b),
{
    b.clone()
}

/// The bytes of the buffer as a slice (`Deref for Bytes`).
#[verifier::external_body]
pub(crate) fn bytes_as_slice(b: &Bytes) -> (r: &[u8])
    ensures
        r@ == bytes_content(*b),
{
    &b[..]
}

/// The bytes of the buffer as a vector (`From<Bytes> for Vec<u8>`).
#[verifier::external_body]
pub(crate) fn bytes_into_vec(b: Bytes) -> (r: Vec<u8>)
    ensures
        r@ == bytes_content(b),
{
    b.into()
}

} // verus!
