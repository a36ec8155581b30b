//! Codec for raw bytes.
use crate::buffer::{bytes_as_slice, bytes_clone, bytes_content, bytes_copy_from_slice, bytes_into_vec};
use crate::text::{byte_string_string, byte_string_text};
use crate::codec::MessageCodec;
use crate::Error;
use bytes::Bytes;
use vstd::prelude::*;

verus! {

/// Codec for raw bytes: the payload is the value.
#[derive(PartialEq, Debug)]
pub struct RawCodec {
    pub data: Bytes,
}

impl Clone for RawCodec {
    fn clone(&self) -> (r: Self)
        ensures
            bytes_content(r.data) == bytes_content(self.data),
    {
        RawCodec { data: bytes_clone(&self.data) }
    }
}

impl vstd::std_specs::convert::FromSpecImpl<Bytes> for RawCodec {
    open spec fn obeys_from_spec() -> bool {
        true
    }

    open spec fn from_spec(data: Bytes) -> Self {
        RawCodec { data }
    }
}

/// Allow implicit conversion.
impl From<Bytes> for RawCodec {
    fn from(data: Bytes) -> (r: Self)
        ensures
            r.data == data,
    {
        Self { data }
    }
}

impl<'a> vstd::std_specs::convert::FromSpecImpl<&'a [u8]> for RawCodec {
    open spec fn obeys_from_spec() -> bool {
        false
    }

    open spec fn from_spec(data: &'a [u8]) -> Self {
        arbitrary()
    }
}

/// Allow implicit conversion: the bytes are copied.
impl<'a> From<&'a [u8]> for RawCodec {
    fn from(data: &'a [u8]) -> (r: Self)
        ensures
            bytes_content(r.data) == data@,
    {
        Self { data: bytes_copy_from_slice(data) }
    }
}

impl RawCodec {
    /// The data as displayed: its `Debug` rendering, a byte string literal.
    pub fn to_string(&self) -> (r: String)
        ensures
            r@ == byte_string_text(bytes_content(self.data)),
    {
        byte_string_string(bytes_as_slice(&self.data))
    }
}

impl MessageCodec for RawCodec {
    open spec fn accepts_payload(data: Seq<u8>) -> bool {
        true
    }

    fn from_message_payload(data: &Bytes) -> (r: Result<RawCodec, Error>)
        ensures
            r matches Ok(c) && bytes_content(c.data) == bytes_content(*data),
    {
        Ok(RawCodec { data: bytes_clone(data) })
    }

    fn into_message_payload(&self) -> (r: Result<Vec<u8>, Error>)
        ensures
            r matches Ok(v) && v@ == bytes_content(self.data),
    {
        Ok(bytes_into_vec(bytes_clone(&self.data)))
    }

    fn typee() -> (r: String)
        ensures
            r@ == "raw"@,
    {
        "raw".to_owned()
    }
}

} // verus!
