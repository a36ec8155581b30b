//! Codec for SI values: a number written as decimal text.
use crate::buffer::{bytes_as_slice, bytes_content};
use crate::codec::MessageCodec;
use crate::text::{decimal, decimal_string, decode_utf8, signed_decimal, signed_decimal_string};
use crate::Error;
use bytes::Bytes;
use vstd::prelude::*;
use vstd::string::*;

verus! {

/// A number kept as the text it was written with, so that it keeps its digits.
#[derive(Clone, PartialEq, Debug)]
pub struct StableNumber {
    pub value: String,
}

/// Codec for the value of an SI attribute: the decimal text of the number.
#[derive(Clone, PartialEq, Debug)]
pub struct SiCodec {
    pub value: String,
}

impl SiCodec {
    /// Wraps the decimal text of a number.
    pub fn from_text(value: String) -> (r: Self)
        ensures
            r.value@ == value@,
    {
        Self { value }
    }

    /// The number, with the digits it was written with.
    pub fn into_stable_number(&self) -> (r: StableNumber)
        ensures
            r.value@ == self.value@,
    {
        StableNumber { value: self.value.clone() }
    }
}

impl vstd::std_specs::convert::FromSpecImpl<u16> for SiCodec {
    open spec fn obeys_from_spec() -> bool {
        false
    }

    open spec fn from_spec(value: u16) -> Self {
        arbitrary()
    }
}

/// Allow implicit conversion.
impl From<u16> for SiCodec {
    fn from(value: u16) -> (r: SiCodec)
        ensures
            r.value@ == decimal(value as nat),
    {
        SiCodec { value: decimal_string(value as u64) }
    }
}

impl vstd::std_specs::convert::FromSpecImpl<u32> for SiCodec {
    open spec fn obeys_from_spec() -> bool {
        false
    }

    open spec fn from_spec(value: u32) -> Self {
        arbitrary()
    }
}

/// Allow implicit conversion.
impl From<u32> for SiCodec {
    fn from(value: u32) -> (r: SiCodec)
        ensures
            r.value@ == decimal(value as nat),
    {
        SiCodec { value: decimal_string(value as u64) }
    }
}

impl vstd::std_specs::convert::FromSpecImpl<i32> for SiCodec {
    open spec fn obeys_from_spec() -> bool {
        false
    }

    open spec fn from_spec(value: i32) -> Self {
        arbitrary()
    }
}

/// Allow implicit conversion.
impl From<i32> for SiCodec {
    fn from(value: i32) -> (r: SiCodec)
        ensures
            r.value@ == signed_decimal(value as int),
    {
        SiCodec { value: signed_decimal_string(value as i64) }
    }
}

impl MessageCodec for SiCodec {
    /// The payload must be UTF-8 text.
    open spec fn accepts_payload(data: Seq<u8>) -> bool {
        vstd::utf8::valid_utf8(data)
    }

    /// The value is the text of the payload.
    fn from_message_payload(data: &Bytes) -> (r: Result<Self, Error>)
        ensures
            r matches Ok(c) && c.value@ == vstd::utf8::decode_utf8(bytes_content(*data)),
    {
        match decode_utf8(bytes_as_slice(data)) {
            Ok(text) => {
                proof {
                    vstd::utf8::encode_utf8_decode_utf8(text@);
                }
                Ok(Self { value: text.to_owned() })
            },
            Err(_) => Err(Error::Wtf),
        }
    }

    /// The payload is the text of the value, in UTF-8.
    fn into_message_payload(&self) -> (r: Result<Vec<u8>, Error>)
        ensures
            r matches Ok(v) && v@ == vstd::utf8::encode_utf8(self.value@),
    {
        Ok(self.value.as_str().as_bytes_vec())
    }

    fn typee() -> (r: String)
        ensures
            r@ == "si"@,
    {
        "si".to_owned()
    }
}

/// A payload written by `into_message_payload` is accepted by
/// `from_message_payload`, which gives the same text back.
pub proof fn lemma_si_payload_round_trip(c: SiCodec)
    ensures
        <SiCodec as MessageCodec>::accepts_payload(vstd::utf8::encode_utf8(c.value@)),
        vstd::utf8::decode_utf8(vstd::utf8::encode_utf8(c.value@)) == c.value@,
{
    vstd::utf8::encode_utf8_valid_utf8(c.value@);
    vstd::utf8::encode_utf8_decode_utf8(c.value@);
}

} // verus!
