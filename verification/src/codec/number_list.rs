//! Codec for a list of numbers, carried as a JSON array.
use crate::buffer::{bytes_as_slice, bytes_content};
use crate::codec::MessageCodec;
use crate::helper::scpi::boolean::decode_utf8_spec;
use crate::text::{decimal, decimal_string, decode_utf8};
use crate::Error;
use bytes::Bytes;
use serde_json::Value;
use vstd::prelude::*;
use vstd::string::*;

verus! {

/// Codec for a list of numbers.
#[derive(Debug)]
pub struct NumberListCodec {
    pub list: Vec<Value>,
}

/// What `serde_json::from_str::<Vec<Value>>` gives for a text: the items of
/// the JSON array it holds, or nothing when it holds no array.
pub uninterp spec fn json_array_parse(text: Seq<char>) -> Option<Seq<Value>>;

/// What `serde_json::to_string` writes for a list of JSON values.
pub uninterp spec fn json_array_text(items: Seq<Value>) -> Seq<char>;

/// Parses a JSON array (`serde_json::from_str::<Vec<Value>>`).
#[verifier::external_body]
fn json_decode_array(text: &str) -> (r: Option<Vec<Value>>)
    ensures
        r is Some <==> json_array_parse(text@) is Some,
        r matches Some(v) ==> json_array_parse(text@) == Some(v@),
{
    serde_json::from_str::<Vec<Value>>(text).ok()
}

/// Writes a list of JSON values as a JSON array (`serde_json::to_string`);
/// a JSON value always serializes.
#[verifier::external_body]
fn json_encode_array(items: &Vec<Value>) -> (r: Result<String, String>)
    ensures
        r is Ok,
        r matches Ok(t) ==> t@ == json_array_text(items@),
{
    serde_json::to_string(items).map_err(|e| e.to_string())
}

/// Payloads that hold a JSON array in UTF-8 text.
pub open spec fn number_list_payload(data: Seq<u8>) -> bool {
    decode_utf8_spec(data) matches Some(t) && json_array_parse(t) is Some
}

impl NumberListCodec {
    /// Decodes a payload when it holds a JSON array in UTF-8 text; `None`
    /// otherwise.
    pub fn decode_payload(data: &Bytes) -> (r: Option<NumberListCodec>)
        ensures
            r is Some <==> number_list_payload(bytes_content(*data)),
            r matches Some(c) ==> json_array_parse(vstd::utf8::decode_utf8(bytes_content(*data)))
                == Some(c.list@),
    {
        let accepted = match decode_utf8(bytes_as_slice(data)) {
            Ok(text) => {
                proof {
                    vstd::utf8::encode_utf8_decode_utf8(text@);
                }
                json_decode_array(text).is_some()
            },
            Err(_) => false,
        };
        if accepted {
            match Self::from_message_payload(data) {
                Ok(c) => Some(c),
                Err(_) => None,
            }
        } else {
            None
        }
    }

    /// The number of values, as displayed.
    pub fn to_string(&self) -> (r: String)
        ensures
            r@ == decimal(self.list@.len()),
    {
        decimal_string(self.list.len() as u64)
    }
}

impl MessageCodec for NumberListCodec {
    open spec fn accepts_payload(data: Seq<u8>) -> bool {
        number_list_payload(data)
    }

    /// The payload is a JSON array in UTF-8 text.
    fn from_message_payload(data: &Bytes) -> (r: Result<NumberListCodec, Error>)
        ensures
            r matches Ok(c) && json_array_parse(vstd::utf8::decode_utf8(bytes_content(*data)))
                == Some(c.list@),
    {
        match decode_utf8(bytes_as_slice(data)) {
            Ok(text) => {
                proof {
                    vstd::utf8::encode_utf8_decode_utf8(text@);
                }
                match json_decode_array(text) {
                    Some(list) => Ok(NumberListCodec { list }),
                    None => Err(Error::Wtf),
                }
            },
            Err(_) => Err(Error::Wtf),
        }
    }

    /// The payload is the list written as a JSON array, in UTF-8.
    fn into_message_payload(&self) -> (r: Result<Vec<u8>, Error>)
        ensures
            r matches Ok(v) && v@ == vstd::utf8::encode_utf8(json_array_text(self.list@)),
    {
        match json_encode_array(&self.list) {
            Ok(t) => Ok(t.as_str().as_bytes_vec()),
            Err(e) => Err(Error::SerializeFailure(e)),
        }
    }

    fn typee() -> (r: String)
        ensures
            r@ == "number_list"@,
    {
        "number_list".to_owned()
    }
}

} // verus!
