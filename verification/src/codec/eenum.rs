//! Codec for the value of an enum attribute: one of its choices, carried
//! as a JSON string.
use crate::buffer::{bytes_as_slice, bytes_content};
use crate::codec::MessageCodec;
use crate::helper::scpi::boolean::decode_utf8_spec;
use crate::json::{json_decode_string, json_encode_string, json_string_literal, json_string_parse};
use crate::text::{decimal, decimal_string, decode_utf8, utf8_failure_fits, Utf8Failure};
use crate::Error;
use bytes::Bytes;
use vstd::prelude::*;
use vstd::string::*;

verus! {

/// Codec for the value of an enum attribute.
#[derive(Clone, PartialEq, Debug)]
pub struct EnumCodec {
    pub value: String,
}

impl vstd::std_specs::convert::FromSpecImpl<String> for EnumCodec {
    open spec fn obeys_from_spec() -> bool {
        false
    }

    open spec fn from_spec(value: String) -> Self {
        arbitrary()
    }
}

/// Implicit conversion from String.
impl From<String> for EnumCodec {
    fn from(value: String) -> (r: Self)
        ensures
            r.value@ == value@,
    {
        EnumCodec { value }
    }
}

impl<'a> vstd::std_specs::convert::FromSpecImpl<&'a str> for EnumCodec {
    open spec fn obeys_from_spec() -> bool {
        false
    }

    open spec fn from_spec(value: &'a str) -> Self {
        arbitrary()
    }
}

/// Implicit conversion from str.
impl<'a> From<&'a str> for EnumCodec {
    fn from(value: &'a str) -> (r: Self)
        ensures
            r.value@ == value@,
    {
        EnumCodec { value: value.to_owned() }
    }
}

/// Text of a UTF-8 decoding error, as its `Display` implementation writes it.
pub open spec fn utf8_error_display(f: Utf8Failure) -> Seq<char> {
    match f.error_len {
        Some(n) => "invalid utf-8 sequence of "@ + decimal(n as nat) + " bytes from index "@
            + decimal(f.valid_up_to as nat),
        None => "incomplete utf-8 byte sequence from index "@ + decimal(f.valid_up_to as nat),
    }
}

/// Renders a UTF-8 decoding error as its `Display` implementation does.
pub fn utf8_error_string(f: &Utf8Failure) -> (r: String)
    ensures
        r@ == utf8_error_display(*f),
{
    match f.error_len {
        Some(n) => {
            let mut m = "invalid utf-8 sequence of ".to_owned();
            m.append(decimal_string(n as u64).as_str());
            m.append(" bytes from index ");
            m.append(decimal_string(f.valid_up_to as u64).as_str());
            m
        },
        None => {
            let mut m = "incomplete utf-8 byte sequence from index ".to_owned();
            m.append(decimal_string(f.valid_up_to as u64).as_str());
            m
        },
    }
}

/// Prefix of the message of an error raised by the JSON parser.
pub open spec fn json_failure_text(e: Seq<char>) -> Seq<char> {
    "serde_json fail on : "@ + e
}

/// What decoding a payload gives, once its text has been parsed as a JSON
/// string: the value, or the parse error.
pub open spec fn enum_result_matches(r: Result<EnumCodec, Error>, parsed: Result<Seq<char>, Seq<char>>) -> bool {
    match parsed {
        Ok(v) => r matches Ok(c) && c.value@ == v,
        Err(e) => r matches Err(Error::DeserializeError(m)) && m@ == json_failure_text(e),
    }
}

impl EnumCodec {
    /// Builds the codec from the outcome of parsing a payload's text as a
    /// JSON string.
    pub fn from_json_parse(parsed: Result<String, String>) -> (r: Result<EnumCodec, Error>)
        ensures
            enum_result_matches(
                r,
                match parsed {
                    Ok(v) => Ok(v@),
                    Err(e) => Err(e@),
                },
            ),
    {
        match parsed {
            Ok(value) => Ok(EnumCodec { value }),
            Err(e) => {
                let mut m = "serde_json fail on : ".to_owned();
                m.append(e.as_str());
                Err(Error::DeserializeError(m))
            },
        }
    }

    /// The chosen value, as displayed.
    pub fn to_string(&self) -> (r: String)
        ensures
            r@ == self.value@,
    {
        self.value.clone()
    }
}

/// The value carried by the text of an enum command: the string it
/// denotes when it is a JSON string, else the text itself.
pub open spec fn enum_command_value(text: Seq<char>, parsed: Result<Seq<char>, Seq<char>>) -> Seq<char> {
    match parsed {
        Ok(v) => v,
        Err(_) => text,
    }
}

/// Picks the value of an enum command from the outcome of parsing its text
/// as a JSON string.
pub fn enum_command_from_parse(text: String, parsed: Result<String, String>) -> (r: String)
    ensures
        r@ == enum_command_value(
            text@,
            match parsed {
                Ok(v) => Ok(v@),
                Err(e) => Err(e@),
            },
        ),
{
    match parsed {
        Ok(v) => v,
        Err(_) => text,
    }
}

/// Decodes the text of an enum command: a JSON string, or the bare value.
pub fn decode_enum_command(text: String) -> (r: String)
    ensures
        r@ == enum_command_value(text@, json_string_parse(text@)),
{
    let parsed = json_decode_string(text.as_str());
    enum_command_from_parse(text, parsed)
}

impl MessageCodec for EnumCodec {
    open spec fn accepts_payload(data: Seq<u8>) -> bool {
        true
    }

    /// The payload is UTF-8 text holding a JSON string.
    fn from_message_payload(data: &Bytes) -> (r: Result<EnumCodec, Error>)
        ensures
            match decode_utf8_spec(bytes_content(*data)) {
                Some(t) => enum_result_matches(r, json_string_parse(t)),
                None => r matches Err(Error::DeserializeError(m)) && exists|f: Utf8Failure|
                    utf8_failure_fits(bytes_content(*data), f) && m@ == utf8_error_display(f),
            },
    {
        match decode_utf8(bytes_as_slice(data)) {
            Ok(text) => {
                proof {
                    vstd::utf8::encode_utf8_decode_utf8(text@);
                }
                Self::from_json_parse(json_decode_string(text))
            },
            Err(f) => Err(Error::DeserializeError(utf8_error_string(&f))),
        }
    }

    /// The payload is the value written as a JSON string, in UTF-8.
    fn into_message_payload(&self) -> (r: Result<Vec<u8>, Error>)
        ensures
            r matches Ok(v) && v@ == vstd::utf8::encode_utf8(json_string_literal(self.value@)),
            r matches Ok(v) ==> (decode_utf8_spec(v@) matches Some(t) && json_string_parse(t) matches Ok(
                x,
            ) && x == self.value@),
    {
        match json_encode_string(self.value.as_str()) {
            Ok(t) => {
                proof {
                    vstd::utf8::encode_utf8_valid_utf8(t@);
                    vstd::utf8::encode_utf8_decode_utf8(t@);
                }
                Ok(t.as_str().as_bytes_vec())
            },
            Err(e) => Err(Error::SerializeFailure(e)),
        }
    }

    fn typee() -> (r: String)
        ensures
            r@ == "enum"@,
    {
        "enum".to_owned()
    }
}

} // verus!
