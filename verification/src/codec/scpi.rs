//! Codec helpers for SCPI instruments.
use crate::buffer::{bytes_content, bytes_from_string};
use crate::helper::scpi::boolean::{
    decode_utf8_spec, invalid_boolean_text, invalid_utf8_text, lowercase_text, scpi_boolean_of,
    ScpiBoolean,
};
use crate::text::{byte_list_text, utf8_failure_fits, Utf8Failure};
use crate::Error;
use bytes::Bytes;
use vstd::prelude::*;

verus! {

/// Encodes a query: its UTF-8 bytes.
pub fn e_query(query: String) -> (r: Bytes)
    ensures
        bytes_content(r) == vstd::utf8::encode_utf8(query@),
{
    bytes_from_string(query)
}

/// Decodes a SCPI boolean answer.
pub fn d_boolean(data: Bytes) -> (r: Result<bool, Error>)
    ensures
        match decode_utf8_spec(bytes_content(data)) {
            Some(t) => match scpi_boolean_of(lowercase_text(t)) {
                Some(v) => r == Ok::<bool, Error>(v),
                None => r matches Err(Error::CodecError(m)) && m@ == invalid_boolean_text(t),
            },
            None => r matches Err(Error::CodecError(m)) && exists|f: Utf8Failure|
                utf8_failure_fits(bytes_content(data), f) && m@ == invalid_utf8_text(
                    f,
                    byte_list_text(bytes_content(data)),
                ),
        },
{
    let b = ScpiBoolean::from_bytes(data)?;
    Ok(b.value())
}

/// Code snippet that requests a boolean to the device: none is generated.
pub fn d_get_boolean(codec_settings: &serde_json::Value) -> (r: String)
    ensures
        r@ == Seq::<char>::empty(),
{
    String::new()
}

} // verus!
