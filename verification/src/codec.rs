//! Codecs between the values of attributes and the payloads of messages.

pub mod eenum;
pub mod number_list;
pub mod raw;
pub mod scpi;
pub mod si;

use crate::buffer::bytes_content;
use crate::Error;
use bytes::Bytes;
use vstd::prelude::*;

verus! {

/// Conversion of a value from and into message payloads.
pub trait MessageCodec: Sized {
    /// Payloads that `from_message_payload` handles.
    spec fn accepts_payload(data: Seq<u8>) -> bool;

    /// Deserializes a value from a received payload.
    fn from_message_payload(data: &Bytes) -> (r: Result<Self, Error>)
        requires
            Self::accepts_payload(bytes_content(*data)),
    ;

    /// Serializes the value into a payload.
    fn into_message_payload(&self) -> Result<Vec<u8>, Error>;

    /// Name of the type of the attribute.
    fn typee() -> String;
}

} // verus!
