//! SCPI boolean: "ON"/"OFF" or "1"/"0".
use crate::buffer::{bytes_as_slice, bytes_content};
use crate::text::{
    byte_list_string, byte_list_text, byte_string_string, byte_string_text, debug_str,
    debug_str_text, decode_utf8, utf8_failure_fits, utf8_failure_string, utf8_failure_text,
    Utf8Failure,
};
use crate::Error;
use bytes::Bytes;
use std::collections::HashMap;
use vstd::prelude::*;
use vstd::string::*;

verus! {

/// What `str::to_lowercase` returns (Unicode lower-case mapping).
pub uninterp spec fn lowercase_text(s: Seq<char>) -> Seq<char>;

/// Lower-case of ASCII text: letters 'A'..='Z' become 'a'..='z'.
pub open spec fn ascii_lowercase(s: Seq<char>) -> Seq<char> {
    Seq::new(
        s.len(),
        |i: int|
            if 'A' <= s[i] && s[i] <= 'Z' {
                ((s[i] as u32) + 32) as char
            } else {
                s[i]
            },
    )
}

/// Lower-cases a string (`str::to_lowercase`). On ASCII text the Unicode
/// mapping only changes the letters 'A'..='Z'.
#[verifier::external_body]
fn to_lowercase(s: &str) -> (r: String)
    ensures
        r@ == lowercase_text(s@),
        vstd::utf8::is_ascii_chars(s@) ==> r@ == ascii_lowercase(s@),
{
    s.to_lowercase()
}

/// The contents of a map from strings to booleans.
pub uninterp spec fn str_bool_entries(m: HashMap<&str, bool>) -> Map<Seq<char>, bool>;

/// Looks a key up in a map from strings to booleans (`HashMap::get`).
#[verifier::external_body]
fn lookup_bool(map: &HashMap<&str, bool>, key: &str) -> (r: Option<bool>)
    ensures
        r is Some <==> str_bool_entries(*map).contains_key(key@),
        r matches Some(v) ==> v == str_bool_entries(*map)[key@],
{
    map.get(key).copied()
}

/// Boolean denoted by lower-case SCPI text: "on" and "1" are true, "off"
/// and "0" are false.
pub open spec fn scpi_boolean_of(t: Seq<char>) -> Option<bool> {
    if t == "on"@ || t == "1"@ {
        Some(true)
    } else if t == "off"@ || t == "0"@ {
        Some(false)
    } else {
        None
    }
}

/// Text of a boolean: "ON" or "OFF".
pub open spec fn boolean_text(v: bool) -> Seq<char> {
    if v {
        "ON"@
    } else {
        "OFF"@
    }
}

/// Digital text of a boolean: "1" or "0".
pub open spec fn boolean_digital_text(v: bool) -> Seq<char> {
    if v {
        "1"@
    } else {
        "0"@
    }
}

/// Reading back the text or the digital text of a boolean, whatever the
/// case of its letters, gives the boolean.
pub proof fn lemma_boolean_text_round_trip(v: bool)
    ensures
        vstd::utf8::is_ascii_chars(boolean_text(v)),
        scpi_boolean_of(ascii_lowercase(boolean_text(v))) == Some(v),
        vstd::utf8::is_ascii_chars(boolean_digital_text(v)),
        scpi_boolean_of(ascii_lowercase(boolean_digital_text(v))) == Some(v),
{
    reveal_strlit("ON");
    reveal_strlit("OFF");
    reveal_strlit("on");
    reveal_strlit("off");
    reveal_strlit("1");
    reveal_strlit("0");
    assert(ascii_lowercase("ON"@) =~= "on"@);
    assert(ascii_lowercase("OFF"@) =~= "off"@);
    assert(ascii_lowercase("1"@) =~= "1"@);
    assert(ascii_lowercase("0"@) =~= "0"@);
    assert("0"@.len() != "on"@.len() && "0"@.len() != "off"@.len());
    assert("0"@[0] != "1"@[0]);
    assert("1"@.len() != "on"@.len());
    assert("off"@.len() != "on"@.len() && "off"@.len() != "1"@.len());
}

/// Message of the error raised for text that is not a SCPI boolean.
pub open spec fn invalid_boolean_text(s: Seq<char>) -> Seq<char> {
    "Invalid boolean value: "@ + debug_str_text(s)
}

/// Message of the error raised for bytes that are not UTF-8.
pub open spec fn invalid_utf8_text(f: Utf8Failure, rendered_input: Seq<char>) -> Seq<char> {
    "Invalid utf8 decoding: "@ + utf8_failure_text(f) + " / "@ + rendered_input
}

/// SCPI boolean type.
pub struct ScpiBoolean {
    /// Internal representation of the boolean value
    pub value: bool,
}

impl View for ScpiBoolean {
    type V = bool;

    open spec fn view(&self) -> bool {
        self.value
    }
}

impl ScpiBoolean {
    /// Creates a new ScpiBoolean from a bool.
    pub fn new(value: bool) -> (r: Self)
        ensures
            r@ == value,
    {
        Self { value }
    }

    /// Creates a new ScpiBoolean from a buffer of UTF-8 text.
    pub fn from_bytes(b: Bytes) -> (r: Result<Self, Error>)
        ensures
            match decode_utf8_spec(bytes_content(b)) {
                Some(t) => boolean_result_matches(r, t),
                None => r matches Err(Error::CodecError(m)) && exists|f: Utf8Failure|
                    utf8_failure_fits(bytes_content(b), f) && m@ == invalid_utf8_text(
                        f,
                        byte_list_text(bytes_content(b)),
                    ),
            },
    {
        Self::from_slice(bytes_as_slice(&b))
    }

    /// Creates a new ScpiBoolean from a string, whatever the case of its letters.
    pub fn from_str_case_insensitive(s: &str) -> (r: Result<Self, Error>)
        ensures
            boolean_result_matches(r, s@),
            vstd::utf8::is_ascii_chars(s@) ==> lowercase_text(s@) == ascii_lowercase(s@),
    {
        let lower = to_lowercase(s);
        Self::from_lowercase(lower.as_str(), s)
    }

    /// Reads the boolean from `lower`, the lower-cased text of `s`: "on" and
    /// "1" are true, "off" and "0" are false; `s` is quoted in the error.
    pub fn from_lowercase(lower: &str, s: &str) -> (r: Result<Self, Error>)
        ensures
            match scpi_boolean_of(lower@) {
                Some(v) => r matches Ok(b) && b@ == v,
                None => r matches Err(Error::CodecError(m)) && m@ == invalid_boolean_text(s@),
            },
    {
        proof {
            reveal_strlit("on");
            reveal_strlit("1");
            reveal_strlit("off");
            reveal_strlit("0");
        }
        if crate::text::text_equals(lower, "on") || crate::text::text_equals(lower, "1") {
            Ok(Self::new(true))
        } else if crate::text::text_equals(lower, "off") || crate::text::text_equals(lower, "0") {
            Ok(Self::new(false))
        } else {
            let mut m = "Invalid boolean value: ".to_owned();
            m.append(debug_str(s).as_str());
            Err(Error::CodecError(m))
        }
    }

    /// Creates a new ScpiBoolean from a slice of UTF-8 text.
    pub fn from_slice(s: &[u8]) -> (r: Result<Self, Error>)
        ensures
            match decode_utf8_spec(s@) {
                Some(t) => boolean_result_matches(r, t),
                None => r matches Err(Error::CodecError(m)) && exists|f: Utf8Failure|
                    utf8_failure_fits(s@, f) && m@ == invalid_utf8_text(f, byte_list_text(s@)),
            },
    {
        match decode_utf8(s) {
            Ok(r) => {
                proof {
                    vstd::utf8::encode_utf8_decode_utf8(r@);
                }
                Self::from_str_case_insensitive(r)
            },
            Err(f) => {
                let mut m = "Invalid utf8 decoding: ".to_owned();
                m.append(utf8_failure_string(&f).as_str());
                m.append(" / ");
                m.append(byte_list_string(s).as_str());
                assert(m@ == invalid_utf8_text(f, byte_list_text(s@)));
                Err(Error::CodecError(m))
            },
        }
    }

    /// Creates a new ScpiBoolean from a buffer of UTF-8 text, through a map
    /// from the accepted texts to their value.
    pub fn from_bytes_and_map(s: Bytes, map: HashMap<&str, bool>) -> (r: Result<Self, Error>)
        ensures
            match decode_utf8_spec(bytes_content(s)) {
                Some(t) => if str_bool_entries(map).contains_key(t) {
                    r matches Ok(b) && b@ == str_bool_entries(map)[t]
                } else {
                    r matches Err(Error::CodecError(m)) && m@ == "value not mapped '"@ + t + "'"@
                },
                None => r matches Err(Error::CodecError(m)) && exists|f: Utf8Failure|
                    utf8_failure_fits(bytes_content(s), f) && m@ == invalid_utf8_text(
                        f,
                        byte_string_text(bytes_content(s)),
                    ),
            },
    {
        let data = bytes_as_slice(&s);
        match decode_utf8(data) {
            Ok(r) => {
                proof {
                    vstd::utf8::encode_utf8_decode_utf8(r@);
                }
                Self::from_mapped_value(lookup_bool(&map, r), r)
            },
            Err(f) => {
                let mut m = "Invalid utf8 decoding: ".to_owned();
                m.append(utf8_failure_string(&f).as_str());
                m.append(" / ");
                m.append(byte_string_string(data).as_str());
                assert(m@ == invalid_utf8_text(f, byte_string_text(bytes_content(s))));
                Err(Error::CodecError(m))
            },
        }
    }

    /// The boolean that a map gave for `text`; an error when it gave none.
    pub fn from_mapped_value(found: Option<bool>, text: &str) -> (r: Result<Self, Error>)
        ensures
            match found {
                Some(v) => r matches Ok(b) && b@ == v,
                None => r matches Err(Error::CodecError(m)) && m@ == "value not mapped '"@ + text@
                    + "'"@,
            },
    {
        match found {
            Some(value) => Ok(Self::new(value)),
            None => {
                let mut m = "value not mapped '".to_owned();
                m.append(text);
                m.append("'");
                Err(Error::CodecError(m))
            },
        }
    }

    /// Gets the value of the ScpiBoolean.
    pub fn value(&self) -> (r: bool)
        ensures
            r == self@,
    {
        self.value
    }

    /// Gets the string representation of the boolean: "ON" or "OFF".
    pub fn to_str(&self) -> (r: &'static str)
        ensures
            r@ == boolean_text(self@),
    {
        match self.value {
            true => "ON",
            false => "OFF",
        }
    }

    /// Gets the digital string representation of the boolean: "1" or "0".
    pub fn to_digital_str(&self) -> (r: &'static str)
        ensures
            r@ == boolean_digital_text(self@),
    {
        match self.value {
            true => "1",
            false => "0",
        }
    }
}

/// The text carried by UTF-8 bytes, `None` when they are not UTF-8.
pub open spec fn decode_utf8_spec(b: Seq<u8>) -> Option<Seq<char>> {
    if vstd::utf8::valid_utf8(b) {
        Some(vstd::utf8::decode_utf8(b))
    } else {
        None
    }
}

/// The result of parsing the text `s` as a SCPI boolean, whatever its case.
pub open spec fn boolean_result_matches(r: Result<ScpiBoolean, Error>, s: Seq<char>) -> bool {
    match scpi_boolean_of(lowercase_text(s)) {
        Some(v) => r matches Ok(b) && b@ == v,
        None => r matches Err(Error::CodecError(m)) && m@ == invalid_boolean_text(s),
    }
}

impl vstd::std_specs::convert::FromSpecImpl<bool> for ScpiBoolean {
    open spec fn obeys_from_spec() -> bool {
        true
    }

    open spec fn from_spec(b: bool) -> Self {
        ScpiBoolean { value: b }
    }
}

impl vstd::std_specs::convert::FromSpecImpl<ScpiBoolean> for bool {
    open spec fn obeys_from_spec() -> bool {
        true
    }

    open spec fn from_spec(b: ScpiBoolean) -> Self {
        b.value
    }
}

/// Implicit conversion from bool to ScpiBoolean.
impl From<bool> for ScpiBoolean {
    fn from(b: bool) -> (r: Self)
        ensures
            r@ == b,
    {
        Self { value: b }
    }
}

/// Implicit conversion from ScpiBoolean to bool.
impl From<ScpiBoolean> for bool {
    fn from(b: ScpiBoolean) -> (r: Self)
        ensures
            r == b@,
    {
        b.value
    }
}

} // verus!
