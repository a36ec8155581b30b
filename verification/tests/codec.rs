use bytes::Bytes;
use panduza_platform_core::codec::eenum::{decode_enum_command, enum_command_from_parse, EnumCodec};
use panduza_platform_core::codec::number_list::NumberListCodec;
use panduza_platform_core::codec::raw::RawCodec;
use panduza_platform_core::codec::scpi::{d_boolean, d_get_boolean, e_query};
use panduza_platform_core::codec::si::SiCodec;
use panduza_platform_core::codec::MessageCodec;
use panduza_platform_core::Error;

#[test]
fn enum_from_payload() {
    let c = EnumCodec::from_message_payload(&Bytes::from("\"test value\"")).unwrap();
    assert_eq!(c.value, "test value");
}

#[test]
fn enum_payload_round_trip() {
    let c: EnumCodec = "a \"quoted\" choice".into();
    let payload = c.into_message_payload().unwrap();
    assert_eq!(payload, b"\"a \\\"quoted\\\" choice\"".to_vec());
    let back = EnumCodec::from_message_payload(&Bytes::from(payload)).unwrap();
    assert_eq!(back, c);
    assert_eq!(EnumCodec::typee(), "enum");
    assert_eq!(c.to_string(), "a \"quoted\" choice");
}

#[test]
fn enum_payload_not_json() {
    match EnumCodec::from_message_payload(&Bytes::from("plain")) {
        Err(Error::DeserializeError(m)) => assert!(m.starts_with("serde_json fail on : ")),
        other => panic!("unexpected {:?}", other),
    }
}

#[test]
fn enum_payload_not_utf8() {
    match EnumCodec::from_message_payload(&Bytes::from(vec![b'"', 0xff, b'"'])) {
        Err(Error::DeserializeError(m)) => {
            assert_eq!(m, "invalid utf-8 sequence of 1 bytes from index 1")
        }
        other => panic!("unexpected {:?}", other),
    }
    match EnumCodec::from_message_payload(&Bytes::from(vec![b'a', 0xe2, 0x82])) {
        Err(Error::DeserializeError(m)) => {
            assert_eq!(m, "incomplete utf-8 byte sequence from index 1")
        }
        other => panic!("unexpected {:?}", other),
    }
}

#[test]
fn enum_command_text() {
    assert_eq!(decode_enum_command("\"on\"".to_string()), "on");
    assert_eq!(decode_enum_command("on".to_string()), "on");
}

#[test]
fn si_conversions() {
    assert_eq!(SiCodec::from(42u16).value, "42");
    assert_eq!(SiCodec::from(4000000000u32).value, "4000000000");
    assert_eq!(SiCodec::from(-17i32).value, "-17");
    assert_eq!(SiCodec::from(i32::MIN).value, "-2147483648");
    assert_eq!(SiCodec::from(0u16).into_stable_number().value, "0");
}

#[test]
fn si_payload_round_trip() {
    let c = SiCodec::from_text("3.25".to_string());
    let payload = c.into_message_payload().unwrap();
    assert_eq!(payload, b"3.25".to_vec());
    let back = SiCodec::from_message_payload(&Bytes::from(payload)).unwrap();
    assert_eq!(back, c);
    assert_eq!(SiCodec::typee(), "si");
}

#[test]
fn raw_payload_is_the_data() {
    let c = RawCodec::from(&[1u8, 2, 3][..]);
    assert_eq!(c.into_message_payload().unwrap(), vec![1, 2, 3]);
    let back = RawCodec::from_message_payload(&Bytes::from(vec![9u8, 8])).unwrap();
    assert_eq!(back.data, Bytes::from(vec![9u8, 8]));
    assert_eq!(RawCodec::typee(), "raw");
}

#[test]
fn number_list_payload() {
    let c = NumberListCodec::from_message_payload(&Bytes::from("[1, 2.5, -3]")).unwrap();
    assert_eq!(c.list.len(), 3);
    assert_eq!(c.to_string(), "3");
    assert_eq!(c.into_message_payload().unwrap(), b"[1,2.5,-3]".to_vec());
    assert!(NumberListCodec::decode_payload(&Bytes::from("{\"a\": 1}")).is_none());
    assert!(NumberListCodec::decode_payload(&Bytes::from("[]")).is_some());
    assert_eq!(NumberListCodec::typee(), "number_list");
}

#[test]
fn scpi_query_and_boolean() {
    assert_eq!(e_query("*IDN?".to_string()), Bytes::from("*IDN?"));
    assert_eq!(d_boolean(Bytes::from("ON")).unwrap(), true);
    assert_eq!(d_boolean(Bytes::from("0")).unwrap(), false);
    assert!(d_boolean(Bytes::from("maybe")).is_err());
    assert_eq!(d_get_boolean(&serde_json::Value::Null), "");
}

#[test]
fn enum_from_parse_outcomes() {
    assert_eq!(EnumCodec::from_json_parse(Ok("v".to_string())).unwrap().value, "v");
    match EnumCodec::from_json_parse(Err("expected value at line 1 column 1".to_string())) {
        Err(Error::DeserializeError(m)) => {
            assert_eq!(m, "serde_json fail on : expected value at line 1 column 1")
        }
        other => panic!("unexpected {:?}", other),
    }
    assert_eq!(enum_command_from_parse("raw".to_string(), Err("e".to_string())), "raw");
    assert_eq!(enum_command_from_parse("\"x\"".to_string(), Ok("x".to_string())), "x");
}

#[test]
fn raw_display() {
    let c = RawCodec::from(Bytes::from(vec![b'a', 0x00, b'\n', 0xff]));
    assert_eq!(c.to_string(), "b\"a\\0\\n\\xff\"");
    assert_eq!(c.clone().data, c.data);
}
