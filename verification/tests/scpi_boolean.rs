use bytes::Bytes;
use panduza_platform_core::helper::scpi::boolean::ScpiBoolean;
use panduza_platform_core::Error;
use std::collections::HashMap;

#[test]
fn boolean_texts() {
    assert_eq!(ScpiBoolean::new(true).to_str(), "ON");
    assert_eq!(ScpiBoolean::new(false).to_str(), "OFF");
    assert_eq!(ScpiBoolean::new(true).to_digital_str(), "1");
    assert_eq!(ScpiBoolean::new(false).to_digital_str(), "0");
    assert_eq!(ScpiBoolean::new(true).value(), true);
}

#[test]
fn boolean_text_round_trip() {
    for v in [true, false] {
        let b = ScpiBoolean::new(v);
        assert_eq!(ScpiBoolean::from_str_case_insensitive(b.to_str()).unwrap().value(), v);
        assert_eq!(ScpiBoolean::from_str_case_insensitive(b.to_digital_str()).unwrap().value(), v);
    }
}

#[test]
fn boolean_case_insensitive() {
    assert!(ScpiBoolean::from_str_case_insensitive("On").unwrap().value());
    assert!(!ScpiBoolean::from_str_case_insensitive("oFf").unwrap().value());
    match ScpiBoolean::from_str_case_insensitive("yes") {
        Err(Error::CodecError(m)) => assert_eq!(m, "Invalid boolean value: \"yes\""),
        other => panic!("unexpected {:?}", other.map(|b| b.value())),
    }
}

#[test]
fn boolean_from_bytes() {
    assert!(ScpiBoolean::from_bytes(Bytes::from("1")).unwrap().value());
    match ScpiBoolean::from_slice(&[0xff, 0x31]) {
        Err(Error::CodecError(m)) => assert_eq!(
            m,
            "Invalid utf8 decoding: Utf8Error { valid_up_to: 0, error_len: Some(1) } / [255, 49]"
        ),
        other => panic!("unexpected {:?}", other.map(|b| b.value())),
    }
}

#[test]
fn boolean_from_map() {
    let mut map = HashMap::new();
    map.insert("ENABLED", true);
    map.insert("DISABLED", false);
    assert!(ScpiBoolean::from_bytes_and_map(Bytes::from("ENABLED"), map.clone()).unwrap().value());
    match ScpiBoolean::from_bytes_and_map(Bytes::from("OTHER"), map.clone()) {
        Err(Error::CodecError(m)) => assert_eq!(m, "value not mapped 'OTHER'"),
        other => panic!("unexpected {:?}", other.map(|b| b.value())),
    }
    match ScpiBoolean::from_bytes_and_map(Bytes::from(vec![0x41, 0xff]), map) {
        Err(Error::CodecError(m)) => assert_eq!(
            m,
            "Invalid utf8 decoding: Utf8Error { valid_up_to: 1, error_len: Some(1) } / b\"A\\xff\""
        ),
        other => panic!("unexpected {:?}", other.map(|b| b.value())),
    }
}

#[test]
fn boolean_conversions() {
    let b: ScpiBoolean = true.into();
    assert!(b.value());
    let v: bool = ScpiBoolean::new(false).into();
    assert!(!v);
}

#[test]
fn boolean_from_lowered_text() {
    assert!(ScpiBoolean::from_lowercase("on", "ON").unwrap().value());
    assert!(!ScpiBoolean::from_lowercase("0", "0").unwrap().value());
    match ScpiBoolean::from_lowercase("nope", "NoPe") {
        Err(Error::CodecError(m)) => assert_eq!(m, "Invalid boolean value: \"NoPe\""),
        other => panic!("unexpected {:?}", other.map(|b| b.value())),
    }
}

#[test]
fn boolean_from_map_lookup() {
    assert!(ScpiBoolean::from_mapped_value(Some(true), "X").unwrap().value());
    match ScpiBoolean::from_mapped_value(None, "X") {
        Err(Error::CodecError(m)) => assert_eq!(m, "value not mapped 'X'"),
        other => panic!("unexpected {:?}", other.map(|b| b.value())),
    }
}
