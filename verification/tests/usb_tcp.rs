use panduza_platform_core::interface::tcp::tcp_settings::Settings as TcpSettings;
use panduza_platform_core::interface::usb::settings::{device_matches, Settings};
use panduza_platform_core::interface::usb::tmc::{
    find_endpoint_in_config, find_endpoint_out_config, parse_bulk_in_header,
    prepare_bulk_in_request_message, prepare_first_bulk_out_request_message, BulkInReassembly,
    EndpointDirection, EndpointInfo, EndpointKind, TmcFraming,
};
use panduza_platform_core::Error;
use serde_json::Value;

fn json(text: &str) -> Value {
    serde_json::from_str(text).unwrap()
}

#[test]
fn usb_settings_builders() {
    let s = Settings::new().set_vendor(0x1234).set_model(0xabcd);
    assert_eq!(s.vid, Some(0x1234));
    assert_eq!(s.pid, Some(0xabcd));
    assert_eq!(s.serial, None);
}

#[test]
fn usb_serial_from_settings() {
    let s = Settings::new()
        .set_serial_from_json_settings(&json("{\"usb_serial\": \"SN42\"}"))
        .unwrap();
    assert_eq!(s.serial, Some("SN42".to_string()));
    match Settings::new().set_serial_from_json_settings(&json("{}")) {
        Err(Error::BadSettings(m)) => assert_eq!(m, "Unable to get \"usb_serial\""),
        other => panic!("unexpected {:?}", other),
    }
    match Settings::new().set_serial_from_json_settings(&json("{\"usb_serial\": 3}")) {
        Err(Error::BadSettings(m)) => assert_eq!(m, "\"usb_serial\" not a string"),
        other => panic!("unexpected {:?}", other),
    }
}

#[test]
fn usb_serial_with_default() {
    let s = Settings::new().set_serial_from_json_settings_or(&json("{\"usb_serial\": 5}"), "dflt");
    assert_eq!(s.serial, Some("dflt".to_string()));
    let s = Settings::new().set_serial_from_json_settings_or(&json("{\"usb_serial\": \"x\"}"), "d");
    assert_eq!(s.serial, Some("x".to_string()));
}

#[test]
fn usb_optional_settings() {
    let s = Settings::new()
        .set_vendor(1)
        .set_model(2)
        .optional_set_serial_from_json_settings(&json("{\"usb_pid\": 70000, \"usb_serial\": 1}"));
    assert_eq!(s.vid, Some(1));
    assert_eq!(s.pid, Some(70000u32 as u16));
    assert_eq!(s.serial, None);
}

#[test]
fn usb_from_json_settings() {
    let s = Settings::from_json_settings(&json(
        "{\"usb_vid\": 4660, \"usb_pid\": 43981, \"usb_serial\": \"abc\"}",
    ));
    assert_eq!(s.vid, Some(0x1234));
    assert_eq!(s.pid, Some(0xabcd));
    assert_eq!(s.serial, Some("abc".to_string()));
    let s = Settings::from_json_settings(&json("[1, 2]"));
    assert_eq!((s.vid, s.pid, s.serial), (None, None, None));
}

#[test]
fn usb_device_selection() {
    assert!(device_matches(None, None, 1, 2));
    assert!(!device_matches(Some(3), None, 1, 2));
    let s = Settings::new().set_vendor(0x10);
    let devices = [(0x10, 1), (0x20, 2), (0x10, 3), (0x30, 4)];
    assert_eq!(s.select_device(&devices), Some(2));
    assert_eq!(Settings::new().set_vendor(0x99).select_device(&devices), None);
    assert_eq!(Settings::new().select_device(&devices), Some(3));
}

#[test]
fn usb_settings_display() {
    let s = Settings::new().set_vendor(0x1a2b).set_model(0x3c);
    assert_eq!(s.to_string(), "Settings { vendor: 0x1a2b, model: 0x3c, serial: None }");
    let s = Settings {
        vid: None,
        pid: None,
        serial: Some("a\"b".to_string()),
    };
    assert_eq!(s.to_string(), "Settings { vendor: 0x0, model: 0x0, serial: Some(\"a\\\"b\") }");
}

#[test]
fn tcp_settings_builders() {
    let s = TcpSettings::new().set_IP("10.0.0.2".to_string()).set_Port(5025);
    assert_eq!(s.ip, Some("10.0.0.2".to_string()));
    assert_eq!(s.port, Some(5025));
}

#[test]
fn tcp_settings_documented_keys() {
    let s = TcpSettings::new()
        .set_ethernet_settings_from_json_settings(&json("{\"IP\": \"192.168.1.10\", \"Port\": 5025}"))
        .unwrap();
    assert_eq!(s.ip, Some("192.168.1.10".to_string()));
    assert_eq!(s.port, Some(5025));
    match TcpSettings::new().set_ethernet_settings_from_json_settings(&json("{\"IP\": \"h\", \"port\": 80}")) {
        Err(Error::BadSettings(m)) => assert_eq!(m, "Missing field 'port'"),
        _ => panic!("lower-case key accepted"),
    }
}

#[test]
fn tcp_settings_from_json() {
    let s = TcpSettings::new()
        .set_ethernet_settings_from_json_settings(&json("{\"IP\": \"192.168.1.5\", \"Port\": 80}"))
        .unwrap();
    assert_eq!(s.ip, Some("192.168.1.5".to_string()));
    assert_eq!(s.port, Some(80));
    let cases = [
        ("{\"Port\": 80}", "Missing field 'ip'"),
        ("{\"IP\": 1, \"Port\": 80}", "'ip' must be a string"),
        ("{\"IP\": \"h\"}", "Missing field 'port'"),
        ("{\"IP\": \"h\", \"Port\": \"80\"}", "'port' must be a number"),
        ("{\"IP\": \"h\", \"Port\": 70000}", "'port' must be a number"),
    ];
    for (text, message) in cases {
        match TcpSettings::new().set_ethernet_settings_from_json_settings(&json(text)) {
            Err(Error::BadSettings(m)) => assert_eq!(m, message),
            _ => panic!("no error for {}", text),
        }
    }
}

#[test]
fn tmc_first_message_with_padding() {
    let mut buffer = (0usize, vec![0xaau8; 64]);
    prepare_first_bulk_out_request_message(&mut buffer, 7, b"*IDN?");
    assert_eq!(buffer.0, 20);
    assert_eq!(
        &buffer.1[..20],
        &[1, 7, 0xf8, 0, 5, 0, 0, 0, 1, 0, 0, 0, b'*', b'I', b'D', b'N', b'?', 0, 0, 0]
    );
}

#[test]
fn tmc_first_message_cut() {
    let mut buffer = (0usize, vec![0u8; 16]);
    prepare_first_bulk_out_request_message(&mut buffer, 1, b"ABCDEFGH");
    assert_eq!(buffer.0, 16);
    assert_eq!(buffer.1, vec![1, 1, 0xfe, 0, 8, 0, 0, 0, 0, 0, 0, 0, b'A', b'B', b'C', b'D']);
}

#[test]
fn tmc_bulk_in_request() {
    let mut buffer = (0usize, vec![0u8; 16]);
    prepare_bulk_in_request_message(&mut buffer, 3);
    assert_eq!(buffer.0, 12);
    assert_eq!(&buffer.1[..12], &[2, 3, 0xfc, 0, 0x00, 0xc8, 0, 0, 0, 0, 0, 0]);
    assert_eq!(parse_bulk_in_header(&vec![2, 3, 0xfc, 0, 0x10, 0x01, 0, 0]).unwrap(), 0x110);
}

#[test]
fn tmc_b_tag_cycles() {
    let mut f = TmcFraming::new(64);
    assert_eq!(f.next_b_tag(), 1);
    f.b_tag_index = 255;
    assert_eq!(f.next_b_tag(), 1);
    f.prepare_request_sequence(b"MEAS?");
    assert_eq!(f.out_buffers_count, 2);
    assert_eq!(f.out_buffers[0].1[1], 2);
    assert_eq!(f.out_buffers[1].0, 12);
}

#[test]
fn tmc_answer_reassembly() {
    let mut r = BulkInReassembly::new();
    let mut response = Vec::new();
    let mut first = vec![2, 1, 0xfe, 0, 6, 0, 0, 0, 1, 0, 0, 0];
    first.extend_from_slice(b"abcd");
    r.absorb_packet(&first, &mut response);
    assert!(!r.is_eom);
    assert_eq!(r.remaining_data, 2);
    r.absorb_packet(b"efXYZ", &mut response);
    assert!(r.is_eom);
    assert_eq!(response, b"abcdef".to_vec());
}

#[test]
fn tmc_endpoints() {
    let endpoints = [
        EndpointInfo { address: 0x83, direction: EndpointDirection::In, transfer_type: EndpointKind::Interrupt, max_packet_size: 8 },
        EndpointInfo { address: 0x02, direction: EndpointDirection::Out, transfer_type: EndpointKind::Bulk, max_packet_size: 512 },
        EndpointInfo { address: 0x81, direction: EndpointDirection::In, transfer_type: EndpointKind::Bulk, max_packet_size: 64 },
    ];
    assert_eq!(find_endpoint_in_config(&endpoints).unwrap(), (0x81, 64));
    assert_eq!(find_endpoint_out_config(&endpoints).unwrap(), (0x02, 512));
    match find_endpoint_out_config(&endpoints[2..]) {
        Err(Error::DriverError(m)) => {
            assert_eq!(m, "Unable to find the OUT endpoint in the USB device configuration")
        }
        other => panic!("unexpected {:?}", other),
    }
    match find_endpoint_in_config(&[]) {
        Err(Error::DriverError(m)) => {
            assert_eq!(m, "Unable to find the IN endpoint in the USB device configuration")
        }
        other => panic!("unexpected {:?}", other),
    }
}
