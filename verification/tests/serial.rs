use panduza_platform_core::interface::serial::eol::{append_eol, scan_received, strip_eol};
use panduza_platform_core::interface::serial::slip::{encode_command, SlipError, SlipReceiver};
use panduza_platform_core::interface::serial::time_lock::remaining_lock_time;
use panduza_platform_core::Error;

#[test]
fn test_slip_decode() {
    const SLIP_ENCODED: [u8; 8] = [0xc0, 0x01, 0x02, 0x03, 0x04, 0x05, 0xc0, 0x04];
    const DATA: [u8; 5] = [0x01, 0x02, 0x03, 0x04, 0x05];

    let mut output: [u8; 32] = [0; 32];
    let mut receiver = SlipReceiver::new();
    receiver.receive(&SLIP_ENCODED);
    let before = receiver.in_buf_size;

    let decoded = receiver.try_decode(&mut output).unwrap();

    let is_end_of_packet = decoded.is_some();
    let output_len = decoded.unwrap();
    let input_bytes_processed = before - receiver.in_buf_size;
    assert_eq!(7, input_bytes_processed);
    assert_eq!(&DATA, &output[..output_len]);
    assert_eq!(true, is_end_of_packet);
}

#[test]
fn slip_encode_frames_and_escapes() {
    let frame = encode_command(&[0x01, 0xc0, 0xdb, 0x02]).unwrap();
    assert_eq!(frame, vec![0xc0, 0x01, 0xdb, 0xdc, 0xdb, 0xdd, 0x02, 0xc0]);
}

#[test]
fn slip_encoded_command_is_decoded_back() {
    let command = vec![0x10, 0xc0, 0x20, 0xdb, 0x30];
    let frame = encode_command(&command).unwrap();
    let mut receiver = SlipReceiver::new();
    receiver.receive(&frame);
    let mut response = [0u8; 64];
    let n = receiver.try_decode(&mut response).unwrap().unwrap();
    assert_eq!(&response[..n], &command[..]);
    assert_eq!(receiver.in_buf_size, 0);
}

#[test]
fn slip_incomplete_packet_waits() {
    let mut receiver = SlipReceiver::new();
    receiver.receive(&[0xc0, 0x01, 0x02]);
    let mut response = [0u8; 16];
    assert_eq!(receiver.try_decode(&mut response).unwrap(), None);
    assert_eq!(receiver.in_buf_size, 3);
    assert_eq!(receiver.free_space(), 2048 - 3);
}

#[test]
fn slip_bad_header_is_an_error() {
    let mut receiver = SlipReceiver::new();
    receiver.receive(&[0x01, 0x02, 0xc0]);
    let mut response = [0u8; 16];
    match receiver.try_decode(&mut response) {
        Err(Error::DriverError(m)) => assert_eq!(m, "Unable to decode response: BadHeaderDecode"),
        other => panic!("unexpected {:?}", other),
    }
}

#[test]
fn slip_full_buffer_without_end_is_refused() {
    let command = vec![0x01u8; 1023];
    match encode_command(&command) {
        Err(Error::DriverError(m)) => {
            assert_eq!(m, "Unable to finsh command encoding: NoOutputSpaceForEndByte")
        }
        other => panic!("unexpected {:?}", other),
    }
}

#[test]
fn slip_too_long_command_is_cut() {
    let command = vec![0xc0u8; 600];
    let frame = encode_command(&command).unwrap();
    assert!(frame.len() <= 1024);
    assert_eq!(frame[0], 0xc0);
    assert_eq!(frame[frame.len() - 1], 0xc0);
    let body = &frame[1..frame.len() - 1];
    assert!(body.len() < 1200);
    assert!(body.chunks(2).all(|pair| pair == [0xdb, 0xdc]));
}

#[test]
fn eol_is_appended_and_stripped() {
    let framed = append_eol(b"*IDN?", &vec![b'\r', b'\n']);
    assert_eq!(framed, b"*IDN?\r\n".to_vec());
    assert_eq!(strip_eol(b"ok\r\nxx", 4, 2), b"ok".to_vec());
}

#[test]
fn eol_scan_finds_the_end() {
    let buffer = b"abc\r\nzz";
    assert_eq!(scan_received(buffer, 0, 3, b"\r\n"), (3, false));
    assert_eq!(scan_received(buffer, 3, 4, b"\r\n"), (5, true));
}

#[test]
fn time_lock_remaining() {
    assert_eq!(remaining_lock_time(3, 10), Some(7));
    assert_eq!(remaining_lock_time(10, 10), None);
    assert_eq!(remaining_lock_time(12, 10), None);
}

#[test]
fn slip_decode_outcomes() {
    let mut receiver = SlipReceiver::new();
    receiver.receive(&[0xc0, 1, 2, 0xc0, 0xc0]);
    assert_eq!(receiver.consume_decoded(Ok((4, 2, true))).unwrap(), Some(2));
    assert_eq!(receiver.in_buf_size, 1);
    assert_eq!(receiver.consume_decoded(Ok((1, 0, false))).unwrap(), None);
    assert_eq!(receiver.in_buf_size, 1);
    match receiver.consume_decoded(Err(SlipError::BadEscapeSequenceDecode)) {
        Err(Error::DriverError(m)) => {
            assert_eq!(m, "Unable to decode response: BadEscapeSequenceDecode")
        }
        other => panic!("unexpected {:?}", other),
    }
}
