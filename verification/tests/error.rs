use panduza_platform_core::Error;

#[test]
fn tftp_error_is_a_driver_error() {
    let e: Error = async_tftp::Error::InvalidPacket.into();
    match e {
        Error::DriverError(m) => assert_eq!(m, "Erreur TFTP : Invalid packet"),
        other => panic!("unexpected {:?}", other),
    }
}

#[test]
fn error_messages() {
    assert_eq!(Error::BadSettings("x".to_string()).message(), "One of the provided settings is wrong");
    assert_eq!(Error::Wtf.message(), "We just don't know what happened");
    let e = Error::PublishError {
        topic: "a/b".to_string(),
        pyl_size: 12,
        cause: "down".to_string(),
    };
    assert_eq!(
        e.message(),
        "Cannot publish message (12 bytes) on topic \"a/b\" because \"down\""
    );
}
