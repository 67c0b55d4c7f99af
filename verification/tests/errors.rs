use netstack_lwip::{Error, IoError, IoErrorKind};

#[test]
fn lwip_error_text_carries_the_code() {
    assert_eq!(Error::LwIP(-11).to_string(), "LwIP error (-11)");
    assert_eq!(Error::LwIP(0).to_string(), "LwIP error (0)");
    assert_eq!(Error::LwIP(7).to_string(), "LwIP error (7)");
    assert_eq!(Error::LwIP(42).to_string(), "LwIP error (42)");
    assert_eq!(Error::LwIP(127).to_string(), "LwIP error (127)");
    assert_eq!(Error::LwIP(-128).to_string(), "LwIP error (-128)");
    assert_eq!(Error::LwIP(-100).to_string(), "LwIP error (-100)");
    assert_eq!(Error::LwIP(-9).to_string(), "LwIP error (-9)");
    assert_eq!(Error::LwIP(-16).code(), -16);
}

#[test]
fn io_error_texts() {
    assert_eq!(IoError::InputFnNotSet.to_string(), "input fn not set");
    assert_eq!(IoError::Input(-6).to_string(), "input error: -6");
    assert_eq!(IoError::Input(105).to_string(), "input error: 105");
    assert_eq!(IoError::UdpSendto(-4).to_string(), "udp_sendto error: -4");
    assert_eq!(IoError::UdpSendto(-16).to_string(), "udp_sendto error: -16");
}

#[test]
fn io_error_kinds() {
    assert_eq!(IoError::InputFnNotSet.kind(), IoErrorKind::Interrupted);
    assert_eq!(IoError::Input(-6).kind(), IoErrorKind::Interrupted);
    assert_eq!(IoError::UdpSendto(-4).kind(), IoErrorKind::Other);
}
