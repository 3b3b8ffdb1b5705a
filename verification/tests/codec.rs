use socks5_relay::data::{AddressType, AuthMethod, Command, CommandReply};

#[test]
fn auth_method_round_trip_all_bytes() {
    for value in 0..=255u8 {
        let decoded = AuthMethod::from_byte(value);
        assert_eq!(decoded.to_byte(), value);
    }
}

#[test]
fn command_round_trip_all_bytes() {
    for value in 0..=255u8 {
        let decoded = Command::from_byte(value);
        assert_eq!(decoded.to_byte(), value);
    }
}

#[test]
fn address_type_round_trip_all_bytes() {
    for value in 0..=255u8 {
        let decoded = AddressType::from_byte(value);
        assert_eq!(decoded.to_byte(), value);
    }
}

#[test]
fn command_reply_round_trip_all_bytes() {
    for value in 0..=255u8 {
        let decoded = CommandReply::from_byte(value);
        assert_eq!(decoded.to_byte(), value);
    }
}

#[test]
fn auth_method_ranges() {
    assert_eq!(AuthMethod::from_byte(0x00), AuthMethod::NoAuthenticationRequired);
    assert_eq!(AuthMethod::from_byte(0x01), AuthMethod::GssApi);
    assert_eq!(AuthMethod::from_byte(0x02), AuthMethod::UsernamePassword);
    assert_eq!(AuthMethod::from_byte(0x03), AuthMethod::IanaAssigned { method: 0x03 });
    assert_eq!(AuthMethod::from_byte(0x7f), AuthMethod::IanaAssigned { method: 0x7f });
    assert_eq!(AuthMethod::from_byte(0x80), AuthMethod::PrivateMethod { method: 0x80 });
    assert_eq!(AuthMethod::from_byte(0xfe), AuthMethod::PrivateMethod { method: 0xfe });
    assert_eq!(AuthMethod::from_byte(0xff), AuthMethod::NoAcceptableMethods);
}

#[test]
fn command_ranges() {
    assert_eq!(Command::from_byte(0x01), Command::Connect);
    assert_eq!(Command::from_byte(0x02), Command::Bind);
    assert_eq!(Command::from_byte(0x03), Command::UdpAssociate);
    assert_eq!(Command::from_byte(0x00), Command::Invalid { value: 0x00 });
    assert_eq!(Command::from_byte(0x04), Command::Invalid { value: 0x04 });
}

#[test]
fn address_type_ranges() {
    assert_eq!(AddressType::from_byte(0x01), AddressType::IpV4Address);
    assert_eq!(AddressType::from_byte(0x03), AddressType::DomainName);
    assert_eq!(AddressType::from_byte(0x04), AddressType::IpV6Address);
    assert_eq!(AddressType::from_byte(0x02), AddressType::Invalid { value: 0x02 });
    assert_eq!(AddressType::from_byte(0x05), AddressType::Invalid { value: 0x05 });
}

#[test]
fn command_reply_ranges() {
    assert_eq!(CommandReply::from_byte(0x00), CommandReply::Success);
    assert_eq!(CommandReply::from_byte(0x01), CommandReply::ServerFailure);
    assert_eq!(CommandReply::from_byte(0x02), CommandReply::ConnectionNotAllowed);
    assert_eq!(CommandReply::from_byte(0x03), CommandReply::NetworkUnreachable);
    assert_eq!(CommandReply::from_byte(0x04), CommandReply::HostUnreachable);
    assert_eq!(CommandReply::from_byte(0x05), CommandReply::ConnectionRefused);
    assert_eq!(CommandReply::from_byte(0x06), CommandReply::TtlExpired);
    assert_eq!(CommandReply::from_byte(0x07), CommandReply::CommandNotSupported);
    assert_eq!(CommandReply::from_byte(0x08), CommandReply::AddressTypeNotSupported);
    assert_eq!(CommandReply::from_byte(0x09), CommandReply::Unknown { value: 0x09 });
    assert_eq!(CommandReply::from_byte(0xff), CommandReply::Unknown { value: 0xff });
}
