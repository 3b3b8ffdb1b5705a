use socks5_relay::address::{IpAddress, SockAddress};
use socks5_relay::data::{AddressType, AuthMethod, Command, CommandReply};
use socks5_relay::request::{
    AuthMethodsRequest, CommandRequest, GreetingReader, RequestError, RequestNeed, RequestReader,
};
use socks5_relay::session::{dispatch_command, select_auth_method, CommandDispatch};

fn feed_greeting(reader: &mut GreetingReader, bytes: &[u8]) {
    let chunk: Vec<u8> = bytes.to_vec();
    assert_eq!(reader.needed(), chunk.len());
    reader.feed(&chunk);
}

#[test]
fn greeting_with_no_auth_selects_no_auth() {
    let mut reader = GreetingReader::new();
    feed_greeting(&mut reader, &[0x05, 0x01]);
    feed_greeting(&mut reader, &[0x00]);
    let request = reader.take();
    assert_eq!(request.version(), 0x05);
    assert_eq!(request.methods(), &vec![AuthMethod::NoAuthenticationRequired]);
    let response = select_auth_method(&request).expect("no-auth must be selected");
    assert_eq!(response.version, 0x05);
    assert_eq!(response.method, AuthMethod::NoAuthenticationRequired);
    assert_eq!(response.encode(), vec![0x05, 0x00]);
}

#[test]
fn greeting_without_no_auth_terminates_silently() {
    let mut reader = GreetingReader::new();
    feed_greeting(&mut reader, &[0x05, 0x01]);
    feed_greeting(&mut reader, &[0x02]);
    let request = reader.take();
    assert_eq!(request.methods(), &vec![AuthMethod::UsernamePassword]);
    assert!(select_auth_method(&request).is_none());
}

#[test]
fn greeting_with_several_methods() {
    let mut reader = GreetingReader::new();
    feed_greeting(&mut reader, &[0x05, 0x03]);
    feed_greeting(&mut reader, &[0x02, 0x00, 0x80]);
    let request = reader.take();
    assert!(request.offers_no_auth());
    assert!(select_auth_method(&request).is_some());
}

#[test]
fn greeting_with_no_methods_at_all() {
    let mut reader = GreetingReader::new();
    feed_greeting(&mut reader, &[0x05, 0x00]);
    feed_greeting(&mut reader, &[]);
    let request = reader.take();
    assert!(!request.offers_no_auth());
    assert!(select_auth_method(&request).is_none());
}

fn feed_request(reader: &mut RequestReader, bytes: &[u8]) -> Result<(), RequestError> {
    let chunk: Vec<u8> = bytes.to_vec();
    assert_eq!(reader.needed(), RequestNeed::Bytes { count: chunk.len() });
    reader.feed(&chunk)
}

#[test]
fn connect_to_ipv4_parses_destination() {
    let mut reader = RequestReader::new();
    feed_request(&mut reader, &[0x05, 0x01, 0x00, 0x01]).unwrap();
    feed_request(&mut reader, &[0x7f, 0x00, 0x00, 0x01]).unwrap();
    feed_request(&mut reader, &[0x27, 0x0f]).unwrap();
    assert_eq!(reader.needed(), RequestNeed::Complete);
    let request = reader.take();
    assert_eq!(request.version(), 0x05);
    assert_eq!(request.command(), Command::Connect);
    assert_eq!(request.address_type(), AddressType::IpV4Address);
    assert_eq!(
        request.destination(),
        Some(SockAddress { ip: IpAddress::V4 { octets: [127, 0, 0, 1] }, port: 9999 })
    );
}

#[test]
fn connect_to_ipv6_parses_destination() {
    let mut reader = RequestReader::new();
    feed_request(&mut reader, &[0x05, 0x01, 0x00, 0x04]).unwrap();
    let mut octets = [0u8; 16];
    octets[15] = 1;
    feed_request(&mut reader, &octets).unwrap();
    feed_request(&mut reader, &[0x00, 0x50]).unwrap();
    let request = reader.take();
    assert_eq!(
        request.destination(),
        Some(SockAddress { ip: IpAddress::V6 { octets }, port: 80 })
    );
}

#[test]
fn invalid_address_type_fails_before_any_body_read() {
    let mut reader = RequestReader::new();
    let result = feed_request(&mut reader, &[0x05, 0x01, 0x00, 0x02]);
    assert_eq!(result, Err(RequestError::UnsupportedAddressType { value: 0x02 }));
    // the reader never asks for an address body after the failure
    assert_eq!(reader.needed(), RequestNeed::Failed);
}

#[test]
fn domain_name_waits_for_resolution_and_takes_first_address() {
    let mut reader = RequestReader::new();
    feed_request(&mut reader, &[0x05, 0x01, 0x00, 0x03]).unwrap();
    feed_request(&mut reader, &[11]).unwrap();
    feed_request(&mut reader, b"example.com").unwrap();
    feed_request(&mut reader, &[0x00, 0x50]).unwrap();
    assert_eq!(reader.needed(), RequestNeed::Resolve);
    assert_eq!(reader.host_to_resolve().as_str(), "example.com");
    let first = IpAddress::V4 { octets: [93, 184, 216, 34] };
    let second = IpAddress::V4 { octets: [10, 0, 0, 1] };
    reader.feed_resolved(&vec![first, second]);
    let request = reader.take();
    assert_eq!(request.destination(), Some(SockAddress { ip: first, port: 80 }));
}

#[test]
fn unresolved_domain_yields_empty_destination() {
    let mut reader = RequestReader::new();
    feed_request(&mut reader, &[0x05, 0x01, 0x00, 0x03]).unwrap();
    feed_request(&mut reader, &[4]).unwrap();
    feed_request(&mut reader, b"none").unwrap();
    feed_request(&mut reader, &[0x1f, 0x90]).unwrap();
    reader.feed_resolved(&Vec::new());
    let request = reader.take();
    assert_eq!(request.destination(), None);
    match dispatch_command(&request) {
        CommandDispatch::Reject { reply } => {
            assert_eq!(reply.reply, CommandReply::HostUnreachable);
        },
        CommandDispatch::Connect { .. } => panic!("an unresolved host must be rejected"),
    }
}

#[test]
fn invalid_domain_bytes_fail_with_decode_error() {
    let mut reader = RequestReader::new();
    feed_request(&mut reader, &[0x05, 0x01, 0x00, 0x03]).unwrap();
    feed_request(&mut reader, &[2]).unwrap();
    let result = feed_request(&mut reader, &[0xff, 0xfe]);
    assert_eq!(result, Err(RequestError::InvalidDomainEncoding));
    assert_eq!(reader.needed(), RequestNeed::Failed);
}

#[test]
fn empty_domain_name_is_accepted_but_unresolvable() {
    let mut reader = RequestReader::new();
    feed_request(&mut reader, &[0x05, 0x01, 0x00, 0x03]).unwrap();
    feed_request(&mut reader, &[0]).unwrap();
    feed_request(&mut reader, &[]).unwrap();
    feed_request(&mut reader, &[0x00, 0x19]).unwrap();
    assert_eq!(reader.host_to_resolve().as_str(), "");
}

#[test]
fn non_connect_command_is_rejected_as_not_supported() {
    let mut reader = RequestReader::new();
    feed_request(&mut reader, &[0x05, 0x02, 0x00, 0x01]).unwrap();
    feed_request(&mut reader, &[10, 0, 0, 1]).unwrap();
    feed_request(&mut reader, &[0x00, 0x16]).unwrap();
    let request = reader.take();
    assert_eq!(request.command(), Command::Bind);
    match dispatch_command(&request) {
        CommandDispatch::Reject { reply } => {
            assert_eq!(reply.reply, CommandReply::CommandNotSupported);
            assert_eq!(reply.version, 0x05);
        },
        CommandDispatch::Connect { .. } => panic!("bind must not be dialled"),
    }
}

#[test]
fn connect_with_destination_is_dialled_and_confirmed() {
    let destination = SockAddress { ip: IpAddress::V4 { octets: [127, 0, 0, 1] }, port: 9999 };
    let request = CommandRequest {
        version: 0x05,
        command: Command::Connect,
        address_type: AddressType::IpV4Address,
        destination: Some(destination),
    };
    match dispatch_command(&request) {
        CommandDispatch::Connect { destination: dialled, reply } => {
            assert_eq!(dialled, destination);
            assert_eq!(reply.reply, CommandReply::Success);
            assert_eq!(reply.address, destination);
        },
        CommandDispatch::Reject { .. } => panic!("connect with a destination must be dialled"),
    }
}

#[test]
fn auth_methods_request_getters() {
    let request = AuthMethodsRequest {
        version: 5,
        methods: vec![AuthMethod::GssApi, AuthMethod::NoAcceptableMethods],
    };
    assert_eq!(request.version(), 5);
    assert_eq!(
        request.methods(),
        &vec![AuthMethod::GssApi, AuthMethod::NoAcceptableMethods]
    );
    assert!(!request.offers_no_auth());
}

#[test]
fn greeting_with_the_largest_method_list() {
    let mut reader = GreetingReader::new();
    feed_greeting(&mut reader, &[0x05, 0xff]);
    let mut methods = vec![0x03u8; 255];
    methods[254] = 0x00;
    feed_greeting(&mut reader, &methods);
    let request = reader.take();
    assert_eq!(request.methods().len(), 255);
    assert!(request.offers_no_auth());
}

#[test]
fn domain_name_of_the_largest_length() {
    let mut reader = RequestReader::new();
    feed_request(&mut reader, &[0x05, 0x01, 0x00, 0x03]).unwrap();
    feed_request(&mut reader, &[255]).unwrap();
    let name = vec![b'a'; 255];
    feed_request(&mut reader, &name).unwrap();
    feed_request(&mut reader, &[0x00, 0x50]).unwrap();
    assert_eq!(reader.host_to_resolve().len(), 255);
    assert!(reader.host_to_resolve().chars().all(|c| c == 'a'));
}
