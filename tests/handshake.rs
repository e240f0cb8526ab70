use socks5_gateway::session::{
    Address, CloseReason, ConnectRequest, Next, Phase, ProtocolError, Session, Step,
};
use socks5_gateway::wire::{
    decode_domain_field, encode_domain_field, method_selection_frame, port_from_be, port_to_be,
    reply, reply_code_for, select_method, ConnectFailure,
};

fn feed(session: &mut Session, data: &[u8]) -> Step {
    assert_eq!(session.wanted(), data.len());
    session.receive(data)
}

fn negotiated() -> Session {
    let mut s = Session::new();
    feed(&mut s, &[5, 1]);
    let step = feed(&mut s, &[0]);
    assert_eq!(step.send, vec![5, 0]);
    s
}

#[test]
fn greeting_with_no_auth_among_others_is_accepted() {
    let mut s = Session::new();
    assert_eq!(s.phase(), Phase::AwaitingGreeting);
    let step = feed(&mut s, &[5, 3]);
    assert!(step.send.is_empty());
    assert_eq!(step.next, Next::Read(3));
    let step = feed(&mut s, &[2, 0, 1]);
    assert_eq!(step.send, vec![0x05, 0x00]);
    assert_eq!(step.next, Next::Read(4));
    assert_eq!(s.phase(), Phase::AwaitingRequest);
}

#[test]
fn greeting_without_no_auth_gets_ff_and_closes() {
    let mut s = Session::new();
    feed(&mut s, &[5, 2]);
    let step = feed(&mut s, &[1, 2]);
    assert_eq!(step.send, vec![0x05, 0xFF]);
    assert_eq!(
        step.next,
        Next::Close(CloseReason::Protocol(ProtocolError::NoAcceptableMethod))
    );
    assert_eq!(s.phase(), Phase::Closed);
}

#[test]
fn greeting_with_no_methods_gets_ff() {
    let mut s = Session::new();
    let step = feed(&mut s, &[5, 0]);
    assert_eq!(step.next, Next::Read(0));
    let step = feed(&mut s, &[]);
    assert_eq!(step.send, vec![0x05, 0xFF]);
    assert_eq!(s.phase(), Phase::Closed);
}

#[test]
fn greeting_with_wrong_version_closes_silently() {
    let mut s = Session::new();
    let step = feed(&mut s, &[4, 1]);
    assert!(step.send.is_empty());
    assert_eq!(
        step.next,
        Next::Close(CloseReason::Protocol(ProtocolError::UnsupportedVersion(4)))
    );
    assert_eq!(s.phase(), Phase::Closed);
    assert_eq!(s.wanted(), 0);
}

#[test]
fn request_with_wrong_version_closes_silently() {
    let mut s = negotiated();
    let step = feed(&mut s, &[4, 1, 0, 1]);
    assert!(step.send.is_empty());
    assert_eq!(
        step.next,
        Next::Close(CloseReason::Protocol(ProtocolError::UnsupportedVersion(4)))
    );
}

#[test]
fn bind_and_udp_associate_get_reply_seven() {
    for cmd in [2u8, 3, 0, 0xFF] {
        let mut s = negotiated();
        let step = feed(&mut s, &[5, cmd, 0, 1]);
        assert_eq!(step.send, vec![5, 7, 0, 1, 0, 0, 0, 0, 0, 0]);
        assert_eq!(
            step.next,
            Next::Close(CloseReason::Protocol(ProtocolError::CommandNotSupported(cmd)))
        );
        assert_eq!(s.phase(), Phase::Closed);
    }
}

#[test]
fn ipv6_and_unknown_address_types_get_reply_eight() {
    for atyp in [4u8, 0, 2, 9] {
        let mut s = negotiated();
        let step = feed(&mut s, &[5, 1, 0, atyp]);
        assert_eq!(step.send, vec![5, 8, 0, 1, 0, 0, 0, 0, 0, 0]);
        assert_eq!(
            step.next,
            Next::Close(CloseReason::Protocol(ProtocolError::AddressTypeNotSupported(atyp)))
        );
    }
}

#[test]
fn ipv4_request_asks_to_connect() {
    let mut s = negotiated();
    let step = feed(&mut s, &[5, 1, 0, 1]);
    assert_eq!(step.next, Next::Read(6));
    let step = feed(&mut s, &[127, 0, 0, 1, 0x1F, 0x90]);
    assert!(step.send.is_empty());
    assert_eq!(
        step.next,
        Next::Connect(ConnectRequest { address: Address::Ipv4([127, 0, 0, 1]), port: 8080 })
    );
    assert_eq!(s.phase(), Phase::Connecting);
}

#[test]
fn domain_request_asks_to_connect() {
    let mut s = negotiated();
    let step = feed(&mut s, &[5, 1, 0, 3]);
    assert_eq!(step.next, Next::Read(1));
    let step = feed(&mut s, &[11]);
    assert_eq!(step.next, Next::Read(13));
    let mut rest = b"example.com".to_vec();
    rest.extend_from_slice(&[0x00, 0x50]);
    let step = feed(&mut s, &rest);
    assert_eq!(
        step.next,
        Next::Connect(ConnectRequest {
            address: Address::Domain(b"example.com".to_vec()),
            port: 80
        })
    );
}

#[test]
fn empty_domain_gets_general_failure() {
    let mut s = negotiated();
    feed(&mut s, &[5, 1, 0, 3]);
    let step = feed(&mut s, &[0]);
    assert_eq!(step.send, vec![5, 1, 0, 1, 0, 0, 0, 0, 0, 0]);
    assert_eq!(
        step.next,
        Next::Close(CloseReason::Protocol(ProtocolError::EmptyDomainName))
    );
}

fn connecting() -> Session {
    let mut s = negotiated();
    feed(&mut s, &[5, 1, 0, 1]);
    feed(&mut s, &[10, 0, 0, 1, 0, 80]);
    s
}

#[test]
fn successful_connect_replies_zero_and_relays() {
    let mut s = connecting();
    let step = s.connected(Ok(()));
    assert_eq!(step.send, vec![5, 0, 0, 1, 0, 0, 0, 0, 0, 0]);
    assert_eq!(step.next, Next::Relay);
    assert_eq!(s.phase(), Phase::Relaying);
    s.close();
    assert_eq!(s.phase(), Phase::Closed);
}

#[test]
fn refused_connect_replies_five() {
    let mut s = connecting();
    let step = s.connected(Err(ConnectFailure::Refused));
    assert_eq!(step.send, vec![5, 5, 0, 1, 0, 0, 0, 0, 0, 0]);
    assert_eq!(
        step.next,
        Next::Close(CloseReason::Network(ConnectFailure::Refused))
    );
    assert_eq!(s.phase(), Phase::Closed);
}

#[test]
fn unresolvable_domain_replies_four() {
    let mut s = connecting();
    let step = s.connected(Err(ConnectFailure::Unreachable));
    assert_eq!(step.send[1], 4);
    assert_eq!(s.phase(), Phase::Closed);
    let mut s = connecting();
    let step = s.connected(Err(ConnectFailure::TimedOut));
    assert_eq!(step.send[1], 4);
    let mut s = connecting();
    let step = s.connected(Err(ConnectFailure::Other));
    assert_eq!(step.send[1], 1);
}

#[test]
fn failure_codes() {
    assert_eq!(reply_code_for(ConnectFailure::Refused), 0x05);
    assert_eq!(reply_code_for(ConnectFailure::Unreachable), 0x04);
    assert_eq!(reply_code_for(ConnectFailure::TimedOut), 0x04);
    assert_eq!(reply_code_for(ConnectFailure::Other), 0x01);
}

#[test]
fn select_method_finds_no_auth_anywhere() {
    assert_eq!(select_method(&[0]), 0);
    assert_eq!(select_method(&[1, 2, 0]), 0);
    assert_eq!(select_method(&[1, 2]), 0xFF);
    assert_eq!(select_method(&[]), 0xFF);
    let all: Vec<u8> = (1..=255).collect();
    assert_eq!(select_method(&all), 0xFF);
}

#[test]
fn frames_have_exact_bytes() {
    assert_eq!(method_selection_frame(0), vec![5, 0]);
    assert_eq!(method_selection_frame(0xFF), vec![5, 0xFF]);
    assert_eq!(reply(0), vec![5, 0, 0, 1, 0, 0, 0, 0, 0, 0]);
    assert_eq!(reply(8), vec![5, 8, 0, 1, 0, 0, 0, 0, 0, 0]);
}

#[test]
fn ports_are_big_endian() {
    assert_eq!(port_from_be(0x1F, 0x90), 8080);
    assert_eq!(port_from_be(0, 0), 0);
    assert_eq!(port_from_be(0xFF, 0xFF), 65535);
    assert_eq!(port_to_be(443), (0x01, 0xBB));
    assert_eq!(port_to_be(65535), (0xFF, 0xFF));
}

#[test]
fn domain_field_round_trips_for_every_length() {
    for len in 1usize..=255 {
        let name: Vec<u8> = (0..len).map(|i| b'a' + (i % 26) as u8).collect();
        let port = (len as u16) * 257;
        let field = encode_domain_field(&name, port);
        assert_eq!(field.len(), len + 3);
        assert_eq!(field[0] as usize, len);
        assert_eq!(decode_domain_field(&field), Some((name, port)));
    }
}

#[test]
fn malformed_domain_fields_do_not_decode() {
    assert_eq!(decode_domain_field(&[]), None);
    assert_eq!(decode_domain_field(&[0, 0, 80]), None);
    assert_eq!(decode_domain_field(&[2, b'a', 0, 80]), None);
    assert_eq!(decode_domain_field(&[1, b'a', 0, 80, 7]), None);
    assert_eq!(decode_domain_field(&[1, b'a', 0, 80]), Some((b"a".to_vec(), 80)));
}
