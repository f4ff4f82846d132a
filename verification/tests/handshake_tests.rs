use tcp_over_quic::addr::TcpDestination;
use tcp_over_quic::handshake::{
    egress_on_dial, EgressDialReply, EgressHandshake, EgressHandshakeAction, IngressHandshake,
    IngressReplyAction, QuicReadEvent,
};
use tcp_over_quic::tlv::{
    new_error_tlv, new_tcp_connect, new_tcp_connect_ok, ERROR_TYPE_MALFORMED_TLV_RECV,
    ERROR_TYPE_NETWORK_FAILURE,
};

fn connect_bytes(dest: &TcpDestination) -> Vec<u8> {
    let mut buf: Vec<u8> = vec![0; 20];
    new_tcp_connect(&mut buf, dest).unwrap();
    buf
}

#[test]
fn ingress_bridges_on_ok_reply() {
    let mut buf: Vec<u8> = vec![0; 2];
    new_tcp_connect_ok(&mut buf).unwrap();
    let mut reader = IngressHandshake::new();
    let a = reader.on_reply(QuicReadEvent::Data(buf));
    match a {
        IngressReplyAction::StartBridging(surplus) => assert!(surplus.is_empty()),
        _ => panic!("expected bridging"),
    }
}

#[test]
fn ingress_hands_back_coalesced_payload() {
    // the reply and the first payload bytes arrive in one read
    let mut buf: Vec<u8> = vec![0; 2];
    new_tcp_connect_ok(&mut buf).unwrap();
    buf.extend_from_slice(b"PING");
    let mut reader = IngressHandshake::new();
    let a = reader.on_reply(QuicReadEvent::Data(buf));
    match a {
        IngressReplyAction::StartBridging(surplus) => assert_eq!(b"PING".to_vec(), surplus),
        _ => panic!("expected bridging"),
    }
}

#[test]
fn ingress_reads_split_reply() {
    let mut reader = IngressHandshake::new();
    let a = reader.on_reply(QuicReadEvent::Data(vec![1]));
    assert!(matches!(a, IngressReplyAction::NeedMore));
    let a = reader.on_reply(QuicReadEvent::Data(vec![2, b'H', b'I']));
    match a {
        IngressReplyAction::StartBridging(surplus) => assert_eq!(b"HI".to_vec(), surplus),
        _ => panic!("expected bridging"),
    }
}

#[test]
fn ingress_closes_on_error_reply() {
    let mut buf: Vec<u8> = vec![0; 4];
    new_error_tlv(&mut buf, ERROR_TYPE_NETWORK_FAILURE).unwrap();
    let mut reader = IngressHandshake::new();
    let a = reader.on_reply(QuicReadEvent::Data(buf));
    assert!(matches!(a, IngressReplyAction::CloseTcp));
}

#[test]
fn ingress_closes_on_eof_and_error() {
    let mut reader = IngressHandshake::new();
    assert!(matches!(
        reader.on_reply(QuicReadEvent::Finished),
        IngressReplyAction::CloseTcp
    ));
    let mut reader = IngressHandshake::new();
    assert!(matches!(
        reader.on_reply(QuicReadEvent::ReadError),
        IngressReplyAction::CloseTcp
    ));
    let mut reader = IngressHandshake::new();
    assert!(matches!(
        reader.on_reply(QuicReadEvent::Data(Vec::new())),
        IngressReplyAction::NeedMore
    ));
    // an incomplete reply followed by EOF is terminal
    let a = reader.on_reply(QuicReadEvent::Data(vec![1]));
    assert!(matches!(a, IngressReplyAction::NeedMore));
    assert!(matches!(
        reader.on_reply(QuicReadEvent::Finished),
        IngressReplyAction::CloseTcp
    ));
}

#[test]
fn egress_dials_parsed_destination() {
    let dest = TcpDestination::from_v4(10, 0, 0, 1, 8080);
    let mut reader = EgressHandshake::new();
    let a = reader.on_read(QuicReadEvent::Data(connect_bytes(&dest)));
    match a {
        EgressHandshakeAction::Dial(d, surplus) => {
            assert_eq!(8080, d.port());
            assert_eq!(dest.ip_octets(), d.ip_octets());
            assert!(surplus.is_empty());
        }
        _ => panic!("expected a dial"),
    }
}

#[test]
fn egress_reads_split_connect() {
    // the 20-byte message arrives in three fragments
    let dest = TcpDestination::from_v4(10, 0, 0, 1, 8080);
    let buf = connect_bytes(&dest);
    let mut reader = EgressHandshake::new();
    let a = reader.on_read(QuicReadEvent::Data(buf[..1].to_vec()));
    assert!(matches!(a, EgressHandshakeAction::NeedMore));
    let a = reader.on_read(QuicReadEvent::Data(buf[1..7].to_vec()));
    assert!(matches!(a, EgressHandshakeAction::NeedMore));
    let a = reader.on_read(QuicReadEvent::Data(buf[7..].to_vec()));
    match a {
        EgressHandshakeAction::Dial(d, surplus) => {
            assert_eq!(8080, d.port());
            assert_eq!(dest.ip_octets(), d.ip_octets());
            assert!(surplus.is_empty());
        }
        _ => panic!("expected a dial"),
    }
}

#[test]
fn egress_hands_back_coalesced_payload() {
    let dest = TcpDestination::from_v4(10, 0, 0, 1, 8080);
    let mut buf = connect_bytes(&dest);
    buf.extend_from_slice(b"HELLO");
    let mut reader = EgressHandshake::new();
    let a = reader.on_read(QuicReadEvent::Data(buf));
    match a {
        EgressHandshakeAction::Dial(_, surplus) => assert_eq!(b"HELLO".to_vec(), surplus),
        _ => panic!("expected a dial"),
    }
}

#[test]
fn egress_rejects_malformed_first_message() {
    // a wrong type byte is malformed at once, before 20 bytes are in
    let mut reader = EgressHandshake::new();
    let a = reader.on_read(QuicReadEvent::Data(vec![9]));
    match a {
        EgressHandshakeAction::SendError(code) => {
            assert_eq!(ERROR_TYPE_MALFORMED_TLV_RECV, code)
        }
        _ => panic!("expected an error reply"),
    }

    // a wrong length indicator likewise
    let mut reader = EgressHandshake::new();
    let a = reader.on_read(QuicReadEvent::Data(vec![0, 19]));
    assert!(matches!(a, EgressHandshakeAction::SendError(_)));
}

// EOF before a complete message is terminal, not malformed — also when a
// consistent fragment has already arrived.
#[test]
fn egress_eof_is_terminal_not_malformed() {
    let mut reader = EgressHandshake::new();
    let a = reader.on_read(QuicReadEvent::Finished);
    assert!(matches!(a, EgressHandshakeAction::Terminate));

    let mut reader = EgressHandshake::new();
    let a = reader.on_read(QuicReadEvent::ReadError);
    assert!(matches!(a, EgressHandshakeAction::Terminate));

    let mut reader = EgressHandshake::new();
    let a = reader.on_read(QuicReadEvent::Data(vec![0, 20, 0x1f]));
    assert!(matches!(a, EgressHandshakeAction::NeedMore));
    let a = reader.on_read(QuicReadEvent::Finished);
    assert!(matches!(a, EgressHandshakeAction::Terminate));
}

#[test]
fn egress_replies_ok_when_dial_succeeds() {
    assert_eq!(EgressDialReply::SendConnectOk, egress_on_dial(true));
}

// Destination unreachable: the dial fails and the egress answers
// ERROR(network-failure); the ingress then sees a non-OK reply and closes
// the client's TCP connection.
#[test]
fn egress_replies_network_failure_when_dial_fails() {
    assert_eq!(EgressDialReply::SendNetworkFailure, egress_on_dial(false));

    let mut reply: Vec<u8> = vec![0; 4];
    new_error_tlv(&mut reply, ERROR_TYPE_NETWORK_FAILURE).unwrap();
    let mut reader = IngressHandshake::new();
    assert!(matches!(
        reader.on_reply(QuicReadEvent::Data(reply)),
        IngressReplyAction::CloseTcp
    ));
}
