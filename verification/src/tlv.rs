//! The TLV framing of the handshake.
//!
//! A minimal type-length-value framing carries control messages at the
//! beginning of each QUIC stream. All integers are big-endian. The message
//! forms are fixed: TCP-CONNECT (type 0, 20 bytes: port at [2..4], 16
//! address octets at [4..20]), TCP-CONNECT-OK (type 1, 2 bytes), ERROR
//! (type 2, 4 bytes: a `u16` code at [2..4]) and END (type 255, 2 bytes).

use vstd::prelude::*;

use crate::addr::TcpDestination;

verus! {

pub const TYPE_TCP_CONNECT: u8 = 0;

pub const TYPE_TCP_CONNECT_OK: u8 = 1;

pub const TYPE_ERROR: u8 = 2;

pub const TYPE_END: u8 = 255;

pub const ERROR_TYPE_PROTOCOL_VIOLATION: u16 = 0;

pub const ERROR_TYPE_ICMP_PKT_RECV: u16 = 1;

pub const ERROR_TYPE_MALFORMED_TLV_RECV: u16 = 2;

pub const ERROR_TYPE_NETWORK_FAILURE: u16 = 3;

/// Why an encoder or the decoder refused its input.
#[derive(Debug, Clone, Copy, PartialEq, Eq, Structural)]
pub enum TlvError {
    /// The buffer is shorter than the message to write.
    BufferTooSmall,
    /// The destination address is multicast.
    InvalidDestination,
    /// The buffer does not begin with a well-formed message of the
    /// expected type.
    MalformedTlv,
}

/// The 20 bytes of a TCP-CONNECT message for the given address octets and
/// port: type, length, the port big-endian, then the 16 address octets.
pub open spec fn connect_tlv_spec(ip: Seq<u8>, port: u16) -> Seq<u8> {
    seq![TYPE_TCP_CONNECT, 20u8, (port >> 8) as u8, (port & 0xff) as u8] + ip
}

/// The two bytes of a TCP-CONNECT-OK message.
pub open spec fn ok_tlv_spec() -> Seq<u8> {
    seq![TYPE_TCP_CONNECT_OK, 2u8]
}

/// The two bytes of an END message.
pub open spec fn end_tlv_spec() -> Seq<u8> {
    seq![TYPE_END, 2u8]
}

/// The four bytes of an ERROR message carrying the given code big-endian.
pub open spec fn error_tlv_spec(code: u16) -> Seq<u8> {
    seq![TYPE_ERROR, 4u8, (code >> 8) as u8, (code & 0xff) as u8]
}

/// Whether a buffer begins with a TCP-CONNECT-OK message.
pub open spec fn is_ok_spec(s: Seq<u8>) -> bool {
    s.len() >= 1 && s[0] == TYPE_TCP_CONNECT_OK
}

/// The error code carried by an ERROR message.
pub open spec fn error_code_spec(s: Seq<u8>) -> u16 {
    (((s[2] as u16) << 8) | (s[3] as u16)) as u16
}

/// What a buffer beginning with a TCP-CONNECT message represents: its 16
/// address octets and its port; `None` when the type byte or the length
/// indicator does not match or the buffer is too short to hold the message.
pub open spec fn parse_connect_spec(s: Seq<u8>) -> Option<(Seq<u8>, u16)> {
    if s.len() >= 20 && s[0] == TYPE_TCP_CONNECT && s[1] == 20u8 {
        Some((s.subrange(4, 20), (((s[2] as u16) << 8) | (s[3] as u16)) as u16))
    } else {
        None
    }
}

/// Write a TCP-CONNECT message for `addr` at the start of `buf`.
///
/// A multicast destination is refused with `InvalidDestination` and a
/// buffer shorter than 20 bytes with `BufferTooSmall`; in both cases the
/// buffer is left unchanged. On success the first 20 bytes hold the
/// message, the rest of the buffer keeps its contents, and the written
/// length 20 is returned.
pub fn new_tcp_connect(buf: &mut Vec<u8>, addr: &TcpDestination) -> (r: Result<usize, TlvError>)
    ensures
        final(buf)@.len() == old(buf)@.len(),
        match r {
            Ok(n) => {
                &&& n == 20
                &&& old(buf)@.len() >= 20
                &&& !addr.is_multicast_spec()
                &&& final(buf)@ == connect_tlv_spec(addr.ip_spec(), addr.port_spec()) + old(
                    buf,
                )@.skip(20)
            },
            Err(TlvError::InvalidDestination) => addr.is_multicast_spec() && final(buf)@ == old(
                buf,
            )@,
            Err(TlvError::BufferTooSmall) => {
                &&& !addr.is_multicast_spec()
                &&& old(buf)@.len() < 20
                &&& final(buf)@ == old(buf)@
            },
            Err(TlvError::MalformedTlv) => false,
        },
{
    if addr.is_multicast() {
        return Err(TlvError::InvalidDestination);
    }
    if buf.len() < 20 {
        return Err(TlvError::BufferTooSmall);
    }
    buf.set(0, TYPE_TCP_CONNECT);
    buf.set(1, 20u8);
    let port = addr.port();
    buf.set(2, (port >> 8) as u8);
    buf.set(3, (port & 0xff) as u8);
    let mut i: usize = 0;
    while i < 16
        invariant
            i <= 16,
            buf@.len() == old(buf)@.len(),
            old(buf)@.len() >= 20,
            buf@[0] == TYPE_TCP_CONNECT,
            buf@[1] == 20u8,
            buf@[2] == (addr.port_spec() >> 8) as u8,
            buf@[3] == (addr.port_spec() & 0xff) as u8,
            forall|j: int| 0 <= j < i ==> buf@[4 + j] == addr.ip_spec()[j],
            forall|k: int| 4 + i <= k < buf@.len() ==> buf@[k] == old(buf)@[k],
        decreases 16 - i,
    {
        buf.set(4 + i, addr.ip_octet(i));
        i += 1;
    }
    proof {
        use_type_invariant(addr);
        TcpDestination::lemma_wf_ip_len(*addr);
        let rhs = connect_tlv_spec(addr.ip_spec(), addr.port_spec()) + old(buf)@.skip(20);
        assert forall|k: int| 0 <= k < buf@.len() implies buf@[k] == rhs[k] by {
            if 4 <= k < 20 {
                assert(buf@[4 + (k - 4)] == addr.ip_spec()[k - 4]);
            }
        }
        assert(buf@ =~= rhs);
    }
    Ok(20)
}

/// Write a TCP-CONNECT-OK message at the start of `buf` and return its
/// length 2; a buffer shorter than 2 bytes is refused with
/// `BufferTooSmall` and left unchanged.
pub fn new_tcp_connect_ok(buf: &mut Vec<u8>) -> (r: Result<usize, TlvError>)
    ensures
        final(buf)@.len() == old(buf)@.len(),
        match r {
            Ok(n) => {
                &&& n == 2
                &&& old(buf)@.len() >= 2
                &&& final(buf)@ == ok_tlv_spec() + old(buf)@.skip(2)
            },
            Err(TlvError::BufferTooSmall) => old(buf)@.len() < 2 && final(buf)@ == old(buf)@,
            Err(_) => false,
        },
{
    if buf.len() < 2 {
        return Err(TlvError::BufferTooSmall);
    }
    buf.set(0, TYPE_TCP_CONNECT_OK);
    buf.set(1, 2u8);
    proof {
        assert(buf@ =~= ok_tlv_spec() + old(buf)@.skip(2));
    }
    Ok(2)
}

/// Write an END message at the start of `buf` and return its length 2; a
/// buffer shorter than 2 bytes is refused with `BufferTooSmall` and left
/// unchanged.
pub fn new_end_tlv(buf: &mut Vec<u8>) -> (r: Result<usize, TlvError>)
    ensures
        final(buf)@.len() == old(buf)@.len(),
        match r {
            Ok(n) => {
                &&& n == 2
                &&& old(buf)@.len() >= 2
                &&& final(buf)@ == end_tlv_spec() + old(buf)@.skip(2)
            },
            Err(TlvError::BufferTooSmall) => old(buf)@.len() < 2 && final(buf)@ == old(buf)@,
            Err(_) => false,
        },
{
    if buf.len() < 2 {
        return Err(TlvError::BufferTooSmall);
    }
    buf.set(0, TYPE_END);
    buf.set(1, 2u8);
    proof {
        assert(buf@ =~= end_tlv_spec() + old(buf)@.skip(2));
    }
    Ok(2)
}

/// Write an ERROR message carrying `code` at the start of `buf` and return
/// its length 4; a buffer shorter than 4 bytes is refused with
/// `BufferTooSmall` and left unchanged.
pub fn new_error_tlv(buf: &mut Vec<u8>, code: u16) -> (r: Result<usize, TlvError>)
    ensures
        final(buf)@.len() == old(buf)@.len(),
        match r {
            Ok(n) => {
                &&& n == 4
                &&& old(buf)@.len() >= 4
                &&& final(buf)@ == error_tlv_spec(code) + old(buf)@.skip(4)
            },
            Err(TlvError::BufferTooSmall) => old(buf)@.len() < 4 && final(buf)@ == old(buf)@,
            Err(_) => false,
        },
{
    if buf.len() < 4 {
        return Err(TlvError::BufferTooSmall);
    }
    buf.set(0, TYPE_ERROR);
    buf.set(1, 4u8);
    buf.set(2, (code >> 8) as u8);
    buf.set(3, (code & 0xff) as u8);
    proof {
        assert(buf@ =~= error_tlv_spec(code) + old(buf)@.skip(4));
    }
    Ok(4)
}

/// Whether `buf` begins with a TCP-CONNECT-OK message.
pub fn is_tcp_connect_ok(buf: &Vec<u8>) -> (r: bool)
    requires
        buf@.len() >= 1,
    ensures
        r == is_ok_spec(buf@),
{
    buf[0] == TYPE_TCP_CONNECT_OK
}

/// The type byte of the message at the start of `buf`, without consuming
/// anything.
pub fn peek_type(buf: &Vec<u8>) -> (r: u8)
    requires
        buf@.len() >= 1,
    ensures
        r == buf@[0],
{
    buf[0]
}

/// Read a TCP-CONNECT message from the start of `buf` and return the
/// destination it carries; bytes after the message are ignored. A buffer
/// that does not begin with a well-formed TCP-CONNECT message is refused
/// with `MalformedTlv`.
pub fn parse_tcp_connect(buf: &Vec<u8>) -> (r: Result<TcpDestination, TlvError>)
    ensures
        match r {
            Ok(d) => parse_connect_spec(buf@) == Some((d.ip_spec(), d.port_spec())),
            Err(TlvError::MalformedTlv) => parse_connect_spec(buf@) is None,
            Err(_) => false,
        },
{
    if buf.len() < 20 || buf[0] != TYPE_TCP_CONNECT || buf[1] != 20u8 {
        return Err(TlvError::MalformedTlv);
    }
    let port: u16 = ((buf[2] as u16) << 8) | (buf[3] as u16);
    let mut octets: Vec<u8> = Vec::new();
    let mut i: usize = 0;
    while i < 16
        invariant
            i <= 16,
            buf@.len() >= 20,
            octets@ =~= buf@.subrange(4, 4 + i),
        decreases 16 - i,
    {
        octets.push(buf[4 + i]);
        i += 1;
    }
    proof {
        assert(octets@ =~= buf@.subrange(4, 20));
    }
    Ok(TcpDestination::from_ipv6(octets, port))
}

/// Law: a TCP-CONNECT round trip is the identity. Encoding any 16 address
/// octets and any port, then decoding the result, returns the same octets
/// and the same port; an IPv4 destination thus travels through its
/// IPv4-mapped form and comes back unchanged.
pub proof fn lemma_connect_round_trip(ip: Seq<u8>, port: u16)
    requires
        ip.len() == 16,
    ensures
        parse_connect_spec(connect_tlv_spec(ip, port)) == Some((ip, port)),
{
    let enc = connect_tlv_spec(ip, port);
    assert(enc.len() == 20);
    assert((((((port >> 8) as u8) as u16) << 8) | (((port & 0xff) as u8) as u16)) == port)
        by (bit_vector);
    assert(enc.subrange(4, 20) =~= ip);
}

/// Law: the OK reply is recognized, and nothing else is. A buffer holding
/// the TCP-CONNECT-OK message tests as OK; one holding a TCP-CONNECT
/// message does not.
pub proof fn lemma_is_ok_discriminates(ip: Seq<u8>, port: u16)
    ensures
        is_ok_spec(ok_tlv_spec()),
        !is_ok_spec(connect_tlv_spec(ip, port)),
{
}

/// Law: encoding then decoding is the identity on every represented
/// message. The fixed messages announce their type in their first byte,
/// and an ERROR message gives back the exact code it was built from; the
/// TCP-CONNECT case is `lemma_connect_round_trip`.
pub proof fn lemma_tlv_round_trip(code: u16)
    ensures
        ok_tlv_spec()[0] == TYPE_TCP_CONNECT_OK,
        end_tlv_spec()[0] == TYPE_END,
        error_tlv_spec(code)[0] == TYPE_ERROR,
        error_code_spec(error_tlv_spec(code)) == code,
{
    assert((((((code >> 8) as u8) as u16) << 8) | (((code & 0xff) as u8) as u16)) == code)
        by (bit_vector);
}

} // verus!
