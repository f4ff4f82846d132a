//! The handshake rules.
//!
//! On a fresh bidirectional stream the ingress writes a TCP-CONNECT
//! message and waits for the reply; the egress reads the first message,
//! dials the destination it carries, and answers TCP-CONNECT-OK or ERROR.
//! Handshake messages are not byte-aligned to a single read: a message may
//! arrive split across reads, and bytes of the session payload may arrive
//! coalesced with the reply. Each side therefore runs a small reader here
//! that accumulates the bytes received so far, decides from them alone —
//! keep reading, failed, or decided — and hands back any surplus bytes,
//! which belong to the payload. The surrounding task performs the reads,
//! the dial and the writes.

use vstd::prelude::*;

use crate::addr::TcpDestination;
use crate::tlv;

verus! {

/// The handshake reads messages of at most 20 bytes, but a read may
/// return more than one message's worth of stream; this is the read size
/// the tasks use.
pub const HANDSHAKE_READ_SIZE: usize = 1024;

/// What a handshake read observed: bytes, the end of the stream, or a
/// read error.
pub enum QuicReadEvent {
    Data(Vec<u8>),
    Finished,
    ReadError,
}

/// The bytes an event contributes to the accumulated handshake stream.
pub open spec fn event_bytes(ev: QuicReadEvent) -> Seq<u8> {
    match ev {
        QuicReadEvent::Data(b) => b@,
        _ => Seq::empty(),
    }
}

/// Whether the bytes received so far are still consistent with a
/// TCP-CONNECT message: the type byte is TCP-CONNECT and the length
/// indicator, where present, is 20. A proper prefix of a valid message
/// always satisfies this; a mismatch can never become valid by reading
/// more.
pub open spec fn connect_prefix_ok(s: Seq<u8>) -> bool {
    &&& s.len() >= 1 ==> s[0] == tlv::TYPE_TCP_CONNECT
    &&& s.len() >= 2 ==> s[1] == 20u8
}

/// What the ingress does after a reply read: keep reading (the reply is
/// not complete yet), start the bridge workers handing them the surplus
/// bytes that arrived after the 2-byte reply, or shut down both halves of
/// the local TCP socket and end the session without error.
pub enum IngressReplyAction {
    NeedMore,
    StartBridging(Vec<u8>),
    CloseTcp,
}

/// The ingress side of the handshake: accumulates the reply bytes until
/// they decide the session's fate.
pub struct IngressHandshake {
    received: Vec<u8>,
}

impl IngressHandshake {
    /// The reply bytes received so far.
    pub closed spec fn received_spec(self) -> Seq<u8> {
        self.received@
    }

    pub fn new() -> (s: Self)
        ensures
            s.received_spec() == Seq::<u8>::empty(),
    {
        IngressHandshake { received: Vec::new() }
    }

    /// Feed one read of the reply stream.
    ///
    /// A reply whose first byte is not TCP-CONNECT-OK closes the local
    /// TCP socket silently, and so do the end of the stream and a read
    /// error — also after a fragment: an incomplete reply is terminal,
    /// not an error. Once the 2-byte OK message is complete, bridging
    /// starts and every byte after the message is handed back: it is
    /// session payload, owed to the local client.
    pub fn on_reply(&mut self, ev: QuicReadEvent) -> (a: IngressReplyAction)
        ensures
            ev matches QuicReadEvent::Data(_) ==> final(self).received_spec() == old(
                self,
            ).received_spec() + event_bytes(ev),
            !(ev matches QuicReadEvent::Data(_)) ==> final(self).received_spec() == old(
                self,
            ).received_spec() && a == IngressReplyAction::CloseTcp,
            ev matches QuicReadEvent::Data(_) ==> ({
                let s = final(self).received_spec();
                &&& s.len() == 0 ==> a == IngressReplyAction::NeedMore
                &&& (s.len() >= 1 && s[0] != tlv::TYPE_TCP_CONNECT_OK) ==> a
                    == IngressReplyAction::CloseTcp
                &&& (s.len() == 1 && s[0] == tlv::TYPE_TCP_CONNECT_OK) ==> a
                    == IngressReplyAction::NeedMore
                &&& (s.len() >= 2 && s[0] == tlv::TYPE_TCP_CONNECT_OK) ==> (a matches
                    IngressReplyAction::StartBridging(rest) && rest@ == s.skip(2))
            }),
    {
        match ev {
            QuicReadEvent::Data(b) => {
                append_bytes(&mut self.received, b);
                if self.received.len() == 0 {
                    return IngressReplyAction::NeedMore;
                }
                if !tlv::is_tcp_connect_ok(&self.received) {
                    return IngressReplyAction::CloseTcp;
                }
                if self.received.len() < 2 {
                    return IngressReplyAction::NeedMore;
                }
                let rest = tail_from(&self.received, 2);
                IngressReplyAction::StartBridging(rest)
            },
            QuicReadEvent::Finished => IngressReplyAction::CloseTcp,
            QuicReadEvent::ReadError => IngressReplyAction::CloseTcp,
        }
    }
}

/// What the egress does after a read of the stream's first message: keep
/// reading (the message is not complete yet), end the session silently,
/// reply with an ERROR message carrying the given code, or dial the
/// destination the message carries, handing back the surplus bytes that
/// arrived after it.
pub enum EgressHandshakeAction {
    NeedMore,
    Terminate,
    SendError(u16),
    Dial(TcpDestination, Vec<u8>),
}

/// The egress side of the handshake: accumulates the first message's
/// bytes until they decide the session's fate.
pub struct EgressHandshake {
    received: Vec<u8>,
}

impl EgressHandshake {
    /// The bytes of the stream received so far.
    pub closed spec fn received_spec(self) -> Seq<u8> {
        self.received@
    }

    pub fn new() -> (s: Self)
        ensures
            s.received_spec() == Seq::<u8>::empty(),
    {
        EgressHandshake { received: Vec::new() }
    }

    /// Feed one read of the stream.
    ///
    /// The end of the stream before a complete message is terminal, not
    /// malformed: the session ends silently, also after a fragment, and
    /// so it does on a read error. Bytes that mismatch the TCP-CONNECT
    /// form are answered with ERROR(malformed-tlv) as soon as the
    /// mismatch shows; a consistent fragment waits for more. Once the
    /// 20-byte message is complete it yields the destination to dial,
    /// and every byte after the message is handed back: it is session
    /// payload, owed to that destination.
    pub fn on_read(&mut self, ev: QuicReadEvent) -> (a: EgressHandshakeAction)
        ensures
            ev matches QuicReadEvent::Data(_) ==> final(self).received_spec() == old(
                self,
            ).received_spec() + event_bytes(ev),
            !(ev matches QuicReadEvent::Data(_)) ==> final(self).received_spec() == old(
                self,
            ).received_spec() && a == EgressHandshakeAction::Terminate,
            ev matches QuicReadEvent::Data(_) ==> ({
                let s = final(self).received_spec();
                &&& !connect_prefix_ok(s) ==> a == EgressHandshakeAction::SendError(
                    tlv::ERROR_TYPE_MALFORMED_TLV_RECV,
                )
                &&& (connect_prefix_ok(s) && s.len() < 20) ==> a == EgressHandshakeAction::NeedMore
                &&& (connect_prefix_ok(s) && s.len() >= 20) ==> (a matches
                    EgressHandshakeAction::Dial(d, rest) && tlv::parse_connect_spec(s) == Some(
                    (d.ip_spec(), d.port_spec()),
                ) && rest@ == s.skip(20))
            }),
    {
        match ev {
            QuicReadEvent::Data(b) => {
                append_bytes(&mut self.received, b);
                if self.received.len() >= 1 && self.received[0] != tlv::TYPE_TCP_CONNECT {
                    return EgressHandshakeAction::SendError(tlv::ERROR_TYPE_MALFORMED_TLV_RECV);
                }
                if self.received.len() >= 2 && self.received[1] != 20u8 {
                    return EgressHandshakeAction::SendError(tlv::ERROR_TYPE_MALFORMED_TLV_RECV);
                }
                if self.received.len() < 20 {
                    return EgressHandshakeAction::NeedMore;
                }
                match tlv::parse_tcp_connect(&self.received) {
                    Ok(d) => {
                        let rest = tail_from(&self.received, 20);
                        EgressHandshakeAction::Dial(d, rest)
                    },
                    Err(_) => {
                        // a consistent prefix of full length always parses
                        proof {
                            assert(false);
                        }
                        EgressHandshakeAction::Terminate
                    },
                }
            },
            QuicReadEvent::Finished => EgressHandshakeAction::Terminate,
            QuicReadEvent::ReadError => EgressHandshakeAction::Terminate,
        }
    }
}

/// What the egress replies once the dial has been attempted: on success
/// TCP-CONNECT-OK and then bridging; on failure an ERROR message carrying
/// network-failure, and the session ends.
#[derive(Debug, Clone, Copy, PartialEq, Eq, Structural)]
pub enum EgressDialReply {
    SendConnectOk,
    SendNetworkFailure,
}

/// Decide the egress reply from the dial outcome.
pub fn egress_on_dial(connected: bool) -> (a: EgressDialReply)
    ensures
        connected ==> a == EgressDialReply::SendConnectOk,
        !connected ==> a == EgressDialReply::SendNetworkFailure,
{
    if connected {
        EgressDialReply::SendConnectOk
    } else {
        EgressDialReply::SendNetworkFailure
    }
}

/// Law: a TCP-CONNECT message may arrive split across any number of
/// reads. Every prefix of a valid message (with any surplus after it)
/// stays consistent, so the reader keeps waiting instead of answering
/// malformed; and since the decision depends on the accumulated bytes
/// alone, once all 20 bytes are in, the message decodes to its
/// destination and the surplus is exactly the bytes after it.
pub proof fn lemma_split_connect_decodes(ip: Seq<u8>, port: u16, extra: Seq<u8>, i: int)
    requires
        ip.len() == 16,
        0 <= i <= 20 + extra.len(),
    ensures
        connect_prefix_ok((tlv::connect_tlv_spec(ip, port) + extra).take(i)),
        tlv::parse_connect_spec(tlv::connect_tlv_spec(ip, port) + extra) == Some((ip, port)),
        (tlv::connect_tlv_spec(ip, port) + extra).skip(20) =~= extra,
{
    let full = tlv::connect_tlv_spec(ip, port) + extra;
    assert(full[0] == tlv::TYPE_TCP_CONNECT);
    assert(full[1] == 20u8);
    assert((((((port >> 8) as u8) as u16) << 8) | (((port & 0xff) as u8) as u16)) == port)
        by (bit_vector);
    assert(full.subrange(4, 20) =~= ip);
}

/// Append one read's bytes to the accumulated handshake stream.
fn append_bytes(acc: &mut Vec<u8>, b: Vec<u8>)
    ensures
        final(acc)@ == old(acc)@ + b@,
{
    let mut i: usize = 0;
    while i < b.len()
        invariant
            i <= b.len(),
            acc@ =~= old(acc)@ + b@.subrange(0, i as int),
        decreases b.len() - i,
    {
        acc.push(b[i]);
        i += 1;
    }
    proof {
        assert(acc@ =~= old(acc)@ + b@);
    }
}

/// A copy of the bytes from `start` on: the surplus after a message.
fn tail_from(buf: &Vec<u8>, start: usize) -> (r: Vec<u8>)
    requires
        start <= buf@.len(),
    ensures
        r@ == buf@.skip(start as int),
{
    let mut r: Vec<u8> = Vec::new();
    let mut i: usize = start;
    while i < buf.len()
        invariant
            start <= i <= buf@.len(),
            r@ =~= buf@.subrange(start as int, i as int),
        decreases buf@.len() - i,
    {
        r.push(buf[i]);
        i += 1;
    }
    proof {
        assert(r@ =~= buf@.skip(start as int));
    }
    r
}

} // verus!
