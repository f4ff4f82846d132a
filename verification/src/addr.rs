//! The destination address model.
//!
//! A tunnel destination is an IP address with a TCP port. On the wire the
//! address always travels as 16 IPv6 octets; an IPv4 address is carried as
//! an IPv4-mapped IPv6 address (RFC 4291). The type below keeps the address
//! in exactly that 16-byte wire form, so that the encoder and the decoder
//! agree on one mapping rule and an IPv4 destination round-trips through
//! its mapped form unchanged.

use vstd::prelude::*;

verus! {

/// The 16-byte form of an IPv4 address `a.b.c.d`: ten zero octets, two
/// `0xff` octets, then the four IPv4 octets.
pub open spec fn ipv4_mapped_octets(a: u8, b: u8, c: u8, d: u8) -> Seq<u8> {
    seq![0u8, 0u8, 0u8, 0u8, 0u8, 0u8, 0u8, 0u8, 0u8, 0u8, 0xffu8, 0xffu8, a, b, c, d]
}

/// Whether a 16-octet address is in the IPv4-mapped block `::ffff:0:0/96`.
pub open spec fn is_ipv4_mapped(s: Seq<u8>) -> bool {
    &&& s.len() == 16
    &&& forall|i: int| 0 <= i < 10 ==> s[i] == 0u8
    &&& s[10] == 0xffu8
    &&& s[11] == 0xffu8
}

/// Whether a 16-octet address is multicast: `224.0.0.0/4` for a mapped
/// IPv4 address, `ff00::/8` for IPv6.
pub open spec fn is_multicast_ip(s: Seq<u8>) -> bool {
    &&& s.len() == 16
    &&& {
        ||| (is_ipv4_mapped(s) && 224 <= s[12] && s[12] <= 239)
        ||| s[0] == 0xffu8
    }
}

/// A TCP destination: 16 address octets in wire (IPv6) form and a port.
#[derive(Debug)]
pub struct TcpDestination {
    octets: Vec<u8>,
    port: u16,
}

impl TcpDestination {
    /// Every destination holds exactly 16 address octets; the invariant is
    /// established by the constructors and assumed everywhere else.
    #[verifier::type_invariant]
    pub closed spec fn wf(self) -> bool {
        self.octets@.len() == 16
    }

    /// A well-formed destination carries 16 address octets.
    pub proof fn lemma_wf_ip_len(d: TcpDestination)
        requires
            d.wf(),
        ensures
            d.ip_spec().len() == 16,
    {
    }

    /// The address octets in wire form; 16 of them for every destination.
    pub closed spec fn ip_spec(self) -> Seq<u8> {
        self.octets@
    }

    pub closed spec fn port_spec(self) -> u16 {
        self.port
    }

    pub open spec fn is_multicast_spec(self) -> bool {
        is_multicast_ip(self.ip_spec())
    }

    /// A destination from an IPv4 address `a.b.c.d` and a port, stored in
    /// its IPv4-mapped wire form.
    pub fn from_v4(a: u8, b: u8, c: u8, d: u8, port: u16) -> (r: Self)
        ensures
            r.ip_spec() == ipv4_mapped_octets(a, b, c, d),
            r.port_spec() == port,
    {
        let mut octets: Vec<u8> = Vec::new();
        let mut i: usize = 0;
        while i < 10
            invariant
                i <= 10,
                octets@.len() == i,
                forall|j: int| 0 <= j < i ==> octets@[j] == 0u8,
            decreases 10 - i,
        {
            octets.push(0u8);
            i += 1;
        }
        octets.push(0xffu8);
        octets.push(0xffu8);
        octets.push(a);
        octets.push(b);
        octets.push(c);
        octets.push(d);
        proof {
            assert(octets@ =~= ipv4_mapped_octets(a, b, c, d));
        }
        TcpDestination { octets, port }
    }

    /// A destination from 16 IPv6 octets and a port. An address in the
    /// IPv4-mapped block denotes the mapped IPv4 address.
    pub fn from_ipv6(octets: Vec<u8>, port: u16) -> (r: Self)
        requires
            octets@.len() == 16,
        ensures
            r.ip_spec() == octets@,
            r.port_spec() == port,
    {
        TcpDestination { octets, port }
    }

    pub fn port(&self) -> (r: u16)
        ensures
            r == self.port_spec(),
    {
        self.port
    }

    /// One address octet of the wire form.
    pub fn ip_octet(&self, i: usize) -> (r: u8)
        requires
            i < 16,
        ensures
            r == self.ip_spec()[i as int],
    {
        proof {
            use_type_invariant(self);
        }
        self.octets[i]
    }

    /// A copy of the 16 address octets in wire form.
    pub fn ip_octets(&self) -> (r: Vec<u8>)
        ensures
            r@ == self.ip_spec(),
    {
        proof {
            use_type_invariant(self);
        }
        let mut r: Vec<u8> = Vec::new();
        let mut i: usize = 0;
        while i < 16
            invariant
                i <= 16,
                self.octets@.len() == 16,
                r@ =~= self.octets@.subrange(0, i as int),
            decreases 16 - i,
        {
            r.push(self.octets[i]);
            i += 1;
        }
        proof {
            assert(r@ =~= self.octets@);
        }
        r
    }

    /// Whether the destination is an IPv4 address (held in mapped form).
    pub fn is_ipv4(&self) -> (r: bool)
        ensures
            r == is_ipv4_mapped(self.ip_spec()),
    {
        proof {
            use_type_invariant(self);
        }
        let mut i: usize = 0;
        let mut zeros = true;
        while i < 10
            invariant
                i <= 10,
                self.octets@.len() == 16,
                zeros == forall|j: int| 0 <= j < i ==> self.octets@[j] == 0u8,
            decreases 10 - i,
        {
            if self.octets[i] != 0 {
                zeros = false;
            }
            i += 1;
        }
        zeros && self.octets[10] == 0xff && self.octets[11] == 0xff
    }

    /// Whether the destination address is multicast; such a destination is
    /// never accepted into a TCP-CONNECT message.
    pub fn is_multicast(&self) -> (r: bool)
        ensures
            r == self.is_multicast_spec(),
    {
        proof {
            use_type_invariant(self);
        }
        (self.is_ipv4() && 224 <= self.octets[12] && self.octets[12] <= 239)
            || self.octets[0] == 0xff
    }
}

impl Clone for TcpDestination {
    /// A clone carries the same address octets and the same port.
    fn clone(&self) -> (r: Self)
        ensures
            r.ip_spec() == self.ip_spec(),
            r.port_spec() == self.port_spec(),
    {
        proof {
            use_type_invariant(self);
        }
        TcpDestination { octets: self.ip_octets(), port: self.port }
    }
}

} // verus!
