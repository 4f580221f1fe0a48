//! IP address values as the codecs see them: plain octets.
//!
//! The codec layer only ever reads and writes the octets of an address, so
//! addresses are modelled here as structures of plain integers, with the
//! wire image of each given by a spec function.

use vstd::prelude::*;

use crate::bytes::spec_be16;
use crate::bytes::spec_be32;
use crate::bytes::spec_be32_val;
use crate::bytes::write_be16;

verus! {

/// An IPv4 address, one field per octet in network order.
#[derive(Debug, Clone, Copy, PartialEq, Eq, Hash, Structural)]
pub struct Ipv4Addr {
    pub o0: u8,
    pub o1: u8,
    pub o2: u8,
    pub o3: u8,
}

impl Ipv4Addr {
    /// The four octets of the address, in network order.
    pub open spec fn spec_octets(self) -> Seq<u8> {
        seq![self.o0, self.o1, self.o2, self.o3]
    }

    /// The address as a 32-bit value in host order.
    pub open spec fn spec_u32(self) -> u32 {
        spec_be32_val(self.o0, self.o1, self.o2, self.o3)
    }

    pub fn new(o0: u8, o1: u8, o2: u8, o3: u8) -> (r: Self)
        ensures
            r == (Ipv4Addr { o0, o1, o2, o3 }),
    {
        Ipv4Addr { o0, o1, o2, o3 }
    }

    /// The address denoted by a 32-bit value in host order.
    pub fn from_u32(v: u32) -> (r: Self)
        ensures
            r.spec_octets() == spec_be32(v),
            r.spec_u32() == v,
    {
        let r = Ipv4Addr {
            o0: (v / 0x100_0000) as u8,
            o1: ((v / 0x1_0000) % 0x100) as u8,
            o2: ((v / 0x100) % 0x100) as u8,
            o3: (v % 0x100) as u8,
        };
        proof {
            assert(r.spec_octets() =~= spec_be32(v));
            crate::bytes::lemma_be32_bytes(r.o0, r.o1, r.o2, r.o3);
        }
        r
    }

    /// Append the four octets to `out`.
    pub fn write(&self, out: &mut Vec<u8>)
        ensures
            final(out)@ == old(out)@ + self.spec_octets(),
    {
        out.push(self.o0);
        out.push(self.o1);
        out.push(self.o2);
        out.push(self.o3);
        assert(final(out)@ =~= old(out)@ + self.spec_octets());
    }
}

/// An IPv6 address, one field per 16-bit segment in network order.
#[derive(Debug, Clone, Copy, PartialEq, Eq, Hash, Structural)]
pub struct Ipv6Addr {
    pub s0: u16,
    pub s1: u16,
    pub s2: u16,
    pub s3: u16,
    pub s4: u16,
    pub s5: u16,
    pub s6: u16,
    pub s7: u16,
}

impl Ipv6Addr {
    /// The sixteen octets of the address, in network order.
    pub open spec fn spec_octets(self) -> Seq<u8> {
        spec_be16(self.s0) + spec_be16(self.s1) + spec_be16(self.s2) + spec_be16(self.s3)
            + spec_be16(self.s4) + spec_be16(self.s5) + spec_be16(self.s6) + spec_be16(self.s7)
    }

    pub fn new(s0: u16, s1: u16, s2: u16, s3: u16, s4: u16, s5: u16, s6: u16, s7: u16) -> (r: Self)
        ensures
            r == (Ipv6Addr { s0, s1, s2, s3, s4, s5, s6, s7 }),
    {
        Ipv6Addr { s0, s1, s2, s3, s4, s5, s6, s7 }
    }

    /// The loopback address `::1`.
    pub fn localhost() -> (r: Self)
        ensures
            r == (Ipv6Addr { s0: 0u16, s1: 0u16, s2: 0u16, s3: 0u16, s4: 0u16, s5: 0u16, s6: 0u16, s7: 1u16 }),
    {
        Ipv6Addr { s0: 0, s1: 0, s2: 0, s3: 0, s4: 0, s5: 0, s6: 0, s7: 1 }
    }

    /// Append the sixteen octets to `out`.
    pub fn write(&self, out: &mut Vec<u8>)
        ensures
            final(out)@ == old(out)@ + self.spec_octets(),
    {
        write_be16(out, self.s0);
        write_be16(out, self.s1);
        write_be16(out, self.s2);
        write_be16(out, self.s3);
        write_be16(out, self.s4);
        write_be16(out, self.s5);
        write_be16(out, self.s6);
        write_be16(out, self.s7);
        assert(final(out)@ =~= old(out)@ + self.spec_octets());
    }
}

/// Either kind of IP address.
#[derive(Debug, Clone, Copy, PartialEq, Eq, Hash, Structural)]
pub enum IpAddr {
    V4(Ipv4Addr),
    V6(Ipv6Addr),
}

impl IpAddr {
    /// The octets of the carried address.
    pub open spec fn spec_octets(self) -> Seq<u8> {
        match self {
            IpAddr::V4(a) => a.spec_octets(),
            IpAddr::V6(a) => a.spec_octets(),
        }
    }
}

} // verus!
