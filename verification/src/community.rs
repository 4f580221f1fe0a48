//! BGP community values: classic, extended, IPv6-extended and large.

use vstd::prelude::*;

use crate::addr::Ipv6Addr;
use crate::bytes::spec_be16;
use crate::bytes::spec_be32;

verus! {

/// A classic four-octet community value.
#[derive(Debug, Clone, Copy, PartialEq, Eq, Hash, Structural)]
pub struct Community(pub u32);

impl Community {
    /// The four octets of the community on the wire.
    pub open spec fn spec_bytes(self) -> Seq<u8> {
        spec_be32(self.0)
    }

    pub fn new(value: u32) -> (r: Self)
        ensures
            r == Community(value),
    {
        Community(value)
    }

    pub fn value(&self) -> (r: u32)
        ensures
            r == self.0,
    {
        self.0
    }
}

/// An eight-octet extended community: type, sub-type and a 48-bit value.
#[derive(Debug, Clone, Copy, PartialEq, Eq, Hash, Structural)]
pub struct ExtendedCommunity {
    pub code: u8,
    pub sub_type: u8,
    pub value: u64,
}

impl ExtendedCommunity {
    /// The 48-bit value fits in six octets.
    pub open spec fn wf(self) -> bool {
        self.value < 0x1_0000_0000_0000
    }

    /// The eight octets of the community on the wire.
    pub open spec fn spec_bytes(self) -> Seq<u8> {
        seq![self.code, self.sub_type] + spec_be16((self.value / 0x1_0000_0000) as u16)
            + spec_be32((self.value % 0x1_0000_0000) as u32)
    }

    pub fn new(code: u8, sub_type: u8, value: u64) -> (r: Result<Self, u64>)
        ensures
            match r {
                Ok(c) => c == (ExtendedCommunity { code, sub_type, value }) && c.wf(),
                Err(e) => e == value && value >= 0x1_0000_0000_0000,
            },
    {
        if value < 0x1_0000_0000_0000 {
            Ok(ExtendedCommunity { code, sub_type, value })
        } else {
            Err(value)
        }
    }
}

/// A twenty-octet IPv6-address-specific extended community.
#[derive(Debug, Clone, Copy, PartialEq, Eq, Hash, Structural)]
pub struct ExtendedCommunityIpv6 {
    pub code: u8,
    pub sub_type: u8,
    pub global_admin: Ipv6Addr,
    pub local_admin: u16,
}

impl ExtendedCommunityIpv6 {
    /// The twenty octets of the community on the wire.
    pub open spec fn spec_bytes(self) -> Seq<u8> {
        seq![self.code, self.sub_type] + self.global_admin.spec_octets() + spec_be16(
            self.local_admin,
        )
    }

    pub fn new(code: u8, sub_type: u8, global_admin: Ipv6Addr, local_admin: u16) -> (r: Self)
        ensures
            r == (ExtendedCommunityIpv6 { code, sub_type, global_admin, local_admin }),
    {
        ExtendedCommunityIpv6 { code, sub_type, global_admin, local_admin }
    }
}

/// A twelve-octet large community: global administrator and two local parts.
#[derive(Debug, Clone, Copy, PartialEq, Eq, Hash, Structural)]
pub struct LargeCommunity {
    pub global_admin: u32,
    pub local_data1: u32,
    pub local_data2: u32,
}

impl LargeCommunity {
    /// The twelve octets of the community on the wire.
    pub open spec fn spec_bytes(self) -> Seq<u8> {
        spec_be32(self.global_admin) + spec_be32(self.local_data1) + spec_be32(self.local_data2)
    }

    pub fn new(global_admin: u32, local_data1: u32, local_data2: u32) -> (r: Self)
        ensures
            r == (LargeCommunity { global_admin, local_data1, local_data2 }),
    {
        LargeCommunity { global_admin, local_data1, local_data2 }
    }
}

} // verus!
