//! Network Layer Reachability Information: the prefix component of a BGP
//! route, per address family, with the optional ADD-PATH identifier, MPLS
//! label stacks and route distinguishers of the VPN families.

use vstd::prelude::*;

use crate::addr::Ipv4Addr;
use crate::addr::Ipv6Addr;

verus! {

/// An IPv4 prefix: address octets plus a prefix length in bits.
#[derive(Debug, Clone, Copy, PartialEq, Eq, Hash, Structural)]
pub struct Ipv4Net {
    pub addr: Ipv4Addr,
    pub prefix_len: u8,
}

impl Ipv4Net {
    /// The prefix length is at most the address width.
    pub open spec fn wf(self) -> bool {
        self.prefix_len <= 32
    }

    pub fn new(addr: Ipv4Addr, prefix_len: u8) -> (r: Option<Self>)
        ensures
            match r {
                Some(n) => n == (Ipv4Net { addr, prefix_len }) && n.wf(),
                None => prefix_len > 32,
            },
    {
        if prefix_len <= 32 {
            Some(Ipv4Net { addr, prefix_len })
        } else {
            None
        }
    }
}

/// An IPv6 prefix: address octets plus a prefix length in bits.
#[derive(Debug, Clone, Copy, PartialEq, Eq, Hash, Structural)]
pub struct Ipv6Net {
    pub addr: Ipv6Addr,
    pub prefix_len: u8,
}

impl Ipv6Net {
    /// The prefix length is at most the address width.
    pub open spec fn wf(self) -> bool {
        self.prefix_len <= 128
    }

    pub fn new(addr: Ipv6Addr, prefix_len: u8) -> (r: Option<Self>)
        ensures
            match r {
                Some(n) => n == (Ipv6Net { addr, prefix_len }) && n.wf(),
                None => prefix_len > 128,
            },
    {
        if prefix_len <= 128 {
            Some(Ipv6Net { addr, prefix_len })
        } else {
            None
        }
    }
}

/// One entry of an MPLS label stack: three octets carrying label, traffic
/// class and bottom-of-stack bit.
#[derive(Debug, Clone, Copy, PartialEq, Eq, Hash, Structural)]
pub struct MplsLabel {
    pub b0: u8,
    pub b1: u8,
    pub b2: u8,
}

impl MplsLabel {
    /// The three octets of the label entry on the wire.
    pub open spec fn spec_bytes(self) -> Seq<u8> {
        seq![self.b0, self.b1, self.b2]
    }

    pub fn new(b0: u8, b1: u8, b2: u8) -> (r: Self)
        ensures
            r == (MplsLabel { b0, b1, b2 }),
    {
        MplsLabel { b0, b1, b2 }
    }

    /// The bottom-of-stack bit is the least significant bit of the third
    /// octet.
    pub fn is_bottom(&self) -> (r: bool)
        ensures
            r == (self.b2 % 2 == 1),
    {
        self.b2 % 2 == 1
    }
}

/// An eight-octet route distinguisher, in one of its three administrator
/// layouts.
#[derive(Debug, Clone, Copy, PartialEq, Eq, Hash, Structural)]
pub enum RouteDistinguisher {
    As2Administrator { asn2: u16, number: u32 },
    Ipv4Administrator { ip: Ipv4Addr, number: u16 },
    As4Administrator { asn4: u32, number: u16 },
}

impl RouteDistinguisher {
    /// The two-octet type field of the distinguisher.
    pub open spec fn spec_type_code(self) -> u16 {
        match self {
            RouteDistinguisher::As2Administrator { .. } => 0,
            RouteDistinguisher::Ipv4Administrator { .. } => 1,
            RouteDistinguisher::As4Administrator { .. } => 2,
        }
    }

    pub fn get_type(&self) -> (r: u16)
        ensures
            r == self.spec_type_code(),
    {
        match self {
            RouteDistinguisher::As2Administrator { .. } => 0,
            RouteDistinguisher::Ipv4Administrator { .. } => 1,
            RouteDistinguisher::As4Administrator { .. } => 2,
        }
    }
}

/// The next hop of a labeled VPN route: a route distinguisher (zero on the
/// wire in practice) and an address.
#[derive(Debug, Clone, Copy, PartialEq, Eq, Hash, Structural)]
pub struct LabeledIpv4NextHop {
    pub rd: RouteDistinguisher,
    pub next_hop: Ipv4Addr,
}

impl LabeledIpv4NextHop {
    pub fn new(rd: RouteDistinguisher, next_hop: Ipv4Addr) -> (r: Self)
        ensures
            r == (LabeledIpv4NextHop { rd, next_hop }),
    {
        LabeledIpv4NextHop { rd, next_hop }
    }
}

/// The next hop of a labeled VPN route over IPv6.
#[derive(Debug, Clone, Copy, PartialEq, Eq, Hash, Structural)]
pub struct LabeledIpv6NextHop {
    pub rd: RouteDistinguisher,
    pub next_hop: Ipv6Addr,
    pub next_hop_local: Option<Ipv6Addr>,
}

impl LabeledIpv6NextHop {
    pub fn new(rd: RouteDistinguisher, next_hop: Ipv6Addr, next_hop_local: Option<Ipv6Addr>) -> (r:
        Self)
        ensures
            r == (LabeledIpv6NextHop { rd, next_hop, next_hop_local }),
    {
        LabeledIpv6NextHop { rd, next_hop, next_hop_local }
    }
}

/// Either kind of labeled next hop.
#[derive(Debug, Clone, Copy, PartialEq, Eq, Hash, Structural)]
pub enum LabeledNextHop {
    Ipv4(LabeledIpv4NextHop),
    Ipv6(LabeledIpv6NextHop),
}

/// An IPv4 unicast route with its optional ADD-PATH identifier.
#[derive(Debug, Clone, Copy, PartialEq, Eq, Hash, Structural)]
pub struct Ipv4UnicastAddress {
    pub path_id: Option<u32>,
    pub network: Ipv4Net,
}

/// An IPv4 multicast route with its optional ADD-PATH identifier.
#[derive(Debug, Clone, Copy, PartialEq, Eq, Hash, Structural)]
pub struct Ipv4MulticastAddress {
    pub path_id: Option<u32>,
    pub network: Ipv4Net,
}

/// An IPv4 route carrying an MPLS label stack.
#[derive(Debug, Clone, PartialEq, Eq, Hash)]
pub struct Ipv4NlriMplsLabelsAddress {
    pub path_id: Option<u32>,
    pub labels: Vec<MplsLabel>,
    pub network: Ipv4Net,
}

/// An IPv4 MPLS VPN route: label stack plus route distinguisher.
#[derive(Debug, Clone, PartialEq, Eq, Hash)]
pub struct Ipv4MplsVpnUnicastAddress {
    pub path_id: Option<u32>,
    pub rd: RouteDistinguisher,
    pub labels: Vec<MplsLabel>,
    pub network: Ipv4Net,
}

/// An IPv6 unicast route with its optional ADD-PATH identifier.
#[derive(Debug, Clone, Copy, PartialEq, Eq, Hash, Structural)]
pub struct Ipv6UnicastAddress {
    pub path_id: Option<u32>,
    pub network: Ipv6Net,
}

/// An IPv6 multicast route with its optional ADD-PATH identifier.
#[derive(Debug, Clone, Copy, PartialEq, Eq, Hash, Structural)]
pub struct Ipv6MulticastAddress {
    pub path_id: Option<u32>,
    pub network: Ipv6Net,
}

/// An IPv6 route carrying an MPLS label stack.
#[derive(Debug, Clone, PartialEq, Eq, Hash)]
pub struct Ipv6NlriMplsLabelsAddress {
    pub path_id: Option<u32>,
    pub labels: Vec<MplsLabel>,
    pub network: Ipv6Net,
}

/// An IPv6 MPLS VPN route: label stack plus route distinguisher.
#[derive(Debug, Clone, PartialEq, Eq, Hash)]
pub struct Ipv6MplsVpnUnicastAddress {
    pub path_id: Option<u32>,
    pub rd: RouteDistinguisher,
    pub labels: Vec<MplsLabel>,
    pub network: Ipv6Net,
}

/// An EVPN route, carried with its route type, length and undecoded value
/// octets.
#[derive(Debug, Clone, PartialEq, Eq, Hash)]
pub struct L2EvpnAddress {
    pub path_id: Option<u32>,
    pub route_type: u8,
    pub value: Vec<u8>,
}

/// A route-target membership route: origin AS plus route target octets.
#[derive(Debug, Clone, PartialEq, Eq, Hash)]
pub struct RouteTargetMembershipAddress {
    pub path_id: Option<u32>,
    pub origin_as: u32,
    pub route_target: Vec<u8>,
}

/// A BGP-LS link-state object, carried with its NLRI type and undecoded
/// value octets.
#[derive(Debug, Clone, PartialEq, Eq, Hash)]
pub struct BgpLsNlri {
    pub path_id: Option<u32>,
    pub nlri_type: u16,
    pub value: Vec<u8>,
}

/// A BGP-LS VPN link-state object: a route distinguisher in front of the
/// link-state payload.
#[derive(Debug, Clone, PartialEq, Eq, Hash)]
pub struct BgpLsVpnNlri {
    pub path_id: Option<u32>,
    pub rd: RouteDistinguisher,
    pub nlri_type: u16,
    pub value: Vec<u8>,
}

} // verus!
