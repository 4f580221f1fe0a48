//! The five BGP-4 message kinds and the capabilities carried in an OPEN
//! message.

use vstd::prelude::*;

use crate::addr::Ipv4Addr;
use crate::iana::AddressType;
use crate::iana::BgpMessageType;
use crate::nlri::Ipv4Net;
use crate::path_attribute::PathAttribute;

verus! {

/// A capability advertised in an OPEN message. Unrecognized capabilities
/// keep their code and raw value.
#[derive(Debug, Clone, PartialEq, Eq, Hash)]
pub enum BgpCapability {
    /// Multiprotocol extensions for one address family.
    MultiProtocolExtensions(AddressType),
    /// Route refresh support.
    RouteRefresh,
    /// Four-octet AS number support, carrying the speaker's AS.
    FourOctetAs(u32),
    /// Any other capability, kept as raw octets.
    Unrecognized { code: u8, value: Vec<u8> },
}

impl BgpCapability {
    /// Whether this capability enables four-octet AS numbers.
    pub open spec fn spec_is_asn4(self) -> bool {
        self is FourOctetAs
    }

    pub fn is_asn4(&self) -> (r: bool)
        ensures
            r == self.spec_is_asn4(),
    {
        match self {
            BgpCapability::FourOctetAs(_) => true,
            _ => false,
        }
    }
}

/// The body of an OPEN message: version, AS number, hold time, BGP
/// identifier and the advertised capabilities.
#[derive(Debug, Clone, PartialEq, Eq, Hash)]
pub struct BgpOpenMessage {
    pub version: u8,
    pub my_as: u16,
    pub hold_time: u16,
    pub bgp_id: Ipv4Addr,
    pub capabilities: Vec<BgpCapability>,
}

impl BgpOpenMessage {
    /// Whether the peer advertised four-octet AS support.
    pub open spec fn spec_asn4_enabled(self) -> bool {
        exists|i: int| 0 <= i < self.capabilities@.len() && self.capabilities@[i] is FourOctetAs
    }

    pub fn new(
        version: u8,
        my_as: u16,
        hold_time: u16,
        bgp_id: Ipv4Addr,
        capabilities: Vec<BgpCapability>,
    ) -> (r: Self)
        ensures
            r.version == version,
            r.my_as == my_as,
            r.hold_time == hold_time,
            r.bgp_id == bgp_id,
            r.capabilities == capabilities,
    {
        Self { version, my_as, hold_time, bgp_id, capabilities }
    }

    /// Whether the message advertises four-octet AS support.
    pub fn asn4_enabled(&self) -> (r: bool)
        ensures
            r == self.spec_asn4_enabled(),
    {
        let n = self.capabilities.len();
        let mut i: usize = 0;
        while i < n
            invariant
                n == self.capabilities@.len(),
                i <= n,
                forall|k: int| 0 <= k < i ==> !(self.capabilities@[k] is FourOctetAs),
            decreases n - i,
        {
            if self.capabilities[i].is_asn4() {
                return true;
            }
            i = i + 1;
        }
        false
    }
}

/// The body of an UPDATE message: withdrawn routes, path attributes, and
/// the advertised IPv4 unicast reachability information.
#[derive(Debug, Clone, PartialEq, Eq, Hash)]
pub struct BgpUpdateMessage {
    pub withdrawn_routes: Vec<Ipv4Net>,
    pub path_attributes: Vec<PathAttribute>,
    pub nlri: Vec<Ipv4Net>,
}

/// The body of a NOTIFICATION message: error code, sub-code and data.
#[derive(Debug, Clone, PartialEq, Eq, Hash)]
pub struct BgpNotificationMessage {
    pub code: u8,
    pub sub_code: u8,
    pub value: Vec<u8>,
}

/// The body of a ROUTE-REFRESH message: the address family to refresh.
#[derive(Debug, Clone, Copy, PartialEq, Eq, Hash, Structural)]
pub struct BgpRouteRefreshMessage {
    pub address_type: AddressType,
}

/// One BGP-4 message, framed on the wire by the 16-octet marker, a 16-bit
/// total length and an 8-bit type code.
#[derive(Debug, Clone, PartialEq, Eq, Hash)]
pub enum BgpMessage {
    Open(BgpOpenMessage),
    Update(BgpUpdateMessage),
    Notification(BgpNotificationMessage),
    KeepAlive,
    RouteRefresh(BgpRouteRefreshMessage),
}

impl BgpMessage {
    /// The message type of the carried variant.
    pub open spec fn spec_get_type(self) -> BgpMessageType {
        match self {
            BgpMessage::Open(_) => BgpMessageType::Open,
            BgpMessage::Update(_) => BgpMessageType::Update,
            BgpMessage::Notification(_) => BgpMessageType::Notification,
            BgpMessage::KeepAlive => BgpMessageType::KeepAlive,
            BgpMessage::RouteRefresh(_) => BgpMessageType::RouteRefresh,
        }
    }

    pub fn get_type(&self) -> (r: BgpMessageType)
        ensures
            r == self.spec_get_type(),
    {
        match self {
            BgpMessage::Open(_) => BgpMessageType::Open,
            BgpMessage::Update(_) => BgpMessageType::Update,
            BgpMessage::Notification(_) => BgpMessageType::Notification,
            BgpMessage::KeepAlive => BgpMessageType::KeepAlive,
            BgpMessage::RouteRefresh(_) => BgpMessageType::RouteRefresh,
        }
    }
}

} // verus!
