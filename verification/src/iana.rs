//! IANA-assigned code points used by the codecs: BGP message and path
//! attribute types, BMP message types, and the address-family pairs of
//! multiprotocol BGP.
//!
//! Each enumeration carries a spec-level code mapping; the executable
//! conversions are verified exact against it, in both directions.

use vstd::prelude::*;

verus! {

/// BGP message type codes from the BGP-4 header.
#[derive(Debug, Clone, Copy, PartialEq, Eq, Hash, Structural)]
pub enum BgpMessageType {
    Open,
    Update,
    Notification,
    KeepAlive,
    RouteRefresh,
}

impl BgpMessageType {
    /// The registered code of the message type.
    pub open spec fn spec_code(self) -> u8 {
        match self {
            BgpMessageType::Open => 1,
            BgpMessageType::Update => 2,
            BgpMessageType::Notification => 3,
            BgpMessageType::KeepAlive => 4,
            BgpMessageType::RouteRefresh => 5,
        }
    }

    /// The message type registered under a code, if any.
    pub open spec fn spec_from_code(code: u8) -> Option<BgpMessageType> {
        match code {
            1u8 => Some(BgpMessageType::Open),
            2u8 => Some(BgpMessageType::Update),
            3u8 => Some(BgpMessageType::Notification),
            4u8 => Some(BgpMessageType::KeepAlive),
            5u8 => Some(BgpMessageType::RouteRefresh),
            _ => None,
        }
    }

    pub fn code(self) -> (r: u8)
        ensures
            r == self.spec_code(),
    {
        match self {
            BgpMessageType::Open => 1,
            BgpMessageType::Update => 2,
            BgpMessageType::Notification => 3,
            BgpMessageType::KeepAlive => 4,
            BgpMessageType::RouteRefresh => 5,
        }
    }

    pub fn try_from(code: u8) -> (r: Result<BgpMessageType, u8>)
        ensures
            match r {
                Ok(t) => Self::spec_from_code(code) == Some(t) && t.spec_code() == code,
                Err(e) => e == code && Self::spec_from_code(code) is None,
            },
    {
        match code {
            1 => Ok(BgpMessageType::Open),
            2 => Ok(BgpMessageType::Update),
            3 => Ok(BgpMessageType::Notification),
            4 => Ok(BgpMessageType::KeepAlive),
            5 => Ok(BgpMessageType::RouteRefresh),
            _ => Err(code),
        }
    }
}

/// BMP message type codes from the BMP common header.
#[derive(Debug, Clone, Copy, PartialEq, Eq, Hash, Structural)]
pub enum BmpMessageType {
    RouteMonitoring,
    StatisticsReport,
    PeerDownNotification,
    PeerUpNotification,
    Initiation,
    Termination,
    RouteMirroring,
    Experimental251,
    Experimental252,
    Experimental253,
    Experimental254,
}

impl BmpMessageType {
    /// The registered code of the message type.
    pub open spec fn spec_code(self) -> u8 {
        match self {
            BmpMessageType::RouteMonitoring => 0,
            BmpMessageType::StatisticsReport => 1,
            BmpMessageType::PeerDownNotification => 2,
            BmpMessageType::PeerUpNotification => 3,
            BmpMessageType::Initiation => 4,
            BmpMessageType::Termination => 5,
            BmpMessageType::RouteMirroring => 6,
            BmpMessageType::Experimental251 => 251,
            BmpMessageType::Experimental252 => 252,
            BmpMessageType::Experimental253 => 253,
            BmpMessageType::Experimental254 => 254,
        }
    }

    pub fn code(self) -> (r: u8)
        ensures
            r == self.spec_code(),
    {
        match self {
            BmpMessageType::RouteMonitoring => 0,
            BmpMessageType::StatisticsReport => 1,
            BmpMessageType::PeerDownNotification => 2,
            BmpMessageType::PeerUpNotification => 3,
            BmpMessageType::Initiation => 4,
            BmpMessageType::Termination => 5,
            BmpMessageType::RouteMirroring => 6,
            BmpMessageType::Experimental251 => 251,
            BmpMessageType::Experimental252 => 252,
            BmpMessageType::Experimental253 => 253,
            BmpMessageType::Experimental254 => 254,
        }
    }
}

/// Path attribute type codes from the IANA BGP path attributes registry.
#[derive(Debug, Clone, Copy, PartialEq, Eq, Hash, Structural)]
pub enum PathAttributeType {
    Origin,
    AsPath,
    NextHop,
    MultiExitDiscriminator,
    LocalPreference,
    AtomicAggregate,
    Aggregator,
    Communities,
    OriginatorId,
    ClusterList,
    MpReachNlri,
    MpUnreachNlri,
    ExtendedCommunities,
    As4Path,
    As4Aggregator,
    ExtendedCommunitiesIpv6,
    AccumulatedIgp,
    BgpLsAttribute,
    LargeCommunities,
    OnlyToCustomer,
    BgpPrefixSid,
}

impl PathAttributeType {
    /// The registered code of the attribute type.
    pub open spec fn spec_code(self) -> u8 {
        match self {
            PathAttributeType::Origin => 1,
            PathAttributeType::AsPath => 2,
            PathAttributeType::NextHop => 3,
            PathAttributeType::MultiExitDiscriminator => 4,
            PathAttributeType::LocalPreference => 5,
            PathAttributeType::AtomicAggregate => 6,
            PathAttributeType::Aggregator => 7,
            PathAttributeType::Communities => 8,
            PathAttributeType::OriginatorId => 9,
            PathAttributeType::ClusterList => 10,
            PathAttributeType::MpReachNlri => 14,
            PathAttributeType::MpUnreachNlri => 15,
            PathAttributeType::ExtendedCommunities => 16,
            PathAttributeType::As4Path => 17,
            PathAttributeType::As4Aggregator => 18,
            PathAttributeType::ExtendedCommunitiesIpv6 => 25,
            PathAttributeType::AccumulatedIgp => 26,
            PathAttributeType::BgpLsAttribute => 29,
            PathAttributeType::LargeCommunities => 32,
            PathAttributeType::OnlyToCustomer => 35,
            PathAttributeType::BgpPrefixSid => 40,
        }
    }

    /// The attribute type registered under a code, if any.
    pub open spec fn spec_from_code(code: u8) -> Option<PathAttributeType> {
        match code {
            1u8 => Some(PathAttributeType::Origin),
            2u8 => Some(PathAttributeType::AsPath),
            3u8 => Some(PathAttributeType::NextHop),
            4u8 => Some(PathAttributeType::MultiExitDiscriminator),
            5u8 => Some(PathAttributeType::LocalPreference),
            6u8 => Some(PathAttributeType::AtomicAggregate),
            7u8 => Some(PathAttributeType::Aggregator),
            8u8 => Some(PathAttributeType::Communities),
            9u8 => Some(PathAttributeType::OriginatorId),
            10u8 => Some(PathAttributeType::ClusterList),
            14u8 => Some(PathAttributeType::MpReachNlri),
            15u8 => Some(PathAttributeType::MpUnreachNlri),
            16u8 => Some(PathAttributeType::ExtendedCommunities),
            17u8 => Some(PathAttributeType::As4Path),
            18u8 => Some(PathAttributeType::As4Aggregator),
            25u8 => Some(PathAttributeType::ExtendedCommunitiesIpv6),
            26u8 => Some(PathAttributeType::AccumulatedIgp),
            29u8 => Some(PathAttributeType::BgpLsAttribute),
            32u8 => Some(PathAttributeType::LargeCommunities),
            35u8 => Some(PathAttributeType::OnlyToCustomer),
            40u8 => Some(PathAttributeType::BgpPrefixSid),
            _ => None,
        }
    }

    pub fn code(self) -> (r: u8)
        ensures
            r == self.spec_code(),
    {
        match self {
            PathAttributeType::Origin => 1,
            PathAttributeType::AsPath => 2,
            PathAttributeType::NextHop => 3,
            PathAttributeType::MultiExitDiscriminator => 4,
            PathAttributeType::LocalPreference => 5,
            PathAttributeType::AtomicAggregate => 6,
            PathAttributeType::Aggregator => 7,
            PathAttributeType::Communities => 8,
            PathAttributeType::OriginatorId => 9,
            PathAttributeType::ClusterList => 10,
            PathAttributeType::MpReachNlri => 14,
            PathAttributeType::MpUnreachNlri => 15,
            PathAttributeType::ExtendedCommunities => 16,
            PathAttributeType::As4Path => 17,
            PathAttributeType::As4Aggregator => 18,
            PathAttributeType::ExtendedCommunitiesIpv6 => 25,
            PathAttributeType::AccumulatedIgp => 26,
            PathAttributeType::BgpLsAttribute => 29,
            PathAttributeType::LargeCommunities => 32,
            PathAttributeType::OnlyToCustomer => 35,
            PathAttributeType::BgpPrefixSid => 40,
        }
    }

    pub fn try_from(code: u8) -> (r: Result<PathAttributeType, u8>)
        ensures
            match r {
                Ok(t) => Self::spec_from_code(code) == Some(t) && t.spec_code() == code,
                Err(e) => e == code && Self::spec_from_code(code) is None,
            },
    {
        match code {
            1 => Ok(PathAttributeType::Origin),
            2 => Ok(PathAttributeType::AsPath),
            3 => Ok(PathAttributeType::NextHop),
            4 => Ok(PathAttributeType::MultiExitDiscriminator),
            5 => Ok(PathAttributeType::LocalPreference),
            6 => Ok(PathAttributeType::AtomicAggregate),
            7 => Ok(PathAttributeType::Aggregator),
            8 => Ok(PathAttributeType::Communities),
            9 => Ok(PathAttributeType::OriginatorId),
            10 => Ok(PathAttributeType::ClusterList),
            14 => Ok(PathAttributeType::MpReachNlri),
            15 => Ok(PathAttributeType::MpUnreachNlri),
            16 => Ok(PathAttributeType::ExtendedCommunities),
            17 => Ok(PathAttributeType::As4Path),
            18 => Ok(PathAttributeType::As4Aggregator),
            25 => Ok(PathAttributeType::ExtendedCommunitiesIpv6),
            26 => Ok(PathAttributeType::AccumulatedIgp),
            29 => Ok(PathAttributeType::BgpLsAttribute),
            32 => Ok(PathAttributeType::LargeCommunities),
            35 => Ok(PathAttributeType::OnlyToCustomer),
            40 => Ok(PathAttributeType::BgpPrefixSid),
            _ => Err(code),
        }
    }
}

/// Address Family Identifier values used by multiprotocol BGP.
#[derive(Debug, Clone, Copy, PartialEq, Eq, Hash, Structural)]
pub enum AddressFamily {
    IPv4,
    IPv6,
    AppleTalk,
    L2vpn,
    BgpLs,
    Unknown(u16),
}

impl AddressFamily {
    /// The registered 16-bit AFI value.
    pub open spec fn spec_code(self) -> u16 {
        match self {
            AddressFamily::IPv4 => 1,
            AddressFamily::IPv6 => 2,
            AddressFamily::AppleTalk => 12,
            AddressFamily::L2vpn => 25,
            AddressFamily::BgpLs => 16388,
            AddressFamily::Unknown(v) => v,
        }
    }

    /// The family denoted by a 16-bit AFI value.
    pub open spec fn spec_from_code(code: u16) -> AddressFamily {
        match code {
            1u16 => AddressFamily::IPv4,
            2u16 => AddressFamily::IPv6,
            12u16 => AddressFamily::AppleTalk,
            25u16 => AddressFamily::L2vpn,
            16388u16 => AddressFamily::BgpLs,
            _ => AddressFamily::Unknown(code),
        }
    }

    pub fn code(self) -> (r: u16)
        ensures
            r == self.spec_code(),
    {
        match self {
            AddressFamily::IPv4 => 1,
            AddressFamily::IPv6 => 2,
            AddressFamily::AppleTalk => 12,
            AddressFamily::L2vpn => 25,
            AddressFamily::BgpLs => 16388,
            AddressFamily::Unknown(v) => v,
        }
    }

    pub fn from_code(code: u16) -> (r: AddressFamily)
        ensures
            r == Self::spec_from_code(code),
    {
        match code {
            1 => AddressFamily::IPv4,
            2 => AddressFamily::IPv6,
            12 => AddressFamily::AppleTalk,
            25 => AddressFamily::L2vpn,
            16388 => AddressFamily::BgpLs,
            _ => AddressFamily::Unknown(code),
        }
    }
}

/// Subsequent Address Family Identifier values used by multiprotocol BGP.
#[derive(Debug, Clone, Copy, PartialEq, Eq, Hash, Structural)]
pub enum SubsequentAddressFamily {
    Unicast,
    Multicast,
    NlriMplsLabels,
    BgpEvpn,
    BgpLs,
    BgpLsVpn,
    MplsVpn,
    RouteTargetConstrains,
    Unknown(u8),
}

impl SubsequentAddressFamily {
    /// The registered 8-bit SAFI value.
    pub open spec fn spec_code(self) -> u8 {
        match self {
            SubsequentAddressFamily::Unicast => 1,
            SubsequentAddressFamily::Multicast => 2,
            SubsequentAddressFamily::NlriMplsLabels => 4,
            SubsequentAddressFamily::BgpEvpn => 70,
            SubsequentAddressFamily::BgpLs => 71,
            SubsequentAddressFamily::BgpLsVpn => 72,
            SubsequentAddressFamily::MplsVpn => 128,
            SubsequentAddressFamily::RouteTargetConstrains => 132,
            SubsequentAddressFamily::Unknown(v) => v,
        }
    }

    /// The subsequent family denoted by an 8-bit SAFI value.
    pub open spec fn spec_from_code(code: u8) -> SubsequentAddressFamily {
        match code {
            1u8 => SubsequentAddressFamily::Unicast,
            2u8 => SubsequentAddressFamily::Multicast,
            4u8 => SubsequentAddressFamily::NlriMplsLabels,
            70u8 => SubsequentAddressFamily::BgpEvpn,
            71u8 => SubsequentAddressFamily::BgpLs,
            72u8 => SubsequentAddressFamily::BgpLsVpn,
            128u8 => SubsequentAddressFamily::MplsVpn,
            132u8 => SubsequentAddressFamily::RouteTargetConstrains,
            _ => SubsequentAddressFamily::Unknown(code),
        }
    }

    pub fn code(self) -> (r: u8)
        ensures
            r == self.spec_code(),
    {
        match self {
            SubsequentAddressFamily::Unicast => 1,
            SubsequentAddressFamily::Multicast => 2,
            SubsequentAddressFamily::NlriMplsLabels => 4,
            SubsequentAddressFamily::BgpEvpn => 70,
            SubsequentAddressFamily::BgpLs => 71,
            SubsequentAddressFamily::BgpLsVpn => 72,
            SubsequentAddressFamily::MplsVpn => 128,
            SubsequentAddressFamily::RouteTargetConstrains => 132,
            SubsequentAddressFamily::Unknown(v) => v,
        }
    }

    pub fn from_code(code: u8) -> (r: SubsequentAddressFamily)
        ensures
            r == Self::spec_from_code(code),
    {
        match code {
            1 => SubsequentAddressFamily::Unicast,
            2 => SubsequentAddressFamily::Multicast,
            4 => SubsequentAddressFamily::NlriMplsLabels,
            70 => SubsequentAddressFamily::BgpEvpn,
            71 => SubsequentAddressFamily::BgpLs,
            72 => SubsequentAddressFamily::BgpLsVpn,
            128 => SubsequentAddressFamily::MplsVpn,
            132 => SubsequentAddressFamily::RouteTargetConstrains,
            _ => SubsequentAddressFamily::Unknown(code),
        }
    }
}

/// A registered (AFI, SAFI) pair with a defined route family.
#[derive(Debug, Clone, Copy, PartialEq, Eq, Hash, Structural)]
pub enum AddressType {
    Ipv4Unicast,
    Ipv4Multicast,
    Ipv4NlriMplsLabels,
    Ipv4MplsLabeledVpn,
    RouteTargetConstrains,
    Ipv6Unicast,
    Ipv6Multicast,
    Ipv6NlriMplsLabels,
    Ipv6MplsLabeledVpn,
    L2VpnBgpEvpn,
    BgpLs,
    BgpLsVpn,
}

impl AddressType {
    /// The AFI of the pair.
    pub open spec fn spec_address_family(self) -> AddressFamily {
        match self {
            AddressType::Ipv4Unicast => AddressFamily::IPv4,
            AddressType::Ipv4Multicast => AddressFamily::IPv4,
            AddressType::Ipv4NlriMplsLabels => AddressFamily::IPv4,
            AddressType::Ipv4MplsLabeledVpn => AddressFamily::IPv4,
            AddressType::RouteTargetConstrains => AddressFamily::IPv4,
            AddressType::Ipv6Unicast => AddressFamily::IPv6,
            AddressType::Ipv6Multicast => AddressFamily::IPv6,
            AddressType::Ipv6NlriMplsLabels => AddressFamily::IPv6,
            AddressType::Ipv6MplsLabeledVpn => AddressFamily::IPv6,
            AddressType::L2VpnBgpEvpn => AddressFamily::L2vpn,
            AddressType::BgpLs => AddressFamily::BgpLs,
            AddressType::BgpLsVpn => AddressFamily::BgpLs,
        }
    }

    /// The SAFI of the pair.
    pub open spec fn spec_subsequent_address_family(self) -> SubsequentAddressFamily {
        match self {
            AddressType::Ipv4Unicast => SubsequentAddressFamily::Unicast,
            AddressType::Ipv4Multicast => SubsequentAddressFamily::Multicast,
            AddressType::Ipv4NlriMplsLabels => SubsequentAddressFamily::NlriMplsLabels,
            AddressType::Ipv4MplsLabeledVpn => SubsequentAddressFamily::MplsVpn,
            AddressType::RouteTargetConstrains => SubsequentAddressFamily::RouteTargetConstrains,
            AddressType::Ipv6Unicast => SubsequentAddressFamily::Unicast,
            AddressType::Ipv6Multicast => SubsequentAddressFamily::Multicast,
            AddressType::Ipv6NlriMplsLabels => SubsequentAddressFamily::NlriMplsLabels,
            AddressType::Ipv6MplsLabeledVpn => SubsequentAddressFamily::MplsVpn,
            AddressType::L2VpnBgpEvpn => SubsequentAddressFamily::BgpEvpn,
            AddressType::BgpLs => SubsequentAddressFamily::BgpLs,
            AddressType::BgpLsVpn => SubsequentAddressFamily::BgpLsVpn,
        }
    }

    /// The registered pair with the given AFI and SAFI, if any.
    pub open spec fn spec_from_afi_safi(
        afi: AddressFamily,
        safi: SubsequentAddressFamily,
    ) -> Option<AddressType> {
        match (afi, safi) {
            (AddressFamily::IPv4, SubsequentAddressFamily::Unicast) => Some(
                AddressType::Ipv4Unicast,
            ),
            (AddressFamily::IPv4, SubsequentAddressFamily::Multicast) => Some(
                AddressType::Ipv4Multicast,
            ),
            (AddressFamily::IPv4, SubsequentAddressFamily::NlriMplsLabels) => Some(
                AddressType::Ipv4NlriMplsLabels,
            ),
            (AddressFamily::IPv4, SubsequentAddressFamily::MplsVpn) => Some(
                AddressType::Ipv4MplsLabeledVpn,
            ),
            (AddressFamily::IPv4, SubsequentAddressFamily::RouteTargetConstrains) => Some(
                AddressType::RouteTargetConstrains,
            ),
            (AddressFamily::IPv6, SubsequentAddressFamily::Unicast) => Some(
                AddressType::Ipv6Unicast,
            ),
            (AddressFamily::IPv6, SubsequentAddressFamily::Multicast) => Some(
                AddressType::Ipv6Multicast,
            ),
            (AddressFamily::IPv6, SubsequentAddressFamily::NlriMplsLabels) => Some(
                AddressType::Ipv6NlriMplsLabels,
            ),
            (AddressFamily::IPv6, SubsequentAddressFamily::MplsVpn) => Some(
                AddressType::Ipv6MplsLabeledVpn,
            ),
            (AddressFamily::L2vpn, SubsequentAddressFamily::BgpEvpn) => Some(
                AddressType::L2VpnBgpEvpn,
            ),
            (AddressFamily::BgpLs, SubsequentAddressFamily::BgpLs) => Some(AddressType::BgpLs),
            (AddressFamily::BgpLs, SubsequentAddressFamily::BgpLsVpn) => Some(
                AddressType::BgpLsVpn,
            ),
            _ => None,
        }
    }

    pub fn address_family(self) -> (r: AddressFamily)
        ensures
            r == self.spec_address_family(),
    {
        match self {
            AddressType::Ipv4Unicast => AddressFamily::IPv4,
            AddressType::Ipv4Multicast => AddressFamily::IPv4,
            AddressType::Ipv4NlriMplsLabels => AddressFamily::IPv4,
            AddressType::Ipv4MplsLabeledVpn => AddressFamily::IPv4,
            AddressType::RouteTargetConstrains => AddressFamily::IPv4,
            AddressType::Ipv6Unicast => AddressFamily::IPv6,
            AddressType::Ipv6Multicast => AddressFamily::IPv6,
            AddressType::Ipv6NlriMplsLabels => AddressFamily::IPv6,
            AddressType::Ipv6MplsLabeledVpn => AddressFamily::IPv6,
            AddressType::L2VpnBgpEvpn => AddressFamily::L2vpn,
            AddressType::BgpLs => AddressFamily::BgpLs,
            AddressType::BgpLsVpn => AddressFamily::BgpLs,
        }
    }

    pub fn subsequent_address_family(self) -> (r: SubsequentAddressFamily)
        ensures
            r == self.spec_subsequent_address_family(),
    {
        match self {
            AddressType::Ipv4Unicast => SubsequentAddressFamily::Unicast,
            AddressType::Ipv4Multicast => SubsequentAddressFamily::Multicast,
            AddressType::Ipv4NlriMplsLabels => SubsequentAddressFamily::NlriMplsLabels,
            AddressType::Ipv4MplsLabeledVpn => SubsequentAddressFamily::MplsVpn,
            AddressType::RouteTargetConstrains => SubsequentAddressFamily::RouteTargetConstrains,
            AddressType::Ipv6Unicast => SubsequentAddressFamily::Unicast,
            AddressType::Ipv6Multicast => SubsequentAddressFamily::Multicast,
            AddressType::Ipv6NlriMplsLabels => SubsequentAddressFamily::NlriMplsLabels,
            AddressType::Ipv6MplsLabeledVpn => SubsequentAddressFamily::MplsVpn,
            AddressType::L2VpnBgpEvpn => SubsequentAddressFamily::BgpEvpn,
            AddressType::BgpLs => SubsequentAddressFamily::BgpLs,
            AddressType::BgpLsVpn => SubsequentAddressFamily::BgpLsVpn,
        }
    }

    pub fn from_afi_safi(afi: AddressFamily, safi: SubsequentAddressFamily) -> (r: Option<
        AddressType,
    >)
        ensures
            r == Self::spec_from_afi_safi(afi, safi),
    {
        match (afi, safi) {
            (AddressFamily::IPv4, SubsequentAddressFamily::Unicast) => Some(
                AddressType::Ipv4Unicast,
            ),
            (AddressFamily::IPv4, SubsequentAddressFamily::Multicast) => Some(
                AddressType::Ipv4Multicast,
            ),
            (AddressFamily::IPv4, SubsequentAddressFamily::NlriMplsLabels) => Some(
                AddressType::Ipv4NlriMplsLabels,
            ),
            (AddressFamily::IPv4, SubsequentAddressFamily::MplsVpn) => Some(
                AddressType::Ipv4MplsLabeledVpn,
            ),
            (AddressFamily::IPv4, SubsequentAddressFamily::RouteTargetConstrains) => Some(
                AddressType::RouteTargetConstrains,
            ),
            (AddressFamily::IPv6, SubsequentAddressFamily::Unicast) => Some(
                AddressType::Ipv6Unicast,
            ),
            (AddressFamily::IPv6, SubsequentAddressFamily::Multicast) => Some(
                AddressType::Ipv6Multicast,
            ),
            (AddressFamily::IPv6, SubsequentAddressFamily::NlriMplsLabels) => Some(
                AddressType::Ipv6NlriMplsLabels,
            ),
            (AddressFamily::IPv6, SubsequentAddressFamily::MplsVpn) => Some(
                AddressType::Ipv6MplsLabeledVpn,
            ),
            (AddressFamily::L2vpn, SubsequentAddressFamily::BgpEvpn) => Some(
                AddressType::L2VpnBgpEvpn,
            ),
            (AddressFamily::BgpLs, SubsequentAddressFamily::BgpLs) => Some(AddressType::BgpLs),
            (AddressFamily::BgpLs, SubsequentAddressFamily::BgpLsVpn) => Some(
                AddressType::BgpLsVpn,
            ),
            _ => None,
        }
    }
}

} // verus!
